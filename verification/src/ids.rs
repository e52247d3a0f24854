//! Identifiers. A UUID is carried as its 128-bit value (big-endian, as
//! `Uuid::as_u128` gives it); this module renders and parses its text form and
//! draws fresh ones.
use vstd::prelude::*;

verus! {

/// Lowercase hexadecimal digit for `d < 16`.
pub open spec fn hex_char(d: int) -> char {
    if d < 10 {
        crate::text::digit_char(d)
    } else if d == 10 {
        'a'
    } else if d == 11 {
        'b'
    } else if d == 12 {
        'c'
    } else if d == 13 {
        'd'
    } else if d == 14 {
        'e'
    } else {
        'f'
    }
}

/// The `i`-th hexadecimal digit (most significant first) of a 128-bit value.
pub open spec fn nibble(u: u128, i: int) -> int {
    ((u >> ((124 - 4 * i) as u128)) & 0xf) as int
}

/// The 32 lowercase hexadecimal digits of `u`.
pub open spec fn hex32(u: u128) -> Seq<char> {
    Seq::new(32, |i: int| hex_char(nibble(u, i)))
}

/// Hyphenated lowercase text of a UUID (`8-4-4-4-12` digits), the form its
/// `Display` writes.
pub open spec fn uuid_text(u: u128) -> Seq<char> {
    let h = hex32(u);
    h.subrange(0, 8) + seq!['-'] + h.subrange(8, 12) + seq!['-'] + h.subrange(12, 16) + seq!['-']
        + h.subrange(16, 20) + seq!['-'] + h.subrange(20, 32)
}

/// A parse outcome that, for the hyphenated text of a value, is that value.
pub open spec fn hyphenated_parses_back(s: Seq<char>, r: Result<u128, String>) -> bool {
    forall|u: u128| s == uuid_text(u) ==> (r matches Ok(v) && v == u)
}

/// What `Uuid::parse_str` yields for a text: the value it parses, or `None`
/// where it reports an error.
pub uninterp spec fn uuid_parse(s: Seq<char>) -> Option<u128>;

pub fn hex_digit(d: u8) -> (c: char)
    requires
        d < 16,
    ensures
        c == hex_char(d as int),
{
    if d < 10 {
        crate::text::digit_to_char(d as u64)
    } else if d == 10 {
        'a'
    } else if d == 11 {
        'b'
    } else if d == 12 {
        'c'
    } else if d == 13 {
        'd'
    } else if d == 14 {
        'e'
    } else {
        'f'
    }
}

/// Hyphenated lowercase text of a UUID (`Uuid::to_string`).
pub fn uuid_to_string(u: u128) -> (r: String)
    ensures
        r@ == uuid_text(u),
{
    let mut digits: Vec<char> = Vec::new();
    let mut i: u32 = 0;
    while i < 32
        invariant
            i <= 32,
            digits@ == hex32(u).take(i as int),
        decreases 32 - i,
    {
        let shift: u32 = 124 - 4 * i;
        let d: u128 = (u >> shift) & 0xf;
        assert(d < 16) by (bit_vector)
            requires
                d == (u >> shift) & 0xf,
        ;
        assert(d == nibble(u, i as int));
        let c = hex_digit(d as u8);
        digits.push(c);
        assert(digits@ =~= hex32(u).take(i + 1));
        i = i + 1;
    }
    assert(digits@ =~= hex32(u));
    let mut out: Vec<char> = Vec::new();
    let mut k: usize = 0;
    while k < 32
        invariant
            digits@ == hex32(u),
            k <= 32,
            out@ == uuid_text(u).take((k + (if k > 20 {
                4int
            } else if k > 16 {
                3int
            } else if k > 12 {
                2int
            } else if k > 8 {
                1int
            } else {
                0int
            })) as int),
        decreases 32 - k,
    {
        if k == 8 || k == 12 || k == 16 || k == 20 {
            out.push('-');
        }
        out.push(digits[k]);
        assert(out@ =~= uuid_text(u).take((k + 1 + (if k + 1 > 20 {
            4int
        } else if k + 1 > 16 {
            3int
        } else if k + 1 > 12 {
            2int
        } else if k + 1 > 8 {
            1int
        } else {
            0int
        })) as int));
        k = k + 1;
    }
    assert(out@ =~= uuid_text(u));
    crate::text::string_from_chars(out.as_slice())
}

/// Calls `Uuid::parse_str` (uuid crate) and returns the value as `u128`, or the
/// error's text. The contract names the outcome `uuid_parse` and states the one
/// fact the crate's parser shows plainly: the hyphenated lowercase text of a value
/// parses back to that value. The error text is not described.
#[verifier::external_body]
pub(crate) fn parse_uuid(s: &str) -> (r: Result<u128, String>)
    ensures
        r is Ok <==> uuid_parse(s@) is Some,
        r matches Ok(v) ==> uuid_parse(s@) == Some(v),
        hyphenated_parses_back(s@, r),
{
    match uuid::Uuid::parse_str(s) {
        Ok(u) => Ok(u.as_u128()),
        Err(e) => Err(e.to_string()),
    }
}

/// Calls `Uuid::now_v7` (uuid crate): a time-ordered identifier drawn from the
/// clock and a random source. Nothing is claimed of the value.
#[verifier::external_body]
pub(crate) fn new_uuid_v7() -> (r: u128) {
    uuid::Uuid::now_v7().as_u128()
}

/// Calls `Uuid::new_v4` (uuid crate): a random identifier. Nothing is claimed of
/// the value.
#[verifier::external_body]
pub(crate) fn new_uuid_v4() -> (r: u128) {
    uuid::Uuid::new_v4().as_u128()
}

} // verus!
