//! Password storage: a random salt and an iterated, salted SHA-256 digest, kept
//! as `sha256i$<rounds>$<salt hex>$<digest hex>`.
use vstd::prelude::*;
use vstd::utf8::encode_utf8;
use crate::config::{
    all_views, digits_only, digits_value, is_ascii_digit, parse_u32, parsed_in, split_chars,
    split_on, unsigned_text_value,
};
use crate::crypto::{ct_eq, hex_encode, hex_lower, random_bytes, sha256, sha256_digest};
use crate::ids::hex_char;
use crate::text::{chars_of, decimal, decimal_string, digit_char, str_eq, string_from_chars};

verus! {

/// How many times a new password is hashed.
pub const PASSWORD_ROUNDS: u32 = 100000;

/// The digest of `password` under `salt` after `rounds` rounds: the SHA-256 of
/// salt and password, then, for each further round, the SHA-256 of salt and the
/// previous digest. No rounds count as one.
pub open spec fn iterated_digest(salt: Seq<u8>, password: Seq<u8>, rounds: nat) -> Seq<u8>
    decreases rounds,
{
    if rounds <= 1 {
        sha256_digest(salt + password)
    } else {
        sha256_digest(salt + iterated_digest(salt, password, (rounds - 1) as nat))
    }
}

fn joined(a: &[u8], b: &[u8]) -> (r: Vec<u8>)
    ensures
        r@ == a@ + b@,
{
    let mut v: Vec<u8> = Vec::new();
    let mut i: usize = 0;
    while i < a.len()
        invariant
            i <= a@.len(),
            v@ == a@.take(i as int),
        decreases a@.len() - i,
    {
        v.push(a[i]);
        i = i + 1;
        assert(v@ =~= a@.take(i as int));
    }
    let mut j: usize = 0;
    while j < b.len()
        invariant
            i == a@.len(),
            j <= b@.len(),
            v@ == a@ + b@.take(j as int),
        decreases b@.len() - j,
    {
        v.push(b[j]);
        j = j + 1;
        assert(v@ =~= a@ + b@.take(j as int));
    }
    assert(a@.take(a@.len() as int) =~= a@);
    assert(b@.take(b@.len() as int) =~= b@);
    v
}

/// The iterated digest of `password` under `salt`.
pub fn password_digest(salt: &[u8], password: &[u8], rounds: u32) -> (r: Vec<u8>)
    ensures
        r@ == iterated_digest(salt@, password@, rounds as nat),
{
    let first = joined(salt, password);
    let mut d = sha256(first.as_slice());
    let mut k: u32 = 1;
    while k < rounds
        invariant
            1 <= k,
            rounds >= 1 ==> k <= rounds,
            rounds < 1 ==> k == 1,
            d@ == iterated_digest(salt@, password@, k as nat),
        decreases rounds - k,
    {
        let input = joined(salt, d.as_slice());
        d = sha256(input.as_slice());
        k = k + 1;
    }
    d
}

pub open spec fn is_hex_digit(c: char) -> bool {
    ('0' <= c && c <= '9') || ('a' <= c && c <= 'f') || ('A' <= c && c <= 'F')
}

pub open spec fn hex_digit_value(c: char) -> int {
    if '0' <= c && c <= '9' {
        c as int - '0' as int
    } else if 'a' <= c && c <= 'f' {
        c as int - 'a' as int + 10
    } else {
        c as int - 'A' as int + 10
    }
}

/// A text of hex digit pairs, in either case.
pub open spec fn is_hex_text(s: Seq<char>) -> bool {
    s.len() % 2 == 0 && forall|i: int| 0 <= i < s.len() ==> is_hex_digit(#[trigger] s[i])
}

/// The bytes a text of hex digit pairs spells, high digit first.
pub open spec fn hex_decoded(s: Seq<char>) -> Seq<u8> {
    Seq::new(
        s.len() / 2,
        |k: int| (16 * hex_digit_value(s[2 * k]) + hex_digit_value(s[2 * k + 1])) as u8,
    )
}

fn hex_digit(c: char) -> (r: Option<u8>)
    ensures
        r is Some <==> is_hex_digit(c),
        r matches Some(v) ==> v == hex_digit_value(c),
{
    let n = c as u32;
    if '0' <= c && c <= '9' {
        Some((n - 48) as u8)
    } else if 'a' <= c && c <= 'f' {
        Some((n - 87) as u8)
    } else if 'A' <= c && c <= 'F' {
        Some((n - 55) as u8)
    } else {
        None
    }
}

/// Reads a text of hex digit pairs (`hex::decode`'s rule) into bytes.
pub fn hex_decode(s: &[char]) -> (r: Option<Vec<u8>>)
    ensures
        r is Some <==> is_hex_text(s@),
        r matches Some(b) ==> b@ == hex_decoded(s@),
{
    if s.len() % 2 != 0 {
        return None;
    }
    let mut out: Vec<u8> = Vec::new();
    let mut i: usize = 0;
    while i < s.len()
        invariant
            s@.len() % 2 == 0,
            i <= s@.len(),
            i == 2 * out@.len(),
            forall|j: int| 0 <= j < i ==> is_hex_digit(#[trigger] s@[j]),
            forall|k: int| 0 <= k < out@.len() ==> #[trigger] out@[k] == hex_decoded(s@)[k],
        decreases s@.len() - i,
    {
        let hi = hex_digit(s[i]);
        let lo = hex_digit(s[i + 1]);
        match (hi, lo) {
            (Some(h), Some(l)) => {
                out.push(h * 16 + l);
            },
            _ => {
                return None;
            },
        }
        i = i + 2;
    }
    assert(out@ =~= hex_decoded(s@));
    Some(out)
}

/// The rounds, salt and digest text a stored hash names, when it has the
/// stored form: four `$`-separated fields, the first `sha256i`, then a round
/// count from 1 to `u32::MAX`, then the salt in hex.
pub open spec fn stored_fields(stored: Seq<char>) -> Option<(nat, Seq<u8>, Seq<char>)> {
    let parts = split_on(stored, '$');
    if parts.len() == 4 && parts[0] == "sha256i"@ && is_hex_text(parts[2]) {
        match parsed_in(unsigned_text_value(parts[1]), 1, u32::MAX as int) {
            Some(n) => Some((n as nat, hex_decoded(parts[2]), parts[3])),
            None => None,
        }
    } else {
        None
    }
}

/// Whether `password` (as bytes) is the one a stored hash was made from: the
/// stored digest text equals the hex of the iterated digest.
pub open spec fn password_matches(password: Seq<u8>, stored: Seq<char>) -> bool {
    match stored_fields(stored) {
        Some((rounds, salt, digest)) => encode_utf8(hex_lower(iterated_digest(salt, password, rounds)))
            == encode_utf8(digest),
        None => false,
    }
}

/// The stored form of a hash.
pub open spec fn stored_text(rounds: nat, salt: Seq<u8>, digest: Seq<u8>) -> Seq<char> {
    "sha256i$"@ + decimal(rounds) + "$"@ + hex_lower(salt) + "$"@ + hex_lower(digest)
}

/// Checks a password against a stored hash; a stored text not in the stored
/// form matches nothing. The digests are compared in constant time.
pub fn verify_password(password: &str, stored: &str) -> (r: bool)
    ensures
        r == password_matches(encode_utf8(password@), stored@),
{
    let cs = chars_of(stored);
    let parts = split_chars(cs.as_slice(), '$');
    let ghost ps = all_views(parts@);
    proof {
        reveal_strlit("sha256i");
    }
    if parts.len() != 4 {
        return false;
    }
    assert(ps[0] == parts@[0]@ && ps[1] == parts@[1]@ && ps[2] == parts@[2]@ && ps[3] == parts@[3]@);
    let kind = string_from_chars(parts[0].as_slice());
    if !str_eq(kind.as_str(), "sha256i") {
        return false;
    }
    let rounds_text = string_from_chars(parts[1].as_slice());
    let rounds = match parse_u32(rounds_text.as_str()) {
        Some(n) => n,
        None => {
            return false;
        },
    };
    if rounds == 0 {
        return false;
    }
    let salt = match hex_decode(parts[2].as_slice()) {
        Some(b) => b,
        None => {
            return false;
        },
    };
    let d = password_digest(salt.as_slice(), password.as_bytes(), rounds);
    let shown = hex_encode(d.as_slice());
    let expected = string_from_chars(parts[3].as_slice());
    ct_eq(shown.as_str().as_bytes(), expected.as_str().as_bytes())
}

/// Hashes a new password: a fresh random 16-byte salt and `PASSWORD_ROUNDS`
/// rounds, in the stored form. The salt is random; whatever it is, the hash
/// verifies the password it was made from.
pub fn hash_password(password: &str) -> (r: String)
    ensures
        exists|salt: Seq<u8>|
            salt.len() == 16 && r@ == stored_text(
                PASSWORD_ROUNDS as nat,
                salt,
                iterated_digest(salt, encode_utf8(password@), PASSWORD_ROUNDS as nat),
            ),
        password_matches(encode_utf8(password@), r@),
{
    let salt = random_bytes(16);
    let d = password_digest(salt.as_slice(), password.as_bytes(), PASSWORD_ROUNDS);
    let mut s = String::from_str("sha256i$");
    let rounds = decimal_string(PASSWORD_ROUNDS as u64);
    s.append(rounds.as_str());
    s.append("$");
    let salt_hex = hex_encode(salt.as_slice());
    s.append(salt_hex.as_str());
    s.append("$");
    let digest_hex = hex_encode(d.as_slice());
    s.append(digest_hex.as_str());
    proof {
        law_stored_hash_verifies(encode_utf8(password@), salt@, PASSWORD_ROUNDS as nat);
    }
    s
}

pub open spec fn free_of(s: Seq<char>, sep: char) -> bool {
    forall|i: int| 0 <= i < s.len() ==> #[trigger] s[i] != sep
}

proof fn lemma_split_single(y: Seq<char>, sep: char)
    requires
        free_of(y, sep),
    ensures
        split_on(y, sep) == seq![y],
    decreases y.len(),
{
    if y.len() > 0 {
        assert(free_of(y.drop_last(), sep)) by {
            assert forall|i: int| 0 <= i < y.len() - 1 implies #[trigger] y.drop_last()[i] != sep by {
                assert(y.drop_last()[i] == y[i]);
            }
        }
        lemma_split_single(y.drop_last(), sep);
        assert(y.last() != sep);
        assert(y.drop_last().push(y.last()) =~= y);
        assert(seq![y.drop_last()].update(0, y.drop_last().push(y.last())) =~= seq![y]);
    } else {
        assert(y =~= Seq::<char>::empty());
    }
}

proof fn lemma_split_after(x: Seq<char>, y: Seq<char>, sep: char)
    requires
        free_of(y, sep),
    ensures
        split_on(x + seq![sep] + y, sep) == split_on(x, sep).push(y),
    decreases y.len(),
{
    let z = x + seq![sep] + y;
    if y.len() == 0 {
        assert(z.drop_last() =~= x);
        assert(y =~= Seq::<char>::empty());
    } else {
        assert(free_of(y.drop_last(), sep)) by {
            assert forall|i: int| 0 <= i < y.len() - 1 implies #[trigger] y.drop_last()[i] != sep by {
                assert(y.drop_last()[i] == y[i]);
            }
        }
        lemma_split_after(x, y.drop_last(), sep);
        assert(z.drop_last() =~= x + seq![sep] + y.drop_last());
        assert(z.last() == y.last() && y.last() != sep);
        assert(y.drop_last().push(y.last()) =~= y);
        let prev = split_on(x, sep).push(y.drop_last());
        assert(prev.update(prev.len() - 1, prev.last().push(y.last())) =~= split_on(x, sep).push(y));
    }
}

proof fn lemma_decimal_digits(n: nat)
    ensures
        decimal(n).len() > 0,
        forall|i: int| 0 <= i < decimal(n).len() ==> is_ascii_digit(#[trigger] decimal(n)[i]),
        digits_value(decimal(n)) == n,
    decreases n,
{
    lemma_digit_char((n % 10) as int);
    if n >= 10 {
        lemma_decimal_digits(n / 10);
        vstd::arithmetic::div_mod::lemma_fundamental_div_mod(n as int, 10);
        assert(decimal(n).drop_last() =~= decimal(n / 10));
        assert(decimal(n).last() == digit_char((n % 10) as int));
        assert(digits_value(decimal(n)) == digits_value(decimal(n / 10)) * 10 + (digit_char(
            (n % 10) as int,
        ) as int - '0' as int));
        assert forall|i: int| 0 <= i < decimal(n).len() implies is_ascii_digit(
            #[trigger] decimal(n)[i],
        ) by {
            if i < decimal(n).len() - 1 {
                assert(decimal(n)[i] == decimal(n / 10)[i]);
            }
        }
    } else {
        lemma_digit_char(n as int);
        assert(decimal(n).drop_last() =~= Seq::<char>::empty());
        assert(digits_value(decimal(n)) == digits_value(Seq::<char>::empty()) * 10 + (digit_char(
            n as int,
        ) as int - '0' as int));
    }
}

proof fn lemma_digit_char(d: int)
    requires
        0 <= d < 10,
    ensures
        is_ascii_digit(digit_char(d)),
        digit_char(d) as int - '0' as int == d,
{
}

proof fn lemma_hex_char(d: int)
    requires
        0 <= d < 16,
    ensures
        is_hex_digit(hex_char(d)),
        hex_digit_value(hex_char(d)) == d,
{
}

proof fn lemma_hex_round_trip(b: Seq<u8>)
    ensures
        is_hex_text(hex_lower(b)),
        hex_decoded(hex_lower(b)) == b,
{
    let h = hex_lower(b);
    assert forall|i: int| 0 <= i < h.len() implies is_hex_digit(#[trigger] h[i]) by {
        let k = i / 2;
        assert(0 <= k < b.len());
        lemma_hex_char((b[k] / 16) as int);
        lemma_hex_char((b[k] % 16) as int);
    }
    assert(h.len() % 2 == 0) by {
        vstd::arithmetic::div_mod::lemma_mod_multiples_basic(b.len() as int, 2);
    }
    assert(h.len() / 2 == b.len()) by {
        vstd::arithmetic::div_mod::lemma_div_multiples_vanish(b.len() as int, 2);
    }
    assert forall|k: int| 0 <= k < b.len() implies #[trigger] hex_decoded(h)[k] == b[k] by {
        assert((2 * k) / 2 == k && (2 * k) % 2 == 0 && (2 * k + 1) / 2 == k && (2 * k + 1) % 2 == 1)
            by (nonlinear_arith);
        lemma_hex_char((b[k] / 16) as int);
        lemma_hex_char((b[k] % 16) as int);
        vstd::arithmetic::div_mod::lemma_fundamental_div_mod(b[k] as int, 16);
    }
    assert(hex_decoded(h) =~= b);
}

proof fn lemma_four_fields(a: Seq<char>, b: Seq<char>, c: Seq<char>, d: Seq<char>)
    requires
        free_of(a, '$'),
        free_of(b, '$'),
        free_of(c, '$'),
        free_of(d, '$'),
    ensures
        split_on(a + seq!['$'] + b + seq!['$'] + c + seq!['$'] + d, '$') == seq![a, b, c, d],
{
    lemma_split_single(a, '$');
    lemma_split_after(a, b, '$');
    lemma_split_after(a + seq!['$'] + b, c, '$');
    lemma_split_after(a + seq!['$'] + b + seq!['$'] + c, d, '$');
    assert(seq![a].push(b).push(c).push(d) =~= seq![a, b, c, d]);
}

/// A hash in the stored form verifies the password it was made from, for any
/// salt and any round count from 1 to `u32::MAX`.
#[verifier::spinoff_prover]
#[verifier::rlimit(60)]
pub proof fn law_stored_hash_verifies(password: Seq<u8>, salt: Seq<u8>, rounds: nat)
    requires
        1 <= rounds <= u32::MAX,
    ensures
        password_matches(password, stored_text(rounds, salt, iterated_digest(salt, password, rounds))),
{
    reveal_strlit("sha256i$");
    reveal_strlit("sha256i");
    reveal_strlit("$");
    let a = "sha256i"@;
    let b = decimal(rounds);
    let c = hex_lower(salt);
    let digest = iterated_digest(salt, password, rounds);
    let d = hex_lower(digest);
    let stored = stored_text(rounds, salt, digest);
    assert(stored =~= a + seq!['$'] + b + seq!['$'] + c + seq!['$'] + d);
    lemma_decimal_digits(rounds);
    lemma_hex_round_trip(salt);
    lemma_hex_round_trip(digest);
    assert(free_of(a, '$'));
    assert(free_of(b, '$')) by {
        assert forall|i: int| 0 <= i < b.len() implies #[trigger] b[i] != '$' by {
            assert(is_ascii_digit(b[i]));
        }
    }
    assert(free_of(c, '$')) by {
        assert forall|i: int| 0 <= i < c.len() implies #[trigger] c[i] != '$' by {
            assert(is_hex_digit(c[i]));
        }
    }
    assert(free_of(d, '$')) by {
        assert forall|i: int| 0 <= i < d.len() implies #[trigger] d[i] != '$' by {
            assert(is_hex_digit(d[i]));
        }
    }
    lemma_four_fields(a, b, c, d);
    let parts = split_on(stored, '$');
    assert(parts =~= seq![a, b, c, d]);
    assert(b[0] != '+');
    assert(digits_only(b) == Some(rounds as int));
    assert(unsigned_text_value(b) == Some(rounds as int));
}

} // verus!
