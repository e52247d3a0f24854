//! Who is calling: the bearer token of the `Authorization` header and the user it
//! names.
use vstd::prelude::*;
use crate::error::{AppError, ErrorKind, Refusal, decided, refuse};
use crate::text::string_from_chars;

verus! {

/// The authenticated caller.
pub struct AuthUser {
    pub user_id: u128,
    pub email: String,
    pub email_verified: bool,
    pub is_platform_admin: bool,
}

/// Bytes a header value may hold to be read as text: visible ASCII and tab.
pub open spec fn is_visible_ascii(b: u8) -> bool {
    (32 <= b && b < 127) || b == 9
}

/// The header's bytes read as characters.
pub open spec fn ascii_chars(b: Seq<u8>) -> Seq<char> {
    Seq::new(b.len(), |i: int| b[i] as char)
}

/// The token an `Authorization` header carries, or why it carries none.
pub open spec fn bearer_outcome(header: Option<Seq<u8>>) -> Result<Seq<char>, Refusal> {
    match header {
        None => Err((ErrorKind::Unauthorized, "Missing authorization header"@)),
        Some(b) => if !(forall|i: int| 0 <= i < b.len() ==> is_visible_ascii(#[trigger] b[i])) {
            Err((ErrorKind::Unauthorized, "Invalid authorization header encoding"@))
        } else if !crate::text::starts_with(ascii_chars(b), "Bearer "@) {
            Err((ErrorKind::Unauthorized, "Invalid authorization scheme"@))
        } else {
            Ok(ascii_chars(b).subrange(7, b.len() as int))
        },
    }
}

/// Extracts the bearer token from the `Authorization` header's bytes: the header
/// must be present, hold only visible ASCII, and use the `Bearer ` scheme.
pub fn bearer_token(header: Option<&[u8]>) -> (r: Result<String, AppError>)
    ensures
        match bearer_outcome(
            match header {
                Some(h) => Some(h@),
                None => None,
            },
        ) {
            Ok(t) => r matches Ok(s) && s@ == t,
            Err(f) => crate::error::fails_with(r, f),
        },
{
    let b = match header {
        None => {
            return Err(refuse(ErrorKind::Unauthorized, "Missing authorization header"));
        },
        Some(b) => b,
    };
    let mut cs: Vec<char> = Vec::new();
    let mut i: usize = 0;
    while i < b.len()
        invariant
            i <= b@.len(),
            header matches Some(h) && h@ == b@,
            cs@ == ascii_chars(b@).take(i as int),
            forall|j: int| 0 <= j < i ==> is_visible_ascii(#[trigger] b@[j]),
        decreases b.len() - i,
    {
        let x = b[i];
        if !((32 <= x && x < 127) || x == 9) {
            assert(!is_visible_ascii(b@[i as int]));
            return Err(refuse(ErrorKind::Unauthorized, "Invalid authorization header encoding"));
        }
        cs.push(x as char);
        assert(cs@ =~= ascii_chars(b@).take(i + 1));
        i = i + 1;
    }
    assert(cs@ =~= ascii_chars(b@));
    let prefix: [char; 7] = ['B', 'e', 'a', 'r', 'e', 'r', ' '];
    assert(prefix@ =~= "Bearer "@) by {
        reveal_strlit("Bearer ");
    }
    if cs.len() < 7 {
        assert(!crate::text::starts_with(cs@, "Bearer "@));
        return Err(refuse(ErrorKind::Unauthorized, "Invalid authorization scheme"));
    }
    let mut k: usize = 0;
    while k < 7
        invariant
            cs@ == ascii_chars(b@),
            header matches Some(h) && h@ == b@,
            forall|j: int| 0 <= j < b@.len() ==> is_visible_ascii(#[trigger] b@[j]),
            cs@.len() >= 7,
            k <= 7,
            prefix@ == "Bearer "@,
            forall|j: int| 0 <= j < k ==> cs@[j] == prefix@[j],
        decreases 7 - k,
    {
        if cs[k] != prefix[k] {
            assert(cs@.subrange(0, 7)[k as int] != "Bearer "@[k as int]);
            assert(cs@.subrange(0, 7) != "Bearer "@);
            assert(!crate::text::starts_with(cs@, "Bearer "@));
            return Err(refuse(ErrorKind::Unauthorized, "Invalid authorization scheme"));
        }
        k = k + 1;
    }
    assert(cs@.subrange(0, 7) =~= "Bearer "@);
    let mut tok: Vec<char> = Vec::new();
    let mut j: usize = 7;
    while j < cs.len()
        invariant
            7 <= j <= cs@.len(),
            tok@ == cs@.subrange(7, j as int),
        decreases cs.len() - j,
    {
        tok.push(cs[j]);
        assert(tok@ =~= cs@.subrange(7, j + 1));
        j = j + 1;
    }
    Ok(string_from_chars(tok.as_slice()))
}

} // verus!
