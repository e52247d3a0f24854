//! Access tokens: HS256-signed JWTs naming a user, with their issue time, expiry
//! and a unique identifier.
use vstd::prelude::*;
use vstd::utf8::encode_utf8;
use crate::config::Config;
use crate::error::{AppError, ErrorKind, Refusal, decided, refuse};
use crate::ids::{new_uuid_v4, parse_uuid, uuid_parse, uuid_text, uuid_to_string};

verus! {

pub struct Claims {
    pub sub: String,
    pub iat: u64,
    pub exp: u64,
    pub jti: String,
}

/// The token `jsonwebtoken::encode` makes with the default (HS256) header of
/// the claims `sub`, `iat`, `exp` and `jti`, signed with `secret`.
pub uninterp spec fn hs256_token(
    sub: Seq<char>,
    iat: u64,
    exp: u64,
    jti: Seq<char>,
    secret: Seq<u8>,
) -> Seq<char>;

/// The claims `sub`, `iat`, `exp` and `jti` that `jsonwebtoken::decode` reads
/// from `token` under `secret` with HS256, the expiry left unchecked; `None`
/// when the token is refused or one of the four claims is missing or of another
/// type.
pub uninterp spec fn hs256_claims(token: Seq<char>, secret: Seq<u8>) -> Option<
    (Seq<char>, u64, u64, Seq<char>),
>;

/// Calls `jsonwebtoken::encode` with `Header::default()` (HS256) and
/// `EncodingKey::from_secret`, on a JSON object of the four claims. The token is
/// named; the crate's source cannot fail for this key and header (HMAC signing
/// and JSON of plain values), so the result is always `Some`, and
/// `jsonwebtoken::decode` under the same secret reads the same claims back.
#[verifier::external_body]
fn encode_hs256(sub: &str, iat: u64, exp: u64, jti: &str, secret: &[u8]) -> (r: Option<String>)
    ensures
        r is Some,
        r matches Some(t) ==> t@ == hs256_token(sub@, iat, exp, jti@, secret@),
        r matches Some(t) ==> hs256_claims(t@, secret@) == Some((sub@, iat, exp, jti@)),
{
    let mut m = serde_json::Map::new();
    m.insert(String::from("sub"), serde_json::Value::from(sub));
    m.insert(String::from("iat"), serde_json::Value::from(iat));
    m.insert(String::from("exp"), serde_json::Value::from(exp));
    m.insert(String::from("jti"), serde_json::Value::from(jti));
    let key = jsonwebtoken::EncodingKey::from_secret(secret);
    jsonwebtoken::encode(&jsonwebtoken::Header::default(), &serde_json::Value::Object(m), &key).ok()
}

/// Calls `jsonwebtoken::decode` into a `serde_json::Value` with
/// `DecodingKey::from_secret` and `Validation::new(HS256)`, its expiry check
/// turned off, and reads the four claims from the result. What it reads is
/// named.
#[verifier::external_body]
fn decode_hs256(token: &str, secret: &[u8]) -> (r: Option<(String, u64, u64, String)>)
    ensures
        match r {
            Some((s, i, e, j)) => hs256_claims(token@, secret@) == Some((s@, i, e, j@)),
            None => hs256_claims(token@, secret@) is None,
        },
{
    let mut v = jsonwebtoken::Validation::new(jsonwebtoken::Algorithm::HS256);
    v.validate_exp = false;
    let key = jsonwebtoken::DecodingKey::from_secret(secret);
    match jsonwebtoken::decode::<serde_json::Value>(token, &key, &v) {
        Ok(d) => match (d.claims["sub"].as_str(), d.claims["iat"].as_u64(), d.claims["exp"].as_u64(), d.claims["jti"].as_str()) {
            (Some(s), Some(i), Some(e), Some(j)) => Some((s.to_string(), i, e, j.to_string())),
            _ => None,
        },
        Err(_) => None,
    }
}

/// Calls `SystemTime::now().duration_since(UNIX_EPOCH)` (std): seconds since the
/// epoch, or the error's text when the clock reads earlier. Nothing is claimed
/// of the value.
#[verifier::external_body]
fn unix_time_secs() -> (r: Result<u64, String>) {
    match std::time::SystemTime::now().duration_since(std::time::UNIX_EPOCH) {
        Ok(d) => Ok(d.as_secs()),
        Err(e) => Err(e.to_string()),
    }
}

/// The access token for `user_id` issued at `now` (seconds), expiring `expiry`
/// seconds later, with identifier `jti`, signed with `secret`.
pub open spec fn access_token_text(
    user_id: u128,
    now: u64,
    expiry: u64,
    jti: u128,
    secret: Seq<char>,
) -> Seq<char> {
    hs256_token(
        uuid_text(user_id),
        now,
        (now + expiry) as u64,
        uuid_text(jti),
        encode_utf8(secret),
    )
}

/// The claims an access token carries.
pub fn build_claims(user_id: u128, now: u64, expiry: u64, jti: u128) -> (c: Claims)
    requires
        now + expiry <= u64::MAX,
    ensures
        c.sub@ == uuid_text(user_id),
        c.iat == now,
        c.exp == now + expiry,
        c.jti@ == uuid_text(jti),
{
    Claims { sub: uuid_to_string(user_id), iat: now, exp: now + expiry, jti: uuid_to_string(jti) }
}

/// Signs claims into a token with `secret`.
pub fn sign_claims(c: &Claims, secret: &str) -> (r: String)
    ensures
        r@ == hs256_token(c.sub@, c.iat, c.exp, c.jti@, encode_utf8(secret@)),
        hs256_claims(r@, encode_utf8(secret@)) == Some((c.sub@, c.iat, c.exp, c.jti@)),
{
    match encode_hs256(c.sub.as_str(), c.iat, c.exp, c.jti.as_str(), secret.as_bytes()) {
        Some(t) => t,
        None => String::new(),
    }
}

/// The access token for `user_id`, issued at `now` (seconds) with identifier
/// `jti`; an internal error when the expiry time would not fit in 64 bits.
pub fn encode_access_token_at(user_id: u128, now: u64, jti: u128, config: &Config) -> (r: Result<
    String,
    AppError,
>)
    ensures
        r is Err <==> now + config.access_token_expiry_seconds > u64::MAX,
        r matches Err(e) ==> e matches AppError::Internal(m) && m@
            == "access token expiry out of range"@,
        r matches Ok(t) ==> t@ == access_token_text(
            user_id,
            now,
            config.access_token_expiry_seconds,
            jti,
            config.jwt_secret@,
        ),
{
    if now > u64::MAX - config.access_token_expiry_seconds {
        return Err(AppError::Internal(String::from_str("access token expiry out of range")));
    }
    let claims = build_claims(user_id, now, config.access_token_expiry_seconds, jti);
    Ok(sign_claims(&claims, config.jwt_secret.as_str()))
}

/// Issues an access token for `user_id`, valid for the configured lifetime from
/// the current time. The clock and the token identifier are drawn here and
/// handed to `encode_access_token_at`, whose answer is returned: whatever they
/// give, a token that is returned is `access_token_text` of them, and an
/// expiry past the 64-bit range is the internal error it names. A clock set
/// before the epoch is an internal error too, its message starting with
/// `clock error: `.
pub fn encode_access_token(user_id: u128, config: &Config) -> (r: Result<String, AppError>)
    ensures
        r matches Ok(t) ==> exists|now: u64, jti: u128|
            now + config.access_token_expiry_seconds <= u64::MAX && t@ == access_token_text(
                user_id,
                now,
                config.access_token_expiry_seconds,
                jti,
                config.jwt_secret@,
            ),
        r matches Err(e) ==> e matches AppError::Internal(m) && (m@
            == "access token expiry out of range"@ || (m@.len() >= 13 && m@.take(13)
            == "clock error: "@)),
{
    let now = match unix_time_secs() {
        Ok(n) => n,
        Err(e) => {
            let mut m = String::from_str("clock error: ");
            m.append(e.as_str());
            proof {
                reveal_strlit("clock error: ");
                assert(m@.take(13) =~= "clock error: "@);
            }
            return Err(AppError::Internal(m));
        },
    };
    let jti = new_uuid_v4();
    encode_access_token_at(user_id, now, jti, config)
}

/// Whether an access token that expires at `exp` is still accepted at `now`
/// (seconds): up to thirty seconds past its expiry.
pub open spec fn token_live(exp: u64, now: u64) -> bool {
    now <= exp + 30
}

pub open spec fn decode_outcome(claims: Option<(Seq<char>, u64, u64, Seq<char>)>, now: u64) -> Result<
    (Seq<char>, u64, u64, Seq<char>),
    Refusal,
> {
    match claims {
        None => Err((ErrorKind::Unauthorized, "Invalid token"@)),
        Some(c) => if token_live(c.2, now) {
            Ok(c)
        } else {
            Err((ErrorKind::Unauthorized, "Token expired"@))
        },
    }
}

/// Decodes and checks an access token at time `now` (seconds): it must be an
/// HS256 token signed with the configured secret carrying the four claims, and
/// not more than thirty seconds past its expiry. A refused token is answered
/// as expired when only its expiry fails, else as invalid.
pub fn decode_access_token(token: &str, config: &Config, now: u64) -> (r: Result<Claims, AppError>)
    ensures
        match decode_outcome(hs256_claims(token@, encode_utf8(config.jwt_secret@)), now) {
            Ok((s, i, e, j)) => r matches Ok(c) && c.sub@ == s && c.iat == i && c.exp == e && c.jti@ == j,
            Err((kind, msg)) => r matches Err(err) && err.kind() == Some(kind) && err.msg() == msg,
        },
{
    match decode_hs256(token, config.jwt_secret.as_str().as_bytes()) {
        None => Err(token_rejection(false)),
        Some((sub, iat, exp, jti)) => {
            if now > 30 && exp < now - 30 {
                Err(token_rejection(true))
            } else {
                Ok(Claims { sub, iat, exp, jti })
            }
        },
    }
}

/// A token that reads back the claims it was signed with (as `sign_claims`
/// states of every token it makes) is accepted with those claims until thirty
/// seconds past its expiry, and answered as expired after that.
pub proof fn law_token_round_trip(
    token: Seq<char>,
    secret: Seq<u8>,
    claims: (Seq<char>, u64, u64, Seq<char>),
    now: u64,
)
    requires
        hs256_claims(token, secret) == Some(claims),
    ensures
        token_live(claims.2, now) ==> decode_outcome(hs256_claims(token, secret), now) == Ok::<
            (Seq<char>, u64, u64, Seq<char>),
            Refusal,
        >(claims),
        !token_live(claims.2, now) ==> decode_outcome(hs256_claims(token, secret), now) == Err::<
            (Seq<char>, u64, u64, Seq<char>),
            Refusal,
        >((ErrorKind::Unauthorized, "Token expired"@)),
{
}

/// How a rejected access token is answered: an expired one as such, every other
/// failure alike.
pub fn token_rejection(expired: bool) -> (e: AppError)
    ensures
        e.kind() == Some(ErrorKind::Unauthorized),
        e.msg() == if expired {
            "Token expired"@
        } else {
            "Invalid token"@
        },
{
    if expired {
        refuse(ErrorKind::Unauthorized, "Token expired")
    } else {
        refuse(ErrorKind::Unauthorized, "Invalid token")
    }
}

/// The user an access token names: its subject, which must be a UUID.
pub fn subject_user_id(claims: &Claims) -> (r: Result<u128, AppError>)
    ensures
        decided(
            r,
            if uuid_parse(claims.sub@) is Some {
                None
            } else {
                Some((ErrorKind::Unauthorized, "Invalid token subject"@))
            },
        ),
        r matches Ok(u) ==> uuid_parse(claims.sub@) == Some(u),
{
    match parse_uuid(claims.sub.as_str()) {
        Ok(u) => Ok(u),
        Err(_) => Err(refuse(ErrorKind::Unauthorized, "Invalid token subject")),
    }
}

} // verus!
