//! Registration, login, token refresh with reuse detection, logout, password
//! reset and e-mail verification: requests, validation and the rules that decide
//! each operation. Times are nanoseconds since the Unix epoch.
use vstd::prelude::*;
use crate::error::{
    AppError, ErrorKind, Refusal, ValidationErrors, decided, failed_field, finish_validation,
    invalid_with, note_field, refuse, validation_outcome,
};
use crate::validation::{chars_within, email_accepted, len_within, validate_email};

verus! {

/// Nanoseconds in an hour.
pub const NANOS_PER_HOUR: i64 = 3600000000000;

/// Nanoseconds in a day.
pub const NANOS_PER_DAY: i64 = 86400000000000;

pub struct RegisterRequest {
    pub email: String,
    pub password: String,
    pub full_name: String,
    pub timezone: Option<String>,
}

impl RegisterRequest {
    pub open spec fn failures(self) -> Seq<Seq<char>> {
        Seq::empty() + failed_field(email_accepted(self.email@), "email"@) + failed_field(
            len_within(self.password@, 2, 128),
            "password"@,
        ) + failed_field(len_within(self.full_name@, 2, 100), "full_name"@)
    }

    pub fn validate(&self) -> (r: Result<(), ValidationErrors>)
        ensures
            validation_outcome(r, self.failures()),
    {
        let mut errs: Vec<String> = Vec::new();
        assert(crate::json::views(errs@) =~= Seq::<Seq<char>>::empty());
        note_field(&mut errs, validate_email(self.email.as_str()), "email");
        note_field(&mut errs, chars_within(self.password.as_str(), 2, 128), "password");
        note_field(&mut errs, chars_within(self.full_name.as_str(), 2, 100), "full_name");
        finish_validation(errs)
    }
}

pub struct LoginRequest {
    pub email: String,
    pub password: String,
    pub device_name: Option<String>,
}

impl LoginRequest {
    pub open spec fn failures(self) -> Seq<Seq<char>> {
        Seq::empty() + failed_field(email_accepted(self.email@), "email"@)
    }

    pub fn validate(&self) -> (r: Result<(), ValidationErrors>)
        ensures
            validation_outcome(r, self.failures()),
    {
        let mut errs: Vec<String> = Vec::new();
        assert(crate::json::views(errs@) =~= Seq::<Seq<char>>::empty());
        note_field(&mut errs, validate_email(self.email.as_str()), "email");
        finish_validation(errs)
    }
}

pub struct RefreshRequest {
    pub refresh_token: String,
}

pub struct RefreshResponse {
    pub access_token: String,
    pub refresh_token: String,
    pub expires_in: u64,
}

pub struct LogoutRequest {
    pub refresh_token: Option<String>,
}

pub struct ForgotPasswordRequest {
    pub email: String,
}

impl ForgotPasswordRequest {
    pub open spec fn failures(self) -> Seq<Seq<char>> {
        Seq::empty() + failed_field(email_accepted(self.email@), "email"@)
    }

    pub fn validate(&self) -> (r: Result<(), ValidationErrors>)
        ensures
            validation_outcome(r, self.failures()),
    {
        let mut errs: Vec<String> = Vec::new();
        assert(crate::json::views(errs@) =~= Seq::<Seq<char>>::empty());
        note_field(&mut errs, validate_email(self.email.as_str()), "email");
        finish_validation(errs)
    }
}

pub struct ResetPasswordRequest {
    pub token: String,
    pub new_password: String,
}

impl ResetPasswordRequest {
    pub open spec fn failures(self) -> Seq<Seq<char>> {
        Seq::empty() + failed_field(len_within(self.new_password@, 8, 128), "new_password"@)
    }

    pub fn validate(&self) -> (r: Result<(), ValidationErrors>)
        ensures
            validation_outcome(r, self.failures()),
    {
        let mut errs: Vec<String> = Vec::new();
        assert(crate::json::views(errs@) =~= Seq::<Seq<char>>::empty());
        note_field(&mut errs, chars_within(self.new_password.as_str(), 8, 128), "new_password");
        finish_validation(errs)
    }
}

pub struct VerifyEmailRequest {
    pub token: String,
}

/// What registering records besides the request: the user's time zone and when
/// the e-mail verification token expires.
pub struct Registration {
    pub timezone: String,
    pub verification_expires_at: i64,
}

/// Decides a registration: a valid request for an address no live account uses.
/// The time zone defaults to `Africa/Lagos`; the verification token lasts 48 hours.
pub fn plan_register(req: &RegisterRequest, email_taken: bool, now: i64) -> (r: Result<
    Registration,
    AppError,
>)
    requires
        now <= i64::MAX - 48 * NANOS_PER_HOUR,
    ensures
        req.failures().len() > 0 ==> invalid_with(r, req.failures()),
        req.failures().len() == 0 ==> decided(
            r,
            if email_taken {
                Some((ErrorKind::Conflict, "Email already registered"@))
            } else {
                None
            },
        ),
        r matches Ok(g) ==> g.timezone@ == match req.timezone {
            Some(t) => t@,
            None => "Africa/Lagos"@,
        } && g.verification_expires_at == now + 48 * NANOS_PER_HOUR,
{
    match req.validate() {
        Err(e) => {
            return Err(AppError::Validation(e));
        },
        Ok(()) => {},
    }
    if email_taken {
        return Err(refuse(ErrorKind::Conflict, "Email already registered"));
    }
    let timezone = match &req.timezone {
        Some(t) => t.clone(),
        None => String::from_str("Africa/Lagos"),
    };
    Ok(Registration { timezone, verification_expires_at: now + 48 * NANOS_PER_HOUR })
}

/// The account a login addresses, as far as the login rules need it.
pub enum LoginAccount {
    /// No live account has this address.
    Unknown,
    /// The account signs in with Google only and has no password.
    GoogleOnly,
    /// The account has a password; `matches` tells whether the one given is it.
    Password { matches: bool },
}

pub open spec fn login_refusal(account: LoginAccount) -> Option<Refusal> {
    match account {
        LoginAccount::Unknown => Some((ErrorKind::Unauthorized, "Invalid credentials"@)),
        LoginAccount::GoogleOnly => Some(
            (ErrorKind::Unauthorized, "Use Google sign-in for this account"@),
        ),
        LoginAccount::Password { matches } => if matches {
            None
        } else {
            Some((ErrorKind::Unauthorized, "Invalid credentials"@))
        },
    }
}

/// Decides a login: a valid request for an account with a password that the
/// caller gave. Unknown addresses and wrong passwords are refused alike.
pub fn check_login(req: &LoginRequest, account: LoginAccount) -> (r: Result<(), AppError>)
    ensures
        req.failures().len() > 0 ==> invalid_with(r, req.failures()),
        req.failures().len() == 0 ==> decided(r, login_refusal(account)),
{
    match req.validate() {
        Err(e) => {
            return Err(AppError::Validation(e));
        },
        Ok(()) => {},
    }
    match account {
        LoginAccount::Unknown => Err(refuse(ErrorKind::Unauthorized, "Invalid credentials")),
        LoginAccount::GoogleOnly => Err(
            refuse(ErrorKind::Unauthorized, "Use Google sign-in for this account"),
        ),
        LoginAccount::Password { matches } => {
            if matches {
                Ok(())
            } else {
                Err(refuse(ErrorKind::Unauthorized, "Invalid credentials"))
            }
        },
    }
}

/// When a token issued at `now` for `days` days expires (the days may be
/// negative; the result must be representable).
pub fn expiry_after_days(now: i64, days: i64) -> (r: i64)
    requires
        -106751 <= days <= 106751,
        i64::MIN <= now + days * NANOS_PER_DAY <= i64::MAX,
    ensures
        r == now + days * NANOS_PER_DAY,
{
    assert(-106751 * NANOS_PER_DAY <= days * NANOS_PER_DAY <= 106751 * NANOS_PER_DAY) by (nonlinear_arith)
        requires
            -106751 <= days <= 106751,
    ;
    now + days * NANOS_PER_DAY
}

/// A stored refresh token.
#[derive(PartialEq, Eq, Structural, Clone, Copy)]
pub struct RefreshTokenRow {
    pub id: u128,
    pub user_id: u128,
    pub revoked: bool,
    pub expires_at: i64,
}

/// What presenting a refresh token leads to.
#[derive(PartialEq, Eq, Structural, Clone, Copy)]
pub enum RefreshDecision {
    /// No such token.
    Invalid,
    /// The token has expired.
    Expired,
    /// The token was already used or revoked: every token of its user is revoked
    /// and the request refused.
    ReuseDetected { user_id: u128 },
    /// The token is good: it is revoked and replaced by a new one for its user.
    Rotate { token_id: u128, user_id: u128 },
}

pub open spec fn refresh_decision(row: Option<RefreshTokenRow>, now: i64) -> RefreshDecision {
    match row {
        None => RefreshDecision::Invalid,
        Some(t) => if t.expires_at < now {
            RefreshDecision::Expired
        } else if t.revoked {
            RefreshDecision::ReuseDetected { user_id: t.user_id }
        } else {
            RefreshDecision::Rotate { token_id: t.id, user_id: t.user_id }
        },
    }
}

/// Decides what presenting a refresh token leads to: unknown and expired tokens
/// are refused; a token that was already revoked signals theft, so its user's
/// tokens are all revoked; a good token is rotated.
pub fn decide_refresh(row: Option<RefreshTokenRow>, now: i64) -> (r: RefreshDecision)
    ensures
        r == refresh_decision(row, now),
{
    match row {
        None => RefreshDecision::Invalid,
        Some(t) => {
            if t.expires_at < now {
                RefreshDecision::Expired
            } else if t.revoked {
                RefreshDecision::ReuseDetected { user_id: t.user_id }
            } else {
                RefreshDecision::Rotate { token_id: t.id, user_id: t.user_id }
            }
        },
    }
}

pub open spec fn refresh_refusal(d: RefreshDecision) -> Option<Refusal> {
    match d {
        RefreshDecision::Invalid => Some((ErrorKind::Unauthorized, "invalid refresh token"@)),
        RefreshDecision::Expired => Some((ErrorKind::Unauthorized, "Refresh token expired"@)),
        RefreshDecision::ReuseDetected { .. } => Some(
            (ErrorKind::Unauthorized, "Token reuse detected"@),
        ),
        RefreshDecision::Rotate { .. } => None,
    }
}

/// How a refresh decision is answered: refusals as such, rotation with success.
pub fn refresh_answer(d: RefreshDecision) -> (r: Result<(), AppError>)
    ensures
        decided(r, refresh_refusal(d)),
{
    match d {
        RefreshDecision::Invalid => Err(refuse(ErrorKind::Unauthorized, "invalid refresh token")),
        RefreshDecision::Expired => Err(refuse(ErrorKind::Unauthorized, "Refresh token expired")),
        RefreshDecision::ReuseDetected { .. } => Err(
            refuse(ErrorKind::Unauthorized, "Token reuse detected"),
        ),
        RefreshDecision::Rotate { .. } => Ok(()),
    }
}

/// The refresh tokens on record, by stored hash.
pub type TokenStore = Map<Seq<char>, RefreshTokenRow>;

pub open spec fn lookup(store: TokenStore, hash: Seq<char>) -> Option<RefreshTokenRow> {
    if store.dom().contains(hash) {
        Some(store[hash])
    } else {
        None
    }
}

/// The record after a refresh decision is carried out: a rotation revokes the
/// presented token and records the new one for the same user; a detected reuse
/// revokes every token of the user; refusals change nothing.
pub open spec fn apply_refresh(
    store: TokenStore,
    hash: Seq<char>,
    d: RefreshDecision,
    new_hash: Seq<char>,
    new_id: u128,
    new_expires_at: i64,
) -> TokenStore {
    match d {
        RefreshDecision::Rotate { token_id, user_id } => store.insert(
            hash,
            RefreshTokenRow { revoked: true, ..store[hash] },
        ).insert(
            new_hash,
            RefreshTokenRow { id: new_id, user_id, revoked: false, expires_at: new_expires_at },
        ),
        RefreshDecision::ReuseDetected { user_id } => Map::new(
            |h: Seq<char>| store.dom().contains(h),
            |h: Seq<char>|
                if store[h].user_id == user_id {
                    RefreshTokenRow { revoked: true, ..store[h] }
                } else {
                    store[h]
                },
        ),
        _ => store,
    }
}

/// A refresh token works once: after it has been rotated, presenting it again
/// (before it expires) is detected as reuse of its user's token.
pub proof fn law_refresh_token_single_use(
    store: TokenStore,
    hash: Seq<char>,
    now: i64,
    new_hash: Seq<char>,
    new_id: u128,
    new_expires_at: i64,
    later: i64,
)
    requires
        refresh_decision(lookup(store, hash), now) is Rotate,
        new_hash != hash,
        later <= store[hash].expires_at,
    ensures
        refresh_decision(
            lookup(
                apply_refresh(
                    store,
                    hash,
                    refresh_decision(lookup(store, hash), now),
                    new_hash,
                    new_id,
                    new_expires_at,
                ),
                hash,
            ),
            later,
        ) == (RefreshDecision::ReuseDetected { user_id: store[hash].user_id }),
{
}

/// The token a rotation hands out is itself good until it expires.
pub proof fn law_rotated_token_is_good(
    store: TokenStore,
    hash: Seq<char>,
    now: i64,
    new_hash: Seq<char>,
    new_id: u128,
    new_expires_at: i64,
    later: i64,
)
    requires
        refresh_decision(lookup(store, hash), now) is Rotate,
        later <= new_expires_at,
    ensures
        refresh_decision(
            lookup(
                apply_refresh(
                    store,
                    hash,
                    refresh_decision(lookup(store, hash), now),
                    new_hash,
                    new_id,
                    new_expires_at,
                ),
                new_hash,
            ),
            later,
        ) == (RefreshDecision::Rotate { token_id: new_id, user_id: store[hash].user_id }),
{
}

/// Once reuse is detected, no token of that user can be rotated any more.
pub proof fn law_reuse_revokes_family(
    store: TokenStore,
    hash: Seq<char>,
    now: i64,
    other: Seq<char>,
    later: i64,
    new_hash: Seq<char>,
    new_id: u128,
    new_expires_at: i64,
)
    requires
        refresh_decision(lookup(store, hash), now) is ReuseDetected,
        store.dom().contains(other),
        store[other].user_id == store[hash].user_id,
    ensures
        !(refresh_decision(
            lookup(
                apply_refresh(
                    store,
                    hash,
                    refresh_decision(lookup(store, hash), now),
                    new_hash,
                    new_id,
                    new_expires_at,
                ),
                other,
            ),
            later,
        ) is Rotate),
{
}

/// A stored one-time token (password reset or e-mail verification).
pub struct OneTimeTokenRow {
    pub id: u128,
    pub user_id: u128,
    pub used: bool,
    pub expires_at: i64,
}

pub open spec fn reset_refusal(row: Option<OneTimeTokenRow>, now: i64) -> Option<Refusal> {
    match row {
        None => Some((ErrorKind::Unauthorized, "Invalid reset token"@)),
        Some(t) => if t.used {
            Some((ErrorKind::Unauthorized, "Invalid reset token"@))
        } else if t.expires_at < now {
            Some((ErrorKind::Unauthorized, "Reset token already used"@))
        } else {
            None
        },
    }
}

/// Decides a password reset: a valid new password and a reset token that exists,
/// is unused and unexpired. On success, the token's user.
pub fn check_reset_password(
    req: &ResetPasswordRequest,
    row: Option<OneTimeTokenRow>,
    now: i64,
) -> (r: Result<u128, AppError>)
    ensures
        req.failures().len() > 0 ==> invalid_with(r, req.failures()),
        req.failures().len() == 0 ==> decided(r, reset_refusal(row, now)),
        r matches Ok(u) ==> row matches Some(t) && t.user_id == u,
{
    match req.validate() {
        Err(e) => {
            return Err(AppError::Validation(e));
        },
        Ok(()) => {},
    }
    match row {
        None => Err(refuse(ErrorKind::Unauthorized, "Invalid reset token")),
        Some(t) => {
            if t.used {
                Err(refuse(ErrorKind::Unauthorized, "Invalid reset token"))
            } else if t.expires_at < now {
                Err(refuse(ErrorKind::Unauthorized, "Reset token already used"))
            } else {
                Ok(t.user_id)
            }
        },
    }
}

pub open spec fn verify_email_refusal(row: Option<OneTimeTokenRow>, now: i64) -> Option<Refusal> {
    match row {
        None => Some((ErrorKind::Unauthorized, "Invalid verification token"@)),
        Some(t) => if t.used {
            Some((ErrorKind::Unauthorized, "verification token already used"@))
        } else if t.expires_at < now {
            Some((ErrorKind::Unauthorized, "verification token expired"@))
        } else {
            None
        },
    }
}

/// Decides an e-mail verification: the token must exist, be unused and
/// unexpired. On success, the token's user.
pub fn check_verify_email(row: Option<OneTimeTokenRow>, now: i64) -> (r: Result<u128, AppError>)
    ensures
        decided(r, verify_email_refusal(row, now)),
        r matches Ok(u) ==> row matches Some(t) && t.user_id == u,
{
    match row {
        None => Err(refuse(ErrorKind::Unauthorized, "Invalid verification token")),
        Some(t) => {
            if t.used {
                Err(refuse(ErrorKind::Unauthorized, "verification token already used"))
            } else if t.expires_at < now {
                Err(refuse(ErrorKind::Unauthorized, "verification token expired"))
            } else {
                Ok(t.user_id)
            }
        },
    }
}

/// A password-reset token lasts one hour.
pub fn reset_token_expiry(now: i64) -> (r: i64)
    requires
        now <= i64::MAX - NANOS_PER_HOUR,
    ensures
        r == now + NANOS_PER_HOUR,
{
    now + NANOS_PER_HOUR
}

} // verus!
