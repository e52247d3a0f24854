//! The error every operation of the API can answer with, and how it is answered:
//! an HTTP status, a machine-readable code and a message.
use vstd::prelude::*;
use crate::json::views;

verus! {

/// The fields of a request that failed validation, in declaration order.
pub struct ValidationErrors {
    pub fields: Vec<String>,
}

pub enum AppError {
    BadRequest(String),
    Unauthorized(String),
    Forbidden(String),
    NotFound(String),
    Conflict(String),
    UnprocessableEntity(String),
    TooManyRequests(String),
    PaymentRequired(String),
    ServiceUnavailable(String),
    Internal(String),
    Database,
    Redis,
    Reqwest,
    Serialization,
    Validation(ValidationErrors),
    Paystack(String),
    Anthropic(String),
    Aws(String),
}

pub type AppResult<T> = Result<T, AppError>;

impl AppError {
    /// The HTTP status this error is answered with.
    pub open spec fn status(self) -> u16 {
        match self {
            AppError::BadRequest(_) => 400,
            AppError::Unauthorized(_) => 401,
            AppError::Forbidden(_) => 403,
            AppError::NotFound(_) => 404,
            AppError::Conflict(_) => 409,
            AppError::TooManyRequests(_) => 429,
            AppError::PaymentRequired(_) => 402,
            AppError::ServiceUnavailable(_) => 503,
            AppError::Internal(_) => 500,
            AppError::Database => 500,
            AppError::Redis => 500,
            AppError::Serialization => 500,
            AppError::UnprocessableEntity(_) => 422,
            AppError::Validation(_) => 422,
            AppError::Reqwest => 502,
            AppError::Paystack(_) => 502,
            AppError::Anthropic(_) => 502,
            AppError::Aws(_) => 502,
        }
    }

    /// The machine-readable code this error is answered with.
    pub open spec fn code(self) -> Seq<char> {
        match self {
            AppError::BadRequest(_) => "BAD_REQUEST"@,
            AppError::Unauthorized(_) => "UNAUTHORIZED"@,
            AppError::Forbidden(_) => "FORBIDDEN"@,
            AppError::NotFound(_) => "NOT_FOUND"@,
            AppError::Conflict(_) => "CONFLICT"@,
            AppError::TooManyRequests(_) => "TooManyRequests"@,
            AppError::PaymentRequired(_) => "PAYMENT_REQUIRED"@,
            AppError::ServiceUnavailable(_) => "SERVICE_UNAVAILABLE"@,
            AppError::Internal(_) => "INTERNAL_SERVER_ERROR"@,
            AppError::Database => "INTERNAL_ERROR"@,
            AppError::Redis => "INTERNAL_ERROR"@,
            AppError::Serialization => "INTERNAL_ERROR"@,
            AppError::UnprocessableEntity(_) => "UNPROCESSABLE_ENTITY"@,
            AppError::Validation(_) => "UNPROCESSABLE_ENTITY"@,
            AppError::Reqwest => "UPSTREAM_ERROR"@,
            AppError::Paystack(_) => "UPSTREAM_ERROR"@,
            AppError::Anthropic(_) => "UPSTREAM_ERROR"@,
            AppError::Aws(_) => "UPSTREAM_ERROR"@,
        }
    }

    /// Errors whose details stay inside the service: faults of its own, of its
    /// stores and of the services it calls.
    pub open spec fn is_internal(self) -> bool {
        match self {
            AppError::Database | AppError::Redis | AppError::Reqwest | AppError::Serialization
            | AppError::Internal(_) | AppError::Paystack(_) | AppError::Anthropic(_)
            | AppError::Aws(_) => true,
            _ => false,
        }
    }

    /// The error's own text.
    pub open spec fn text(self) -> Seq<char> {
        match self {
            AppError::BadRequest(m) => "Bad request: "@ + m@,
            AppError::Unauthorized(m) => "unauthorized: "@ + m@,
            AppError::Forbidden(m) => "Forbidden: "@ + m@,
            AppError::NotFound(m) => "Not Found: "@ + m@,
            AppError::Conflict(m) => "Conflict: "@ + m@,
            AppError::UnprocessableEntity(m) => "Unprocessable: "@ + m@,
            AppError::TooManyRequests(m) => "Rate limited: "@ + m@,
            AppError::PaymentRequired(m) => "PaymentRequired: "@ + m@,
            AppError::ServiceUnavailable(m) => "Service Unavailable: "@ + m@,
            AppError::Internal(m) => "Internal error: "@ + m@,
            AppError::Database => "Database Error"@,
            AppError::Redis => "Redis error"@,
            AppError::Reqwest => "HTTP client error"@,
            AppError::Serialization => "Serialization error"@,
            AppError::Validation(_) => "Validation failed"@,
            AppError::Paystack(m) => "Paystack error: "@ + m@,
            AppError::Anthropic(m) => "Anthropic error: "@ + m@,
            AppError::Aws(m) => "AWS error: "@ + m@,
        }
    }

    /// The message a client is shown: the error's text, except for internal errors,
    /// which all read the same.
    pub open spec fn public_message(self) -> Seq<char> {
        if self.is_internal() {
            "An internal error occurred, please try again."@
        } else {
            self.text()
        }
    }

    /// The HTTP status and code this error is answered with.
    pub fn status_and_code(&self) -> (r: (u16, &'static str))
        ensures
            r.0 == self.status(),
            r.1@ == self.code(),
    {
        match self {
            AppError::BadRequest(_) => (400, "BAD_REQUEST"),
            AppError::Unauthorized(_) => (401, "UNAUTHORIZED"),
            AppError::Forbidden(_) => (403, "FORBIDDEN"),
            AppError::NotFound(_) => (404, "NOT_FOUND"),
            AppError::Conflict(_) => (409, "CONFLICT"),
            AppError::TooManyRequests(_) => (429, "TooManyRequests"),
            AppError::PaymentRequired(_) => (402, "PAYMENT_REQUIRED"),
            AppError::ServiceUnavailable(_) => (503, "SERVICE_UNAVAILABLE"),
            AppError::Internal(_) => (500, "INTERNAL_SERVER_ERROR"),
            AppError::Database => (500, "INTERNAL_ERROR"),
            AppError::Redis => (500, "INTERNAL_ERROR"),
            AppError::Serialization => (500, "INTERNAL_ERROR"),
            AppError::UnprocessableEntity(_) | AppError::Validation(_) => (
                422,
                "UNPROCESSABLE_ENTITY",
            ),
            AppError::Reqwest | AppError::Paystack(_) | AppError::Anthropic(_) | AppError::Aws(
                _,
            ) => (502, "UPSTREAM_ERROR"),
        }
    }

    /// Whether this error's details stay inside the service.
    pub fn is_internal_error(&self) -> (r: bool)
        ensures
            r == self.is_internal(),
    {
        match self {
            AppError::Database | AppError::Redis | AppError::Reqwest | AppError::Serialization
            | AppError::Internal(_) | AppError::Paystack(_) | AppError::Anthropic(_)
            | AppError::Aws(_) => true,
            _ => false,
        }
    }

    /// The error's own text (what its `Display` would write).
    pub fn to_text(&self) -> (r: String)
        ensures
            r@ == self.text(),
    {
        match self {
            AppError::BadRequest(m) => prefixed("Bad request: ", m),
            AppError::Unauthorized(m) => prefixed("unauthorized: ", m),
            AppError::Forbidden(m) => prefixed("Forbidden: ", m),
            AppError::NotFound(m) => prefixed("Not Found: ", m),
            AppError::Conflict(m) => prefixed("Conflict: ", m),
            AppError::UnprocessableEntity(m) => prefixed("Unprocessable: ", m),
            AppError::TooManyRequests(m) => prefixed("Rate limited: ", m),
            AppError::PaymentRequired(m) => prefixed("PaymentRequired: ", m),
            AppError::ServiceUnavailable(m) => prefixed("Service Unavailable: ", m),
            AppError::Internal(m) => prefixed("Internal error: ", m),
            AppError::Database => String::from_str("Database Error"),
            AppError::Redis => String::from_str("Redis error"),
            AppError::Reqwest => String::from_str("HTTP client error"),
            AppError::Serialization => String::from_str("Serialization error"),
            AppError::Validation(_) => String::from_str("Validation failed"),
            AppError::Paystack(m) => prefixed("Paystack error: ", m),
            AppError::Anthropic(m) => prefixed("Anthropic error: ", m),
            AppError::Aws(m) => prefixed("AWS error: ", m),
        }
    }

    /// The message a client is shown.
    pub fn public_message_text(&self) -> (r: String)
        ensures
            r@ == self.public_message(),
    {
        if self.is_internal_error() {
            String::from_str("An internal error occurred, please try again.")
        } else {
            self.to_text()
        }
    }
}

fn prefixed(p: &str, m: &String) -> (r: String)
    ensures
        r@ == p@ + m@,
{
    let mut s = String::from_str(p);
    s.append(m.as_str());
    s
}


/// The kinds of refusal an operation answers with.
#[derive(PartialEq, Eq, Structural, Clone, Copy)]
pub enum ErrorKind {
    BadRequest,
    Unauthorized,
    Forbidden,
    NotFound,
    Conflict,
    UnprocessableEntity,
    ServiceUnavailable,
    Internal,
    Paystack,
}

impl AppError {
    /// The kind of a refusal that carries a message.
    pub open spec fn kind(self) -> Option<ErrorKind> {
        match self {
            AppError::BadRequest(_) => Some(ErrorKind::BadRequest),
            AppError::Unauthorized(_) => Some(ErrorKind::Unauthorized),
            AppError::Forbidden(_) => Some(ErrorKind::Forbidden),
            AppError::NotFound(_) => Some(ErrorKind::NotFound),
            AppError::Conflict(_) => Some(ErrorKind::Conflict),
            AppError::UnprocessableEntity(_) => Some(ErrorKind::UnprocessableEntity),
            AppError::ServiceUnavailable(_) => Some(ErrorKind::ServiceUnavailable),
            AppError::Internal(_) => Some(ErrorKind::Internal),
            AppError::Paystack(_) => Some(ErrorKind::Paystack),
            _ => None,
        }
    }

    /// The message a refusal carries.
    pub open spec fn msg(self) -> Seq<char> {
        match self {
            AppError::BadRequest(m) => m@,
            AppError::Unauthorized(m) => m@,
            AppError::Forbidden(m) => m@,
            AppError::NotFound(m) => m@,
            AppError::Conflict(m) => m@,
            AppError::UnprocessableEntity(m) => m@,
            AppError::ServiceUnavailable(m) => m@,
            AppError::Internal(m) => m@,
            AppError::Paystack(m) => m@,
            _ => Seq::empty(),
        }
    }
}

/// A refusal: its kind and message.
pub type Refusal = (ErrorKind, Seq<char>);

/// `r` is the refusal `(kind, msg)`.
pub open spec fn fails_with<T>(r: Result<T, AppError>, refusal: Refusal) -> bool {
    r matches Err(e) && e.kind() == Some(refusal.0) && e.msg() == refusal.1
}

/// `r` answers as the rules decide: the refusal they name, or success.
pub open spec fn decided<T>(r: Result<T, AppError>, refusal: Option<Refusal>) -> bool {
    match refusal {
        Some(f) => fails_with(r, f),
        None => r is Ok,
    }
}

/// `r` is a validation failure listing exactly the fields `failures`.
pub open spec fn invalid_with<T>(r: Result<T, AppError>, failures: Seq<Seq<char>>) -> bool {
    r matches Err(AppError::Validation(e)) && views(e.fields@) == failures
}

/// The error of a given kind carrying `msg`.
pub fn refuse(kind: ErrorKind, msg: &str) -> (e: AppError)
    ensures
        e.kind() == Some(kind),
        e.msg() == msg@,
{
    let m = String::from_str(msg);
    match kind {
        ErrorKind::BadRequest => AppError::BadRequest(m),
        ErrorKind::Unauthorized => AppError::Unauthorized(m),
        ErrorKind::Forbidden => AppError::Forbidden(m),
        ErrorKind::NotFound => AppError::NotFound(m),
        ErrorKind::Conflict => AppError::Conflict(m),
        ErrorKind::UnprocessableEntity => AppError::UnprocessableEntity(m),
        ErrorKind::ServiceUnavailable => AppError::ServiceUnavailable(m),
        ErrorKind::Internal => AppError::Internal(m),
        ErrorKind::Paystack => AppError::Paystack(m),
    }
}

/// An error that stays inside the service is answered with a 5xx status and the
/// one generic message; every other error is answered with a 4xx status and its
/// own text.
pub proof fn law_internal_errors_are_opaque(e: AppError)
    ensures
        e.is_internal() ==> 500 <= e.status() < 600 && e.public_message()
            == "An internal error occurred, please try again."@,
        !e.is_internal() ==> 400 <= e.status() < 600 && e.public_message() == e.text(),
{
}

/// A failed validation lists its failing fields: `errs` gains `field` exactly when
/// `ok` is false.
pub fn note_field(errs: &mut Vec<String>, ok: bool, field: &str)
    ensures
        views(final(errs)@) == views(old(errs)@) + failed_field(ok, field@),
{
    if !ok {
        errs.push(String::from_str(field));
        assert(views(final(errs)@) =~= views(old(errs)@) + seq![field@]);
    } else {
        assert(views(old(errs)@) + Seq::<Seq<char>>::empty() =~= views(old(errs)@));
    }
}

/// The field name, when its check failed.
pub open spec fn failed_field(ok: bool, field: Seq<char>) -> Seq<Seq<char>> {
    if ok {
        Seq::empty()
    } else {
        seq![field]
    }
}

/// The outcome of validating a request whose failing fields are `expected`.
pub open spec fn validation_outcome(r: Result<(), ValidationErrors>, expected: Seq<Seq<char>>) -> bool {
    match r {
        Ok(()) => expected.len() == 0,
        Err(e) => expected.len() > 0 && views(e.fields@) == expected,
    }
}

/// Closes a validation: `Ok` when no field failed, the failing fields otherwise.
pub fn finish_validation(errs: Vec<String>) -> (r: Result<(), ValidationErrors>)
    ensures
        validation_outcome(r, views(errs@)),
{
    if errs.len() == 0 {
        Ok(())
    } else {
        Err(ValidationErrors { fields: errs })
    }
}

} // verus!
