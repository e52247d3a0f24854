//! Devices and notifications: registering a device for push messages, listing
//! and reading notifications, and what a notification records.
use vstd::prelude::*;
use crate::error::{
    AppError, ErrorKind, Refusal, ValidationErrors, decided, failed_field, finish_validation,
    invalid_with, note_field, refuse, validation_outcome,
};
use crate::json::JsonValue;
use crate::text::str_eq;
use crate::validation::{chars_within, len_within};

verus! {

pub struct RegisterDeviceRequest {
    pub token: String,
    pub platform: String,
    pub device_name: Option<String>,
    pub app_version: Option<String>,
}

impl RegisterDeviceRequest {
    pub open spec fn failures(self) -> Seq<Seq<char>> {
        Seq::empty() + failed_field(len_within(self.token@, 10, 512), "token"@)
    }

    pub fn validate(&self) -> (r: Result<(), ValidationErrors>)
        ensures
            validation_outcome(r, self.failures()),
    {
        let mut errs: Vec<String> = Vec::new();
        assert(crate::json::views(errs@) =~= Seq::<Seq<char>>::empty());
        note_field(&mut errs, chars_within(self.token.as_str(), 10, 512), "token");
        finish_validation(errs)
    }
}

pub open spec fn register_device_refusal(req: RegisterDeviceRequest) -> Option<Refusal> {
    if req.platform@ == "ios"@ || req.platform@ == "android"@ {
        Some((ErrorKind::BadRequest, "invalid platform"@))
    } else {
        None
    }
}

/// Decides registering a device: a valid request whose platform is neither
/// `ios` nor `android`.
pub fn check_register_device(req: &RegisterDeviceRequest) -> (r: Result<(), AppError>)
    ensures
        req.failures().len() > 0 ==> invalid_with(r, req.failures()),
        req.failures().len() == 0 ==> decided(r, register_device_refusal(*req)),
{
    match req.validate() {
        Err(e) => {
            return Err(AppError::Validation(e));
        },
        Ok(()) => {},
    }
    if str_eq(req.platform.as_str(), "ios") || str_eq(req.platform.as_str(), "android") {
        return Err(refuse(ErrorKind::BadRequest, "invalid platform"));
    }
    Ok(())
}

/// The page size of a notification listing that names none.
pub fn default_limit() -> (n: u32)
    ensures
        n == 50,
{
    50
}

pub struct ListNotificationQuery {
    pub limit: u32,
    pub unread_only: Option<bool>,
}

/// A listing reads at most 100 notifications, unread ones only when asked.
pub fn plan_notification_list(q: &ListNotificationQuery) -> (r: (i64, bool))
    ensures
        r.0 == if q.limit <= 100 { q.limit as int } else { 100 },
        r.1 == (q.unread_only == Some(true)),
{
    let limit: i64 = if q.limit <= 100 { q.limit as i64 } else { 100 };
    let unread = match q.unread_only {
        Some(b) => b,
        None => false,
    };
    (limit, unread)
}

/// Marking a notification read: it must be one of the caller's, still unread
/// (`changed` is the number of rows the update changed).
pub fn check_mark_read(changed: u64) -> (r: Result<(), AppError>)
    ensures
        decided(
            r,
            if changed == 0 {
                Some((ErrorKind::NotFound, "notification not found"@))
            } else {
                None
            },
        ),
{
    if changed == 0 {
        return Err(refuse(ErrorKind::NotFound, "notification not found"));
    }
    Ok(())
}

/// What a notification records as metadata: the data sent with it, else an
/// empty object.
pub fn notification_metadata(data: Option<JsonValue>) -> (r: JsonValue)
    ensures
        match data {
            Some(d) => r == d,
            None => r matches JsonValue::Object(m) && m@.len() == 0,
        },
{
    match data {
        Some(d) => d,
        None => JsonValue::Object(Vec::new()),
    }
}

} // verus!
