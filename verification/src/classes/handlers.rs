//! Scheduled classes: creating, listing, reading, changing and cancelling them.
//! Times are nanoseconds since the Unix epoch.
use vstd::prelude::*;
use crate::error::{
    AppError, ErrorKind, Refusal, ValidationErrors, decided, failed_field, finish_validation,
    invalid_with, note_field, refuse, validation_outcome,
};
use crate::auth::handlers::NANOS_PER_DAY;
use crate::payments::tuition::{admin_name, is_admin_name};
use crate::text::{contains, starts_with, str_contains, str_eq, str_starts_with};
use crate::validation::{chars_within, len_within, opt_chars_within, opt_len_within};
use crate::workspaces::members::opt_view;
use crate::workspaces::types::WorkspaceRole;

verus! {

/// A class is held online when its location is a web address.
pub open spec fn online_location(location: Seq<char>) -> bool {
    starts_with(location, "http://"@) || starts_with(location, "https://"@)
}

pub fn is_online(location: &str) -> (r: bool)
    ensures
        r == online_location(location@),
{
    str_starts_with(location, "http://") || str_starts_with(location, "https://")
}

pub struct CreateClassRequest {
    pub channel_id: Option<u128>,
    pub title: String,
    pub description: Option<String>,
    pub location: String,
    pub starts_at: i64,
    pub ends_at: i64,
    pub tutor_user_id: Option<u128>,
    pub recurrence_rule: Option<String>,
    pub self_checkin_enabled: bool,
}

impl CreateClassRequest {
    pub open spec fn failures(self) -> Seq<Seq<char>> {
        Seq::empty() + failed_field(len_within(self.title@, 1, 500), "title"@) + failed_field(
            len_within(self.location@, 1, 500),
            "location"@,
        )
    }

    pub fn validate(&self) -> (r: Result<(), ValidationErrors>)
        ensures
            validation_outcome(r, self.failures()),
    {
        let mut errs: Vec<String> = Vec::new();
        assert(crate::json::views(errs@) =~= Seq::<Seq<char>>::empty());
        note_field(&mut errs, chars_within(self.title.as_str(), 1, 500), "title");
        note_field(&mut errs, chars_within(self.location.as_str(), 1, 500), "location");
        finish_validation(errs)
    }
}

/// Whether a stored role name is a tutor's or higher.
pub open spec fn is_tutor_name(r: Seq<char>) -> bool {
    r == "proprietor"@ || r == "admin"@ || r == "tutor"@
}

pub fn tutor_name(r: &str) -> (b: bool)
    ensures
        b == is_tutor_name(r@),
{
    str_eq(r, "proprietor") || str_eq(r, "admin") || str_eq(r, "tutor")
}

/// A recurrence rule the service accepts: non-empty and naming a frequency.
pub open spec fn plausible_rule(rule: Seq<char>) -> bool {
    rule.len() > 0 && contains(rule, "FREQ="@)
}

pub open spec fn create_class_refusal(
    req: CreateClassRequest,
    role: WorkspaceRole,
    user_id: u128,
    tutor_role: Option<Seq<char>>,
    channel_found: bool,
) -> Option<Refusal> {
    if !role.tutor_or_above() {
        Some((ErrorKind::Forbidden, "tutor role required"@))
    } else if req.ends_at <= req.starts_at {
        Some((ErrorKind::BadRequest, "start time must be before end time"@))
    } else if req.tutor_user_id matches Some(uid) && !role.admin_or_above() && uid != user_id {
        Some((ErrorKind::Forbidden, "tutors can only create clases for themselves"@))
    } else if req.tutor_user_id is Some && tutor_role is None {
        Some((ErrorKind::NotFound, "tutor not found in workspace"@))
    } else if req.tutor_user_id is Some && !is_tutor_name(tutor_role.unwrap()) {
        Some((ErrorKind::BadRequest, "assigned tutor must have tutor role or higher"@))
    } else if req.recurrence_rule matches Some(rule) && !plausible_rule(rule@) {
        Some((ErrorKind::BadRequest, "invalid recurrence rule"@))
    } else if req.channel_id is Some && !channel_found {
        Some((ErrorKind::BadRequest, "channel nnot found in workspace"@))
    } else {
        None
    }
}

/// Decides scheduling a class. `tutor_role` is the stored role of the assigned
/// tutor in the workspace, if the request names one who is an active member;
/// `channel_found` whether the named channel is a live channel of the workspace.
/// Tutors and above schedule classes, a tutor only for themself; a class ends
/// after it starts; an assigned tutor holds a tutor role or higher; a recurrence rule names a
/// frequency. Returns the class's tutor: the one assigned, else the caller.
pub fn plan_create_class(
    req: &CreateClassRequest,
    role: WorkspaceRole,
    user_id: u128,
    tutor_role: Option<&str>,
    channel_found: bool,
) -> (r: Result<u128, AppError>)
    ensures
        req.failures().len() > 0 ==> invalid_with(r, req.failures()),
        req.failures().len() == 0 ==> decided(
            r,
            create_class_refusal(*req, role, user_id, opt_view(tutor_role), channel_found),
        ),
        r matches Ok(t) ==> t == match req.tutor_user_id {
            Some(uid) => uid,
            None => user_id,
        },
{
    match req.validate() {
        Err(e) => {
            return Err(AppError::Validation(e));
        },
        Ok(()) => {},
    }
    if !role.is_tutor_or_above() {
        return Err(refuse(ErrorKind::Forbidden, "tutor role required"));
    }
    if req.ends_at <= req.starts_at {
        return Err(refuse(ErrorKind::BadRequest, "start time must be before end time"));
    }
    let tutor = match req.tutor_user_id {
        Some(uid) => {
            if !role.is_admin_or_above() && uid != user_id {
                return Err(
                    refuse(ErrorKind::Forbidden, "tutors can only create clases for themselves"),
                );
            }
            match tutor_role {
                None => {
                    return Err(refuse(ErrorKind::NotFound, "tutor not found in workspace"));
                },
                Some(t) => {
                    if !tutor_name(t) {
                        return Err(
                            refuse(
                                ErrorKind::BadRequest,
                                "assigned tutor must have tutor role or higher",
                            ),
                        );
                    }
                },
            }
            uid
        },
        None => user_id,
    };
    match &req.recurrence_rule {
        Some(rule) => {
            if rule.as_str().unicode_len() == 0 || !str_contains(rule.as_str(), "FREQ=") {
                return Err(refuse(ErrorKind::BadRequest, "invalid recurrence rule"));
            }
        },
        None => {},
    }
    if req.channel_id.is_some() && !channel_found {
        return Err(refuse(ErrorKind::BadRequest, "channel nnot found in workspace"));
    }
    Ok(tutor)
}

pub struct ListClassesQuery {
    pub from: Option<i64>,
    pub to: Option<i64>,
    pub tutor_id: Option<u128>,
}

/// The window of start times a listing covers: from `from` (thirty days back when
/// absent) to `from` again (ninety days ahead when absent); the query's `to` is
/// not read.
pub fn class_window(q: &ListClassesQuery, now: i64) -> (r: (i64, i64))
    requires
        i64::MIN + 30 * NANOS_PER_DAY <= now <= i64::MAX - 90 * NANOS_PER_DAY,
    ensures
        r.0 == match q.from {
            Some(f) => f as int,
            None => now - 30 * NANOS_PER_DAY,
        },
        r.1 == match q.from {
            Some(f) => f as int,
            None => now + 90 * NANOS_PER_DAY,
        },
{
    let from = match q.from {
        Some(f) => f,
        None => now - 30 * NANOS_PER_DAY,
    };
    let to = match q.from {
        Some(f) => f,
        None => now + 90 * NANOS_PER_DAY,
    };
    (from, to)
}

/// Reading a class: the caller must be a member of its workspace.
pub fn check_get_class(found: bool, role: Option<&str>) -> (r: Result<(), AppError>)
    ensures
        decided(
            r,
            if !found || role is None {
                Some((ErrorKind::NotFound, "class not found"@))
            } else {
                None
            },
        ),
{
    if !found || role.is_none() {
        return Err(refuse(ErrorKind::NotFound, "class not found"));
    }
    Ok(())
}

pub struct UpdateClassRequest {
    pub title: Option<String>,
    pub description: Option<String>,
    pub location: Option<String>,
    pub starts_at: Option<i64>,
    pub ends_at: Option<i64>,
    pub self_checkin_enabled: Option<bool>,
}

impl UpdateClassRequest {
    pub open spec fn failures(self) -> Seq<Seq<char>> {
        Seq::empty() + failed_field(opt_len_within(self.title, 2, 200), "title"@) + failed_field(
            opt_len_within(self.location, 1, 500),
            "location"@,
        )
    }

    pub fn validate(&self) -> (r: Result<(), ValidationErrors>)
        ensures
            validation_outcome(r, self.failures()),
    {
        let mut errs: Vec<String> = Vec::new();
        assert(crate::json::views(errs@) =~= Seq::<Seq<char>>::empty());
        note_field(&mut errs, opt_chars_within(&self.title, 2, 200), "title");
        note_field(&mut errs, opt_chars_within(&self.location, 1, 500), "location");
        finish_validation(errs)
    }
}

/// A class as its change rules see it.
pub struct ClassRow {
    pub tutor_user_id: u128,
    pub starts_at: i64,
    pub ends_at: i64,
    pub role: Option<String>,
}

pub open spec fn tutor_or_admin_refusal(
    row: Option<ClassRow>,
    user_id: u128,
    forbidden: Seq<char>,
) -> Option<Refusal> {
    match row {
        None => Some((ErrorKind::NotFound, "class not found"@)),
        Some(c) => match c.role {
            None => Some((ErrorKind::NotFound, "class not found"@)),
            Some(role) => if !is_admin_name(role@) && c.tutor_user_id != user_id {
                Some((ErrorKind::Forbidden, forbidden))
            } else {
                None
            },
        },
    }
}

/// The start and end a class has after an update: each as given, else as
/// stored.
pub open spec fn updated_times(req: UpdateClassRequest, c: ClassRow) -> (i64, i64) {
    (
        match req.starts_at {
            Some(s) => s,
            None => c.starts_at,
        },
        match req.ends_at {
            Some(e) => e,
            None => c.ends_at,
        },
    )
}

pub open spec fn update_class_refusal(req: UpdateClassRequest, row: Option<ClassRow>, user_id: u128) -> Option<
    Refusal,
> {
    if tutor_or_admin_refusal(row, user_id, "only assigned tutor or admin can edit"@) is Some {
        tutor_or_admin_refusal(row, user_id, "only assigned tutor or admin can edit"@)
    } else if updated_times(req, row.unwrap()).1 <= updated_times(req, row.unwrap()).0 {
        Some((ErrorKind::BadRequest, "start time must be before end time"@))
    } else {
        None
    }
}

fn check_tutor_or_admin(row: &Option<ClassRow>, user_id: u128, forbidden: &str) -> (r: Result<
    (),
    AppError,
>)
    ensures
        decided(r, tutor_or_admin_refusal(*row, user_id, forbidden@)),
{
    match row {
        None => Err(refuse(ErrorKind::NotFound, "class not found")),
        Some(c) => match &c.role {
            None => Err(refuse(ErrorKind::NotFound, "class not found")),
            Some(role) => {
                if !admin_name(role.as_str()) && c.tutor_user_id != user_id {
                    Err(refuse(ErrorKind::Forbidden, forbidden))
                } else {
                    Ok(())
                }
            },
        },
    }
}

/// Decides a class update: a valid request, by the class's tutor or an
/// administrator, leaving the class ending after it starts (a time not given
/// keeps its stored value).
pub fn check_update_class(req: &UpdateClassRequest, row: &Option<ClassRow>, user_id: u128) -> (r:
    Result<(), AppError>)
    ensures
        req.failures().len() > 0 ==> invalid_with(r, req.failures()),
        req.failures().len() == 0 ==> decided(r, update_class_refusal(*req, *row, user_id)),
{
    match req.validate() {
        Err(e) => {
            return Err(AppError::Validation(e));
        },
        Ok(()) => {},
    }
    check_tutor_or_admin(row, user_id, "only assigned tutor or admin can edit")?;
    let c = row.as_ref().unwrap();
    let new_starts = match req.starts_at {
        Some(s) => s,
        None => c.starts_at,
    };
    let new_ends = match req.ends_at {
        Some(e) => e,
        None => c.ends_at,
    };
    if new_ends <= new_starts {
        return Err(refuse(ErrorKind::BadRequest, "start time must be before end time"));
    }
    Ok(())
}

/// After an accepted update the class starts before it ends.
pub proof fn law_accepted_update_keeps_order(req: UpdateClassRequest, c: ClassRow, user_id: u128)
    requires
        update_class_refusal(req, Some(c), user_id) is None,
    ensures
        updated_times(req, c).0 < updated_times(req, c).1,
{
}

/// An update that changes neither time is never refused for its times: a class
/// that started before it ended still does.
pub proof fn law_untimed_update_keeps_times(req: UpdateClassRequest, c: ClassRow, user_id: u128)
    requires
        c.starts_at < c.ends_at,
        req.starts_at is None,
        req.ends_at is None,
        tutor_or_admin_refusal(Some(c), user_id, "only assigned tutor or admin can edit"@) is None,
    ensures
        update_class_refusal(req, Some(c), user_id) is None,
{
}

/// Decides cancelling a class: by its tutor or an administrator.
pub fn check_cancel_class(row: &Option<ClassRow>, user_id: u128) -> (r: Result<(), AppError>)
    ensures
        decided(r, tutor_or_admin_refusal(*row, user_id, "only assigned tutor or admin can cancel"@)),
{
    check_tutor_or_admin(row, user_id, "only assigned tutor or admin can cancel")
}

} // verus!
