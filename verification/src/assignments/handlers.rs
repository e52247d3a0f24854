//! Assignments and their submissions: creating, publishing, changing and
//! deleting assignments, submitting work, listing and grading submissions.
//! Times are nanoseconds since the Unix epoch.
use vstd::prelude::*;
use crate::error::{
    AppError, ErrorKind, Refusal, ValidationErrors, decided, failed_field, finish_validation,
    invalid_with, note_field, refuse, validation_outcome,
};
use crate::classes::handlers::{is_tutor_name, tutor_name};
use crate::json::JsonValue;
use crate::payments::tuition::{admin_name, is_admin_name};
use crate::text::{is_blank, is_blank_str, signed_decimal, signed_decimal_string, str_eq};
use crate::validation::{chars_within, len_within, opt_chars_within, opt_len_within, opt_in_range};
use crate::workspaces::types::WorkspaceRole;

verus! {

/// The attachments of a request that names none: an empty list.
pub fn default_attachments() -> (v: JsonValue)
    ensures
        v matches JsonValue::Array(a) && a@.len() == 0,
{
    JsonValue::Array(Vec::new())
}

/// Late submissions are allowed unless a request says otherwise.
pub fn default_true() -> (b: bool)
    ensures
        b,
{
    true
}

pub struct CreateAssignmentRequest {
    pub channel_id: u128,
    pub title: String,
    pub description: String,
    pub attachments: JsonValue,
    pub max_score: i32,
    pub due_at: i64,
    pub allow_late: bool,
    pub late_penalty_percent: i32,
}

impl CreateAssignmentRequest {
    pub open spec fn failures(self) -> Seq<Seq<char>> {
        Seq::empty() + failed_field(len_within(self.title@, 2, 200), "title"@) + failed_field(
            self.max_score >= 1,
            "max_score"@,
        ) + failed_field(0 <= self.late_penalty_percent <= 100, "late_penalty_percent"@)
    }

    pub fn validate(&self) -> (r: Result<(), ValidationErrors>)
        ensures
            validation_outcome(r, self.failures()),
    {
        let mut errs: Vec<String> = Vec::new();
        assert(crate::json::views(errs@) =~= Seq::<Seq<char>>::empty());
        note_field(&mut errs, chars_within(self.title.as_str(), 2, 200), "title");
        note_field(&mut errs, self.max_score >= 1, "max_score");
        note_field(
            &mut errs,
            0 <= self.late_penalty_percent && self.late_penalty_percent <= 100,
            "late_penalty_percent",
        );
        finish_validation(errs)
    }
}

pub open spec fn create_assignment_refusal(
    req: CreateAssignmentRequest,
    role: WorkspaceRole,
    now: i64,
    channel_found: bool,
) -> Option<Refusal> {
    if !role.tutor_or_above() {
        Some((ErrorKind::Forbidden, "tutor role required"@))
    } else if req.due_at <= now {
        Some((ErrorKind::BadRequest, "due date must be in the future"@))
    } else if !channel_found {
        Some((ErrorKind::BadRequest, "channel not found in workspace"@))
    } else {
        None
    }
}

/// Decides creating an assignment: a valid request, by a tutor or higher, due in
/// the future, in a live channel of the workspace (`channel_found`).
pub fn check_create_assignment(
    req: &CreateAssignmentRequest,
    role: WorkspaceRole,
    now: i64,
    channel_found: bool,
) -> (r: Result<(), AppError>)
    ensures
        req.failures().len() > 0 ==> invalid_with(r, req.failures()),
        req.failures().len() == 0 ==> decided(
            r,
            create_assignment_refusal(*req, role, now, channel_found),
        ),
{
    match req.validate() {
        Err(e) => {
            return Err(AppError::Validation(e));
        },
        Ok(()) => {},
    }
    if !role.is_tutor_or_above() {
        return Err(refuse(ErrorKind::Forbidden, "tutor role required"));
    }
    if req.due_at <= now {
        return Err(refuse(ErrorKind::BadRequest, "due date must be in the future"));
    }
    if !channel_found {
        return Err(refuse(ErrorKind::BadRequest, "channel not found in workspace"));
    }
    Ok(())
}

/// A live assignment as its management rules see it.
pub struct AssignmentRow {
    pub creator_user_id: u128,
    pub status: String,
    pub role: Option<String>,
}

pub open spec fn publish_refusal(row: Option<AssignmentRow>, user_id: u128) -> Option<Refusal> {
    match row {
        None => Some((ErrorKind::NotFound, "assignment not found"@)),
        Some(a) => match a.role {
            None => Some((ErrorKind::NotFound, "assignment not found"@)),
            Some(role) => if a.creator_user_id != user_id && !is_admin_name(role@) {
                Some((ErrorKind::Forbidden, "creator or admin only"@))
            } else if a.status@ != "draft"@ {
                Some((ErrorKind::BadRequest, "assignment is not in draft status"@))
            } else {
                None
            },
        },
    }
}

/// Decides publishing an assignment: a draft, published by its creator or an
/// administrator of its workspace.
pub fn check_publish_assignment(row: &Option<AssignmentRow>, user_id: u128) -> (r: Result<
    (),
    AppError,
>)
    ensures
        decided(r, publish_refusal(*row, user_id)),
{
    let a = match row {
        None => {
            return Err(refuse(ErrorKind::NotFound, "assignment not found"));
        },
        Some(a) => a,
    };
    let role = match &a.role {
        None => {
            return Err(refuse(ErrorKind::NotFound, "assignment not found"));
        },
        Some(role) => role,
    };
    if a.creator_user_id != user_id && !admin_name(role.as_str()) {
        return Err(refuse(ErrorKind::Forbidden, "creator or admin only"));
    }
    if !str_eq(a.status.as_str(), "draft") {
        return Err(refuse(ErrorKind::BadRequest, "assignment is not in draft status"));
    }
    Ok(())
}

/// A published assignment cannot be published again.
pub proof fn law_publish_only_drafts(a: AssignmentRow, user_id: u128)
    requires
        a.status@ == "published"@,
    ensures
        publish_refusal(Some(a), user_id) is Some,
{
    reveal_strlit("published");
    reveal_strlit("draft");
    assert("published"@.len() != "draft"@.len());
}

/// Whether a listing shows drafts too: only to tutors and higher.
pub fn shows_drafts(role: WorkspaceRole) -> (r: bool)
    ensures
        r == role.tutor_or_above(),
{
    role.is_tutor_or_above()
}

pub struct UpdateAssignmentRequest {
    pub title: Option<String>,
    pub description: Option<String>,
    pub attachments: Option<JsonValue>,
    pub max_score: Option<i32>,
    pub due_at: Option<i64>,
    pub allow_late: Option<bool>,
    pub late_penalty_percent: Option<i32>,
}

pub open spec fn opt_i32(v: Option<i32>) -> Option<int> {
    match v {
        Some(n) => Some(n as int),
        None => None,
    }
}

impl UpdateAssignmentRequest {
    pub open spec fn failures(self) -> Seq<Seq<char>> {
        Seq::empty() + failed_field(opt_len_within(self.title, 2, 200), "title"@) + failed_field(
            match self.max_score {
                Some(m) => m >= 1,
                None => true,
            },
            "max_score"@,
        ) + failed_field(opt_in_range(opt_i32(self.late_penalty_percent), 0, 100), "late_penalty_percent"@)
    }

    pub fn validate(&self) -> (r: Result<(), ValidationErrors>)
        ensures
            validation_outcome(r, self.failures()),
    {
        let mut errs: Vec<String> = Vec::new();
        assert(crate::json::views(errs@) =~= Seq::<Seq<char>>::empty());
        note_field(&mut errs, opt_chars_within(&self.title, 2, 200), "title");
        let score_ok = match self.max_score {
            Some(m) => m >= 1,
            None => true,
        };
        note_field(&mut errs, score_ok, "max_score");
        let penalty_ok = match self.late_penalty_percent {
            Some(p) => 0 <= p && p <= 100,
            None => true,
        };
        note_field(&mut errs, penalty_ok, "late_penalty_percent");
        finish_validation(errs)
    }
}

pub open spec fn update_assignment_refusal(row: Option<AssignmentRow>, user_id: u128) -> Option<
    Refusal,
> {
    match row {
        None => Some((ErrorKind::NotFound, "assignment not found"@)),
        Some(a) => match a.role {
            None => Some((ErrorKind::NotFound, "assignement not found"@)),
            Some(role) => if a.creator_user_id != user_id && !is_admin_name(role@) {
                Some((ErrorKind::Forbidden, "creator or admin only"@))
            } else {
                None
            },
        },
    }
}

/// Decides changing an assignment: a valid request by its creator, or by a
/// proprietor or admin of its workspace.
pub fn check_update_assignment(
    req: &UpdateAssignmentRequest,
    row: &Option<AssignmentRow>,
    user_id: u128,
) -> (r: Result<(), AppError>)
    ensures
        req.failures().len() > 0 ==> invalid_with(r, req.failures()),
        req.failures().len() == 0 ==> decided(r, update_assignment_refusal(*row, user_id)),
{
    match req.validate() {
        Err(e) => {
            return Err(AppError::Validation(e));
        },
        Ok(()) => {},
    }
    let a = match row {
        None => {
            return Err(refuse(ErrorKind::NotFound, "assignment not found"));
        },
        Some(a) => a,
    };
    let role = match &a.role {
        None => {
            return Err(refuse(ErrorKind::NotFound, "assignement not found"));
        },
        Some(role) => role,
    };
    if a.creator_user_id != user_id && !admin_name(role.as_str()) {
        return Err(refuse(ErrorKind::Forbidden, "creator or admin only"));
    }
    Ok(())
}

pub open spec fn delete_assignment_refusal(row: Option<AssignmentRow>, user_id: u128) -> Option<
    Refusal,
> {
    match row {
        None => Some((ErrorKind::NotFound, "assignement not found"@)),
        Some(a) => match a.role {
            None => Some((ErrorKind::NotFound, "assignment not found"@)),
            Some(role) => if !is_admin_name(role@) && a.creator_user_id != user_id {
                Some((ErrorKind::Forbidden, "creator or admin only"@))
            } else {
                None
            },
        },
    }
}

/// Decides deleting an assignment: by its creator or an administrator.
pub fn check_delete_assignment(row: &Option<AssignmentRow>, user_id: u128) -> (r: Result<
    (),
    AppError,
>)
    ensures
        decided(r, delete_assignment_refusal(*row, user_id)),
{
    let a = match row {
        None => {
            return Err(refuse(ErrorKind::NotFound, "assignement not found"));
        },
        Some(a) => a,
    };
    match &a.role {
        None => Err(refuse(ErrorKind::NotFound, "assignment not found")),
        Some(role) => {
            if !admin_name(role.as_str()) && a.creator_user_id != user_id {
                Err(refuse(ErrorKind::Forbidden, "creator or admin only"))
            } else {
                Ok(())
            }
        },
    }
}

pub struct SubmitAssignmentRequest {
    pub content: String,
    pub attachments: JsonValue,
}

impl SubmitAssignmentRequest {
    /// The content may be at most 20000 characters long.
    pub open spec fn failures(self) -> Seq<Seq<char>> {
        Seq::empty() + failed_field(self.content@.len() <= 20000, "content"@)
    }

    pub fn validate(&self) -> (r: Result<(), ValidationErrors>)
        ensures
            validation_outcome(r, self.failures()),
    {
        let mut errs: Vec<String> = Vec::new();
        assert(crate::json::views(errs@) =~= Seq::<Seq<char>>::empty());
        let n = crate::text::char_count(self.content.as_str());
        note_field(&mut errs, n <= 20000, "content");
        finish_validation(errs)
    }
}

/// A live assignment as the submission rule sees it.
pub struct SubmissionTarget {
    pub due_at: i64,
    pub allow_late: bool,
    pub status: String,
    pub role: Option<String>,
}

pub open spec fn submit_refusal(
    req: SubmitAssignmentRequest,
    row: Option<SubmissionTarget>,
    now: i64,
) -> Option<Refusal> {
    match row {
        None => Some((ErrorKind::NotFound, "assignement not found"@)),
        Some(a) => if a.role is None {
            Some((ErrorKind::NotFound, "assignement not found"@))
        } else if a.status@ != "published"@ {
            Some((ErrorKind::BadRequest, "assignement is not open for submissions"@))
        } else if now > a.due_at && !a.allow_late {
            Some((ErrorKind::BadRequest, "late submission not allowed"@))
        } else if is_blank(req.content@) && !req.attachments.is_nonempty_array() {
            Some((ErrorKind::BadRequest, "submission must have content or attachments"@))
        } else {
            None
        },
    }
}

/// Decides a submission: a valid request, by a member of the workspace, to a
/// published assignment, on time unless late work is allowed, with content or
/// attachments. Returns whether the submission is late.
pub fn check_submit_assignment(
    req: &SubmitAssignmentRequest,
    row: &Option<SubmissionTarget>,
    now: i64,
) -> (r: Result<bool, AppError>)
    ensures
        req.failures().len() > 0 ==> invalid_with(r, req.failures()),
        req.failures().len() == 0 ==> decided(r, submit_refusal(*req, *row, now)),
        r matches Ok(late) ==> *row matches Some(a) && late == (now > a.due_at),
{
    match req.validate() {
        Err(e) => {
            return Err(AppError::Validation(e));
        },
        Ok(()) => {},
    }
    let a = match row {
        None => {
            return Err(refuse(ErrorKind::NotFound, "assignement not found"));
        },
        Some(a) => a,
    };
    if a.role.is_none() {
        return Err(refuse(ErrorKind::NotFound, "assignement not found"));
    }
    if !str_eq(a.status.as_str(), "published") {
        return Err(refuse(ErrorKind::BadRequest, "assignement is not open for submissions"));
    }
    let is_late = now > a.due_at;
    if is_late && !a.allow_late {
        return Err(refuse(ErrorKind::BadRequest, "late submission not allowed"));
    }
    if is_blank_str(req.content.as_str()) && !req.attachments.has_items() {
        return Err(refuse(ErrorKind::BadRequest, "submission must have content or attachments"));
    }
    Ok(is_late)
}

/// Only a member of the assignment's workspace may submit to it: a caller with
/// no role there is answered as if the assignment did not exist.
pub proof fn law_non_members_cannot_submit(req: SubmitAssignmentRequest, a: SubmissionTarget, now: i64)
    requires
        a.role is None,
    ensures
        submit_refusal(req, Some(a), now) == Some((ErrorKind::NotFound, "assignement not found"@)),
{
}

/// A submission is accepted exactly when the caller holds a role in the
/// assignment's workspace, the assignment is published, it is not past due
/// unless late work is allowed, and the work has content or attachments.
pub proof fn law_submission_allowed_exactly_when(
    req: SubmitAssignmentRequest,
    row: Option<SubmissionTarget>,
    now: i64,
)
    ensures
        submit_refusal(req, row, now) is None <==> ({
            &&& row matches Some(a)
            &&& a.role is Some
            &&& a.status@ == "published"@
            &&& (now <= a.due_at || a.allow_late)
            &&& (!is_blank(req.content@) || req.attachments.is_nonempty_array())
        }),
{
}

/// Work on an assignment that takes no late work is refused once it is due.
pub proof fn law_no_late_work(req: SubmitAssignmentRequest, a: SubmissionTarget, now: i64)
    requires
        a.role is Some,
        a.status@ == "published"@,
        !a.allow_late,
        now > a.due_at,
    ensures
        submit_refusal(req, Some(a), now) == Some((ErrorKind::BadRequest, "late submission not allowed"@)),
{
}

pub open spec fn list_submissions_refusal(row: Option<Option<String>>) -> Option<Refusal> {
    match row {
        None => Some((ErrorKind::NotFound, "assignment not found"@)),
        Some(None) => Some((ErrorKind::NotFound, "assignement not found"@)),
        Some(Some(_)) => None,
    }
}

/// Decides listing an assignment's submissions. `row` is the caller's role in
/// the workspace of a live assignment, if the assignment exists. Tutors and
/// higher see every submission; others only their own (returns whether the
/// caller sees all).
pub fn check_list_submissions(row: &Option<Option<String>>) -> (r: Result<bool, AppError>)
    ensures
        decided(r, list_submissions_refusal(*row)),
        r matches Ok(all) ==> *row matches Some(Some(role)) && all == is_tutor_name(role@),
{
    match row {
        None => Err(refuse(ErrorKind::NotFound, "assignment not found")),
        Some(None) => Err(refuse(ErrorKind::NotFound, "assignement not found")),
        Some(Some(role)) => Ok(tutor_name(role.as_str())),
    }
}

pub open spec fn grade_refusal(row: Option<Option<String>>) -> Option<Refusal> {
    match row {
        None => Some((ErrorKind::NotFound, "submission not found"@)),
        Some(None) => Some((ErrorKind::NotFound, "submission not found"@)),
        Some(Some(role)) => if !is_tutor_name(role@) {
            Some((ErrorKind::Forbidden, "tutor role required"@))
        } else {
            None
        },
    }
}

/// Decides who may grade a submission. `row` is the caller's role in the
/// workspace of the submission's assignment, if the submission exists. A caller
/// whose role is below tutor is refused; tutors and above pass on to the score
/// checks.
pub fn check_grade_role(row: &Option<Option<String>>) -> (r: Result<(), AppError>)
    ensures
        decided(r, grade_refusal(*row)),
{
    match row {
        None => Err(refuse(ErrorKind::NotFound, "submission not found")),
        Some(None) => Err(refuse(ErrorKind::NotFound, "submission not found")),
        Some(Some(role)) => {
            if !tutor_name(role.as_str()) {
                Err(refuse(ErrorKind::Forbidden, "tutor role required"))
            } else {
                Ok(())
            }
        },
    }
}

/// The refusal of a score above the submission's maximum.
pub fn score_cap_message(max_score: i32) -> (r: String)
    ensures
        r@ == "score cannot exceed max_score ("@ + signed_decimal(max_score as int) + ")"@,
{
    let mut s = String::from_str("score cannot exceed max_score (");
    let d = signed_decimal_string(max_score as i64);
    s.append(d.as_str());
    s.append(")");
    s
}

/// A submission is graded exactly by a proprietor, admin or tutor of its
/// workspace; a student is refused.
pub proof fn law_grade_exactly_when(row: Option<Option<String>>)
    ensures
        grade_refusal(row) is None <==> (row matches Some(Some(role)) && (role@ == "proprietor"@
            || role@ == "admin"@ || role@ == "tutor"@)),
        row matches Some(Some(role)) && role@ == "student"@ ==> grade_refusal(row) == Some(
            (ErrorKind::Forbidden, "tutor role required"@),
        ),
{
    reveal_strlit("student");
    reveal_strlit("tutor");
    reveal_strlit("admin");
    reveal_strlit("proprietor");
    assert("student"@.len() == 7 && "tutor"@.len() == 5 && "admin"@.len() == 5
        && "proprietor"@.len() == 10);
}

} // verus!
