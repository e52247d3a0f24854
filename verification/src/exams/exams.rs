//! Exams: the creation request and its defaults, and who may create, publish and
//! delete an exam. Times are nanoseconds since the Unix epoch.
use vstd::prelude::*;
use crate::error::{
    AppError, ErrorKind, Refusal, ValidationErrors, decided, failed_field, finish_validation,
    invalid_with, note_field, refuse, validation_outcome,
};
use crate::exams::selection::SelectionCriteria;
use crate::json::JsonValue;
use crate::payments::tuition::{admin_name, is_admin_name};
use crate::text::str_eq;
use crate::validation::{chars_within, len_within};
use crate::workspaces::types::WorkspaceRole;

verus! {

/// The pass mark of an exam that names none: half the marks.
pub fn default_pass_mark() -> (n: i32)
    ensures
        n == 50,
{
    50
}

/// The number of attempts an exam allows when it names none: one.
pub fn default_max_attempts() -> (n: i32)
    ensures
        n == 1,
{
    1
}

/// Exams shuffle questions and options and show results at once unless a
/// request says otherwise.
pub fn default_true() -> (b: bool)
    ensures
        b,
{
    true
}

/// Who may sit an exam that names nobody: `{"type": "all_Students"}`.
pub fn default_eligibility() -> (v: JsonValue)
    ensures
        v.text_field("type"@) == Some("all_Students"@),
        v matches JsonValue::Object(m) && m@.len() == 1,
{
    let mut m: Vec<(String, JsonValue)> = Vec::new();
    m.push((String::from_str("type"), JsonValue::Str(String::from_str("all_Students"))));
    let v = JsonValue::Object(m);
    proof {
        reveal_strlit("type");
        assert(crate::json::member(m@, "type"@) == Some(JsonValue::Str(m@[0].1->Str_0)));
    }
    v
}

pub struct CreateExamRequest {
    pub title: String,
    pub description: Option<String>,
    pub selection_criteria: SelectionCriteria,
    pub duration_minutes: i32,
    pub pass_mark_percent: i32,
    pub scheduled_start_at: Option<i64>,
    pub scheduled_end_at: Option<i64>,
    pub eligibility: JsonValue,
    pub allow_retakes: bool,
    pub max_attempts: i32,
    pub randomize_questions: bool,
    pub randomize_options: bool,
    pub show_results_immediately: bool,
}

impl CreateExamRequest {
    pub open spec fn failures(self) -> Seq<Seq<char>> {
        Seq::empty() + failed_field(len_within(self.title@, 2, 200), "title"@) + failed_field(
            5 <= self.duration_minutes <= 480,
            "duration_minutes"@,
        ) + failed_field(0 <= self.pass_mark_percent <= 100, "pass_mark_percent"@) + failed_field(
            1 <= self.max_attempts <= 10,
            "max_attempts"@,
        )
    }

    pub fn validate(&self) -> (r: Result<(), ValidationErrors>)
        ensures
            validation_outcome(r, self.failures()),
    {
        let mut errs: Vec<String> = Vec::new();
        assert(crate::json::views(errs@) =~= Seq::<Seq<char>>::empty());
        note_field(&mut errs, chars_within(self.title.as_str(), 2, 200), "title");
        note_field(
            &mut errs,
            5 <= self.duration_minutes && self.duration_minutes <= 480,
            "duration_minutes",
        );
        note_field(
            &mut errs,
            0 <= self.pass_mark_percent && self.pass_mark_percent <= 100,
            "pass_mark_percent",
        );
        note_field(&mut errs, 1 <= self.max_attempts && self.max_attempts <= 10, "max_attempts");
        finish_validation(errs)
    }
}

pub open spec fn create_exam_refusal(req: CreateExamRequest, role: WorkspaceRole) -> Option<Refusal> {
    if !role.tutor_or_above() {
        Some((ErrorKind::Forbidden, "tutor role required"@))
    } else if req.scheduled_start_at matches Some(s) && req.scheduled_end_at matches Some(e) && e
        <= s {
        Some((ErrorKind::BadRequest, "scheduled_end_at must be after scheduled_start_at"@))
    } else {
        None
    }
}

/// The checks an exam passes before its selection is examined: a valid request,
/// by a tutor or higher, whose window, when it has both ends, ends after it
/// starts.
pub fn check_create_exam(req: &CreateExamRequest, role: WorkspaceRole) -> (r: Result<(), AppError>)
    ensures
        req.failures().len() > 0 ==> invalid_with(r, req.failures()),
        req.failures().len() == 0 ==> decided(r, create_exam_refusal(*req, role)),
{
    match req.validate() {
        Err(e) => {
            return Err(AppError::Validation(e));
        },
        Ok(()) => {},
    }
    if !role.is_tutor_or_above() {
        return Err(refuse(ErrorKind::Forbidden, "tutor role required"));
    }
    match (req.scheduled_start_at, req.scheduled_end_at) {
        (Some(start), Some(end)) => {
            if end <= start {
                return Err(
                    refuse(
                        ErrorKind::BadRequest,
                        "scheduled_end_at must be after scheduled_start_at",
                    ),
                );
            }
        },
        _ => {},
    }
    Ok(())
}

/// An exam whose selection is worth nothing is refused.
pub fn check_total_marks(total_marks: i64) -> (r: Result<(), AppError>)
    ensures
        decided(
            r,
            if total_marks == 0 {
                Some((ErrorKind::BadRequest, "resolved questions have zero total marks"@))
            } else {
                None
            },
        ),
{
    if total_marks == 0 {
        return Err(refuse(ErrorKind::BadRequest, "resolved questions have zero total marks"));
    }
    Ok(())
}

/// A live exam as its management rules see it.
pub struct ExamRow {
    pub creator_user_id: u128,
    pub status: String,
    pub role: Option<String>,
}

pub open spec fn exam_owner_refusal(row: Option<ExamRow>, user_id: u128) -> Option<Refusal> {
    match row {
        None => Some((ErrorKind::NotFound, "exam not found"@)),
        Some(e) => match e.role {
            None => Some((ErrorKind::NotFound, "exam not found"@)),
            Some(role) => if e.creator_user_id != user_id && !is_admin_name(role@) {
                Some((ErrorKind::Forbidden, "creator or admin only"@))
            } else {
                None
            },
        },
    }
}

/// Deleting an exam: by its creator or an administrator of its workspace.
pub fn check_delete_exam(row: &Option<ExamRow>, user_id: u128) -> (r: Result<(), AppError>)
    ensures
        decided(r, exam_owner_refusal(*row, user_id)),
{
    match row {
        None => Err(refuse(ErrorKind::NotFound, "exam not found")),
        Some(e) => match &e.role {
            None => Err(refuse(ErrorKind::NotFound, "exam not found")),
            Some(role) => {
                if e.creator_user_id != user_id && !admin_name(role.as_str()) {
                    Err(refuse(ErrorKind::Forbidden, "creator or admin only"))
                } else {
                    Ok(())
                }
            },
        },
    }
}

pub open spec fn publish_exam_refusal(row: Option<ExamRow>, user_id: u128) -> Option<Refusal> {
    if exam_owner_refusal(row, user_id) is Some {
        exam_owner_refusal(row, user_id)
    } else if row.unwrap().status@ != "draft"@ {
        Some((ErrorKind::BadRequest, "exam is not in draft status"@))
    } else {
        None
    }
}

/// The checks publishing an exam passes before its selection is examined again:
/// a draft, published by its creator or an administrator.
pub fn check_publish_exam(row: &Option<ExamRow>, user_id: u128) -> (r: Result<(), AppError>)
    ensures
        decided(r, publish_exam_refusal(*row, user_id)),
{
    check_delete_exam(row, user_id)?;
    let e = row.as_ref().unwrap();
    if !str_eq(e.status.as_str(), "draft") {
        return Err(refuse(ErrorKind::BadRequest, "exam is not in draft status"));
    }
    Ok(())
}

} // verus!
