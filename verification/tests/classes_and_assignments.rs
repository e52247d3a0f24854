use lekta_api::assignments::handlers::{
    check_create_assignment, check_delete_assignment, check_grade_role, check_list_submissions,
    check_publish_assignment, check_submit_assignment, check_update_assignment,
    default_attachments, default_true, score_cap_message, shows_drafts, AssignmentRow,
    CreateAssignmentRequest, SubmissionTarget, SubmitAssignmentRequest, UpdateAssignmentRequest,
};
use lekta_api::classes::handlers::{
    check_cancel_class, check_get_class, check_update_class, class_window, is_online,
    plan_create_class, ClassRow, CreateClassRequest, ListClassesQuery, UpdateClassRequest,
};
use lekta_api::error::AppError;
use lekta_api::json::JsonValue;
use lekta_api::workspaces::types::WorkspaceRole;

fn refusal_ca<T>(r: Result<T, AppError>) -> (u16, String) {
    let e = r.err().expect("a refusal");
    (e.status_and_code().0, e.to_text())
}

fn fields_ca<T>(r: Result<T, AppError>) -> Vec<String> {
    match r {
        Err(AppError::Validation(v)) => v.fields,
        _ => panic!("expected a validation failure"),
    }
}

const DAY: i64 = 86_400_000_000_000;

fn class_req(starts: i64, ends: i64) -> CreateClassRequest {
    CreateClassRequest {
        channel_id: None,
        title: "Algebra".to_string(),
        description: None,
        location: "Room 4".to_string(),
        starts_at: starts,
        ends_at: ends,
        tutor_user_id: None,
        recurrence_rule: None,
        self_checkin_enabled: false,
    }
}

#[test]
fn online_classes_have_web_locations() {
    assert!(is_online("https://meet.example.com/x"));
    assert!(is_online("http://zoom.us/j/1"));
    assert!(!is_online("Room 4"));
    assert!(!is_online("ftp://files"));
}

#[test]
fn create_class_rules() {
    assert!(matches!(plan_create_class(&class_req(10, 20), WorkspaceRole::Admin, 7, None, false), Ok(7)));
    assert!(matches!(plan_create_class(&class_req(10, 20), WorkspaceRole::Tutor, 7, None, false), Ok(7)));
    assert_eq!(refusal_ca(plan_create_class(&class_req(10, 20), WorkspaceRole::Student, 7, None, false)), (403, "Forbidden: tutor role required".to_string()));
    let mut other = class_req(10, 20);
    other.tutor_user_id = Some(9);
    assert_eq!(refusal_ca(plan_create_class(&other, WorkspaceRole::Tutor, 7, Some("tutor"), false)), (403, "Forbidden: tutors can only create clases for themselves".to_string()));
    other.tutor_user_id = Some(7);
    assert!(matches!(plan_create_class(&other, WorkspaceRole::Tutor, 7, Some("tutor"), false), Ok(7)));
    assert_eq!(refusal_ca(plan_create_class(&class_req(20, 20), WorkspaceRole::Admin, 7, None, false)), (400, "Bad request: start time must be before end time".to_string()));
    let mut assigned = class_req(10, 20);
    assigned.tutor_user_id = Some(9);
    assert_eq!(refusal_ca(plan_create_class(&assigned, WorkspaceRole::Admin, 7, None, false)), (404, "Not Found: tutor not found in workspace".to_string()));
    assert_eq!(refusal_ca(plan_create_class(&assigned, WorkspaceRole::Admin, 7, Some("student"), false)), (400, "Bad request: assigned tutor must have tutor role or higher".to_string()));
    assert!(matches!(plan_create_class(&assigned, WorkspaceRole::Admin, 7, Some("tutor"), false), Ok(9)));
    let mut rrule = class_req(10, 20);
    rrule.recurrence_rule = Some("WEEKLY".to_string());
    assert_eq!(refusal_ca(plan_create_class(&rrule, WorkspaceRole::Admin, 7, None, false)), (400, "Bad request: invalid recurrence rule".to_string()));
    rrule.recurrence_rule = Some("FREQ=WEEKLY;BYDAY=MO".to_string());
    assert!(plan_create_class(&rrule, WorkspaceRole::Admin, 7, None, false).is_ok());
    let mut chan = class_req(10, 20);
    chan.channel_id = Some(3);
    assert_eq!(refusal_ca(plan_create_class(&chan, WorkspaceRole::Admin, 7, None, false)), (400, "Bad request: channel nnot found in workspace".to_string()));
    let mut blank = class_req(10, 20);
    blank.title = String::new();
    blank.location = String::new();
    assert_eq!(fields_ca(plan_create_class(&blank, WorkspaceRole::Admin, 7, None, true)), vec!["title".to_string(), "location".to_string()]);
}

#[test]
fn class_listing_window() {
    let now = 1_000 * DAY;
    let none = ListClassesQuery { from: None, to: None, tutor_id: None };
    assert_eq!(class_window(&none, now), (now - 30 * DAY, now + 90 * DAY));
    let from = ListClassesQuery { from: Some(5), to: Some(99), tutor_id: None };
    assert_eq!(class_window(&from, now), (5, 5));
}

#[test]
fn reading_a_class_needs_membership() {
    assert!(check_get_class(true, Some("student")).is_ok());
    assert_eq!(refusal_ca(check_get_class(true, None)), (404, "Not Found: class not found".to_string()));
    assert_eq!(refusal_ca(check_get_class(false, Some("admin"))), (404, "Not Found: class not found".to_string()));
}

fn class_row(tutor: u128, role: Option<&str>) -> Option<ClassRow> {
    Some(ClassRow { tutor_user_id: tutor, starts_at: 100, ends_at: 200, role: role.map(|r| r.to_string()) })
}

#[test]
fn update_class_rules() {
    let times = UpdateClassRequest { title: None, description: None, location: None, starts_at: None, ends_at: Some(150), self_checkin_enabled: None };
    assert!(check_update_class(&times, &class_row(1, Some("tutor")), 1).is_ok());
    assert_eq!(refusal_ca(check_update_class(&times, &class_row(2, Some("tutor")), 1)), (403, "Forbidden: only assigned tutor or admin can edit".to_string()));
    assert!(check_update_class(&times, &class_row(2, Some("admin")), 1).is_ok());
    // A time not given keeps its stored value.
    let title_only = UpdateClassRequest { title: Some("Geometry".to_string()), description: None, location: None, starts_at: None, ends_at: None, self_checkin_enabled: None };
    assert!(check_update_class(&title_only, &class_row(1, Some("tutor")), 1).is_ok());
    let late_start = UpdateClassRequest { title: None, description: None, location: None, starts_at: Some(250), ends_at: None, self_checkin_enabled: None };
    assert_eq!(refusal_ca(check_update_class(&late_start, &class_row(1, Some("tutor")), 1)), (400, "Bad request: start time must be before end time".to_string()));
    let earlier = UpdateClassRequest { title: None, description: None, location: None, starts_at: Some(50), ends_at: None, self_checkin_enabled: None };
    assert!(check_update_class(&earlier, &class_row(1, Some("tutor")), 1).is_ok());
    assert_eq!(refusal_ca(check_update_class(&times, &None, 1)), (404, "Not Found: class not found".to_string()));
    let bad = UpdateClassRequest { title: Some("G".to_string()), description: None, location: None, starts_at: None, ends_at: Some(150), self_checkin_enabled: None };
    assert_eq!(fields_ca(check_update_class(&bad, &class_row(1, Some("tutor")), 1)), vec!["title".to_string()]);
}

#[test]
fn cancel_class_rules() {
    assert!(check_cancel_class(&class_row(1, Some("student")), 1).is_ok());
    assert_eq!(refusal_ca(check_cancel_class(&class_row(2, Some("tutor")), 1)), (403, "Forbidden: only assigned tutor or admin can cancel".to_string()));
    assert_eq!(refusal_ca(check_cancel_class(&class_row(1, None), 1)), (404, "Not Found: class not found".to_string()));
}

fn assignment_req(due: i64) -> CreateAssignmentRequest {
    CreateAssignmentRequest {
        channel_id: 1,
        title: "Essay".to_string(),
        description: String::new(),
        attachments: default_attachments(),
        max_score: 100,
        due_at: due,
        allow_late: default_true(),
        late_penalty_percent: 0,
    }
}

#[test]
fn assignment_defaults() {
    assert!(matches!(default_attachments(), JsonValue::Array(ref a) if a.is_empty()));
    assert!(default_true());
    assert!(shows_drafts(WorkspaceRole::Tutor));
    assert!(!shows_drafts(WorkspaceRole::Student));
}

#[test]
fn create_assignment_rules() {
    assert!(check_create_assignment(&assignment_req(200), WorkspaceRole::Tutor, 100, true).is_ok());
    assert_eq!(refusal_ca(check_create_assignment(&assignment_req(200), WorkspaceRole::Student, 100, true)), (403, "Forbidden: tutor role required".to_string()));
    assert_eq!(refusal_ca(check_create_assignment(&assignment_req(100), WorkspaceRole::Tutor, 100, true)), (400, "Bad request: due date must be in the future".to_string()));
    assert_eq!(refusal_ca(check_create_assignment(&assignment_req(200), WorkspaceRole::Tutor, 100, false)), (400, "Bad request: channel not found in workspace".to_string()));
    let mut bad = assignment_req(200);
    bad.title = "E".to_string();
    bad.max_score = 0;
    bad.late_penalty_percent = 101;
    assert_eq!(fields_ca(check_create_assignment(&bad, WorkspaceRole::Tutor, 100, true)), vec!["title".to_string(), "max_score".to_string(), "late_penalty_percent".to_string()]);
}

fn arow(creator: u128, status: &str, role: Option<&str>) -> Option<AssignmentRow> {
    Some(AssignmentRow { creator_user_id: creator, status: status.to_string(), role: role.map(|r| r.to_string()) })
}

#[test]
fn publish_assignment_rules() {
    assert!(check_publish_assignment(&arow(1, "draft", Some("tutor")), 1).is_ok());
    assert_eq!(refusal_ca(check_publish_assignment(&arow(1, "published", Some("tutor")), 1)), (400, "Bad request: assignment is not in draft status".to_string()));
    assert_eq!(refusal_ca(check_publish_assignment(&arow(2, "draft", Some("tutor")), 1)), (403, "Forbidden: creator or admin only".to_string()));
    assert!(check_publish_assignment(&arow(2, "draft", Some("admin")), 1).is_ok());
    assert_eq!(refusal_ca(check_publish_assignment(&None, 1)), (404, "Not Found: assignment not found".to_string()));
}

#[test]
fn update_assignment_needs_creator_or_admin() {
    let req = UpdateAssignmentRequest { title: None, description: None, attachments: None, max_score: Some(50), due_at: None, allow_late: None, late_penalty_percent: None };
    assert!(check_update_assignment(&req, &arow(1, "draft", Some("admin")), 1).is_ok());
    assert!(check_update_assignment(&req, &arow(1, "draft", Some("tutor")), 1).is_ok());
    assert!(check_update_assignment(&req, &arow(2, "draft", Some("proprietor")), 1).is_ok());
    assert!(check_update_assignment(&req, &arow(2, "draft", Some("admin")), 1).is_ok());
    assert_eq!(refusal_ca(check_update_assignment(&req, &arow(2, "draft", Some("tutor")), 1)), (403, "Forbidden: creator or admin only".to_string()));
    assert_eq!(refusal_ca(check_update_assignment(&req, &arow(2, "draft", Some("Proprietor")), 1)), (403, "Forbidden: creator or admin only".to_string()));
    assert_eq!(refusal_ca(check_update_assignment(&req, &arow(1, "draft", None), 1)), (404, "Not Found: assignement not found".to_string()));
    let bad = UpdateAssignmentRequest { title: None, description: None, attachments: None, max_score: Some(0), due_at: None, allow_late: None, late_penalty_percent: Some(-1) };
    assert_eq!(fields_ca(check_update_assignment(&bad, &arow(1, "draft", Some("admin")), 1)), vec!["max_score".to_string(), "late_penalty_percent".to_string()]);
}

#[test]
fn delete_assignment_rules() {
    assert!(check_delete_assignment(&arow(1, "draft", Some("student")), 1).is_ok());
    assert!(check_delete_assignment(&arow(2, "draft", Some("proprietor")), 1).is_ok());
    assert_eq!(refusal_ca(check_delete_assignment(&arow(2, "draft", Some("tutor")), 1)), (403, "Forbidden: creator or admin only".to_string()));
    assert_eq!(refusal_ca(check_delete_assignment(&None, 1)), (404, "Not Found: assignement not found".to_string()));
}

fn target(due: i64, late_ok: bool, status: &str) -> Option<SubmissionTarget> {
    Some(SubmissionTarget { due_at: due, allow_late: late_ok, status: status.to_string(), role: Some("student".to_string()) })
}

#[test]
fn submission_rules() {
    let text = SubmitAssignmentRequest { content: "my answer".to_string(), attachments: JsonValue::Null };
    assert!(matches!(check_submit_assignment(&text, &target(100, false, "published"), 50), Ok(false)));
    assert!(matches!(check_submit_assignment(&text, &target(100, true, "published"), 150), Ok(true)));
    assert_eq!(refusal_ca(check_submit_assignment(&text, &target(100, false, "published"), 150)), (400, "Bad request: late submission not allowed".to_string()));
    assert_eq!(refusal_ca(check_submit_assignment(&text, &target(100, true, "draft"), 50)), (400, "Bad request: assignement is not open for submissions".to_string()));
    let longest = SubmitAssignmentRequest { content: "a".repeat(20000), attachments: JsonValue::Null };
    assert!(check_submit_assignment(&longest, &target(100, true, "published"), 50).is_ok());
    let too_long = SubmitAssignmentRequest { content: "a".repeat(20001), attachments: JsonValue::Null };
    assert_eq!(fields_ca(check_submit_assignment(&too_long, &target(100, true, "published"), 50)), vec!["content".to_string()]);
    let files_only = SubmitAssignmentRequest { content: String::new(), attachments: JsonValue::Array(vec![JsonValue::Str("a.pdf".to_string())]) };
    assert!(matches!(check_submit_assignment(&files_only, &target(100, true, "published"), 50), Ok(false)));
    let blank = SubmitAssignmentRequest { content: " ".repeat(30), attachments: JsonValue::Array(vec![]) };
    assert_eq!(refusal_ca(check_submit_assignment(&blank, &target(100, true, "published"), 50)), (400, "Bad request: submission must have content or attachments".to_string()));
    assert_eq!(refusal_ca(check_submit_assignment(&text, &None, 50)), (404, "Not Found: assignement not found".to_string()));
}

#[test]
fn listing_and_grading_submissions() {
    assert!(matches!(check_list_submissions(&Some(Some("tutor".to_string()))), Ok(true)));
    assert!(matches!(check_list_submissions(&Some(Some("student".to_string()))), Ok(false)));
    assert_eq!(refusal_ca(check_list_submissions(&Some(None))), (404, "Not Found: assignement not found".to_string()));
    assert_eq!(refusal_ca(check_list_submissions(&None)), (404, "Not Found: assignment not found".to_string()));
    // Grading is for tutors and higher.
    assert!(check_grade_role(&Some(Some("tutor".to_string()))).is_ok());
    assert!(check_grade_role(&Some(Some("proprietor".to_string()))).is_ok());
    assert_eq!(refusal_ca(check_grade_role(&Some(Some("student".to_string())))), (403, "Forbidden: tutor role required".to_string()));
    assert_eq!(refusal_ca(check_grade_role(&None)), (404, "Not Found: submission not found".to_string()));
    assert_eq!(score_cap_message(100), "score cannot exceed max_score (100)");
    assert_eq!(score_cap_message(-3), "score cannot exceed max_score (-3)");
}
