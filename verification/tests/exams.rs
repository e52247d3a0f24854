use rand::rngs::StdRng;
use rand::SeedableRng;
use lekta_api::error::AppError;
use lekta_api::exams::attempts::{
    check_get_attempt, check_questions_resolved, check_submit_answer, check_submit_attempt,
    lay_out_questions, plan_start_attempt, status_after_hand_in,
    AttemptRow, ExamGate, ResolvedQuestion, StartAttempt,
};
use lekta_api::exams::banks::{
    check_add_questions, check_create_bank, check_delete_question, check_list_questions,
    check_publish_bank, default_language, default_marks, default_media, BankRow,
    CreateBankRequest, QuestionInput,
};
use lekta_api::exams::exams::{
    check_create_exam, check_delete_exam, check_publish_exam, check_total_marks,
    default_eligibility, default_max_attempts, default_pass_mark, default_true, CreateExamRequest,
    ExamRow,
};
use lekta_api::exams::grading::{auto_grade, AutoGrade};
use lekta_api::exams::selection::{
    check_has_sources, check_source, BankAccess, SelectionCriteria, SelectionFilters,
    SelectionSource,
};
use lekta_api::json::JsonValue;
use lekta_api::workspaces::types::WorkspaceRole;

fn refusal_ex<T>(r: Result<T, AppError>) -> (u16, String) {
    let e = r.err().expect("a refusal");
    (e.status_and_code().0, e.to_text())
}

fn fields_ex<T>(r: Result<T, AppError>) -> Vec<String> {
    match r {
        Err(AppError::Validation(v)) => v.fields,
        _ => panic!("expected a validation failure"),
    }
}

fn obj(entries: Vec<(&str, JsonValue)>) -> JsonValue {
    JsonValue::Object(entries.into_iter().map(|(k, v)| (k.to_string(), v)).collect())
}

fn s(t: &str) -> JsonValue {
    JsonValue::Str(t.to_string())
}

#[test]
fn selection_needs_sources() {
    let empty = SelectionCriteria { sources: vec![] };
    assert_eq!(refusal_ex(check_has_sources(&empty)), (400, "Bad request: selection_criteria must have at least one source".to_string()));
    let one = SelectionCriteria { sources: vec![SelectionSource { bank_id: 1, count: 2, filters: SelectionFilters::default() }] };
    assert!(check_has_sources(&one).is_ok());
}

fn bank(owner: &str, ws: Option<u128>, published: bool) -> Option<BankAccess> {
    Some(BankAccess { owner_type: owner.to_string(), owner_workspace_id: ws, is_published: published })
}

#[test]
fn each_source_is_checked() {
    let f = SelectionFilters::default();
    assert!(f.topic_tags.is_none() && f.difficulty.is_none() && f.year_min.is_none() && f.year_max.is_none());
    let src = SelectionSource { bank_id: 0x0123456789abcdef0123456789abcdef, count: 5, filters: f };
    assert!(check_source(&src, &bank("platform", None, true), 5, 9).is_ok());
    assert!(check_source(&src, &bank("workspace", Some(9), true), 8, 9).is_ok());
    assert_eq!(refusal_ex(check_source(&src, &bank("workspace", Some(8), true), 8, 9)), (403, "Forbidden: bank not accessible in this workspace".to_string()));
    assert_eq!(refusal_ex(check_source(&src, &bank("platform", None, false), 8, 9)), (403, "Forbidden: cannot use unpublished bank".to_string()));
    assert_eq!(refusal_ex(check_source(&src, &None, 8, 9)), (400, "Bad request: bank 01234567-89ab-cdef-0123-456789abcdef not found".to_string()));
    assert_eq!(
        refusal_ex(check_source(&src, &bank("platform", None, true), 3, 9)),
        (422, "Unprocessable: source 01234567-89ab-cdef-0123-456789abcdef needs 5 questions but only 3 available".to_string())
    );
    let zero = SelectionSource { bank_id: 1, count: 0, filters: SelectionFilters::default() };
    assert_eq!(refusal_ex(check_source(&zero, &None, 0, 9)), (400, "Bad request: source count must be positive".to_string()));
}

fn exam_req() -> CreateExamRequest {
    CreateExamRequest {
        title: "Mock WAEC".to_string(),
        description: None,
        selection_criteria: SelectionCriteria { sources: vec![] },
        duration_minutes: 60,
        pass_mark_percent: default_pass_mark(),
        scheduled_start_at: None,
        scheduled_end_at: None,
        eligibility: default_eligibility(),
        allow_retakes: false,
        max_attempts: default_max_attempts(),
        randomize_questions: default_true(),
        randomize_options: default_true(),
        show_results_immediately: default_true(),
    }
}

#[test]
fn exam_defaults() {
    assert_eq!(default_pass_mark(), 50);
    assert_eq!(default_max_attempts(), 1);
    assert!(default_true());
    let e = default_eligibility();
    assert_eq!(e.text_field_of("type").map(|s| s.as_str()), Some("all_Students"));
}

#[test]
fn create_exam_rules() {
    assert!(check_create_exam(&exam_req(), WorkspaceRole::Tutor).is_ok());
    assert_eq!(refusal_ex(check_create_exam(&exam_req(), WorkspaceRole::Student)), (403, "Forbidden: tutor role required".to_string()));
    let mut window = exam_req();
    window.scheduled_start_at = Some(10);
    window.scheduled_end_at = Some(10);
    assert_eq!(refusal_ex(check_create_exam(&window, WorkspaceRole::Admin)), (400, "Bad request: scheduled_end_at must be after scheduled_start_at".to_string()));
    window.scheduled_end_at = None;
    assert!(check_create_exam(&window, WorkspaceRole::Admin).is_ok());
    let mut bad = exam_req();
    bad.duration_minutes = 4;
    bad.pass_mark_percent = 101;
    bad.max_attempts = 11;
    assert_eq!(fields_ex(check_create_exam(&bad, WorkspaceRole::Admin)), vec!["duration_minutes".to_string(), "pass_mark_percent".to_string(), "max_attempts".to_string()]);
    assert_eq!(refusal_ex(check_total_marks(0)), (400, "Bad request: resolved questions have zero total marks".to_string()));
    assert!(check_total_marks(12).is_ok());
}

fn exam_row(creator: u128, status: &str, role: Option<&str>) -> Option<ExamRow> {
    Some(ExamRow { creator_user_id: creator, status: status.to_string(), role: role.map(|r| r.to_string()) })
}

#[test]
fn publishing_and_deleting_exams() {
    assert!(check_publish_exam(&exam_row(1, "draft", Some("tutor")), 1).is_ok());
    assert_eq!(refusal_ex(check_publish_exam(&exam_row(1, "scheduled", Some("tutor")), 1)), (400, "Bad request: exam is not in draft status".to_string()));
    assert_eq!(refusal_ex(check_publish_exam(&exam_row(2, "draft", Some("tutor")), 1)), (403, "Forbidden: creator or admin only".to_string()));
    assert!(check_delete_exam(&exam_row(2, "draft", Some("admin")), 1).is_ok());
    assert_eq!(refusal_ex(check_delete_exam(&exam_row(2, "draft", None), 1)), (404, "Not Found: exam not found".to_string()));
    assert_eq!(refusal_ex(check_delete_exam(&None, 1)), (404, "Not Found: exam not found".to_string()));
}

const MINUTE: i64 = 60_000_000_000;

fn gate(status: &str, start: Option<i64>, end: Option<i64>, max: i32) -> Option<ExamGate> {
    Some(ExamGate { status: status.to_string(), scheduled_start_at: start, scheduled_end_at: end, duration_minutes: 30, max_attempts: max, role: Some("student".to_string()) })
}

#[test]
fn starting_attempts() {
    let now = 1_000 * MINUTE;
    match plan_start_attempt(&gate("scheduled", None, None, 2), now, None, 1) {
        Ok(StartAttempt::Begin { attempt_number, deadline_at }) => {
            assert_eq!(attempt_number, 2);
            assert_eq!(deadline_at, now + 30 * MINUTE);
        },
        _ => panic!("expected a new attempt"),
    }
    assert!(matches!(plan_start_attempt(&gate("ongoing", None, None, 1), now, Some(77), 5), Ok(StartAttempt::Resume(77))));
    assert_eq!(refusal_ex(plan_start_attempt(&gate("ongoing", None, None, 2), now, None, 2)), (400, "Bad request: max attempts reached".to_string()));
    assert_eq!(refusal_ex(plan_start_attempt(&gate("draft", None, None, 2), now, None, 0)), (400, "Bad request: exam is not open".to_string()));
    assert_eq!(refusal_ex(plan_start_attempt(&gate("scheduled", Some(now + 1), None, 2), now, None, 0)), (400, "Bad request: exam has not started yet".to_string()));
    assert_eq!(refusal_ex(plan_start_attempt(&gate("scheduled", None, Some(now - 1), 2), now, None, 0)), (400, "Bad request: exam window has ended".to_string()));
    assert_eq!(refusal_ex(plan_start_attempt(&None, now, None, 0)), (404, "Not Found: exam not found".to_string()));
    assert_eq!(refusal_ex(check_questions_resolved(0)), (500, "Internal error: no questions resolved for exam".to_string()));
    assert!(check_questions_resolved(3).is_ok());
}

fn question(id: u128, options: Option<JsonValue>) -> ResolvedQuestion {
    ResolvedQuestion { id, question_text: "q".to_string(), question_type: "multiple_choice_single".to_string(), options, correct_answer: JsonValue::Null, marks: 1 }
}

#[test]
fn laying_out_questions() {
    let mut rng = StdRng::from_entropy();
    let opts = JsonValue::Array(vec![s("a"), s("b"), s("c")]);
    let qs = vec![question(1, Some(opts)), question(2, None), question(3, Some(JsonValue::Null))];
    let rows = lay_out_questions(qs, false, false, &mut rng);
    assert_eq!(rows.iter().map(|r| r.question_id).collect::<Vec<_>>(), vec![1, 2, 3]);
    assert_eq!(rows.iter().map(|r| r.question_order).collect::<Vec<_>>(), vec![1, 2, 3]);
    assert!(rows.iter().all(|r| r.shuffled_options.is_none()));

    let opts = JsonValue::Array(vec![s("a"), s("b"), s("c")]);
    let qs = vec![question(1, Some(opts)), question(2, None), question(3, Some(JsonValue::Null))];
    let rows = lay_out_questions(qs, true, true, &mut rng);
    let mut ids: Vec<u128> = rows.iter().map(|r| r.question_id).collect();
    ids.sort();
    assert_eq!(ids, vec![1, 2, 3]);
    assert_eq!(rows.iter().map(|r| r.question_order).collect::<Vec<_>>(), vec![1, 2, 3]);
    for r in &rows {
        if r.question_id == 1 {
            match &r.shuffled_options {
                Some(JsonValue::Array(items)) => {
                    let mut texts: Vec<String> = items.iter().map(|v| match v { JsonValue::Str(t) => t.clone(), _ => panic!() }).collect();
                    texts.sort();
                    assert_eq!(texts, vec!["a".to_string(), "b".to_string(), "c".to_string()]);
                },
                _ => panic!("options are shuffled"),
            }
        } else {
            assert!(r.shuffled_options.is_none());
        }
    }
}

#[test]
fn shuffling_keeps_the_items() {
    let mut rng = StdRng::from_entropy();
    let qs: Vec<ResolvedQuestion> = (0..50u128).map(|i| question(i, None)).collect();
    let rows = lay_out_questions(qs, true, false, &mut rng);
    let mut ids: Vec<u128> = rows.iter().map(|r| r.question_id).collect();
    ids.sort();
    assert_eq!(ids, (0..50u128).collect::<Vec<u128>>());
}

#[test]
fn attempt_reading_and_answering() {
    assert!(check_get_attempt(&Some((1, Some("student".to_string()))), 1).is_ok());
    assert!(check_get_attempt(&Some((2, Some("tutor".to_string()))), 1).is_ok());
    assert_eq!(refusal_ex(check_get_attempt(&Some((2, Some("student".to_string()))), 1)), (404, "Not Found: owner or tutor only".to_string()));
    assert_eq!(refusal_ex(check_get_attempt(&Some((1, None)), 1)), (404, "Not Found: attempt not found".to_string()));
    let a = |student: u128, status: &str| Some(AttemptRow { student_user_id: student, deadline_at: 100, status: status.to_string() });
    assert!(check_submit_answer(&a(1, "in_progress"), 1, 100, true).is_ok());
    assert_eq!(refusal_ex(check_submit_answer(&a(1, "in_progress"), 1, 101, true)), (400, "Bad request: attempt deadline has passed".to_string()));
    assert_eq!(refusal_ex(check_submit_answer(&a(2, "in_progress"), 1, 50, true)), (403, "Forbidden: not your attempt".to_string()));
    assert_eq!(refusal_ex(check_submit_answer(&a(1, "submitted"), 1, 50, true)), (400, "Bad request: attempt is not in progress".to_string()));
    assert_eq!(refusal_ex(check_submit_answer(&a(1, "in_progress"), 1, 50, false)), (400, "Bad request: question does not belong to this attempt".to_string()));
    assert_eq!(refusal_ex(check_submit_answer(&None, 1, 50, true)), (404, "Not Found: attempt not found".to_string()));
}

#[test]
fn handing_in_attempts() {
    assert!(check_submit_attempt(&Some((1, "in_progress".to_string())), 1).is_ok());
    assert_eq!(refusal_ex(check_submit_attempt(&Some((1, "graded".to_string())), 1)), (400, "Bad request: already submitted".to_string()));
    assert_eq!(refusal_ex(check_submit_attempt(&Some((2, "in_progress".to_string())), 1)), (403, "Forbidden: not your attempt".to_string()));
    assert_eq!(status_after_hand_in(0), "graded");
    assert_eq!(status_after_hand_in(2), "submitted");
}

#[test]
fn grading_answers() {
    let single = obj(vec![("option_id", s("b"))]);
    assert!(matches!(auto_grade("multiple_choice_single", &single, &obj(vec![("option_id", s("b"))]), 4), AutoGrade::Graded { is_correct: true, marks: 4 }));
    assert!(matches!(auto_grade("multiple_choice_single", &single, &obj(vec![("option_id", s("c"))]), 4), AutoGrade::Graded { is_correct: false, marks: 0 }));
    let multi = obj(vec![("option_ids", JsonValue::Array(vec![s("a"), s("c")]))]);
    let multi_answer = obj(vec![("option_ids", JsonValue::Array(vec![s("c"), s("a"), s("a")]))]);
    assert!(matches!(auto_grade("multiple_choice_multi", &multi, &multi_answer, 2), AutoGrade::Graded { is_correct: true, marks: 2 }));
    let tf = obj(vec![("answer", JsonValue::Bool(true))]);
    assert!(matches!(auto_grade("true_false", &tf, &obj(vec![("answer", JsonValue::Bool(false))]), 1), AutoGrade::Graded { is_correct: false, marks: 0 }));
    let short = obj(vec![("accepted", JsonValue::Array(vec![s("Lagos"), s("Abuja")]))]);
    assert!(matches!(auto_grade("short_answer", &short, &obj(vec![("text", s("  ABUJA "))]), 3), AutoGrade::Graded { is_correct: true, marks: 3 }));
    let blanks = obj(vec![("blanks", JsonValue::Array(vec![s("x"), s("y")]))]);
    assert!(matches!(auto_grade("fill_in_the_blanks", &blanks, &obj(vec![("blanks", JsonValue::Array(vec![s("X ")]))]), 3), AutoGrade::Graded { is_correct: false, marks: 0 }));
    assert!(matches!(auto_grade("fill_in_the_blanks", &blanks, &obj(vec![("blanks", JsonValue::Array(vec![s(" X"), s("Y")]))]), 3), AutoGrade::Graded { is_correct: true, marks: 3 }));
    assert!(matches!(auto_grade("essay", &JsonValue::Null, &JsonValue::Null, 3), AutoGrade::NotGradable));
    assert!(matches!(auto_grade("numeric", &JsonValue::Null, &JsonValue::Null, 3), AutoGrade::Numeric));
    assert!(matches!(auto_grade("true_false", &tf, &obj(vec![]), 1), AutoGrade::NotGradable));
}

fn bank_row(owner: &str, creator: u128, count: i32, published: bool, role: Option<&str>) -> Option<BankRow> {
    Some(BankRow { owner_type: owner.to_string(), created_by_user_id: creator, question_count: count, is_published: published, role: role.map(|r| r.to_string()) })
}

#[test]
fn bank_creation_and_publishing() {
    assert_eq!(default_language(), "en");
    let req = CreateBankRequest { name: "Physics".to_string(), description: None, subject: "physics".to_string(), exam_type: "waec".to_string(), language: default_language() };
    assert!(check_create_bank(&req, WorkspaceRole::Tutor).is_ok());
    assert_eq!(refusal_ex(check_create_bank(&req, WorkspaceRole::Student)), (403, "Forbidden: tutor role required".to_string()));
    let bad = CreateBankRequest { name: "P".to_string(), description: None, subject: String::new(), exam_type: "waec".to_string(), language: "en".to_string() };
    assert_eq!(fields_ex(check_create_bank(&bad, WorkspaceRole::Tutor)), vec!["name".to_string(), "subject".to_string()]);
    assert!(check_publish_bank(&bank_row("platform", 9, 3, false, None), 1, true).is_ok());
    assert_eq!(refusal_ex(check_publish_bank(&bank_row("platform", 9, 3, false, None), 1, false)), (403, "Forbidden: platform admin only".to_string()));
    assert_eq!(refusal_ex(check_publish_bank(&bank_row("workspace", 9, 3, false, Some("tutor")), 1, false)), (403, "Forbidden: creator or admin only".to_string()));
    assert!(check_publish_bank(&bank_row("workspace", 1, 3, false, Some("tutor")), 1, false).is_ok());
    assert_eq!(refusal_ex(check_publish_bank(&bank_row("workspace", 1, 0, false, Some("tutor")), 1, false)), (400, "Bad request: cannot publish emptybank".to_string()));
    assert_eq!(refusal_ex(check_publish_bank(&None, 1, true)), (404, "Not Found: bank not found".to_string()));
}

fn qinput(marks: i32) -> QuestionInput {
    QuestionInput {
        question_text: "2+2?".to_string(),
        question_type: "numeric".to_string(),
        options: None,
        correct_answer: JsonValue::Null,
        explanation: None,
        difficulty: "easy".to_string(),
        topic_tags: vec![],
        year: None,
        marks,
        media_s3_keys: default_media(),
    }
}

#[test]
fn adding_questions() {
    assert_eq!(default_marks(), 1);
    assert!(matches!(default_media(), JsonValue::Array(ref a) if a.is_empty()));
    let ws = bank_row("workspace", 9, 0, false, Some("tutor"));
    assert!(check_add_questions(&vec![qinput(1), qinput(2)], &ws, 1, false).is_ok());
    assert_eq!(refusal_ex(check_add_questions(&vec![], &ws, 1, false)), (400, "Bad request: no questions provided".to_string()));
    assert_eq!(fields_ex(check_add_questions(&vec![qinput(1), qinput(0)], &ws, 1, false)), vec!["marks".to_string()]);
    assert_eq!(refusal_ex(check_add_questions(&vec![qinput(1)], &bank_row("workspace", 9, 0, false, Some("student")), 1, false)), (403, "Forbidden: creator or workspace tutor only".to_string()));
    assert_eq!(refusal_ex(check_add_questions(&vec![qinput(1)], &bank_row("workspace", 9, 0, false, None), 1, false)), (404, "Not Found: bank not found".to_string()));
    assert_eq!(refusal_ex(check_add_questions(&vec![qinput(1)], &bank_row("platform", 9, 0, false, None), 1, false)), (403, "Forbidden: platform admin only".to_string()));
    assert!(check_add_questions(&vec![qinput(1)], &bank_row("platform", 9, 0, false, None), 1, true).is_ok());
}

#[test]
fn reading_and_pruning_banks() {
    assert!(check_list_questions(&bank_row("platform", 9, 1, true, None), 1, false).is_ok());
    assert_eq!(refusal_ex(check_list_questions(&bank_row("platform", 9, 1, false, None), 1, false)), (404, "Not Found: bank not found".to_string()));
    assert!(check_list_questions(&bank_row("platform", 9, 1, false, None), 1, true).is_ok());
    assert!(check_list_questions(&bank_row("workspace", 9, 1, true, Some("student")), 1, false).is_ok());
    assert_eq!(refusal_ex(check_list_questions(&bank_row("workspace", 9, 1, false, Some("student")), 1, false)), (404, "Not Found: bank not found".to_string()));
    assert_eq!(refusal_ex(check_list_questions(&bank_row("workspace", 9, 1, false, Some("tutor")), 1, false)), (404, "Not Found: bank not found".to_string()));
    assert!(check_list_questions(&bank_row("workspace", 9, 1, false, Some("tutor")), 9, false).is_ok());
    assert!(check_list_questions(&bank_row("workspace", 9, 1, false, Some("admin")), 1, false).is_ok());
    assert!(check_list_questions(&bank_row("workspace", 9, 1, false, Some("proprietor")), 1, false).is_ok());
    assert_eq!(refusal_ex(check_list_questions(&bank_row("workspace", 9, 1, true, None), 1, false)), (404, "Not Found: bank not found".to_string()));
    assert_eq!(refusal_ex(check_delete_question(&None, 1, true)), (403, "Forbidden: platform admin only".to_string()));
    assert_eq!(refusal_ex(check_delete_question(&bank_row("workspace", 9, 1, true, None), 1, false)), (404, "Not Found: question not found".to_string()));
    assert_eq!(refusal_ex(check_delete_question(&bank_row("workspace", 9, 1, true, Some("tutor")), 1, false)), (403, "Forbidden: creator or admin only".to_string()));
    assert!(check_delete_question(&bank_row("workspace", 9, 1, true, Some("admin")), 1, false).is_ok());
}
