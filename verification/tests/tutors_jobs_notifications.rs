use lekta_api::error::AppError;
use lekta_api::jobs::scheduler::{after_enqueue, on_tick, SchedulerState};
use lekta_api::jobs::types::{run_time, JobPayload};
use lekta_api::jobs::worker::{after_run, JobUpdate};
use lekta_api::json::JsonValue;
use lekta_api::notifications::fcm::{deactivates_token, fcm_send_url, read_push_reply, status_text};
use lekta_api::notifications::handlers::{
    check_mark_read, check_register_device, default_limit, notification_metadata,
    plan_notification_list, ListNotificationQuery, RegisterDeviceRequest,
};
use lekta_api::tutors::handlers::{
    check_create_rating, check_delete_rating, check_upsert_tutor_profile, check_verify_tutor,
    CreateRatingRequest, UpsertTutorProfileRequest,
};
use lekta_api::workspaces::types::WorkspaceRole;

fn refusal_tj<T>(r: Result<T, AppError>) -> (u16, String) {
    let e = r.err().expect("a refusal");
    (e.status_and_code().0, e.to_text())
}

fn fields_tj<T>(r: Result<T, AppError>) -> Vec<String> {
    match r {
        Err(AppError::Validation(v)) => v.fields,
        _ => panic!("expected a validation failure"),
    }
}

#[test]
fn tutor_profile_rules() {
    let req = UpsertTutorProfileRequest { bio: Some("Maths tutor".to_string()), credentials: None, subjects: None, years_experience: Some(5) };
    assert!(check_upsert_tutor_profile(&req, WorkspaceRole::Tutor, 1, 1, Some("tutor")).is_ok());
    assert!(check_upsert_tutor_profile(&req, WorkspaceRole::Admin, 1, 2, Some("tutor")).is_ok());
    assert_eq!(refusal_tj(check_upsert_tutor_profile(&req, WorkspaceRole::Tutor, 1, 2, Some("tutor"))), (403, "Forbidden: self or admin only".to_string()));
    assert_eq!(refusal_tj(check_upsert_tutor_profile(&req, WorkspaceRole::Admin, 1, 2, None)), (404, "Not Found: user not in workspace".to_string()));
    assert_eq!(refusal_tj(check_upsert_tutor_profile(&req, WorkspaceRole::Admin, 1, 2, Some("student"))), (400, "Bad request: target must have tutor role or higher".to_string()));
    let bad = UpsertTutorProfileRequest { bio: Some("x".repeat(2001)), credentials: None, subjects: None, years_experience: Some(61) };
    assert_eq!(fields_tj(check_upsert_tutor_profile(&bad, WorkspaceRole::Admin, 1, 1, Some("tutor"))), vec!["bio".to_string(), "years_experience".to_string()]);
}

#[test]
fn verifying_tutors() {
    assert!(check_verify_tutor(WorkspaceRole::Admin, 1).is_ok());
    assert_eq!(refusal_tj(check_verify_tutor(WorkspaceRole::Tutor, 1)), (403, "Forbidden: admin role required".to_string()));
    assert_eq!(refusal_tj(check_verify_tutor(WorkspaceRole::Proprietor, 0)), (404, "Not Found: tutor profile not found".to_string()));
}

#[test]
fn only_students_rate_tutors() {
    let req = CreateRatingRequest { rating: 5, comment: None, class_id: Some(4) };
    assert!(check_create_rating(&req, WorkspaceRole::Student, true, true).is_ok());
    for r in [WorkspaceRole::Tutor, WorkspaceRole::Admin, WorkspaceRole::Proprietor] {
        assert_eq!(refusal_tj(check_create_rating(&req, r, true, true)), (403, "Forbidden: only students can rate tutors".to_string()));
    }
    assert_eq!(refusal_tj(check_create_rating(&req, WorkspaceRole::Student, false, true)), (404, "Not Found: tutor profile not found".to_string()));
    assert_eq!(refusal_tj(check_create_rating(&req, WorkspaceRole::Student, true, false)), (400, "Bad request: class not found or not taught by this tutor".to_string()));
    let no_class = CreateRatingRequest { rating: 1, comment: Some("ok".to_string()), class_id: None };
    assert!(check_create_rating(&no_class, WorkspaceRole::Student, true, false).is_ok());
    let bad = CreateRatingRequest { rating: 6, comment: Some("x".repeat(1001)), class_id: None };
    assert_eq!(fields_tj(check_create_rating(&bad, WorkspaceRole::Student, true, true)), vec!["rating".to_string(), "comment".to_string()]);
}

#[test]
fn withdrawing_ratings() {
    assert!(check_delete_rating(Some(1), 1, WorkspaceRole::Student).is_ok());
    assert!(check_delete_rating(Some(2), 1, WorkspaceRole::Admin).is_ok());
    assert_eq!(refusal_tj(check_delete_rating(Some(2), 1, WorkspaceRole::Tutor)), (403, "Forbidden: owner or admin only".to_string()));
    assert_eq!(refusal_tj(check_delete_rating(None, 1, WorkspaceRole::Admin)), (404, "Not Found: rating not found".to_string()));
}

#[test]
fn job_type_names() {
    let p = JobPayload::SendEmail { to: "a@b.c".to_string(), subject: "s".to_string(), template: "t".to_string(), vars: JsonValue::Null };
    assert_eq!(p.job_type(), "send_email");
    assert_eq!(JobPayload::NightlyCleanup.job_type(), "nightly_cleanup");
    assert_eq!(JobPayload::MaterializeClassOccurrences { class_id: 1, from: 0, to: 1 }.job_type(), "materialize_class_occurrences");
    assert_eq!(JobPayload::ReconcilePayment { payment_id: 3 }.job_type(), "reconcile_payment");
    assert_eq!(run_time(None, 42), 42);
    assert_eq!(run_time(Some(7), 42), 7);
}

#[test]
fn backoff_doubles_until_tries_run_out() {
    assert!(after_run(true, 3, 3) == JobUpdate::Completed);
    assert!(after_run(false, 1, 3) == JobUpdate::RetryAfter(60));
    assert!(after_run(false, 2, 3) == JobUpdate::RetryAfter(120));
    assert!(after_run(false, 3, 5) == JobUpdate::RetryAfter(240));
    assert!(after_run(false, 3, 3) == JobUpdate::Failed);
    assert!(after_run(false, 4, 3) == JobUpdate::Failed);
    assert!(after_run(false, 58, 100) == JobUpdate::RetryAfter(60 * (1i64 << 57)));
}

#[test]
fn nightly_cleanup_once_a_day() {
    let s = SchedulerState { last_cleanup_day: None };
    assert!(!on_tick(&s, 1, 100));
    assert!(on_tick(&s, 2, 100));
    let failed = after_enqueue(s, 100, false);
    assert!(on_tick(&failed, 2, 100));
    let done = after_enqueue(failed, 100, true);
    assert!(done.last_cleanup_day == Some(100));
    assert!(!on_tick(&done, 2, 100));
    assert!(on_tick(&done, 2, 101));
}

#[test]
fn device_registration_rules() {
    let web = RegisterDeviceRequest { token: "t".repeat(20), platform: "web".to_string(), device_name: None, app_version: None };
    assert!(check_register_device(&web).is_ok());
    let ios = RegisterDeviceRequest { token: "t".repeat(20), platform: "ios".to_string(), device_name: None, app_version: None };
    assert_eq!(refusal_tj(check_register_device(&ios)), (400, "Bad request: invalid platform".to_string()));
    let short = RegisterDeviceRequest { token: "t".to_string(), platform: "web".to_string(), device_name: None, app_version: None };
    assert_eq!(fields_tj(check_register_device(&short)), vec!["token".to_string()]);
}

#[test]
fn notification_listing_and_reading() {
    assert_eq!(default_limit(), 50);
    assert_eq!(plan_notification_list(&ListNotificationQuery { limit: 500, unread_only: None }), (100, false));
    assert_eq!(plan_notification_list(&ListNotificationQuery { limit: 10, unread_only: Some(true) }), (10, true));
    assert!(check_mark_read(1).is_ok());
    assert_eq!(refusal_tj(check_mark_read(0)), (404, "Not Found: notification not found".to_string()));
    assert!(matches!(notification_metadata(None), JsonValue::Object(ref m) if m.is_empty()));
    assert!(matches!(notification_metadata(Some(JsonValue::Bool(true))), JsonValue::Bool(true)));
}

#[test]
fn push_replies() {
    assert_eq!(fcm_send_url("lekta-app"), "https://fcm.googleapis.com/v1/projects/lekta-app/messages:send");
    assert!(matches!(read_push_reply(200, ""), Ok(true)));
    assert!(matches!(read_push_reply(400, "anything"), Ok(false)));
    assert!(matches!(read_push_reply(404, "{\"error\":\"UNREGISTERED\"}"), Ok(false)));
    match read_push_reply(503, "busy") {
        Err(AppError::Internal(m)) => assert_eq!(m, "fcm token error: 503 Service Unavailable:busy"),
        _ => panic!("expected a failure"),
    }
    assert_eq!(status_text(404), "404 Not Found");
    assert_eq!(status_text(599), "599 <unknown status code>");
    assert!(deactivates_token(&Ok(false)));
    assert!(!deactivates_token(&Ok(true)));
    assert!(!deactivates_token(&Err(AppError::Database)));
}
