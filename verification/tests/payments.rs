use hmac::Mac;
use lekta_api::crypto::hex_encode;
use lekta_api::error::AppError;
use lekta_api::payments::enrollment::{
    payment_callback_url, payment_reference, plan_initiate_enrollment, plan_manual_enrollment,
    PlanRow,
};
use lekta_api::payments::onboarding::{
    check_no_subaccount, check_onboard_paystack, PaystackOnboardingRequest, ResolveAccountRequest,
};
use lekta_api::payments::paystack::{endpoint, unwrap_list, unwrap_response, verify_transaction_url};
use lekta_api::payments::tuition::{check_delete_plan, check_update_plan, CreateTuitionPlanRequest, UpdateTuitionPlanRequest};
use lekta_api::payments::webhook::{
    after_recording, classify_event, event_key, failure_reason, settle_charge, verify_signature,
    DeliveryStep, EventRecord, PaymentRecord, Settlement, WebhookEvent,
};
use lekta_api::workspaces::types::{PaymentMode, WorkspaceRole};

fn refusal_pa<T>(r: Result<T, AppError>) -> (u16, String) {
    let e = r.err().expect("a refusal");
    (e.status_and_code().0, e.to_text())
}

fn signature_of(secret: &str, body: &[u8]) -> String {
    let mut mac = hmac::Hmac::<sha2::Sha512>::new_from_slice(secret.as_bytes()).expect("a key");
    mac.update(body);
    hex_encode(&mac.finalize().into_bytes())
}

#[test]
fn webhook_signatures() {
    let body = b"{\"event\":\"charge.success\"}";
    let sig = signature_of("whsec", body);
    assert_eq!(sig.len(), 128);
    assert!(verify_signature("whsec", body, Some(sig.as_bytes())).is_ok());
    assert_eq!(verify_signature("whsec", body, None).err(), Some((400, "missing signature")));
    assert_eq!(verify_signature("other", body, Some(sig.as_bytes())).err(), Some((401, "invalid signature")));
    assert_eq!(verify_signature("whsec", b"{}", Some(sig.as_bytes())).err(), Some((401, "invalid signature")));
    assert_eq!(verify_signature("whsec", body, Some(&[0xc3, 0xa9])).err(), Some((400, "invalid signature")));
}

#[test]
fn hmac_matches_a_known_vector() {
    // RFC 4231, test case 2.
    let tag = "164b7a7bfcf819e2e395fbe73b56e0a387bd64222e831fd610270cd7ea2505549758bf75c05a994a6d034f65f8f0e6fdcaeab1a34d4a6b4b636e070a38bce737";
    let body = b"what do ya want for nothing?";
    assert!(verify_signature("Jefe", body, Some(tag.as_bytes())).is_ok());
    assert!(verify_signature("Jefe", body, Some(&tag.as_bytes()[..127])).is_err());
}

#[test]
fn webhook_events_and_keys() {
    assert!(classify_event("charge.success") == WebhookEvent::ChargeSuccess);
    assert!(classify_event("charge.failed") == WebhookEvent::ChargeFailed);
    assert!(classify_event("transfer.success") == WebhookEvent::Other);
    assert_eq!(event_key(123456789), "123456789");
    assert_eq!(event_key(-5), "-5");
    assert_eq!(event_key(i64::MIN), "-9223372036854775808");
    assert_eq!(failure_reason("abandoned"), "charge failed: abandoned");
    assert!(after_recording(EventRecord::New) == DeliveryStep::Process);
    assert!(after_recording(EventRecord::AlreadySeen) == DeliveryStep::Answer(200));
    assert!(after_recording(EventRecord::StoreFailed) == DeliveryStep::Answer(500));
}

#[test]
fn settling_charges() {
    let pending = PaymentRecord { amount_kobo: 100_000, platform_fee_kobo: 2_500, status: "pending".to_string() };
    match settle_charge("success", Some(1_500), Some(pending), "ref-1") {
        Ok(Settlement::Settle { paystack_fee_kobo, center_amount_kobo }) => {
            assert_eq!(paystack_fee_kobo, 1_500);
            assert_eq!(center_amount_kobo, 96_000);
        },
        _ => panic!("expected a settlement"),
    }
    let pending = PaymentRecord { amount_kobo: 100_000, platform_fee_kobo: 2_500, status: "pending".to_string() };
    assert!(matches!(settle_charge("success", None, Some(pending), "ref-1"), Ok(Settlement::Settle { paystack_fee_kobo: 0, center_amount_kobo: 97_500 })));
    let done = PaymentRecord { amount_kobo: 100_000, platform_fee_kobo: 2_500, status: "successful".to_string() };
    assert!(matches!(settle_charge("success", Some(1_500), Some(done), "ref-1"), Ok(Settlement::AlreadySettled)));
    assert_eq!(refusal_pa(settle_charge("failed", None, None, "ref-1")), (500, "Internal error: webhook claimed success but verify says failed".to_string()));
    assert_eq!(refusal_pa(settle_charge("success", None, None, "ref-9")), (404, "Not Found: payment not found for reference ref-9".to_string()));
}

fn plan(active: bool) -> Option<PlanRow> {
    Some(PlanRow { id: 1, amount_kobo: 50_000, duration_days: 30, is_active: active })
}

#[test]
fn paystack_enrollment() {
    assert!(matches!(plan_initiate_enrollment(PaymentMode::LektaManaged, plan(true), Some("ACCT_1"), "active", 250), Ok(1_250)));
    assert_eq!(refusal_pa(plan_initiate_enrollment(PaymentMode::External, plan(true), Some("ACCT_1"), "active", 250)), (400, "Bad request: this workspace uses external payments; contact the center directly".to_string()));
    assert_eq!(refusal_pa(plan_initiate_enrollment(PaymentMode::Hybrid, None, Some("ACCT_1"), "active", 250)), (404, "Not Found: tuition plan not found".to_string()));
    assert_eq!(refusal_pa(plan_initiate_enrollment(PaymentMode::Hybrid, plan(false), Some("ACCT_1"), "active", 250)), (400, "Bad request: plan is not active".to_string()));
    assert_eq!(refusal_pa(plan_initiate_enrollment(PaymentMode::Hybrid, plan(true), None, "active", 250)), (400, "Bad request: workspace has not completed payment onboarding".to_string()));
    assert_eq!(refusal_pa(plan_initiate_enrollment(PaymentMode::Hybrid, plan(true), Some("ACCT_1"), "pending", 250)), (400, "Bad request: workspace payment onboarding is not active".to_string()));
    let r = payment_reference("LKT_");
    assert!(r.starts_with("LKT_"));
    assert_eq!(r.len(), 14);
    assert_ne!(r, payment_reference("LKT_"));
    assert_eq!(payment_callback_url("https://lekta.ng"), "https://lekta.ng/api/v1/payments/callback");
}

const DAY: i64 = 86_400_000_000_000;

#[test]
fn manual_enrollment() {
    match plan_manual_enrollment(WorkspaceRole::Admin, PaymentMode::External, Some("student"), plan(true), None, 10) {
        Ok(m) => {
            assert_eq!(m.paid_amount_kobo, 50_000);
            assert_eq!(m.starts_at, 10);
            assert_eq!(m.ends_at, 10 + 30 * DAY);
        },
        _ => panic!("expected an enrollment"),
    }
    assert!(matches!(plan_manual_enrollment(WorkspaceRole::Proprietor, PaymentMode::Hybrid, Some("student"), plan(true), Some(7), 0), Ok(ref m) if m.paid_amount_kobo == 7));
    // Tutors and students are refused.
    assert_eq!(refusal_pa(plan_manual_enrollment(WorkspaceRole::Tutor, PaymentMode::External, Some("student"), plan(true), None, 0)), (403, "Forbidden: admin role required".to_string()));
    assert_eq!(refusal_pa(plan_manual_enrollment(WorkspaceRole::Admin, PaymentMode::LektaManaged, Some("student"), plan(true), None, 0)).0, 400);
    assert_eq!(refusal_pa(plan_manual_enrollment(WorkspaceRole::Admin, PaymentMode::External, None, plan(true), None, 0)), (404, "Not Found: user is not a workspace member".to_string()));
    assert_eq!(refusal_pa(plan_manual_enrollment(WorkspaceRole::Admin, PaymentMode::External, Some("tutor"), plan(true), None, 0)), (400, "Bad request: target must be a student".to_string()));
    assert_eq!(refusal_pa(plan_manual_enrollment(WorkspaceRole::Admin, PaymentMode::External, Some("student"), None, None, 0)), (404, "Not Found: tuition plan is not found".to_string()));
}

#[test]
fn paystack_onboarding() {
    let bad = ResolveAccountRequest { bank_code: "05".to_string(), account_number: "123".to_string() };
    assert_eq!(bad.validate().err().expect("invalid").fields, vec!["bank_code".to_string(), "account_number".to_string()]);
    let ok = ResolveAccountRequest { bank_code: "058".to_string(), account_number: "0123456789".to_string() };
    assert!(ok.validate().is_ok());
    let req = PaystackOnboardingRequest { bank_code: "058".to_string(), account_number: "0123456789".to_string(), business_name: "Bright Minds".to_string() };
    assert!(check_onboard_paystack(&req, WorkspaceRole::Proprietor, PaymentMode::LektaManaged).is_ok());
    assert!(check_onboard_paystack(&req, WorkspaceRole::Proprietor, PaymentMode::Hybrid).is_ok());
    assert_eq!(refusal_pa(check_onboard_paystack(&req, WorkspaceRole::Admin, PaymentMode::LektaManaged)), (403, "Forbidden: proprietor only".to_string()));
    assert_eq!(refusal_pa(check_onboard_paystack(&req, WorkspaceRole::Proprietor, PaymentMode::External)), (400, "Bad request: this workspace uses external payments".to_string()));
    assert!(check_no_subaccount(false).is_ok());
    assert_eq!(refusal_pa(check_no_subaccount(true)), (409, "Conflict: paystack subaccount already onboarded".to_string()));
}

#[test]
fn paystack_answers() {
    assert_eq!(endpoint("https://api.paystack.co", "/bank"), "https://api.paystack.co/bank");
    assert_eq!(verify_transaction_url("https://api.paystack.co", "LKT_x"), "https://api.paystack.co/transaction/verify/LKT_x");
    assert!(matches!(unwrap_response(true, "ok".to_string(), Some(5)), Ok(5)));
    assert!(matches!(unwrap_response::<u8>(true, "ok".to_string(), None), Err(AppError::Paystack(ref m)) if m == "empty response data"));
    assert!(matches!(unwrap_response::<u8>(false, "Invalid key".to_string(), Some(1)), Err(AppError::Paystack(ref m)) if m == "Invalid key"));
    assert!(matches!(unwrap_list::<u8>(true, "ok".to_string(), None), Ok(ref v) if v.is_empty()));
    assert!(matches!(unwrap_list(true, "ok".to_string(), Some(vec![1u8, 2])), Ok(ref v) if v == &vec![1u8, 2]));
    assert!(unwrap_list::<u8>(false, "no".to_string(), None).is_err());
}

#[test]
fn tuition_plans() {
    let ok = CreateTuitionPlanRequest { name: "Term 1".to_string(), description: None, amount_kobo: 0, duration_days: 90 };
    assert!(ok.validate().is_ok());
    let bad = CreateTuitionPlanRequest { name: "T".to_string(), description: None, amount_kobo: -1, duration_days: 0 };
    assert_eq!(bad.validate().err().expect("invalid").fields, vec!["name".to_string(), "amount_kobo".to_string(), "duration_days".to_string()]);
    let upd = UpdateTuitionPlanRequest { name: None, description: None, amount_kobo: None, duration_days: Some(3651), is_active: None };
    assert_eq!(upd.validate().err().expect("invalid").fields, vec!["duration_days".to_string()]);
    let role = |r: &str| Some(Some(r.to_string()));
    assert!(check_update_plan(&role("admin")).is_ok());
    assert!(check_delete_plan(&role("proprietor")).is_ok());
    assert_eq!(refusal_pa(check_update_plan(&role("tutor"))), (403, "Forbidden: admin role required".to_string()));
    assert_eq!(refusal_pa(check_update_plan(&Some(None))), (404, "Not Found: tuition plan not found".to_string()));
    assert_eq!(refusal_pa(check_update_plan(&None)), (404, "Not Found: tuition plan not found".to_string()));
    assert_eq!(refusal_pa(check_delete_plan(&Some(None))), (404, "Not Found: tuition not found".to_string()));
    assert_eq!(refusal_pa(check_delete_plan(&None)), (404, "Not Found: tuition plan npt found".to_string()));
}
