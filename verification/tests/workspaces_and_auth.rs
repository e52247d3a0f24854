use lekta_api::auth::password::{hash_password, hex_decode, password_digest, verify_password};
use sha2::Digest;
use lekta_api::auth::extractor::bearer_token;
use lekta_api::auth::handlers::{
    check_login, check_reset_password, check_verify_email, decide_refresh, expiry_after_days,
    plan_register, refresh_answer, reset_token_expiry, ForgotPasswordRequest, LoginAccount,
    LoginRequest, OneTimeTokenRow, RefreshDecision, RefreshTokenRow, RegisterRequest,
    ResetPasswordRequest, NANOS_PER_DAY, NANOS_PER_HOUR,
};
use lekta_api::auth::jwt::{build_claims, sign_claims, subject_user_id, token_rejection};
use lekta_api::auth::refresh_token::{generate_refresh_token, hash_refresh_token};
use lekta_api::error::AppError;
use lekta_api::workspaces::extractor::{build_context, ctx_cache_key, MembershipRow};
use lekta_api::workspaces::handlers::{
    check_delete_workspace, check_transfer_ownership, plan_create_workspace, require_admin,
    stored_payment_mode, stored_role, CreateWorkspaceRequest, TransferOwnershipRequest,
};
use lekta_api::workspaces::invitations::{
    check_accept_invitation, check_cancel_invitation, plan_create_invitation,
    CreateInvitationRequest, StoredInvitation, INVITATION_TTL_NANOS,
};
use lekta_api::workspaces::members::{check_change_member_role, check_remove_member, ChangeRoleRequest};
use lekta_api::workspaces::types::{OnboardingStep, PaymentMode, WorkspaceRole};

fn refusal_wa<T>(r: Result<T, AppError>) -> (u16, String) {
    let e = r.err().expect("a refusal");
    (e.status_and_code().0, e.to_text())
}

fn fields_wa<T>(r: Result<T, AppError>) -> Vec<String> {
    match r {
        Err(AppError::Validation(v)) => v.fields,
        _ => panic!("expected a validation failure"),
    }
}

#[test]
fn role_names_round_trip() {
    for r in [WorkspaceRole::Proprietor, WorkspaceRole::Admin, WorkspaceRole::Tutor, WorkspaceRole::Student] {
        assert!(WorkspaceRole::from_name(r.name()) == Some(r));
        assert!(!r.is_admin_or_above() || r.is_tutor_or_above());
    }
    assert!(WorkspaceRole::from_name("Admin").is_none());
    for m in [PaymentMode::LektaManaged, PaymentMode::External, PaymentMode::Hybrid] {
        assert!(PaymentMode::from_name(m.name()) == Some(m));
    }
    assert!(matches!(stored_role("tutor"), Ok(WorkspaceRole::Tutor)));
    assert_eq!(refusal_wa(stored_role("owner")), (500, "Internal error: invalid role".to_string()));
    assert!(matches!(stored_payment_mode("hybrid"), Ok(PaymentMode::Hybrid)));
    assert_eq!(refusal_wa(stored_payment_mode("cash")), (500, "Internal error: invalid payment_mode".to_string()));
}

fn ws_req(slug: &str) -> CreateWorkspaceRequest {
    CreateWorkspaceRequest {
        name: "Bright Minds".to_string(),
        slug: slug.to_string(),
        description: None,
        focus_areas: vec!["waec".to_string()],
        payment_mode: None,
        onboarding_steps: None,
    }
}

#[test]
fn creating_workspaces() {
    let w = plan_create_workspace(ws_req("bright-minds"), true, false).ok().expect("created");
    assert!(w.payment_mode == PaymentMode::LektaManaged);
    assert_eq!(w.paystack_subaccount_status, "pending");
    assert_eq!(w.onboarding_steps.len(), 4);
    match &w.onboarding_steps[0] {
        OnboardingStep::WelcomeMessage { title, delay_hours, .. } => {
            assert_eq!(title, "welcome to Bright Minds");
            assert_eq!(*delay_hours, 0);
        },
        _ => panic!("a welcome comes first"),
    }
    assert!(matches!(w.onboarding_steps[1], OnboardingStep::TutorIntroductions { delay_hours: 24 }));
    assert!(matches!(w.onboarding_steps[2], OnboardingStep::EnrollmentReminder { delay_hours: 72 }));
    assert!(matches!(w.onboarding_steps[3], OnboardingStep::WelcomeMessage { delay_hours: 168, .. }));
    let mut ext = ws_req("bright-minds");
    ext.payment_mode = Some(PaymentMode::External);
    ext.onboarding_steps = Some(vec![]);
    let w = plan_create_workspace(ext, true, false).ok().expect("created");
    assert_eq!(w.paystack_subaccount_status, "not_applicable");
    assert!(w.onboarding_steps.is_empty());
    assert_eq!(refusal_wa(plan_create_workspace(ws_req("bright-minds"), false, false)), (403, "Forbidden: email must be verified".to_string()));
    assert_eq!(refusal_wa(plan_create_workspace(ws_req("bright-minds"), true, true)), (409, "Conflict: slug already taken".to_string()));
    assert_eq!(fields_wa(plan_create_workspace(ws_req("B"), true, false)), vec!["slug".to_string()]);
}

#[test]
fn default_onboarding_sequence() {
    let steps = OnboardingStep::default_sequence("Bright Minds");
    assert_eq!(steps.len(), 4);
    match &steps[0] {
        OnboardingStep::WelcomeMessage { title, delay_hours, .. } => {
            assert!(title.contains("Bright Minds"));
            assert_eq!(*delay_hours, 0);
        },
        _ => panic!("a welcome comes first"),
    }
}

#[test]
fn ownership_and_deletion() {
    let req = TransferOwnershipRequest { new_proprietor_user_id: 2 };
    assert!(check_transfer_ownership(WorkspaceRole::Proprietor, 1, &req, Some("admin")).is_ok());
    assert_eq!(refusal_wa(check_transfer_ownership(WorkspaceRole::Admin, 1, &req, Some("admin"))), (403, "Forbidden: proprietor only".to_string()));
    assert_eq!(refusal_wa(check_transfer_ownership(WorkspaceRole::Proprietor, 2, &req, Some("admin"))), (400, "Bad request: cannot transfer to self".to_string()));
    assert_eq!(refusal_wa(check_transfer_ownership(WorkspaceRole::Proprietor, 1, &req, None)), (404, "Not Found: user is not a member".to_string()));
    assert_eq!(refusal_wa(check_transfer_ownership(WorkspaceRole::Proprietor, 1, &req, Some("tutor"))), (400, "Bad request: target must first be an admin to become a proprietor".to_string()));
    assert!(check_delete_workspace(WorkspaceRole::Proprietor).is_ok());
    assert_eq!(refusal_wa(check_delete_workspace(WorkspaceRole::Admin)), (403, "Forbidden: proprietor only".to_string()));
    assert!(require_admin(WorkspaceRole::Admin).is_ok());
    assert_eq!(refusal_wa(require_admin(WorkspaceRole::Tutor)), (403, "Forbidden: admin role required".to_string()));
}

#[test]
fn member_management() {
    let to_tutor = ChangeRoleRequest { role: WorkspaceRole::Tutor };
    assert!(check_change_member_role(WorkspaceRole::Admin, &to_tutor, Some("student")).is_ok());
    assert_eq!(refusal_wa(check_change_member_role(WorkspaceRole::Tutor, &to_tutor, Some("student"))), (403, "Forbidden: admin role required".to_string()));
    let to_owner = ChangeRoleRequest { role: WorkspaceRole::Proprietor };
    assert_eq!(refusal_wa(check_change_member_role(WorkspaceRole::Admin, &to_owner, Some("student"))), (400, "Bad request: cannot promote to proprietor; use transfer-ownership".to_string()));
    assert_eq!(refusal_wa(check_change_member_role(WorkspaceRole::Admin, &to_tutor, Some("proprietor"))), (400, "Bad request: cannot demote proprietor; use transfer-ownership".to_string()));
    assert_eq!(refusal_wa(check_change_member_role(WorkspaceRole::Admin, &to_tutor, None)), (400, "Bad request: member not found".to_string()));
    assert!(check_remove_member(WorkspaceRole::Admin, Some("tutor")).is_ok());
    assert_eq!(refusal_wa(check_remove_member(WorkspaceRole::Admin, Some("proprietor"))), (400, "Bad request: cannot remove proprietor".to_string()));
    assert_eq!(refusal_wa(check_remove_member(WorkspaceRole::Admin, None)), (404, "Not Found: member not found".to_string()));
}

#[test]
fn invitations_last_a_week_and_work_once() {
    let req = CreateInvitationRequest { email: "new@school.ng".to_string(), role: WorkspaceRole::Tutor, personal_message: None };
    assert!(matches!(plan_create_invitation(&req, WorkspaceRole::Admin, false, false, 1000), Ok(t) if t == 1000 + INVITATION_TTL_NANOS));
    assert_eq!(INVITATION_TTL_NANOS, 7 * NANOS_PER_DAY);
    assert!(plan_create_invitation(&req, WorkspaceRole::Proprietor, false, false, 0).is_ok());
    let as_owner = CreateInvitationRequest { email: "new@school.ng".to_string(), role: WorkspaceRole::Proprietor, personal_message: None };
    assert_eq!(refusal_wa(plan_create_invitation(&as_owner, WorkspaceRole::Admin, false, false, 0)), (400, "Bad request: cannot invite as proprietor".to_string()));
    assert_eq!(refusal_wa(plan_create_invitation(&as_owner, WorkspaceRole::Proprietor, false, false, 0)), (400, "Bad request: cannot invite as proprietor".to_string()));
    assert_eq!(refusal_wa(plan_create_invitation(&req, WorkspaceRole::Admin, true, false, 0)), (409, "Conflict: user is already a member".to_string()));
    assert_eq!(refusal_wa(plan_create_invitation(&req, WorkspaceRole::Admin, false, true, 0)), (409, "Conflict: invitation already pending".to_string()));
    assert_eq!(refusal_wa(plan_create_invitation(&req, WorkspaceRole::Tutor, false, false, 0)), (403, "Forbidden: admin role required".to_string()));
    assert!(check_cancel_invitation(WorkspaceRole::Admin, 1).is_ok());
    assert_eq!(refusal_wa(check_cancel_invitation(WorkspaceRole::Admin, 0)), (404, "Not Found: invite not found".to_string()));
    let inv = StoredInvitation { email: "new@school.ng".to_string(), role: "tutor".to_string(), expires_at: 100, accepted: false };
    assert!(matches!(check_accept_invitation(&inv, 50, "New@School.ng", true), Ok(WorkspaceRole::Tutor)));
    assert_eq!(refusal_wa(check_accept_invitation(&inv, 101, "new@school.ng", true)), (401, "unauthorized: invitations expired".to_string()));
    assert_eq!(refusal_wa(check_accept_invitation(&inv, 50, "other@school.ng", true)), (403, "Forbidden: invitation was sent to a different email".to_string()));
    assert_eq!(refusal_wa(check_accept_invitation(&inv, 50, "new@school.ng", false)), (404, "Not Found: workspace not found".to_string()));
    let used = StoredInvitation { email: "new@school.ng".to_string(), role: "tutor".to_string(), expires_at: 100, accepted: true };
    assert_eq!(refusal_wa(check_accept_invitation(&used, 50, "new@school.ng", true)), (404, "Not Found: invitations already accepted".to_string()));
}

#[test]
fn workspace_context() {
    let key = ctx_cache_key(0x01, "bright-minds");
    assert_eq!(key, "workspace_ctx:00000000-0000-0000-0000-000000000001:bright-minds");
    let row = MembershipRow { workspace_id: 5, payment_mode: "external".to_string(), role: "admin".to_string() };
    let c = build_context(Some(row), "bright-minds".to_string(), 9).ok().expect("context");
    assert!(c.workspace_id == 5 && c.user_id == 9 && c.role == WorkspaceRole::Admin && c.payment_mode == PaymentMode::External);
    assert_eq!(refusal_wa(build_context(None, "x".to_string(), 9)), (404, "Not Found: Workspace not found".to_string()));
    let bad = MembershipRow { workspace_id: 5, payment_mode: "external".to_string(), role: "boss".to_string() };
    assert_eq!(refusal_wa(build_context(Some(bad), "x".to_string(), 9)), (500, "Internal error: invalid role in db".to_string()));
}

#[test]
fn registration_and_login() {
    let req = RegisterRequest { email: "ada@school.ng".to_string(), password: "s3cret-pass".to_string(), full_name: "Ada".to_string(), timezone: None };
    let g = plan_register(&req, false, 0).ok().expect("registered");
    assert_eq!(g.timezone, "Africa/Lagos");
    assert_eq!(g.verification_expires_at, 48 * NANOS_PER_HOUR);
    assert_eq!(refusal_wa(plan_register(&req, true, 0)), (409, "Conflict: Email already registered".to_string()));
    let bad = RegisterRequest { email: "not-an-email".to_string(), password: "x".to_string(), full_name: "A".to_string(), timezone: None };
    assert_eq!(fields_wa(plan_register(&bad, false, 0)), vec!["email".to_string(), "password".to_string(), "full_name".to_string()]);
    let login = LoginRequest { email: "ada@school.ng".to_string(), password: "s3cret-pass".to_string(), device_name: None };
    assert!(check_login(&login, LoginAccount::Password { matches: true }).is_ok());
    assert_eq!(refusal_wa(check_login(&login, LoginAccount::Password { matches: false })), (401, "unauthorized: Invalid credentials".to_string()));
    assert_eq!(refusal_wa(check_login(&login, LoginAccount::Unknown)), (401, "unauthorized: Invalid credentials".to_string()));
    assert_eq!(refusal_wa(check_login(&login, LoginAccount::GoogleOnly)), (401, "unauthorized: Use Google sign-in for this account".to_string()));
    let forgot = ForgotPasswordRequest { email: "nope".to_string() };
    assert_eq!(forgot.validate().err().expect("invalid").fields, vec!["email".to_string()]);
}

#[test]
fn refresh_tokens_rotate_once() {
    let row = RefreshTokenRow { id: 1, user_id: 7, revoked: false, expires_at: 100 };
    assert!(decide_refresh(Some(row), 50) == RefreshDecision::Rotate { token_id: 1, user_id: 7 });
    let used = RefreshTokenRow { revoked: true, ..row };
    assert!(decide_refresh(Some(used), 50) == RefreshDecision::ReuseDetected { user_id: 7 });
    assert!(decide_refresh(Some(row), 101) == RefreshDecision::Expired);
    assert!(decide_refresh(None, 50) == RefreshDecision::Invalid);
    assert_eq!(refusal_wa(refresh_answer(RefreshDecision::ReuseDetected { user_id: 7 })), (401, "unauthorized: Token reuse detected".to_string()));
    assert_eq!(refusal_wa(refresh_answer(RefreshDecision::Expired)), (401, "unauthorized: Refresh token expired".to_string()));
    assert_eq!(refusal_wa(refresh_answer(RefreshDecision::Invalid)), (401, "unauthorized: invalid refresh token".to_string()));
    assert!(refresh_answer(RefreshDecision::Rotate { token_id: 1, user_id: 7 }).is_ok());
    assert_eq!(expiry_after_days(10, 30), 10 + 30 * NANOS_PER_DAY);
}

#[test]
fn refresh_token_material() {
    let t = generate_refresh_token();
    assert_eq!(t.len(), 43);
    assert!(t.chars().all(|c| c.is_ascii_alphanumeric() || c == '-' || c == '_'));
    assert_ne!(t, generate_refresh_token());
    // SHA-256 of "abc".
    assert_eq!(hash_refresh_token("abc"), "ba7816bf8f01cfea414140de5dae2223b00361a396177a9cb410ff61f20015ad");
}

#[test]
fn password_reset_and_email_verification() {
    let ok = ResetPasswordRequest { token: "t".to_string(), new_password: "long-enough".to_string() };
    let row = || Some(OneTimeTokenRow { id: 1, user_id: 4, used: false, expires_at: 100 });
    assert!(matches!(check_reset_password(&ok, row(), 50), Ok(4)));
    let used = Some(OneTimeTokenRow { id: 1, user_id: 4, used: true, expires_at: 100 });
    assert_eq!(refusal_wa(check_reset_password(&ok, used, 50)), (401, "unauthorized: Invalid reset token".to_string()));
    assert_eq!(refusal_wa(check_reset_password(&ok, None, 50)), (401, "unauthorized: Invalid reset token".to_string()));
    assert_eq!(refusal_wa(check_reset_password(&ok, row(), 150)), (401, "unauthorized: Reset token already used".to_string()));
    let short = ResetPasswordRequest { token: "t".to_string(), new_password: "short".to_string() };
    assert_eq!(fields_wa(check_reset_password(&short, row(), 50)), vec!["new_password".to_string()]);
    assert!(matches!(check_verify_email(row(), 50), Ok(4)));
    assert_eq!(refusal_wa(check_verify_email(row(), 150)), (401, "unauthorized: verification token expired".to_string()));
    assert_eq!(refusal_wa(check_verify_email(None, 50)), (401, "unauthorized: Invalid verification token".to_string()));
    assert_eq!(reset_token_expiry(5), 5 + NANOS_PER_HOUR);
}

#[test]
fn bearer_tokens() {
    assert!(matches!(bearer_token(Some(b"Bearer abc.def")), Ok(ref t) if t == "abc.def"));
    assert_eq!(refusal_wa(bearer_token(None)).0, 401);
    assert_eq!(refusal_wa(bearer_token(Some(b"Basic abc"))), (401, "unauthorized: Invalid authorization scheme".to_string()));
    assert_eq!(refusal_wa(bearer_token(Some(&[0x42, 0xff]))), (401, "unauthorized: Invalid authorization header encoding".to_string()));
}

#[test]
fn access_tokens_decode_with_the_secret() {
    let claims = build_claims(0x2a, 1_700_000_000, 900, 0x07);
    assert_eq!(claims.sub, "00000000-0000-0000-0000-00000000002a");
    assert_eq!(claims.exp, 1_700_000_900);
    let secret = "0123456789abcdef0123456789abcdef";
    let token = sign_claims(&claims, secret);
    assert_eq!(token.split('.').count(), 3);
    let mut v = jsonwebtoken::Validation::new(jsonwebtoken::Algorithm::HS256);
    v.validate_exp = false;
    let data = jsonwebtoken::decode::<serde_json::Value>(&token, &jsonwebtoken::DecodingKey::from_secret(secret.as_bytes()), &v).expect("valid token");
    assert_eq!(data.claims["sub"], "00000000-0000-0000-0000-00000000002a");
    assert_eq!(data.claims["iat"], 1_700_000_000u64);
    assert_eq!(data.claims["exp"], 1_700_000_900u64);
    assert_eq!(data.claims["jti"], "00000000-0000-0000-0000-000000000007");
    assert!(jsonwebtoken::decode::<serde_json::Value>(&token, &jsonwebtoken::DecodingKey::from_secret(b"another-secret-another-secret-xx"), &v).is_err());
    assert!(matches!(subject_user_id(&claims), Ok(0x2a)));
    let e = token_rejection(true);
    assert_eq!(e.to_text(), "unauthorized: Token expired");
    assert_eq!(token_rejection(false).to_text(), "unauthorized: Invalid token");
}

#[test]
fn stored_password_hashes() {
    let stored = hash_password("correct horse");
    assert!(stored.starts_with("sha256i$100000$"));
    assert_eq!(stored.split('$').count(), 4);
    assert!(verify_password("correct horse", &stored));
    assert!(!verify_password("wrong horse", &stored));
    assert!(!verify_password("correct horse", "not a hash"));
    assert!(!verify_password("correct horse", "sha256i$0$00$00"));
    assert!(!verify_password("correct horse", "sha256i$1$0g$00"));
    // Two rounds: the digest of salt and password, then of salt and that digest.
    let salt = [1u8, 2, 3];
    let mut first = sha2::Sha256::new();
    first.update(salt);
    first.update(b"pw");
    let d1 = first.finalize().to_vec();
    let mut second = sha2::Sha256::new();
    second.update(salt);
    second.update(&d1);
    let d2 = second.finalize().to_vec();
    assert_eq!(password_digest(&salt, b"pw", 1), d1);
    assert_eq!(password_digest(&salt, b"pw", 2), d2);
    assert_eq!(password_digest(&salt, b"pw", 0), d1);
    let made = format!("sha256i$2$010203${}", lekta_api::crypto::hex_encode(&d2));
    assert!(verify_password("pw", &made));
    let upper = format!("sha256i$+2$01A2B3${}", lekta_api::crypto::hex_encode(&password_digest(&[0x01, 0xa2, 0xb3], b"pw", 2)));
    assert!(verify_password("pw", &upper));
    assert_eq!(hex_decode(&"0aFf".chars().collect::<Vec<char>>()), Some(vec![0x0a, 0xff]));
    assert_eq!(hex_decode(&"0a0".chars().collect::<Vec<char>>()), None);
}
