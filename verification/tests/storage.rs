use lekta_api::error::AppError;
use lekta_api::ids::uuid_to_string;
use lekta_api::storage::handlers::{
    check_download_member, content_extension, download_access, plan_upload, storage_key,
    DownloadAccess, RequestUploadRequest,
};

fn refusal_st<T>(r: Result<T, AppError>) -> (u16, String) {
    let e = r.err().expect("a refusal");
    (e.status_and_code().0, e.to_text())
}

const WS: u128 = 0x11111111_2222_3333_4444_555555555555;
const USER: u128 = 0xaaaaaaaa_bbbb_cccc_dddd_eeeeeeeeeeee;
const FILE: u128 = 0x01890000_0000_7000_8000_000000000001;

fn upload(purpose: &str) -> RequestUploadRequest {
    RequestUploadRequest {
        purpose: purpose.to_string(),
        content_type: "image/png".to_string(),
        size_bytes: 1024,
        workspace_id: Some(WS),
        message_id: Some(2),
        assignment_id: Some(3),
        submission_id: Some(4),
        question_id: Some(5),
        note_id: Some(6),
    }
}

#[test]
fn content_types_and_extensions() {
    assert_eq!(content_extension("image/jpeg"), Some("jpg"));
    assert_eq!(content_extension("audio/mp4"), Some("m4a"));
    assert_eq!(content_extension("video/webm"), Some("webm"));
    assert_eq!(content_extension("text/html"), None);
}

#[test]
fn upload_keys_by_purpose() {
    let k = storage_key(&upload("avatar"), USER, FILE, "png").ok().expect("key");
    assert_eq!(k, format!("avatars/{}/{}.png", uuid_to_string(USER), uuid_to_string(FILE)));
    let k = storage_key(&upload("tutor_photo"), USER, FILE, "png").ok().expect("key");
    assert_eq!(k, format!("tutor-photos/{}/{}/{}.png", uuid_to_string(WS), uuid_to_string(USER), uuid_to_string(FILE)));
    let k = storage_key(&upload("workspace_avatar"), USER, FILE, "png").ok().expect("key");
    assert_eq!(k, format!("workspace-avatars/{}/{}.png", uuid_to_string(WS), uuid_to_string(FILE)));
    let k = storage_key(&upload("message"), USER, FILE, "png").ok().expect("key");
    assert_eq!(k, format!("messages/{}/{}/{}.png", uuid_to_string(WS), uuid_to_string(2), uuid_to_string(FILE)));
    let k = storage_key(&upload("note"), USER, FILE, "pdf").ok().expect("key");
    assert_eq!(k, format!("notes/{}/{}/{}.pdf", uuid_to_string(WS), uuid_to_string(6), uuid_to_string(FILE)));
    assert_eq!(refusal_st(storage_key(&upload("selfie"), USER, FILE, "png")), (400, "Bad request: invalid purpose".to_string()));
    let mut no_ws = upload("message");
    no_ws.workspace_id = None;
    assert_eq!(refusal_st(storage_key(&no_ws, USER, FILE, "png")), (400, "Bad request: workspace_id required".to_string()));
    let mut no_msg = upload("message");
    no_msg.message_id = None;
    assert_eq!(refusal_st(storage_key(&no_msg, USER, FILE, "png")), (400, "Bad request: message_id required".to_string()));
}

#[test]
fn upload_requests() {
    let k = plan_upload(&upload("assignment"), USER).ok().expect("key");
    assert!(k.starts_with(&format!("assignments/{}/{}/", uuid_to_string(WS), uuid_to_string(3))));
    assert!(k.ends_with(".png"));
    let mut html = upload("assignment");
    html.content_type = "text/html".to_string();
    assert_eq!(refusal_st(plan_upload(&html, USER)), (400, "Bad request: content type not llowed".to_string()));
    let mut big = upload("assignment");
    big.size_bytes = 52428801;
    match plan_upload(&big, USER) {
        Err(AppError::Validation(v)) => assert_eq!(v.fields, vec!["size_bytes".to_string()]),
        _ => panic!("expected a validation failure"),
    }
}

#[test]
fn uploaded_files_are_downloadable_by_their_workspace() {
    for purpose in ["tutor_photo", "message", "assignment", "submission", "exam_media", "note"] {
        let key = plan_upload(&upload(purpose), USER).ok().expect("key");
        assert!(matches!(download_access(&key), Ok(DownloadAccess::WorkspaceMembers(w)) if w == WS));
    }
    let avatar = plan_upload(&upload("avatar"), USER).ok().expect("key");
    assert!(matches!(download_access(&avatar), Ok(DownloadAccess::Anyone)));
    // A workspace's own avatar is downloadable by the workspace's members.
    let ws_avatar = plan_upload(&upload("workspace_avatar"), USER).ok().expect("key");
    assert!(matches!(download_access(&ws_avatar), Ok(DownloadAccess::WorkspaceMembers(w)) if w == WS));
}

#[test]
fn download_key_checks() {
    assert_eq!(refusal_st(download_access("secrets/x")), (400, "Bad request: unknown key prefix".to_string()));
    assert_eq!(refusal_st(download_access("messages/not-a-uuid/x.png")), (400, "Bad request: invalid workspace id in key".to_string()));
    assert!(matches!(download_access(&format!("workspace-avatars/{}/x.png", uuid_to_string(WS))), Ok(DownloadAccess::WorkspaceMembers(w)) if w == WS));
    assert!(matches!(download_access(&format!("notes/{}", uuid_to_string(WS))), Ok(DownloadAccess::WorkspaceMembers(w)) if w == WS));
    assert!(check_download_member(true).is_ok());
    assert_eq!(refusal_st(check_download_member(false)), (403, "Forbidden: not a workspace member".to_string()));
}
