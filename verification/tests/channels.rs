use lekta_api::channels::handlers::{
    check_archive_channel, check_creator_or_admin, check_get_channel, check_update_channel,
    listed_channel_kinds, plan_create_channel, stored_channel_kinds, CreateChannelResponse,
    UpdateChannelRequest,
};
use lekta_api::channels::members::{
    check_add_member, check_mark_read, check_remove_channel_member, MembershipChannelRow,
};
use lekta_api::channels::messages::{
    can_post, check_delete_message, check_edit_message, check_get_thread, check_list_messages,
    check_send_message, default_limit, page_cursor, plan_message_page, ChannelAccessRow,
    DeletableMessage, DeleteEffect, EditMessageRequest, ListMessageQuery, MessageRow, PageDirection,
    PostEffect, SendMessageRequest, ThreadParentRow,
};
use lekta_api::channels::reactions::{check_add_reaction, AddReactionRequest, ReactionTarget};
use lekta_api::channels::search::{default_search_limit, plan_search, SearchQuery};
use lekta_api::channels::types::{
    default_post_permission, default_visibility, ChannelType, PostPermission, Visibility,
};
use lekta_api::error::AppError;
use lekta_api::json::JsonValue;
use lekta_api::workspaces::types::WorkspaceRole;

fn refusal_ch<T>(r: Result<T, AppError>) -> (u16, String) {
    let e = r.err().expect("a refusal");
    (e.status_and_code().0, e.to_text())
}

fn fields_ch<T>(r: Result<T, AppError>) -> Vec<String> {
    match r {
        Err(AppError::Validation(v)) => v.fields,
        _ => panic!("expected a validation failure"),
    }
}

fn create_req(name: &str, display: &str, vis: Visibility) -> CreateChannelResponse {
    CreateChannelResponse {
        name: name.to_string(),
        display_name: display.to_string(),
        description: None,
        channel_type: ChannelType::Subject,
        visibility: vis,
        post_permission: PostPermission::Everyone,
    }
}

#[test]
fn channel_kind_names_round_trip() {
    for t in [ChannelType::Subject, ChannelType::Announcement, ChannelType::General] {
        assert!(ChannelType::from_name(t.name()) == Some(t));
    }
    for v in [Visibility::Public, Visibility::Private] {
        assert!(Visibility::from_name(v.name()) == Some(v));
    }
    for p in [PostPermission::Everyone, PostPermission::TutorsAndAdmins, PostPermission::AdminsOnly] {
        assert!(PostPermission::from_name(p.name()) == Some(p));
    }
    assert_eq!(PostPermission::TutorsAndAdmins.name(), "tutors_and_admins");
    assert!(ChannelType::from_name("Subject").is_none());
}

#[test]
fn channel_defaults_are_public_and_open() {
    assert!(default_visibility() == Visibility::Public);
    assert!(default_post_permission() == PostPermission::Everyone);
}

#[test]
fn channel_name_follows_the_slug_rule() {
    assert!(create_req("ab", "Maths", Visibility::Public).validate().is_ok());
    assert!(create_req("maths-101", "Maths", Visibility::Public).validate().is_ok());
    let long32 = "a".repeat(32);
    assert!(create_req(&long32, "Maths", Visibility::Public).validate().is_ok());
    let long33 = "a".repeat(33);
    assert!(create_req(&long33, "Maths", Visibility::Public).validate().is_err());
    assert!(create_req("a", "Maths", Visibility::Public).validate().is_err());
    assert!(create_req("-ab", "Maths", Visibility::Public).validate().is_err());
    assert!(create_req("ab-", "Maths", Visibility::Public).validate().is_err());
    assert!(create_req("Ab", "Maths", Visibility::Public).validate().is_err());
}

#[test]
fn create_channel_reports_every_bad_field() {
    let r = plan_create_channel(&create_req("A", "M", Visibility::Public), WorkspaceRole::Admin, false);
    assert_eq!(fields_ch(r), vec!["name".to_string(), "display_name".to_string()]);
}

#[test]
fn create_channel_needs_a_tutor() {
    let r = plan_create_channel(&create_req("maths", "Maths", Visibility::Public), WorkspaceRole::Student, false);
    assert_eq!(refusal_ch(r), (403, "Forbidden: tutor role required".to_string()));
    assert!(plan_create_channel(&create_req("maths", "Maths", Visibility::Public), WorkspaceRole::Tutor, false).is_ok());
    let mut news = create_req("news", "News", Visibility::Public);
    news.channel_type = ChannelType::Announcement;
    assert_eq!(refusal_ch(plan_create_channel(&news, WorkspaceRole::Tutor, false)), (403, "Forbidden: admin role required for annoucement channel".to_string()));
    assert!(plan_create_channel(&news, WorkspaceRole::Admin, false).is_ok());
}

#[test]
fn create_channel_refuses_a_taken_name() {
    let r = plan_create_channel(&create_req("maths", "Maths", Visibility::Public), WorkspaceRole::Admin, true);
    assert_eq!(refusal_ch(r), (409, "Conflict: channel name already exists".to_string()));
}

#[test]
fn private_channel_creator_joins() {
    let r = plan_create_channel(&create_req("staff", "Staff", Visibility::Private), WorkspaceRole::Proprietor, false);
    let c = r.ok().expect("created");
    assert!(c.creator_joins);
    assert_eq!(c.visibility, "private");
    assert_eq!(c.channel_type, "subject");
    assert_eq!(c.post_permission, "everyone");
    let p = plan_create_channel(&create_req("maths", "Maths", Visibility::Public), WorkspaceRole::Admin, false);
    assert!(!p.ok().expect("created").creator_joins);
}

#[test]
fn get_channel_rules() {
    assert_eq!(refusal_ch(check_get_channel(false, "public", false)), (404, "Not Found: channel not found".to_string()));
    assert!(check_get_channel(true, "public", true).is_ok());
    assert!(check_get_channel(true, "private", true).is_ok());
    assert_eq!(refusal_ch(check_get_channel(true, "private", false)), (404, "Not Found: channel not found".to_string()));
}

#[test]
fn channel_kinds_from_stored_names() {
    let k = listed_channel_kinds("general", "public", "admins_only").ok().expect("known");
    assert!(k.0 == ChannelType::General && k.1 == Visibility::Public && k.2 == PostPermission::AdminsOnly);
    assert_eq!(refusal_ch(listed_channel_kinds("x", "public", "everyone")), (500, "Internal error: invalid channel_type".to_string()));
    assert_eq!(refusal_ch(listed_channel_kinds("general", "x", "everyone")), (500, "Internal error: invalid visibility".to_string()));
    assert_eq!(refusal_ch(listed_channel_kinds("general", "public", "x")), (500, "Internal error: invalid post_permission".to_string()));
    assert!(matches!(stored_channel_kinds("general", "public", "x"), Err(AppError::Serialization)));
    assert!(stored_channel_kinds("subject", "private", "everyone").is_ok());
}

#[test]
fn update_and_archive_need_creator_or_admin() {
    assert_eq!(refusal_ch(check_creator_or_admin(None, true)), (404, "Not Found: channel not found".to_string()));
    assert_eq!(refusal_ch(check_creator_or_admin(Some("tutor"), false)), (403, "Forbidden: creator or admin only".to_string()));
    assert!(check_creator_or_admin(Some("tutor"), true).is_ok());
    assert!(check_creator_or_admin(Some("admin"), false).is_ok());
    let bad = UpdateChannelRequest { display_name: Some("x".to_string()), description: None, post_permission: None };
    assert_eq!(fields_ch(check_update_channel(&bad, Some("admin"), false)), vec!["display_name".to_string()]);
    let ok = UpdateChannelRequest { display_name: None, description: None, post_permission: Some(PostPermission::AdminsOnly) };
    assert!(check_update_channel(&ok, Some("proprietor"), false).is_ok());
}

#[test]
fn general_channel_is_never_archived() {
    assert_eq!(
        refusal_ch(check_archive_channel(Some("proprietor"), true, "general")),
        (400, "Bad request: cannot archive default channel #general".to_string())
    );
    assert!(check_archive_channel(Some("admin"), false, "maths").is_ok());
}

#[test]
fn message_page_is_capped_and_anchored() {
    assert_eq!(default_limit(), 50);
    let q = ListMessageQuery { before: None, after: Some(7), limit: 500 };
    assert!(page_cursor(&q) == Some(7));
    let p = plan_message_page(&q, Some(1000));
    assert_eq!(p.limit, 100);
    assert!(p.direction == PageDirection::After(1000));
    let b = ListMessageQuery { before: Some(3), after: Some(7), limit: 20 };
    assert!(page_cursor(&b) == Some(3));
    let p2 = plan_message_page(&b, Some(5));
    assert_eq!(p2.limit, 20);
    assert!(p2.direction == PageDirection::After(5));
    let only_before = ListMessageQuery { before: Some(3), after: None, limit: 20 };
    assert!(plan_message_page(&only_before, Some(5)).direction == PageDirection::Before(5));
    assert!(plan_message_page(&only_before, None).direction == PageDirection::Latest);
}

fn access_row(vis: &str, perm: &str, archived: bool, role: Option<&str>) -> ChannelAccessRow {
    ChannelAccessRow {
        visibility: vis.to_string(),
        post_permission: perm.to_string(),
        archived,
        role: role.map(|r| r.to_string()),
    }
}

#[test]
fn list_messages_rules() {
    assert_eq!(refusal_ch(check_list_messages(&None, true)), (404, "Not Found: channel not available".to_string()));
    assert_eq!(refusal_ch(check_list_messages(&Some(access_row("public", "everyone", false, None)), true)), (404, "Not Found: channel not found".to_string()));
    assert_eq!(refusal_ch(check_list_messages(&Some(access_row("private", "everyone", false, Some("student"))), false)), (404, "Not Found: channel not found".to_string()));
    assert!(check_list_messages(&Some(access_row("private", "everyone", false, Some("student"))), true).is_ok());
}

#[test]
fn post_permissions_by_stored_name() {
    assert!(can_post("everyone", "student"));
    assert!(can_post("admins_only", "admin"));
    assert!(!can_post("admins_only", "tutor"));
    assert!(can_post("tutors_and_admins", "tutor"));
    assert!(can_post("tutors_and_admins", "proprietor"));
    assert!(!can_post("tutors_and_admins", "student"));
    assert!(!can_post("tutos_and_admins", "tutor"));
}

fn send_req(content: &str, attachments: JsonValue, parent: Option<u128>) -> SendMessageRequest {
    SendMessageRequest { content: content.to_string(), attachments, thread_parent_id: parent }
}

#[test]
fn send_message_rules() {
    let row = Some(access_row("public", "everyone", false, Some("student")));
    let blank = send_req("   ", JsonValue::Null, None);
    assert_eq!(refusal_ch(check_send_message(&blank, &row, false, None)), (400, "Bad request: message must have content or attachments".to_string()));
    let with_file = send_req(" ", JsonValue::Array(vec![JsonValue::Str("k".to_string())]), None);
    assert!(matches!(check_send_message(&with_file, &row, false, None), Ok(PostEffect::CountInChannel)));
    let hello = send_req("hello", JsonValue::Null, None);
    assert_eq!(refusal_ch(check_send_message(&hello, &None, false, None)), (404, "Not Found: channel not found".to_string()));
    let archived = Some(access_row("public", "everyone", true, Some("admin")));
    assert_eq!(refusal_ch(check_send_message(&hello, &archived, false, None)), (400, "Bad request: channel is archived".to_string()));
    let private = Some(access_row("private", "everyone", false, Some("admin")));
    assert_eq!(refusal_ch(check_send_message(&hello, &private, false, None)), (404, "Not Found: channel not found".to_string()));
    let admins = Some(access_row("public", "admins_only", false, Some("student")));
    assert_eq!(refusal_ch(check_send_message(&hello, &admins, false, None)), (403, "Forbidden: you do not have permission to post here".to_string()));
    let reply = send_req("hi", JsonValue::Null, Some(9));
    assert_eq!(refusal_ch(check_send_message(&reply, &row, false, None)), (400, "Bad request: thread parent not found".to_string()));
    assert_eq!(refusal_ch(check_send_message(&reply, &row, false, Some(Some(1)))), (400, "Bad request: cannot reply to a thread reply".to_string()));
    assert!(matches!(check_send_message(&reply, &row, false, Some(None)), Ok(PostEffect::CountInThread(9))));
    let long = send_req(&"x".repeat(4001), JsonValue::Null, None);
    assert_eq!(fields_ch(check_send_message(&long, &row, false, None)), vec!["content".to_string()]);
}

const HOUR: i64 = 3_600_000_000_000;

#[test]
fn edit_window_is_a_day() {
    let req = EditMessageRequest { content: "fixed".to_string() };
    let msg = Some(MessageRow { sender_user_id: 1, created_at: 0, deleted: false });
    assert!(check_edit_message(&req, &msg, 1, 24 * HOUR).is_ok());
    assert_eq!(refusal_ch(check_edit_message(&req, &msg, 1, 24 * HOUR + 1)), (400, "Bad request: edit window wxpired".to_string()));
    assert_eq!(refusal_ch(check_edit_message(&req, &msg, 2, HOUR)), (403, "Forbidden: only sender can edit".to_string()));
    let gone = Some(MessageRow { sender_user_id: 1, created_at: 0, deleted: true });
    assert_eq!(refusal_ch(check_edit_message(&req, &gone, 1, HOUR)), (400, "Bad request: cannot edit deleted message".to_string()));
    assert_eq!(refusal_ch(check_edit_message(&req, &None, 1, HOUR)), (404, "Not Found: message not found".to_string()));
    let empty = EditMessageRequest { content: String::new() };
    assert_eq!(fields_ch(check_edit_message(&empty, &msg, 1, HOUR)), vec!["content".to_string()]);
}

#[test]
fn delete_message_rules() {
    let m = |sender: u128, deleted: bool, role: Option<&str>, channel: Option<u128>, parent: Option<u128>| {
        Some(DeletableMessage {
            sender_user_id: sender,
            deleted,
            role: role.map(|r| r.to_string()),
            channel_id: channel,
            thread_parent_id: parent,
        })
    };
    assert_eq!(refusal_ch(check_delete_message(&None, 1)), (404, "Not Found: message not found".to_string()));
    assert_eq!(refusal_ch(check_delete_message(&m(1, true, Some("admin"), None, None), 1)), (400, "Bad request: already deleted".to_string()));
    assert_eq!(refusal_ch(check_delete_message(&m(1, false, None, None, None), 1)), (404, "Not Found: message not found".to_string()));
    assert_eq!(refusal_ch(check_delete_message(&m(2, false, Some("tutor"), Some(5), None), 1)), (403, "Forbidden: only sender or admin can delete".to_string()));
    assert!(matches!(check_delete_message(&m(2, false, Some("admin"), Some(5), None), 1), Ok(DeleteEffect::UncountInChannel(5))));
    assert!(matches!(check_delete_message(&m(1, false, Some("student"), Some(5), Some(8)), 1), Ok(DeleteEffect::UncountInThread(8))));
    assert!(matches!(check_delete_message(&m(1, false, Some("student"), None, None), 1), Ok(DeleteEffect::Nothing)));
}

#[test]
fn thread_reading_rules() {
    let p = |role: Option<&str>, vis: Option<&str>| Some(ThreadParentRow { role: role.map(|s| s.to_string()), visibility: vis.map(|s| s.to_string()) });
    assert_eq!(refusal_ch(check_get_thread(&None, true)), (404, "Not Found: message not found".to_string()));
    assert_eq!(refusal_ch(check_get_thread(&p(None, Some("public")), true)), (404, "Not Found: message not found".to_string()));
    assert_eq!(refusal_ch(check_get_thread(&p(Some("student"), Some("private")), false)), (404, "Not Found: message not found".to_string()));
    assert!(check_get_thread(&p(Some("student"), Some("private")), true).is_ok());
    assert!(check_get_thread(&p(Some("student"), None), false).is_ok());
}

fn member_row(vis: &str, creator: u128, archived: bool, is_default: bool, role: Option<&str>) -> Option<MembershipChannelRow> {
    Some(MembershipChannelRow {
        visibility: vis.to_string(),
        created_by_user_id: creator,
        archived,
        is_default,
        role: role.map(|r| r.to_string()),
    })
}

#[test]
fn joining_and_adding_members() {
    assert!(matches!(check_add_member(&member_row("public", 9, false, false, Some("student")), 1, None, false), Ok(1)));
    assert_eq!(refusal_ch(check_add_member(&member_row("private", 9, false, false, Some("student")), 1, None, true)), (403, "Forbidden: private channels require an invite".to_string()));
    assert_eq!(refusal_ch(check_add_member(&member_row("public", 9, true, false, Some("admin")), 1, None, true)), (400, "Bad request: channel is archived".to_string()));
    assert_eq!(refusal_ch(check_add_member(&member_row("public", 9, false, false, Some("student")), 1, Some(2), true)), (403, "Forbidden: admin or creator only".to_string()));
    assert_eq!(refusal_ch(check_add_member(&member_row("private", 1, false, false, Some("student")), 1, Some(2), false)), (404, "Not Found: user is not a workspace member".to_string()));
    assert!(matches!(check_add_member(&member_row("private", 9, false, false, Some("admin")), 1, Some(2), true), Ok(2)));
    assert_eq!(refusal_ch(check_add_member(&None, 1, None, true)), (404, "Not Found: channel not found".to_string()));
}

#[test]
fn leaving_and_removing_members() {
    assert_eq!(refusal_ch(check_remove_channel_member(&member_row("public", 9, false, true, Some("student")), 1, 1)), (400, "Bad request: cannot leave defalt channels".to_string()));
    assert!(check_remove_channel_member(&member_row("public", 9, false, false, Some("student")), 1, 1).is_ok());
    assert_eq!(refusal_ch(check_remove_channel_member(&member_row("public", 9, false, false, Some("tutor")), 1, 2)), (403, "Forbidden: admin or creator only".to_string()));
    assert!(check_remove_channel_member(&member_row("public", 1, false, false, Some("tutor")), 1, 2).is_ok());
    assert_eq!(refusal_ch(check_remove_channel_member(&member_row("public", 1, false, false, None), 1, 2)), (404, "Not Found: channel not found".to_string()));
}

#[test]
fn marking_read_rules() {
    assert!(check_mark_read(&member_row("public", 9, false, false, Some("student")), false, false).is_ok());
    assert_eq!(refusal_ch(check_mark_read(&member_row("private", 9, false, false, Some("student")), false, true)), (404, "Not Found: channel not found".to_string()));
    assert_eq!(refusal_ch(check_mark_read(&member_row("private", 9, false, false, Some("student")), true, false)), (400, "Bad request: message not in this channel".to_string()));
    assert_eq!(refusal_ch(check_mark_read(&None, true, true)), (404, "Not Found: channel not found".to_string()));
}

#[test]
fn reaction_rules() {
    let _req = AddReactionRequest { emoji: "👍".to_string() };
    let t = |deleted: bool, vis: Option<&str>, role: Option<&str>, member: bool| Some(ReactionTarget {
        deleted,
        visibility: vis.map(|s| s.to_string()),
        role: role.map(|s| s.to_string()),
        channel_member: member,
    });
    assert!(check_add_reaction(&t(false, Some("public"), Some("student"), false)).is_ok());
    assert_eq!(refusal_ch(check_add_reaction(&t(true, Some("public"), Some("student"), false))), (404, "Not Found: message not found".to_string()));
    assert_eq!(refusal_ch(check_add_reaction(&t(false, Some("private"), Some("student"), false))), (404, "Not Found: message not found".to_string()));
    assert!(check_add_reaction(&t(false, Some("private"), Some("student"), true)).is_ok());
    assert_eq!(refusal_ch(check_add_reaction(&t(false, None, None, true))), (404, "Not Found: message not found".to_string()));
}

#[test]
fn search_rules() {
    assert_eq!(default_search_limit(), 20);
    let q = SearchQuery { q: "fractions".to_string(), limit: 80 };
    assert!(matches!(plan_search(&q), Ok(50)));
    let q2 = SearchQuery { q: "ab".to_string(), limit: 5 };
    assert!(matches!(plan_search(&q2), Ok(5)));
    let short = SearchQuery { q: "a".to_string(), limit: 5 };
    assert_eq!(fields_ch(plan_search(&short)), vec!["q".to_string()]);
}
