//! Messages in channels: reading pages of them, posting, editing and deleting,
//! and reading threads.
use vstd::prelude::*;
use crate::error::{
    AppError, ErrorKind, Refusal, ValidationErrors, decided, failed_field, finish_validation,
    invalid_with, note_field, refuse, validation_outcome,
};
use crate::json::JsonValue;
use crate::channels::types::PostPermission;
use crate::payments::tuition::{admin_name, is_admin_name};
use crate::text::{is_blank, is_blank_str, str_eq};
use crate::validation::{chars_within, len_within};
use crate::workspaces::members::opt_view;

verus! {

/// The page size a message listing gets when it names none.
pub fn default_limit() -> (n: u32)
    ensures
        n == 50,
{
    50
}

pub struct ListMessageQuery {
    pub before: Option<u128>,
    pub after: Option<u128>,
    pub limit: u32,
}

/// Which messages a page holds: the newest, those just before a point in time
/// (newest first) or those just after it (oldest first).
#[derive(PartialEq, Eq, Structural, Clone, Copy)]
pub enum PageDirection {
    Latest,
    Before(i64),
    After(i64),
}

pub struct MessagePage {
    pub direction: PageDirection,
    pub limit: i64,
}

/// The message a page is anchored on: `before` if given, else `after`.
pub open spec fn cursor(q: ListMessageQuery) -> Option<u128> {
    match q.before {
        Some(b) => Some(b),
        None => q.after,
    }
}

pub fn page_cursor(q: &ListMessageQuery) -> (r: Option<u128>)
    ensures
        r == cursor(*q),
{
    match q.before {
        Some(b) => Some(b),
        None => q.after,
    }
}

/// The page a listing reads, given the time of its anchor message (`None` when
/// the listing names no anchor or the anchor is unknown): at most 100 messages;
/// forward only when `after` was given and its anchor resolved.
pub fn plan_message_page(q: &ListMessageQuery, cursor_time: Option<i64>) -> (p: MessagePage)
    ensures
        p.limit == if q.limit <= 100 { q.limit as int } else { 100 },
        p.direction == match cursor_time {
            None => PageDirection::Latest,
            Some(t) => if q.after is Some {
                PageDirection::After(t)
            } else {
                PageDirection::Before(t)
            },
        },
{
    let limit: i64 = if q.limit <= 100 { q.limit as i64 } else { 100 };
    let direction = match cursor_time {
        None => PageDirection::Latest,
        Some(t) => if q.after.is_some() {
            PageDirection::After(t)
        } else {
            PageDirection::Before(t)
        },
    };
    MessagePage { direction, limit }
}

/// What a message operation learns of a channel: its visibility, post
/// permission and archived flag, and the caller's role in its workspace.
pub struct ChannelAccessRow {
    pub visibility: String,
    pub post_permission: String,
    pub archived: bool,
    pub role: Option<String>,
}

pub open spec fn opt_string(o: Option<String>) -> Option<Seq<char>> {
    match o {
        Some(s) => Some(s@),
        None => None,
    }
}

pub open spec fn list_messages_refusal(row: Option<ChannelAccessRow>, channel_member: bool) -> Option<
    Refusal,
> {
    match row {
        None => Some((ErrorKind::NotFound, "channel not available"@)),
        Some(c) => if c.role is None {
            Some((ErrorKind::NotFound, "channel not found"@))
        } else if c.visibility@ == "private"@ && !channel_member {
            Some((ErrorKind::NotFound, "channel not found"@))
        } else {
            None
        },
    }
}

/// Decides who may read a channel's messages: a member of its workspace, and of a
/// private channel, a member of the channel.
pub fn check_list_messages(row: &Option<ChannelAccessRow>, channel_member: bool) -> (r: Result<
    (),
    AppError,
>)
    ensures
        decided(r, list_messages_refusal(*row, channel_member)),
{
    match row {
        None => Err(refuse(ErrorKind::NotFound, "channel not available")),
        Some(c) => {
            if c.role.is_none() {
                return Err(refuse(ErrorKind::NotFound, "channel not found"));
            }
            if str_eq(c.visibility.as_str(), "private") && !channel_member {
                return Err(refuse(ErrorKind::NotFound, "channel not found"));
            }
            Ok(())
        },
    }
}

/// Whether a role may post under a stored post permission. Only the stored
/// names `everyone`, `tutors_and_admins` and `admins_only` grant anything.
pub open spec fn may_post(permission: Seq<char>, role: Seq<char>) -> bool {
    if permission == "everyone"@ {
        true
    } else if permission == "tutors_and_admins"@ {
        role == "proprietor"@ || role == "admin"@ || role == "tutor"@
    } else if permission == "admins_only"@ {
        is_admin_name(role)
    } else {
        false
    }
}

pub fn can_post(permission: &str, role: &str) -> (r: bool)
    ensures
        r == may_post(permission@, role@),
{
    if str_eq(permission, "everyone") {
        true
    } else if str_eq(permission, "tutors_and_admins") {
        str_eq(role, "proprietor") || str_eq(role, "admin") || str_eq(role, "tutor")
    } else if str_eq(permission, "admins_only") {
        admin_name(role)
    } else {
        false
    }
}

pub struct SendMessageRequest {
    pub content: String,
    pub attachments: JsonValue,
    pub thread_parent_id: Option<u128>,
}

impl SendMessageRequest {
    pub open spec fn failures(self) -> Seq<Seq<char>> {
        Seq::empty() + failed_field(self.content@.len() <= 4000, "content"@)
    }

    pub fn validate(&self) -> (r: Result<(), ValidationErrors>)
        ensures
            validation_outcome(r, self.failures()),
    {
        let mut errs: Vec<String> = Vec::new();
        assert(crate::json::views(errs@) =~= Seq::<Seq<char>>::empty());
        note_field(&mut errs, chars_within(self.content.as_str(), 0, 4000), "content");
        finish_validation(errs)
    }
}

/// What posting a message changes besides storing it: a top-level message
/// counts towards its channel, a reply towards its thread's first message.
#[derive(PartialEq, Eq, Structural, Clone, Copy)]
pub enum PostEffect {
    CountInChannel,
    CountInThread(u128),
}

pub open spec fn send_message_refusal(
    req: SendMessageRequest,
    row: Option<ChannelAccessRow>,
    channel_member: bool,
    parent: Option<Option<u128>>,
) -> Option<Refusal> {
    if is_blank(req.content@) && !req.attachments.is_nonempty_array() {
        Some((ErrorKind::BadRequest, "message must have content or attachments"@))
    } else {
        match row {
            None => Some((ErrorKind::NotFound, "channel not found"@)),
            Some(c) => match c.role {
                None => Some((ErrorKind::NotFound, "channel not found"@)),
                Some(role) => if c.archived {
                    Some((ErrorKind::BadRequest, "channel is archived"@))
                } else if c.visibility@ == "private"@ && !channel_member {
                    Some((ErrorKind::NotFound, "channel not found"@))
                } else if !may_post(c.post_permission@, role@) {
                    Some((ErrorKind::Forbidden, "you do not have permission to post here"@))
                } else if req.thread_parent_id is Some && parent is None {
                    Some((ErrorKind::BadRequest, "thread parent not found"@))
                } else if req.thread_parent_id is Some && parent matches Some(Some(_)) {
                    Some((ErrorKind::BadRequest, "cannot reply to a thread reply"@))
                } else {
                    None
                },
            },
        }
    }
}

/// Decides posting a message. `row` is the channel as the caller sees it,
/// `channel_member` whether the caller belongs to it, and `parent`, for a reply,
/// the parent message if it is a live message of this channel (holding its own
/// parent, if it has one). A message needs content or attachments; the channel
/// must be visible to the caller, not archived, and open to the caller's role;
/// a reply goes to a first message of a thread, never to a reply.
pub fn check_send_message(
    req: &SendMessageRequest,
    row: &Option<ChannelAccessRow>,
    channel_member: bool,
    parent: Option<Option<u128>>,
) -> (r: Result<PostEffect, AppError>)
    ensures
        req.failures().len() > 0 ==> invalid_with(r, req.failures()),
        req.failures().len() == 0 ==> decided(
            r,
            send_message_refusal(*req, *row, channel_member, parent),
        ),
        r matches Ok(e) ==> e == match req.thread_parent_id {
            None => PostEffect::CountInChannel,
            Some(p) => PostEffect::CountInThread(p),
        },
{
    match req.validate() {
        Err(e) => {
            return Err(AppError::Validation(e));
        },
        Ok(()) => {},
    }
    if is_blank_str(req.content.as_str()) && !req.attachments.has_items() {
        return Err(refuse(ErrorKind::BadRequest, "message must have content or attachments"));
    }
    let c = match row {
        None => {
            return Err(refuse(ErrorKind::NotFound, "channel not found"));
        },
        Some(c) => c,
    };
    let role = match &c.role {
        None => {
            return Err(refuse(ErrorKind::NotFound, "channel not found"));
        },
        Some(role) => role,
    };
    if c.archived {
        return Err(refuse(ErrorKind::BadRequest, "channel is archived"));
    }
    if str_eq(c.visibility.as_str(), "private") && !channel_member {
        return Err(refuse(ErrorKind::NotFound, "channel not found"));
    }
    if !can_post(c.post_permission.as_str(), role.as_str()) {
        return Err(refuse(ErrorKind::Forbidden, "you do not have permission to post here"));
    }
    match req.thread_parent_id {
        None => Ok(PostEffect::CountInChannel),
        Some(p) => match parent {
            None => Err(refuse(ErrorKind::BadRequest, "thread parent not found")),
            Some(Some(_)) => Err(refuse(ErrorKind::BadRequest, "cannot reply to a thread reply")),
            Some(None) => Ok(PostEffect::CountInThread(p)),
        },
    }
}

/// A member may always post where everyone may; a tutor or administrator where
/// tutors and administrators may, and nobody else there; an administrator
/// wherever only administrators may.
pub proof fn law_post_permissions(role: Seq<char>)
    ensures
        may_post(PostPermission::Everyone.spec_name(), role),
        may_post(PostPermission::TutorsAndAdmins.spec_name(), role) <==> (role == "tutor"@
            || is_admin_name(role)),
        is_admin_name(role) ==> may_post(PostPermission::AdminsOnly.spec_name(), role),
{
    reveal_strlit("everyone");
    reveal_strlit("tutors_and_admins");
    assert("everyone"@[0] != "tutors_and_admins"@[0]);
    reveal_strlit("admins_only");
    assert("everyone"@[0] != "admins_only"@[0]);
}

pub struct EditMessageRequest {
    pub content: String,
}

impl EditMessageRequest {
    pub open spec fn failures(self) -> Seq<Seq<char>> {
        Seq::empty() + failed_field(len_within(self.content@, 1, 4000), "content"@)
    }

    pub fn validate(&self) -> (r: Result<(), ValidationErrors>)
        ensures
            validation_outcome(r, self.failures()),
    {
        let mut errs: Vec<String> = Vec::new();
        assert(crate::json::views(errs@) =~= Seq::<Seq<char>>::empty());
        note_field(&mut errs, chars_within(self.content.as_str(), 1, 4000), "content");
        finish_validation(errs)
    }
}

/// A message as the edit and delete rules see it.
pub struct MessageRow {
    pub sender_user_id: u128,
    pub created_at: i64,
    pub deleted: bool,
}

/// How long after posting a message its sender may still edit it: a day.
pub const EDIT_WINDOW_NANOS: i128 = 86400000000000;

pub open spec fn edit_message_refusal(msg: Option<MessageRow>, user_id: u128, now: i64) -> Option<
    Refusal,
> {
    match msg {
        None => Some((ErrorKind::NotFound, "message not found"@)),
        Some(m) => if m.deleted {
            Some((ErrorKind::BadRequest, "cannot edit deleted message"@))
        } else if m.sender_user_id != user_id {
            Some((ErrorKind::Forbidden, "only sender can edit"@))
        } else if now - m.created_at > EDIT_WINDOW_NANOS {
            Some((ErrorKind::BadRequest, "edit window wxpired"@))
        } else {
            None
        },
    }
}

/// Decides an edit: a valid request, on a live message, by its sender, within a
/// day of posting.
pub fn check_edit_message(
    req: &EditMessageRequest,
    msg: &Option<MessageRow>,
    user_id: u128,
    now: i64,
) -> (r: Result<(), AppError>)
    ensures
        req.failures().len() > 0 ==> invalid_with(r, req.failures()),
        req.failures().len() == 0 ==> decided(r, edit_message_refusal(*msg, user_id, now)),
{
    match req.validate() {
        Err(e) => {
            return Err(AppError::Validation(e));
        },
        Ok(()) => {},
    }
    match msg {
        None => Err(refuse(ErrorKind::NotFound, "message not found")),
        Some(m) => {
            if m.deleted {
                return Err(refuse(ErrorKind::BadRequest, "cannot edit deleted message"));
            }
            if m.sender_user_id != user_id {
                return Err(refuse(ErrorKind::Forbidden, "only sender can edit"));
            }
            if (now as i128) - (m.created_at as i128) > EDIT_WINDOW_NANOS {
                return Err(refuse(ErrorKind::BadRequest, "edit window wxpired"));
            }
            Ok(())
        },
    }
}

/// A sender may edit a live message of theirs at any time within a day of
/// posting it, and never later.
pub proof fn law_edit_window(m: MessageRow, now: i64)
    requires
        !m.deleted,
    ensures
        edit_message_refusal(Some(m), m.sender_user_id, now) is None <==> now - m.created_at
            <= EDIT_WINDOW_NANOS,
{
}

/// A message as the delete rule sees it: its sender, whether it is already
/// deleted, the caller's role in its workspace, and where it counts.
pub struct DeletableMessage {
    pub sender_user_id: u128,
    pub deleted: bool,
    pub role: Option<String>,
    pub channel_id: Option<u128>,
    pub thread_parent_id: Option<u128>,
}

/// What deleting a message takes back: its count in its thread or channel.
#[derive(PartialEq, Eq, Structural, Clone, Copy)]
pub enum DeleteEffect {
    UncountInThread(u128),
    UncountInChannel(u128),
    Nothing,
}

pub open spec fn delete_message_refusal(msg: Option<DeletableMessage>, user_id: u128) -> Option<
    Refusal,
> {
    match msg {
        None => Some((ErrorKind::NotFound, "message not found"@)),
        Some(m) => if m.deleted {
            Some((ErrorKind::BadRequest, "already deleted"@))
        } else {
            match m.role {
                None => Some((ErrorKind::NotFound, "message not found"@)),
                Some(role) => if m.sender_user_id != user_id && !is_admin_name(role@) {
                    Some((ErrorKind::Forbidden, "only sender or admin can delete"@))
                } else {
                    None
                },
            }
        },
    }
}

pub open spec fn delete_effect(m: DeletableMessage) -> DeleteEffect {
    match m.thread_parent_id {
        Some(p) => DeleteEffect::UncountInThread(p),
        None => match m.channel_id {
            Some(c) => DeleteEffect::UncountInChannel(c),
            None => DeleteEffect::Nothing,
        },
    }
}

/// Decides a deletion: of a live message, by its sender or a workspace
/// administrator; a reply is taken off its thread's count, a top-level message
/// off its channel's.
pub fn check_delete_message(msg: &Option<DeletableMessage>, user_id: u128) -> (r: Result<
    DeleteEffect,
    AppError,
>)
    ensures
        decided(r, delete_message_refusal(*msg, user_id)),
        r matches Ok(e) ==> *msg matches Some(m) && e == delete_effect(m),
{
    match msg {
        None => Err(refuse(ErrorKind::NotFound, "message not found")),
        Some(m) => {
            if m.deleted {
                return Err(refuse(ErrorKind::BadRequest, "already deleted"));
            }
            match &m.role {
                None => Err(refuse(ErrorKind::NotFound, "message not found")),
                Some(role) => {
                    if m.sender_user_id != user_id && !admin_name(role.as_str()) {
                        return Err(refuse(ErrorKind::Forbidden, "only sender or admin can delete"));
                    }
                    match m.thread_parent_id {
                        Some(p) => Ok(DeleteEffect::UncountInThread(p)),
                        None => match m.channel_id {
                            Some(c) => Ok(DeleteEffect::UncountInChannel(c)),
                            None => Ok(DeleteEffect::Nothing),
                        },
                    }
                },
            }
        },
    }
}

/// A thread's first message as the read rule sees it: the caller's role in its
/// workspace and its channel's visibility (none for a message outside channels).
pub struct ThreadParentRow {
    pub role: Option<String>,
    pub visibility: Option<String>,
}

pub open spec fn thread_refusal(parent: Option<ThreadParentRow>, channel_member: bool) -> Option<
    Refusal,
> {
    match parent {
        None => Some((ErrorKind::NotFound, "message not found"@)),
        Some(p) => if p.role is None {
            Some((ErrorKind::NotFound, "message not found"@))
        } else if opt_string(p.visibility) == Some("private"@) && !channel_member {
            Some((ErrorKind::NotFound, "message not found"@))
        } else {
            None
        },
    }
}

/// Decides who may read a thread: a member of the workspace of its live first
/// message, and of a private channel, a member of the channel.
pub fn check_get_thread(parent: &Option<ThreadParentRow>, channel_member: bool) -> (r: Result<
    (),
    AppError,
>)
    ensures
        decided(r, thread_refusal(*parent, channel_member)),
{
    match parent {
        None => Err(refuse(ErrorKind::NotFound, "message not found")),
        Some(p) => {
            if p.role.is_none() {
                return Err(refuse(ErrorKind::NotFound, "message not found"));
            }
            match &p.visibility {
                Some(v) => {
                    if str_eq(v.as_str(), "private") && !channel_member {
                        return Err(refuse(ErrorKind::NotFound, "message not found"));
                    }
                },
                None => {},
            }
            Ok(())
        },
    }
}

/// A member of a private channel posts there as anywhere else: for a caller
/// who belongs to the channel, its visibility changes nothing.
pub proof fn law_members_post_in_private_channels(
    req: SendMessageRequest,
    c: ChannelAccessRow,
    visibility: String,
    parent: Option<Option<u128>>,
)
    ensures
        send_message_refusal(req, Some(c), true, parent) == send_message_refusal(
            req,
            Some(ChannelAccessRow { visibility, ..c }),
            true,
            parent,
        ),
{
}

/// A message is posted exactly when it has content or attachments, the caller
/// sees the channel (holds a role in its workspace and, for a private channel,
/// belongs to it), the channel is not archived, its post permission admits the
/// caller's role, and a reply goes to a live first message of a thread. A new
/// top-level message by a member of a live private channel, with content, in
/// a channel open to everyone, is posted.
pub proof fn law_post_allowed_exactly_when(
    req: SendMessageRequest,
    row: Option<ChannelAccessRow>,
    channel_member: bool,
    parent: Option<Option<u128>>,
)
    ensures
        send_message_refusal(req, row, channel_member, parent) is None <==> ({
            &&& !is_blank(req.content@) || req.attachments.is_nonempty_array()
            &&& row matches Some(c)
            &&& c.role matches Some(role)
            &&& !c.archived
            &&& (c.visibility@ == "private"@ ==> channel_member)
            &&& may_post(c.post_permission@, role@)
            &&& (req.thread_parent_id is Some ==> parent == Some(None::<u128>))
        }),
        !is_blank(req.content@) && req.thread_parent_id is None && channel_member && (row matches Some(
            c,
        ) && c.role is Some && !c.archived && c.post_permission@ == "everyone"@) ==> send_message_refusal(
            req,
            row,
            channel_member,
            parent,
        ) is None,
{
}

/// A channel's messages are read exactly by callers who hold a role in its
/// workspace and, for a private channel, belong to the channel.
pub proof fn law_read_messages_exactly_when(row: Option<ChannelAccessRow>, channel_member: bool)
    ensures
        list_messages_refusal(row, channel_member) is None <==> (row matches Some(c) && c.role is Some
            && (c.visibility@ == "private"@ ==> channel_member)),
{
}

/// A message is edited exactly by its sender, while it is not deleted and at
/// most a day after it was posted.
pub proof fn law_edit_exactly_when(msg: Option<MessageRow>, user_id: u128, now: i64)
    ensures
        edit_message_refusal(msg, user_id, now) is None <==> (msg matches Some(m) && !m.deleted
            && m.sender_user_id == user_id && now - m.created_at <= 86400000000000),
{
}

/// A live message is deleted exactly by its sender or by a proprietor or admin
/// of its workspace.
pub proof fn law_delete_exactly_when(msg: Option<DeletableMessage>, user_id: u128)
    ensures
        delete_message_refusal(msg, user_id) is None <==> (msg matches Some(m) && !m.deleted && (
        m.role matches Some(role) && (m.sender_user_id == user_id || role@ == "proprietor"@ || role@
            == "admin"@))),
{
}

} // verus!
