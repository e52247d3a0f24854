//! Creating, reading, changing and archiving channels: the requests, their
//! validation and who may do what.
use vstd::prelude::*;
use crate::channels::types::{ChannelType, PostPermission, Visibility};
use crate::error::{
    AppError, ErrorKind, Refusal, ValidationErrors, decided, fails_with, failed_field, finish_validation,
    invalid_with, note_field, refuse, validation_outcome,
};
use crate::payments::tuition::{admin_name, is_admin_name};
use crate::text::{is_slug, slug_matches, str_eq};
use crate::validation::{chars_within, len_within, opt_chars_within, opt_len_within};
use crate::workspaces::members::opt_view;
use crate::workspaces::types::WorkspaceRole;

verus! {

/// Channel names: 2 to 32 lowercase letters, digits and inner hyphens.
pub open spec fn is_channel_name(s: Seq<char>) -> bool {
    is_slug(s, 2, 32)
}

/// The request that creates a channel.
pub struct CreateChannelResponse {
    pub name: String,
    pub display_name: String,
    pub description: Option<String>,
    pub channel_type: ChannelType,
    pub visibility: Visibility,
    pub post_permission: PostPermission,
}

impl CreateChannelResponse {
    pub open spec fn failures(self) -> Seq<Seq<char>> {
        Seq::empty() + failed_field(is_channel_name(self.name@), "name"@) + failed_field(
            len_within(self.display_name@, 2, 50),
            "display_name"@,
        )
    }

    pub fn validate(&self) -> (r: Result<(), ValidationErrors>)
        ensures
            validation_outcome(r, self.failures()),
    {
        let mut errs: Vec<String> = Vec::new();
        assert(crate::json::views(errs@) =~= Seq::<Seq<char>>::empty());
        note_field(&mut errs, slug_matches(self.name.as_str(), 2, 32), "name");
        note_field(&mut errs, chars_within(self.display_name.as_str(), 2, 50), "display_name");
        finish_validation(errs)
    }
}

/// What creating a channel stores: the names of its kinds, and whether its
/// creator joins it as a member (a private channel has no other way in).
pub struct ChannelCreation {
    pub channel_type: &'static str,
    pub visibility: &'static str,
    pub post_permission: &'static str,
    pub creator_joins: bool,
}

pub open spec fn create_channel_refusal(
    role: WorkspaceRole,
    channel_type: ChannelType,
    name_taken: bool,
) -> Option<Refusal> {
    if !role.tutor_or_above() {
        Some((ErrorKind::Forbidden, "tutor role required"@))
    } else if channel_type is Announcement && !role.admin_or_above() {
        Some((ErrorKind::Forbidden, "admin role required for annoucement channel"@))
    } else if name_taken {
        Some((ErrorKind::Conflict, "channel name already exists"@))
    } else {
        None
    }
}

/// Decides a channel creation: a valid request, by a tutor or above (an
/// announcement channel by an administrator), with a name no channel of the
/// workspace has.
pub fn plan_create_channel(
    req: &CreateChannelResponse,
    role: WorkspaceRole,
    name_taken: bool,
) -> (r: Result<ChannelCreation, AppError>)
    ensures
        req.failures().len() > 0 ==> invalid_with(r, req.failures()),
        req.failures().len() == 0 ==> decided(
            r,
            create_channel_refusal(role, req.channel_type, name_taken),
        ),
        r matches Ok(c) ==> {
            &&& c.channel_type@ == req.channel_type.spec_name()
            &&& c.visibility@ == req.visibility.spec_name()
            &&& c.post_permission@ == req.post_permission.spec_name()
            &&& c.creator_joins == (req.visibility is Private)
        },
{
    match req.validate() {
        Err(e) => {
            return Err(AppError::Validation(e));
        },
        Ok(()) => {},
    }
    if !role.is_tutor_or_above() {
        return Err(refuse(ErrorKind::Forbidden, "tutor role required"));
    }
    if matches!(req.channel_type, ChannelType::Announcement) && !role.is_admin_or_above() {
        return Err(refuse(ErrorKind::Forbidden, "admin role required for annoucement channel"));
    }
    if name_taken {
        return Err(refuse(ErrorKind::Conflict, "channel name already exists"));
    }
    Ok(ChannelCreation {
        channel_type: req.channel_type.name(),
        visibility: req.visibility.name(),
        post_permission: req.post_permission.name(),
        creator_joins: matches!(req.visibility, Visibility::Private),
    })
}

pub open spec fn get_channel_refusal(
    workspace_member: bool,
    visibility: Seq<char>,
    channel_member: bool,
) -> Option<Refusal> {
    if !workspace_member {
        Some((ErrorKind::NotFound, "channel not found"@))
    } else if visibility == "private"@ && !channel_member {
        Some((ErrorKind::NotFound, "channel not found"@))
    } else {
        None
    }
}

/// Decides who may read a channel: an active member of its workspace, and of a
/// private channel only a member of the channel; others read it as unknown.
pub fn check_get_channel(workspace_member: bool, visibility: &str, channel_member: bool) -> (r:
    Result<(), AppError>)
    ensures
        decided(r, get_channel_refusal(workspace_member, visibility@, channel_member)),
{
    if !workspace_member {
        return Err(refuse(ErrorKind::NotFound, "channel not found"));
    }
    if str_eq(visibility, "private") && !channel_member {
        return Err(refuse(ErrorKind::NotFound, "channel not found"));
    }
    Ok(())
}

/// The kinds a stored channel row names, if each name is known.
pub open spec fn row_kinds(t: Seq<char>, v: Seq<char>, p: Seq<char>) -> Option<
    (ChannelType, Visibility, PostPermission),
> {
    match (ChannelType::from_spec_name(t), Visibility::from_spec_name(v), PostPermission::from_spec_name(p)) {
        (Some(a), Some(b), Some(c)) => Some((a, b, c)),
        _ => None,
    }
}

pub open spec fn listed_kinds_refusal(t: Seq<char>, v: Seq<char>, p: Seq<char>) -> Option<Refusal> {
    if ChannelType::from_spec_name(t) is None {
        Some((ErrorKind::Internal, "invalid channel_type"@))
    } else if Visibility::from_spec_name(v) is None {
        Some((ErrorKind::Internal, "invalid visibility"@))
    } else if PostPermission::from_spec_name(p) is None {
        Some((ErrorKind::Internal, "invalid post_permission"@))
    } else {
        None
    }
}

/// Reads the kinds of a listed channel from their stored names; an unknown name
/// is an internal fault that names the column.
pub fn listed_channel_kinds(t: &str, v: &str, p: &str) -> (r: Result<
    (ChannelType, Visibility, PostPermission),
    AppError,
>)
    ensures
        decided(r, listed_kinds_refusal(t@, v@, p@)),
        r matches Ok(k) ==> row_kinds(t@, v@, p@) == Some(k),
{
    let channel_type = match ChannelType::from_name(t) {
        Some(x) => x,
        None => {
            return Err(refuse(ErrorKind::Internal, "invalid channel_type"));
        },
    };
    let visibility = match Visibility::from_name(v) {
        Some(x) => x,
        None => {
            return Err(refuse(ErrorKind::Internal, "invalid visibility"));
        },
    };
    let post_permission = match PostPermission::from_name(p) {
        Some(x) => x,
        None => {
            return Err(refuse(ErrorKind::Internal, "invalid post_permission"));
        },
    };
    Ok((channel_type, visibility, post_permission))
}

/// Reads the kinds of a single channel from their stored names; an unknown name
/// fails as a decoding error.
pub fn stored_channel_kinds(t: &str, v: &str, p: &str) -> (r: Result<
    (ChannelType, Visibility, PostPermission),
    AppError,
>)
    ensures
        match row_kinds(t@, v@, p@) {
            Some(k) => r == Ok::<(ChannelType, Visibility, PostPermission), AppError>(k),
            None => r matches Err(AppError::Serialization),
        },
{
    match (ChannelType::from_name(t), Visibility::from_name(v), PostPermission::from_name(p)) {
        (Some(a), Some(b), Some(c)) => Ok((a, b, c)),
        _ => Err(AppError::Serialization),
    }
}

pub struct UpdateChannelRequest {
    pub display_name: Option<String>,
    pub description: Option<String>,
    pub post_permission: Option<PostPermission>,
}

impl UpdateChannelRequest {
    pub open spec fn failures(self) -> Seq<Seq<char>> {
        Seq::empty() + failed_field(opt_len_within(self.display_name, 2, 50), "display_name"@)
    }

    pub fn validate(&self) -> (r: Result<(), ValidationErrors>)
        ensures
            validation_outcome(r, self.failures()),
    {
        let mut errs: Vec<String> = Vec::new();
        assert(crate::json::views(errs@) =~= Seq::<Seq<char>>::empty());
        note_field(&mut errs, opt_chars_within(&self.display_name, 2, 50), "display_name");
        finish_validation(errs)
    }
}

/// Who may change or archive a channel: a member of its workspace (else the
/// channel reads as unknown) who created it or administers the workspace.
pub open spec fn creator_or_admin_refusal(role: Option<Seq<char>>, is_creator: bool) -> Option<
    Refusal,
> {
    match role {
        None => Some((ErrorKind::NotFound, "channel not found"@)),
        Some(r) => if !is_creator && !is_admin_name(r) {
            Some((ErrorKind::Forbidden, "creator or admin only"@))
        } else {
            None
        },
    }
}

pub fn check_creator_or_admin(role: Option<&str>, is_creator: bool) -> (r: Result<(), AppError>)
    ensures
        decided(r, creator_or_admin_refusal(opt_view(role), is_creator)),
{
    match role {
        None => Err(refuse(ErrorKind::NotFound, "channel not found")),
        Some(m) => {
            if !is_creator && !admin_name(m) {
                Err(refuse(ErrorKind::Forbidden, "creator or admin only"))
            } else {
                Ok(())
            }
        },
    }
}

/// Decides a channel update: a valid request by the channel's creator or a
/// workspace administrator.
pub fn check_update_channel(req: &UpdateChannelRequest, role: Option<&str>, is_creator: bool) -> (r:
    Result<(), AppError>)
    ensures
        req.failures().len() > 0 ==> invalid_with(r, req.failures()),
        req.failures().len() == 0 ==> decided(r, creator_or_admin_refusal(opt_view(role), is_creator)),
{
    match req.validate() {
        Err(e) => {
            return Err(AppError::Validation(e));
        },
        Ok(()) => {},
    }
    check_creator_or_admin(role, is_creator)
}

pub open spec fn archive_channel_refusal(
    role: Option<Seq<char>>,
    is_creator: bool,
    name: Seq<char>,
) -> Option<Refusal> {
    if creator_or_admin_refusal(role, is_creator) is Some {
        creator_or_admin_refusal(role, is_creator)
    } else if name == "general"@ {
        Some((ErrorKind::BadRequest, "cannot archive default channel #general"@))
    } else {
        None
    }
}

/// Decides archiving a channel: by its creator or an administrator, and never
/// the default channel `general`.
pub fn check_archive_channel(role: Option<&str>, is_creator: bool, name: &str) -> (r: Result<
    (),
    AppError,
>)
    ensures
        decided(r, archive_channel_refusal(opt_view(role), is_creator, name@)),
{
    check_creator_or_admin(role, is_creator)?;
    if str_eq(name, "general") {
        return Err(refuse(ErrorKind::BadRequest, "cannot archive default channel #general"));
    }
    Ok(())
}

/// The default channel can never be archived, whoever asks.
pub proof fn law_general_never_archived(role: Option<Seq<char>>, is_creator: bool)
    ensures
        archive_channel_refusal(role, is_creator, "general"@) is Some,
{
}

} // verus!
