//! Joining, adding to and leaving channels, and marking them read.
use vstd::prelude::*;
use crate::error::{AppError, ErrorKind, Refusal, decided, refuse};
use crate::payments::tuition::{admin_name, is_admin_name};
use crate::text::str_eq;

verus! {

/// A channel as the membership rules see it.
pub struct MembershipChannelRow {
    pub visibility: String,
    pub created_by_user_id: u128,
    pub archived: bool,
    pub is_default: bool,
    pub role: Option<String>,
}

pub open spec fn add_member_refusal(
    row: Option<MembershipChannelRow>,
    user_id: u128,
    target: Option<u128>,
    target_in_workspace: bool,
) -> Option<Refusal> {
    match row {
        None => Some((ErrorKind::NotFound, "channel not found"@)),
        Some(c) => match c.role {
            None => Some((ErrorKind::NotFound, "channel not found"@)),
            Some(role) => if c.archived {
                Some((ErrorKind::BadRequest, "channel is archived"@))
            } else if joined_user(target, user_id) == user_id {
                if c.visibility@ == "private"@ {
                    Some((ErrorKind::Forbidden, "private channels require an invite"@))
                } else {
                    None
                }
            } else if !is_admin_name(role@) && c.created_by_user_id != user_id {
                Some((ErrorKind::Forbidden, "admin or creator only"@))
            } else if !target_in_workspace {
                Some((ErrorKind::NotFound, "user is not a workspace member"@))
            } else {
                None
            },
        },
    }
}

/// The user a join or add request puts into the channel: the named user, or the
/// caller.
pub open spec fn joined_user(target: Option<u128>, user_id: u128) -> u128 {
    match target {
        Some(t) => t,
        None => user_id,
    }
}

/// Decides joining or adding to a channel. A caller joins a public channel of
/// their workspace by themselves; a private one takes an invitation. Adding
/// someone else takes an administrator or the channel's creator, and the other
/// user must be an active member of the workspace (`target_in_workspace`).
/// Returns the user who becomes a member.
pub fn check_add_member(
    row: &Option<MembershipChannelRow>,
    user_id: u128,
    target: Option<u128>,
    target_in_workspace: bool,
) -> (r: Result<u128, AppError>)
    ensures
        decided(r, add_member_refusal(*row, user_id, target, target_in_workspace)),
        r matches Ok(u) ==> u == joined_user(target, user_id),
{
    let c = match row {
        None => {
            return Err(refuse(ErrorKind::NotFound, "channel not found"));
        },
        Some(c) => c,
    };
    let role = match &c.role {
        None => {
            return Err(refuse(ErrorKind::NotFound, "channel not found"));
        },
        Some(role) => role,
    };
    if c.archived {
        return Err(refuse(ErrorKind::BadRequest, "channel is archived"));
    }
    let target_user = match target {
        Some(t) => t,
        None => user_id,
    };
    if target_user == user_id {
        if str_eq(c.visibility.as_str(), "private") {
            return Err(refuse(ErrorKind::Forbidden, "private channels require an invite"));
        }
    } else {
        if !admin_name(role.as_str()) && c.created_by_user_id != user_id {
            return Err(refuse(ErrorKind::Forbidden, "admin or creator only"));
        }
        if !target_in_workspace {
            return Err(refuse(ErrorKind::NotFound, "user is not a workspace member"));
        }
    }
    Ok(target_user)
}

/// Nobody gets into a private channel by themselves.
pub proof fn law_private_needs_invite(c: MembershipChannelRow, user_id: u128, in_workspace: bool)
    requires
        c.visibility@ == "private"@,
    ensures
        add_member_refusal(Some(c), user_id, None, in_workspace) is Some,
{
}

pub open spec fn remove_member_refusal(
    row: Option<MembershipChannelRow>,
    user_id: u128,
    target: u128,
) -> Option<Refusal> {
    match row {
        None => Some((ErrorKind::NotFound, "channel not found"@)),
        Some(c) => match c.role {
            None => Some((ErrorKind::NotFound, "channel not found"@)),
            Some(role) => if target == user_id {
                if c.is_default {
                    Some((ErrorKind::BadRequest, "cannot leave defalt channels"@))
                } else {
                    None
                }
            } else if !is_admin_name(role@) && c.created_by_user_id != user_id {
                Some((ErrorKind::Forbidden, "admin or creator only"@))
            } else {
                None
            },
        },
    }
}

/// Decides leaving a channel or removing someone from it: a caller leaves any
/// channel but a default one; removing someone else takes an administrator or
/// the channel's creator.
pub fn check_remove_channel_member(
    row: &Option<MembershipChannelRow>,
    user_id: u128,
    target: u128,
) -> (r: Result<(), AppError>)
    ensures
        decided(r, remove_member_refusal(*row, user_id, target)),
{
    let c = match row {
        None => {
            return Err(refuse(ErrorKind::NotFound, "channel not found"));
        },
        Some(c) => c,
    };
    let role = match &c.role {
        None => {
            return Err(refuse(ErrorKind::NotFound, "channel not found"));
        },
        Some(role) => role,
    };
    if target == user_id {
        if c.is_default {
            return Err(refuse(ErrorKind::BadRequest, "cannot leave defalt channels"));
        }
    } else {
        if !admin_name(role.as_str()) && c.created_by_user_id != user_id {
            return Err(refuse(ErrorKind::Forbidden, "admin or creator only"));
        }
    }
    Ok(())
}

pub open spec fn mark_read_refusal(
    row: Option<MembershipChannelRow>,
    channel_member: bool,
    message_in_channel: bool,
) -> Option<Refusal> {
    match row {
        None => Some((ErrorKind::NotFound, "channel not found"@)),
        Some(c) => if c.role is None {
            Some((ErrorKind::NotFound, "channel not found"@))
        } else if c.visibility@ == "private"@ && !channel_member {
            Some((ErrorKind::NotFound, "channel not found"@))
        } else if c.visibility@ == "private"@ && !message_in_channel {
            Some((ErrorKind::BadRequest, "message not in this channel"@))
        } else {
            None
        },
    }
}

/// Decides marking a channel read up to a message: the caller must be a member
/// of its workspace; of a private channel, a member of the channel, and the
/// message must be one of the channel's.
pub fn check_mark_read(
    row: &Option<MembershipChannelRow>,
    channel_member: bool,
    message_in_channel: bool,
) -> (r: Result<(), AppError>)
    ensures
        decided(r, mark_read_refusal(*row, channel_member, message_in_channel)),
{
    match row {
        None => Err(refuse(ErrorKind::NotFound, "channel not found")),
        Some(c) => {
            if c.role.is_none() {
                return Err(refuse(ErrorKind::NotFound, "channel not found"));
            }
            if str_eq(c.visibility.as_str(), "private") {
                if !channel_member {
                    return Err(refuse(ErrorKind::NotFound, "channel not found"));
                }
                if !message_in_channel {
                    return Err(refuse(ErrorKind::BadRequest, "message not in this channel"));
                }
            }
            Ok(())
        },
    }
}

} // verus!
