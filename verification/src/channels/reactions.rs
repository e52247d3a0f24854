//! Reacting to messages.
use vstd::prelude::*;
use crate::channels::messages::opt_string;
use crate::error::{AppError, ErrorKind, Refusal, decided, refuse};
use crate::text::str_eq;

verus! {

pub struct AddReactionRequest {
    pub emoji: String,
}

/// A message as the reaction rule sees it.
pub struct ReactionTarget {
    pub deleted: bool,
    pub visibility: Option<String>,
    pub role: Option<String>,
    pub channel_member: bool,
}

pub open spec fn reaction_refusal(msg: Option<ReactionTarget>) -> Option<Refusal> {
    match msg {
        None => Some((ErrorKind::NotFound, "message not found"@)),
        Some(m) => if m.deleted {
            Some((ErrorKind::NotFound, "message not found"@))
        } else if m.role is None {
            Some((ErrorKind::NotFound, "message not found"@))
        } else if opt_string(m.visibility) == Some("private"@) && !m.channel_member {
            Some((ErrorKind::NotFound, "message not found"@))
        } else {
            None
        },
    }
}

/// Decides reacting to a message: a live message, in the caller's workspace, and
/// in a private channel only for its members.
pub fn check_add_reaction(msg: &Option<ReactionTarget>) -> (r: Result<(), AppError>)
    ensures
        decided(r, reaction_refusal(*msg)),
{
    match msg {
        None => Err(refuse(ErrorKind::NotFound, "message not found")),
        Some(m) => {
            if m.deleted || m.role.is_none() {
                return Err(refuse(ErrorKind::NotFound, "message not found"));
            }
            match &m.visibility {
                Some(v) => {
                    if str_eq(v.as_str(), "private") && !m.channel_member {
                        return Err(refuse(ErrorKind::NotFound, "message not found"));
                    }
                },
                None => {},
            }
            Ok(())
        },
    }
}

} // verus!
