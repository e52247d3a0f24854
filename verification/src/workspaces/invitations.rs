//! Inviting people into a workspace and accepting invitations.
use vstd::prelude::*;
use crate::error::{
    AppError, ErrorKind, Refusal, ValidationErrors, decided, failed_field, finish_validation,
    invalid_with, note_field, refuse, validation_outcome,
};
use crate::text::{str_eq, to_lowercase, unicode_lowercase};
use crate::validation::{email_accepted, validate_email};
use crate::workspaces::types::WorkspaceRole;

verus! {

/// How long an invitation stays open: seven days, in nanoseconds.
pub const INVITATION_TTL_NANOS: i64 = 604800000000000;

pub struct CreateInvitationRequest {
    pub email: String,
    pub role: WorkspaceRole,
    pub personal_message: Option<String>,
}

impl CreateInvitationRequest {
    pub open spec fn failures(self) -> Seq<Seq<char>> {
        Seq::empty() + failed_field(email_accepted(self.email@), "email"@)
    }

    pub fn validate(&self) -> (r: Result<(), ValidationErrors>)
        ensures
            validation_outcome(r, self.failures()),
    {
        let mut errs: Vec<String> = Vec::new();
        assert(crate::json::views(errs@) =~= Seq::<Seq<char>>::empty());
        note_field(&mut errs, validate_email(self.email.as_str()), "email");
        finish_validation(errs)
    }
}

pub open spec fn create_invitation_refusal(
    role: WorkspaceRole,
    invited_role: WorkspaceRole,
    already_member: bool,
    invitation_pending: bool,
) -> Option<Refusal> {
    if !role.admin_or_above() {
        Some((ErrorKind::Forbidden, "admin role required"@))
    } else if invited_role is Proprietor {
        Some((ErrorKind::BadRequest, "cannot invite as proprietor"@))
    } else if already_member {
        Some((ErrorKind::Conflict, "user is already a member"@))
    } else if invitation_pending {
        Some((ErrorKind::Conflict, "invitation already pending"@))
    } else {
        None
    }
}

/// Decides an invitation: a valid address, an inviter who is a proprietor or
/// admin, a role to invite as that is not proprietor, and an invitee who is
/// neither an active member nor already invited. On success, the invitation's expiry: seven days after `now`.
pub fn plan_create_invitation(
    req: &CreateInvitationRequest,
    role: WorkspaceRole,
    already_member: bool,
    invitation_pending: bool,
    now: i64,
) -> (r: Result<i64, AppError>)
    requires
        now <= i64::MAX - INVITATION_TTL_NANOS,
    ensures
        req.failures().len() > 0 ==> invalid_with(r, req.failures()),
        req.failures().len() == 0 ==> decided(
            r,
            create_invitation_refusal(role, req.role, already_member, invitation_pending),
        ),
        r matches Ok(expires_at) ==> expires_at == now + INVITATION_TTL_NANOS,
{
    match req.validate() {
        Err(e) => {
            return Err(AppError::Validation(e));
        },
        Ok(()) => {},
    }
    if !role.is_admin_or_above() {
        return Err(refuse(ErrorKind::Forbidden, "admin role required"));
    }
    if matches!(req.role, WorkspaceRole::Proprietor) {
        return Err(refuse(ErrorKind::BadRequest, "cannot invite as proprietor"));
    }
    if already_member {
        return Err(refuse(ErrorKind::Conflict, "user is already a member"));
    }
    if invitation_pending {
        return Err(refuse(ErrorKind::Conflict, "invitation already pending"));
    }
    Ok(now + INVITATION_TTL_NANOS)
}

/// Cancelling an invitation that matched nothing is refused.
pub fn check_cancel_invitation(role: WorkspaceRole, rows_affected: u64) -> (r: Result<(), AppError>)
    ensures
        decided(
            r,
            if !role.admin_or_above() {
                Some((ErrorKind::Forbidden, "admin role required"@))
            } else if rows_affected == 0 {
                Some((ErrorKind::NotFound, "invite not found"@))
            } else {
                None
            },
        ),
{
    if !role.is_admin_or_above() {
        return Err(refuse(ErrorKind::Forbidden, "admin role required"));
    }
    if rows_affected == 0 {
        return Err(refuse(ErrorKind::NotFound, "invite not found"));
    }
    Ok(())
}

/// An invitation as stored.
pub struct StoredInvitation {
    pub email: String,
    pub role: String,
    pub expires_at: i64,
    pub accepted: bool,
}

pub open spec fn accept_refusal(
    inv: StoredInvitation,
    now: i64,
    user_email: Seq<char>,
    workspace_exists: bool,
) -> Option<Refusal> {
    if inv.accepted {
        Some((ErrorKind::NotFound, "invitations already accepted"@))
    } else if inv.expires_at < now {
        Some((ErrorKind::Unauthorized, "invitations expired"@))
    } else if unicode_lowercase(user_email) != inv.email@ {
        Some((ErrorKind::Forbidden, "invitation was sent to a different email"@))
    } else if !workspace_exists {
        Some((ErrorKind::NotFound, "workspace not found"@))
    } else if WorkspaceRole::from_spec_name(inv.role@) is None {
        Some((ErrorKind::Internal, "invalid role"@))
    } else {
        None
    }
}

/// Decides an acceptance: the invitation must be open, unexpired, addressed to
/// the accepting user's e-mail (compared lowercased) and for a workspace that
/// still exists. On success, the role the user joins with.
pub fn check_accept_invitation(
    inv: &StoredInvitation,
    now: i64,
    user_email: &str,
    workspace_exists: bool,
) -> (r: Result<WorkspaceRole, AppError>)
    ensures
        decided(r, accept_refusal(*inv, now, user_email@, workspace_exists)),
        r matches Ok(role) ==> WorkspaceRole::from_spec_name(inv.role@) == Some(role),
{
    if inv.accepted {
        return Err(refuse(ErrorKind::NotFound, "invitations already accepted"));
    }
    if inv.expires_at < now {
        return Err(refuse(ErrorKind::Unauthorized, "invitations expired"));
    }
    let lower = to_lowercase(user_email);
    if !str_eq(lower.as_str(), inv.email.as_str()) {
        return Err(refuse(ErrorKind::Forbidden, "invitation was sent to a different email"));
    }
    if !workspace_exists {
        return Err(refuse(ErrorKind::NotFound, "workspace not found"));
    }
    match WorkspaceRole::from_name(inv.role.as_str()) {
        Some(role) => Ok(role),
        None => Err(refuse(ErrorKind::Internal, "invalid role")),
    }
}

/// An invitation is used at most once and never after it expires: once
/// accepted, or past its expiry, every further acceptance is refused.
pub proof fn law_invitation_single_use(
    inv: StoredInvitation,
    now: i64,
    user_email: Seq<char>,
    workspace_exists: bool,
)
    requires
        inv.accepted || inv.expires_at < now,
    ensures
        accept_refusal(inv, now, user_email, workspace_exists) is Some,
{
}

} // verus!
