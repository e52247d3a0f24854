//! Changing members' roles and removing members.
use vstd::prelude::*;
use crate::error::{AppError, ErrorKind, Refusal, decided, refuse};
use crate::text::str_eq;
use crate::workspaces::types::WorkspaceRole;

verus! {

pub struct ChangeRoleRequest {
    pub role: WorkspaceRole,
}

pub open spec fn opt_view(o: Option<&str>) -> Option<Seq<char>> {
    match o {
        Some(s) => Some(s@),
        None => None,
    }
}

pub open spec fn change_role_refusal(
    role: WorkspaceRole,
    new_role: WorkspaceRole,
    target_role: Option<Seq<char>>,
) -> Option<Refusal> {
    if !role.admin_or_above() {
        Some((ErrorKind::Forbidden, "admin role required"@))
    } else if new_role is Proprietor {
        Some((ErrorKind::BadRequest, "cannot promote to proprietor; use transfer-ownership"@))
    } else if target_role is None {
        Some((ErrorKind::BadRequest, "member not found"@))
    } else if target_role == Some("proprietor"@) {
        Some((ErrorKind::BadRequest, "cannot demote proprietor; use transfer-ownership"@))
    } else {
        None
    }
}

/// Decides a role change: by an administrator, never to or from proprietor
/// (ownership moves only by transfer), and only for a member (`target_role` is
/// the member's stored role).
pub fn check_change_member_role(
    role: WorkspaceRole,
    req: &ChangeRoleRequest,
    target_role: Option<&str>,
) -> (r: Result<(), AppError>)
    ensures
        decided(r, change_role_refusal(role, req.role, opt_view(target_role))),
{
    if !role.is_admin_or_above() {
        return Err(refuse(ErrorKind::Forbidden, "admin role required"));
    }
    if matches!(req.role, WorkspaceRole::Proprietor) {
        return Err(
            refuse(ErrorKind::BadRequest, "cannot promote to proprietor; use transfer-ownership"),
        );
    }
    match target_role {
        None => Err(refuse(ErrorKind::BadRequest, "member not found")),
        Some(t) => {
            if str_eq(t, "proprietor") {
                Err(
                    refuse(
                        ErrorKind::BadRequest,
                        "cannot demote proprietor; use transfer-ownership",
                    ),
                )
            } else {
                Ok(())
            }
        },
    }
}

pub open spec fn remove_member_refusal(role: WorkspaceRole, target_role: Option<Seq<char>>) -> Option<
    Refusal,
> {
    if !role.admin_or_above() {
        Some((ErrorKind::Forbidden, "admin role required"@))
    } else if target_role is None {
        Some((ErrorKind::NotFound, "member not found"@))
    } else if target_role == Some("proprietor"@) {
        Some((ErrorKind::BadRequest, "cannot remove proprietor"@))
    } else {
        None
    }
}

/// Decides a removal: by an administrator, of a member who is not the
/// proprietor.
pub fn check_remove_member(role: WorkspaceRole, target_role: Option<&str>) -> (r: Result<
    (),
    AppError,
>)
    ensures
        decided(r, remove_member_refusal(role, opt_view(target_role))),
{
    if !role.is_admin_or_above() {
        return Err(refuse(ErrorKind::Forbidden, "admin role required"));
    }
    match target_role {
        None => Err(refuse(ErrorKind::NotFound, "member not found")),
        Some(t) => {
            if str_eq(t, "proprietor") {
                Err(refuse(ErrorKind::BadRequest, "cannot remove proprietor"))
            } else {
                Ok(())
            }
        },
    }
}

} // verus!
