//! The caller's standing in the workspace a request addresses.
use vstd::prelude::*;
use crate::error::{AppError, ErrorKind, Refusal, decided, refuse};
use crate::ids::{uuid_text, uuid_to_string};
use crate::workspaces::types::{PaymentMode, WorkspaceRole};

verus! {

pub struct WorkspaceContext {
    pub workspace_id: u128,
    pub slug: String,
    pub role: WorkspaceRole,
    pub payment_mode: PaymentMode,
    pub user_id: u128,
}

/// The key under which a user's standing in a workspace is cached.
pub open spec fn ctx_cache_key_text(user_id: u128, slug: Seq<char>) -> Seq<char> {
    "workspace_ctx:"@ + uuid_text(user_id) + ":"@ + slug
}

/// The cache key `workspace_ctx:{user_id}:{slug}`.
pub fn ctx_cache_key(user_id: u128, slug: &str) -> (r: String)
    ensures
        r@ == ctx_cache_key_text(user_id, slug@),
{
    let mut k = String::from_str("workspace_ctx:");
    let u = uuid_to_string(user_id);
    k.append(u.as_str());
    k.append(":");
    k.append(slug);
    k
}

/// A membership row as stored: the workspace, its payment mode and the member's
/// role, both as stored names.
pub struct MembershipRow {
    pub workspace_id: u128,
    pub payment_mode: String,
    pub role: String,
}

pub open spec fn context_refusal(row: Option<MembershipRow>) -> Option<Refusal> {
    match row {
        None => Some((ErrorKind::NotFound, "Workspace not found"@)),
        Some(r) => if WorkspaceRole::from_spec_name(r.role@) is None {
            Some((ErrorKind::Internal, "invalid role in db"@))
        } else if PaymentMode::from_spec_name(r.payment_mode@) is None {
            Some((ErrorKind::Internal, "invalid payment_mode in db"@))
        } else {
            None
        },
    }
}

/// Builds the caller's context from their active membership in the workspace
/// named by `slug`; no membership reads as an unknown workspace.
pub fn build_context(row: Option<MembershipRow>, slug: String, user_id: u128) -> (r: Result<
    WorkspaceContext,
    AppError,
>)
    ensures
        decided(r, context_refusal(row)),
        r matches Ok(c) ==> row matches Some(m) && c.workspace_id == m.workspace_id && c.slug@
            == slug@ && Some(c.role) == WorkspaceRole::from_spec_name(m.role@) && Some(
            c.payment_mode,
        ) == PaymentMode::from_spec_name(m.payment_mode@) && c.user_id == user_id,
{
    match row {
        None => Err(refuse(ErrorKind::NotFound, "Workspace not found")),
        Some(m) => {
            let role = match WorkspaceRole::from_name(m.role.as_str()) {
                Some(r) => r,
                None => {
                    return Err(refuse(ErrorKind::Internal, "invalid role in db"));
                },
            };
            let payment_mode = match PaymentMode::from_name(m.payment_mode.as_str()) {
                Some(p) => p,
                None => {
                    return Err(refuse(ErrorKind::Internal, "invalid payment_mode in db"));
                },
            };
            Ok(WorkspaceContext { workspace_id: m.workspace_id, slug, role, payment_mode, user_id })
        },
    }
}

} // verus!
