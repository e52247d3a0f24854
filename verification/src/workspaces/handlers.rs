//! Creating, changing, handing over and deleting workspaces: the requests, their
//! validation and the rules that decide each operation.
use vstd::prelude::*;
use crate::error::{
    AppError, ErrorKind, Refusal, ValidationErrors, decided, invalid_with, failed_field, finish_validation,
    note_field, refuse, validation_outcome,
};
use crate::json::JsonValue;
use crate::text::{is_slug, slug_matches, str_eq};
use crate::validation::{chars_within, len_within, opt_chars_within, opt_len_within};
use crate::workspaces::types::{is_default_sequence, OnboardingStep, PaymentMode, WorkspaceRole};

verus! {

/// Workspace slugs: 3 to 50 lowercase letters, digits and inner hyphens.
pub open spec fn is_workspace_slug(s: Seq<char>) -> bool {
    is_slug(s, 3, 50)
}

pub struct CreateWorkspaceRequest {
    pub name: String,
    pub slug: String,
    pub description: Option<String>,
    pub focus_areas: Vec<String>,
    pub payment_mode: Option<PaymentMode>,
    pub onboarding_steps: Option<Vec<OnboardingStep>>,
}

impl CreateWorkspaceRequest {
    pub open spec fn failures(self) -> Seq<Seq<char>> {
        Seq::empty() + failed_field(len_within(self.name@, 2, 100), "name"@) + failed_field(
            is_workspace_slug(self.slug@),
            "slug"@,
        ) + failed_field(self.focus_areas@.len() >= 1, "focus_areas"@)
    }

    pub fn validate(&self) -> (r: Result<(), ValidationErrors>)
        ensures
            validation_outcome(r, self.failures()),
    {
        let mut errs: Vec<String> = Vec::new();
        assert(crate::json::views(errs@) =~= Seq::<Seq<char>>::empty());
        note_field(&mut errs, chars_within(self.name.as_str(), 2, 100), "name");
        note_field(&mut errs, slug_matches(self.slug.as_str(), 3, 50), "slug");
        note_field(&mut errs, self.focus_areas.len() >= 1, "focus_areas");
        finish_validation(errs)
    }
}

/// What creating a workspace records besides the request's fields.
pub struct WorkspaceCreation {
    pub payment_mode: PaymentMode,
    pub paystack_subaccount_status: &'static str,
    pub onboarding_steps: Vec<OnboardingStep>,
}

/// The refusal, if any, for creating a workspace.
pub open spec fn create_workspace_refusal(email_verified: bool, slug_taken: bool) -> Option<Refusal> {
    if !email_verified {
        Some((ErrorKind::Forbidden, "email must be verified"@))
    } else if slug_taken {
        Some((ErrorKind::Conflict, "slug already taken"@))
    } else {
        None
    }
}

/// Decides a workspace creation: the request must be valid, the creator's e-mail
/// verified and the slug free. The workspace takes Lekta-managed payments unless
/// the request says otherwise; a workspace with external payments needs no
/// payment sub-account. Without onboarding steps of its own it gets the default
/// sequence.
pub fn plan_create_workspace(
    req: CreateWorkspaceRequest,
    email_verified: bool,
    slug_taken: bool,
) -> (r: Result<WorkspaceCreation, AppError>)
    ensures
        req.failures().len() > 0 ==> invalid_with(r, req.failures()),
        req.failures().len() == 0 ==> decided(r, create_workspace_refusal(email_verified, slug_taken)),
        r matches Ok(w) ==> {
            &&& w.payment_mode == match req.payment_mode {
                Some(m) => m,
                None => PaymentMode::LektaManaged,
            }
            &&& w.paystack_subaccount_status@ == if w.payment_mode is External {
                "not_applicable"@
            } else {
                "pending"@
            }
            &&& req.onboarding_steps matches Some(s) ==> w.onboarding_steps@ == s@
            &&& req.onboarding_steps is None ==> is_default_sequence(w.onboarding_steps@, req.name@)
        },
{
    match req.validate() {
        Err(e) => {
            return Err(AppError::Validation(e));
        },
        Ok(()) => {},
    }
    if !email_verified {
        return Err(refuse(ErrorKind::Forbidden, "email must be verified"));
    }
    if slug_taken {
        return Err(refuse(ErrorKind::Conflict, "slug already taken"));
    }
    let payment_mode = match req.payment_mode {
        Some(m) => m,
        None => PaymentMode::LektaManaged,
    };
    let status = match payment_mode {
        PaymentMode::External => "not_applicable",
        _ => "pending",
    };
    let onboarding_steps = match req.onboarding_steps {
        Some(s) => s,
        None => OnboardingStep::default_sequence(req.name.as_str()),
    };
    Ok(WorkspaceCreation { payment_mode, paystack_subaccount_status: status, onboarding_steps })
}

pub struct UpdateWorkspaceRequest {
    pub name: Option<String>,
    pub description: Option<String>,
    pub slug: Option<String>,
    pub focus_areas: Option<Vec<String>>,
    pub settings: Option<JsonValue>,
}

impl UpdateWorkspaceRequest {
    pub open spec fn failures(self) -> Seq<Seq<char>> {
        Seq::empty() + failed_field(opt_len_within(self.name, 2, 100), "name"@) + failed_field(
            match self.slug {
                Some(s) => is_workspace_slug(s@),
                None => true,
            },
            "slug"@,
        )
    }

    pub fn validate(&self) -> (r: Result<(), ValidationErrors>)
        ensures
            validation_outcome(r, self.failures()),
    {
        let mut errs: Vec<String> = Vec::new();
        assert(crate::json::views(errs@) =~= Seq::<Seq<char>>::empty());
        note_field(&mut errs, opt_chars_within(&self.name, 2, 100), "name");
        let slug_ok = match &self.slug {
            Some(s) => slug_matches(s.as_str(), 3, 50),
            None => true,
        };
        note_field(&mut errs, slug_ok, "slug");
        finish_validation(errs)
    }
}

/// Whether an update renames the workspace's slug.
pub open spec fn renames_slug(req: UpdateWorkspaceRequest, current: Seq<char>) -> bool {
    req.slug matches Some(s) && s@ != current
}

pub open spec fn update_workspace_refusal(
    role: WorkspaceRole,
    renames: bool,
    new_slug_taken: bool,
) -> Option<Refusal> {
    if !role.admin_or_above() {
        Some((ErrorKind::Forbidden, "admin role required"@))
    } else if renames && new_slug_taken {
        Some((ErrorKind::Conflict, "slug already taken"@))
    } else {
        None
    }
}

/// Decides a workspace update: valid request, an administrator, and a new slug
/// (if the slug changes) that no other workspace uses. On success, tells whether
/// the old slug must be kept as a redirect.
pub fn plan_update_workspace(
    req: &UpdateWorkspaceRequest,
    role: WorkspaceRole,
    current_slug: &str,
    new_slug_taken: bool,
) -> (r: Result<bool, AppError>)
    ensures
        req.failures().len() > 0 ==> invalid_with(r, req.failures()),
        req.failures().len() == 0 ==> decided(
            r,
            update_workspace_refusal(role, renames_slug(*req, current_slug@), new_slug_taken),
        ),
        r matches Ok(redirect) ==> redirect == renames_slug(*req, current_slug@),
{
    match req.validate() {
        Err(e) => {
            return Err(AppError::Validation(e));
        },
        Ok(()) => {},
    }
    if !role.is_admin_or_above() {
        return Err(refuse(ErrorKind::Forbidden, "admin role required"));
    }
    let renames = match &req.slug {
        Some(s) => !str_eq(s.as_str(), current_slug),
        None => false,
    };
    if renames && new_slug_taken {
        return Err(refuse(ErrorKind::Conflict, "slug already taken"));
    }
    Ok(renames)
}

pub struct TransferOwnershipRequest {
    pub new_proprietor_user_id: u128,
}

pub open spec fn transfer_refusal(
    role: WorkspaceRole,
    user_id: u128,
    target: u128,
    target_role: Option<Seq<char>>,
) -> Option<Refusal> {
    if !(role is Proprietor) {
        Some((ErrorKind::Forbidden, "proprietor only"@))
    } else if target == user_id {
        Some((ErrorKind::BadRequest, "cannot transfer to self"@))
    } else if target_role is None {
        Some((ErrorKind::NotFound, "user is not a member"@))
    } else if target_role != Some("admin"@) {
        Some((ErrorKind::BadRequest, "target must first be an admin to become a proprietor"@))
    } else {
        None
    }
}

/// Decides an ownership transfer: only the proprietor may hand the workspace
/// over, not to themself, and only to an active administrator (`target_role` is
/// the target's stored role, `None` when they are not an active member).
pub fn check_transfer_ownership(
    role: WorkspaceRole,
    user_id: u128,
    req: &TransferOwnershipRequest,
    target_role: Option<&str>,
) -> (r: Result<(), AppError>)
    ensures
        decided(
            r,
            transfer_refusal(
                role,
                user_id,
                req.new_proprietor_user_id,
                match target_role {
                    Some(t) => Some(t@),
                    None => None,
                },
            ),
        ),
{
    if !matches!(role, WorkspaceRole::Proprietor) {
        return Err(refuse(ErrorKind::Forbidden, "proprietor only"));
    }
    if req.new_proprietor_user_id == user_id {
        return Err(refuse(ErrorKind::BadRequest, "cannot transfer to self"));
    }
    match target_role {
        None => Err(refuse(ErrorKind::NotFound, "user is not a member")),
        Some(t) => {
            if !str_eq(t, "admin") {
                Err(refuse(ErrorKind::BadRequest, "target must first be an admin to become a proprietor"))
            } else {
                Ok(())
            }
        },
    }
}

/// Only the proprietor may delete a workspace.
pub fn check_delete_workspace(role: WorkspaceRole) -> (r: Result<(), AppError>)
    ensures
        decided(
            r,
            if role is Proprietor {
                None
            } else {
                Some((ErrorKind::Forbidden, "proprietor only"@))
            },
        ),
{
    if !matches!(role, WorkspaceRole::Proprietor) {
        return Err(refuse(ErrorKind::Forbidden, "proprietor only"));
    }
    Ok(())
}

/// The refusal of an operation reserved to administrators.
pub open spec fn admin_only(role: WorkspaceRole) -> Option<Refusal> {
    if role.admin_or_above() {
        None
    } else {
        Some((ErrorKind::Forbidden, "admin role required"@))
    }
}

/// Operations reserved to administrators (updating onboarding, listing members
/// and invitations, verifying tutors) refuse everyone else.
pub fn require_admin(role: WorkspaceRole) -> (r: Result<(), AppError>)
    ensures
        decided(r, admin_only(role)),
{
    if !role.is_admin_or_above() {
        return Err(refuse(ErrorKind::Forbidden, "admin role required"));
    }
    Ok(())
}

pub struct UpdateOnboardingRequest {
    pub onboarding_steps: Vec<OnboardingStep>,
}

pub struct OnboardingResponse {
    pub onboarding_steps: Vec<OnboardingStep>,
}

/// Reads a stored payment mode; an unknown name is an internal fault.
pub fn stored_payment_mode(s: &str) -> (r: Result<PaymentMode, AppError>)
    ensures
        match PaymentMode::from_spec_name(s@) {
            Some(m) => r == Ok::<PaymentMode, AppError>(m),
            None => crate::error::fails_with(r, (ErrorKind::Internal, "invalid payment_mode"@)),
        },
{
    match PaymentMode::from_name(s) {
        Some(m) => Ok(m),
        None => Err(refuse(ErrorKind::Internal, "invalid payment_mode")),
    }
}

/// Reads a stored role; an unknown name is an internal fault.
pub fn stored_role(s: &str) -> (r: Result<WorkspaceRole, AppError>)
    ensures
        match WorkspaceRole::from_spec_name(s@) {
            Some(m) => r == Ok::<WorkspaceRole, AppError>(m),
            None => crate::error::fails_with(r, (ErrorKind::Internal, "invalid role"@)),
        },
{
    match WorkspaceRole::from_name(s) {
        Some(m) => Ok(m),
        None => Err(refuse(ErrorKind::Internal, "invalid role")),
    }
}

} // verus!
