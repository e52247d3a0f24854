//! Tutor profiles and their ratings: who may write a profile, verify a tutor,
//! and rate a tutor or withdraw a rating.
use vstd::prelude::*;
use crate::classes::handlers::{is_tutor_name, tutor_name};
use crate::error::{
    AppError, ErrorKind, Refusal, ValidationErrors, decided, failed_field, finish_validation,
    invalid_with, note_field, refuse, validation_outcome,
};
use crate::validation::{chars_within, len_within, opt_in_range};
use crate::workspaces::members::opt_view;
use crate::workspaces::types::WorkspaceRole;

verus! {

pub struct UpsertTutorProfileRequest {
    pub bio: Option<String>,
    pub credentials: Option<Vec<String>>,
    pub subjects: Option<Vec<String>>,
    pub years_experience: Option<i32>,
}

/// An optional text of at most `max` characters.
pub open spec fn opt_at_most(s: Option<String>, max: int) -> bool {
    match s {
        Some(t) => t@.len() <= max,
        None => true,
    }
}

fn opt_chars_at_most(s: &Option<String>, max: usize) -> (r: bool)
    ensures
        r == opt_at_most(*s, max as int),
{
    match s {
        Some(t) => chars_within(t.as_str(), 0, max),
        None => true,
    }
}

impl UpsertTutorProfileRequest {
    pub open spec fn failures(self) -> Seq<Seq<char>> {
        Seq::empty() + failed_field(opt_at_most(self.bio, 2000), "bio"@) + failed_field(
            match self.years_experience {
                Some(y) => 0 <= y <= 60,
                None => true,
            },
            "years_experience"@,
        )
    }

    pub fn validate(&self) -> (r: Result<(), ValidationErrors>)
        ensures
            validation_outcome(r, self.failures()),
    {
        let mut errs: Vec<String> = Vec::new();
        assert(crate::json::views(errs@) =~= Seq::<Seq<char>>::empty());
        note_field(&mut errs, opt_chars_at_most(&self.bio, 2000), "bio");
        let years_ok = match self.years_experience {
            Some(y) => 0 <= y && y <= 60,
            None => true,
        };
        note_field(&mut errs, years_ok, "years_experience");
        finish_validation(errs)
    }
}

pub open spec fn upsert_profile_refusal(
    role: WorkspaceRole,
    user_id: u128,
    tutor_user_id: u128,
    target_role: Option<Seq<char>>,
) -> Option<Refusal> {
    if tutor_user_id != user_id && !role.admin_or_above() {
        Some((ErrorKind::Forbidden, "self or admin only"@))
    } else {
        match target_role {
            None => Some((ErrorKind::NotFound, "user not in workspace"@)),
            Some(t) => if !is_tutor_name(t) {
                Some((ErrorKind::BadRequest, "target must have tutor role or higher"@))
            } else {
                None
            },
        }
    }
}

/// Decides writing a tutor profile: a valid request, by the tutor or an
/// administrator, for an active member (`target_role` is the member's stored
/// role) who is a tutor or higher.
pub fn check_upsert_tutor_profile(
    req: &UpsertTutorProfileRequest,
    role: WorkspaceRole,
    user_id: u128,
    tutor_user_id: u128,
    target_role: Option<&str>,
) -> (r: Result<(), AppError>)
    ensures
        req.failures().len() > 0 ==> invalid_with(r, req.failures()),
        req.failures().len() == 0 ==> decided(
            r,
            upsert_profile_refusal(role, user_id, tutor_user_id, opt_view(target_role)),
        ),
{
    match req.validate() {
        Err(e) => {
            return Err(AppError::Validation(e));
        },
        Ok(()) => {},
    }
    if tutor_user_id != user_id && !role.is_admin_or_above() {
        return Err(refuse(ErrorKind::Forbidden, "self or admin only"));
    }
    match target_role {
        None => Err(refuse(ErrorKind::NotFound, "user not in workspace")),
        Some(t) => {
            if !tutor_name(t) {
                Err(refuse(ErrorKind::BadRequest, "target must have tutor role or higher"))
            } else {
                Ok(())
            }
        },
    }
}

pub open spec fn verify_tutor_refusal(role: WorkspaceRole, changed: u64) -> Option<Refusal> {
    if !role.admin_or_above() {
        Some((ErrorKind::Forbidden, "admin role required"@))
    } else if changed == 0 {
        Some((ErrorKind::NotFound, "tutor profile not found"@))
    } else {
        None
    }
}

/// Decides verifying a tutor: by an administrator, of an existing profile
/// (`changed` is the number of profiles the update marked).
pub fn check_verify_tutor(role: WorkspaceRole, changed: u64) -> (r: Result<(), AppError>)
    ensures
        decided(r, verify_tutor_refusal(role, changed)),
{
    if !role.is_admin_or_above() {
        return Err(refuse(ErrorKind::Forbidden, "admin role required"));
    }
    if changed == 0 {
        return Err(refuse(ErrorKind::NotFound, "tutor profile not found"));
    }
    Ok(())
}

pub struct CreateRatingRequest {
    pub rating: i32,
    pub comment: Option<String>,
    pub class_id: Option<u128>,
}

impl CreateRatingRequest {
    pub open spec fn failures(self) -> Seq<Seq<char>> {
        Seq::empty() + failed_field(1 <= self.rating <= 5, "rating"@) + failed_field(
            opt_at_most(self.comment, 1000),
            "comment"@,
        )
    }

    pub fn validate(&self) -> (r: Result<(), ValidationErrors>)
        ensures
            validation_outcome(r, self.failures()),
    {
        let mut errs: Vec<String> = Vec::new();
        assert(crate::json::views(errs@) =~= Seq::<Seq<char>>::empty());
        note_field(&mut errs, 1 <= self.rating && self.rating <= 5, "rating");
        note_field(&mut errs, opt_chars_at_most(&self.comment, 1000), "comment");
        finish_validation(errs)
    }
}

pub open spec fn rating_refusal(
    req: CreateRatingRequest,
    role: WorkspaceRole,
    profile_found: bool,
    class_taught: bool,
) -> Option<Refusal> {
    if !(role is Student) {
        Some((ErrorKind::Forbidden, "only students can rate tutors"@))
    } else if !profile_found {
        Some((ErrorKind::NotFound, "tutor profile not found"@))
    } else if req.class_id is Some && !class_taught {
        Some((ErrorKind::BadRequest, "class not found or not taught by this tutor"@))
    } else {
        None
    }
}

/// Decides a rating: a valid request, by a student, of a tutor with a profile in
/// the workspace, naming (if any) a class of the workspace the tutor teaches
/// (`class_taught`).
pub fn check_create_rating(
    req: &CreateRatingRequest,
    role: WorkspaceRole,
    profile_found: bool,
    class_taught: bool,
) -> (r: Result<(), AppError>)
    ensures
        req.failures().len() > 0 ==> invalid_with(r, req.failures()),
        req.failures().len() == 0 ==> decided(
            r,
            rating_refusal(*req, role, profile_found, class_taught),
        ),
{
    match req.validate() {
        Err(e) => {
            return Err(AppError::Validation(e));
        },
        Ok(()) => {},
    }
    if !matches!(role, WorkspaceRole::Student) {
        return Err(refuse(ErrorKind::Forbidden, "only students can rate tutors"));
    }
    if !profile_found {
        return Err(refuse(ErrorKind::NotFound, "tutor profile not found"));
    }
    if req.class_id.is_some() && !class_taught {
        return Err(refuse(ErrorKind::BadRequest, "class not found or not taught by this tutor"));
    }
    Ok(())
}

/// Only students rate tutors.
pub proof fn law_only_students_rate(req: CreateRatingRequest, role: WorkspaceRole, found: bool, taught: bool)
    requires
        !(role is Student),
    ensures
        rating_refusal(req, role, found, taught) == Some(
            (ErrorKind::Forbidden, "only students can rate tutors"@),
        ),
{
}

pub open spec fn delete_rating_refusal(
    rating_student: Option<u128>,
    user_id: u128,
    role: WorkspaceRole,
) -> Option<Refusal> {
    match rating_student {
        None => Some((ErrorKind::NotFound, "rating not found"@)),
        Some(s) => if s != user_id && !role.admin_or_above() {
            Some((ErrorKind::Forbidden, "owner or admin only"@))
        } else {
            None
        },
    }
}

/// Decides withdrawing a rating of the workspace: by the student who gave it or
/// an administrator. `rating_student` is the rating's student, if it exists.
pub fn check_delete_rating(rating_student: Option<u128>, user_id: u128, role: WorkspaceRole) -> (r:
    Result<(), AppError>)
    ensures
        decided(r, delete_rating_refusal(rating_student, user_id, role)),
{
    match rating_student {
        None => Err(refuse(ErrorKind::NotFound, "rating not found")),
        Some(s) => {
            if s != user_id && !role.is_admin_or_above() {
                Err(refuse(ErrorKind::Forbidden, "owner or admin only"))
            } else {
                Ok(())
            }
        },
    }
}

} // verus!
