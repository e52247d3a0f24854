//! Tuition plans: their requests, validation and who may manage them.
use vstd::prelude::*;
use crate::error::{
    AppError, ErrorKind, Refusal, ValidationErrors, decided, failed_field, finish_validation,
    note_field, refuse, validation_outcome,
};
use crate::text::str_eq;
use crate::validation::{chars_within, len_within, opt_chars_within, opt_in_range, opt_len_within};

verus! {

pub struct CreateTuitionPlanRequest {
    pub name: String,
    pub description: Option<String>,
    pub amount_kobo: i64,
    pub duration_days: i32,
}

impl CreateTuitionPlanRequest {
    pub open spec fn failures(self) -> Seq<Seq<char>> {
        Seq::empty() + failed_field(len_within(self.name@, 2, 100), "name"@) + failed_field(
            self.amount_kobo >= 0,
            "amount_kobo"@,
        ) + failed_field(1 <= self.duration_days <= 3650, "duration_days"@)
    }

    pub fn validate(&self) -> (r: Result<(), ValidationErrors>)
        ensures
            validation_outcome(r, self.failures()),
    {
        let mut errs: Vec<String> = Vec::new();
        assert(crate::json::views(errs@) =~= Seq::<Seq<char>>::empty());
        note_field(&mut errs, chars_within(self.name.as_str(), 2, 100), "name");
        note_field(&mut errs, self.amount_kobo >= 0, "amount_kobo");
        note_field(
            &mut errs,
            1 <= self.duration_days && self.duration_days <= 3650,
            "duration_days",
        );
        finish_validation(errs)
    }
}

pub struct UpdateTuitionPlanRequest {
    pub name: Option<String>,
    pub description: Option<String>,
    pub amount_kobo: Option<i64>,
    pub duration_days: Option<i32>,
    pub is_active: Option<bool>,
}

impl UpdateTuitionPlanRequest {
    pub open spec fn failures(self) -> Seq<Seq<char>> {
        Seq::empty() + failed_field(opt_len_within(self.name, 2, 100), "name"@) + failed_field(
            match self.amount_kobo {
                Some(a) => a >= 0,
                None => true,
            },
            "amount_kobo"@,
        ) + failed_field(
            match self.duration_days {
                Some(d) => 1 <= d <= 3650,
                None => true,
            },
            "duration_days"@,
        )
    }

    pub fn validate(&self) -> (r: Result<(), ValidationErrors>)
        ensures
            validation_outcome(r, self.failures()),
    {
        let mut errs: Vec<String> = Vec::new();
        assert(crate::json::views(errs@) =~= Seq::<Seq<char>>::empty());
        note_field(&mut errs, opt_chars_within(&self.name, 2, 100), "name");
        let amount_ok = match self.amount_kobo {
            Some(a) => a >= 0,
            None => true,
        };
        note_field(&mut errs, amount_ok, "amount_kobo");
        let duration_ok = match self.duration_days {
            Some(d) => 1 <= d && d <= 3650,
            None => true,
        };
        note_field(&mut errs, duration_ok, "duration_days");
        finish_validation(errs)
    }
}

/// Whether a stored role name is an administrator's.
pub open spec fn is_admin_name(r: Seq<char>) -> bool {
    r == "proprietor"@ || r == "admin"@
}

pub fn admin_name(r: &str) -> (b: bool)
    ensures
        b == is_admin_name(r@),
{
    str_eq(r, "proprietor") || str_eq(r, "admin")
}

/// The refusal of a change to a plan. `row` is the plan as found (`None` when no
/// live plan has that id) holding the caller's role in the plan's workspace
/// (`None` when the caller is not a member); the two texts are the refusals for
/// a missing plan and for a caller outside its workspace.
pub open spec fn manage_plan_refusal(
    row: Option<Option<String>>,
    missing: Seq<char>,
    not_member: Seq<char>,
) -> Option<Refusal> {
    match row {
        None => Some((ErrorKind::NotFound, missing)),
        Some(None) => Some((ErrorKind::NotFound, not_member)),
        Some(Some(r)) => if is_admin_name(r@) {
            None
        } else {
            Some((ErrorKind::Forbidden, "admin role required"@))
        },
    }
}

fn check_manage_plan(row: &Option<Option<String>>, missing: &str, not_member: &str) -> (r: Result<
    (),
    AppError,
>)
    ensures
        decided(r, manage_plan_refusal(*row, missing@, not_member@)),
{
    match row {
        None => Err(refuse(ErrorKind::NotFound, missing)),
        Some(None) => Err(refuse(ErrorKind::NotFound, not_member)),
        Some(Some(m)) => {
            if admin_name(m.as_str()) {
                Ok(())
            } else {
                Err(refuse(ErrorKind::Forbidden, "admin role required"))
            }
        },
    }
}

/// Changing a plan: the plan must exist, the caller belong to its workspace
/// (else the plan reads as unknown) and be an administrator.
pub fn check_update_plan(row: &Option<Option<String>>) -> (r: Result<(), AppError>)
    ensures
        decided(r, manage_plan_refusal(*row, "tuition plan not found"@, "tuition plan not found"@)),
{
    check_manage_plan(row, "tuition plan not found", "tuition plan not found")
}

/// Deleting a plan: as changing it, with the refusal texts of deletion.
pub fn check_delete_plan(row: &Option<Option<String>>) -> (r: Result<(), AppError>)
    ensures
        decided(r, manage_plan_refusal(*row, "tuition plan npt found"@, "tuition not found"@)),
{
    check_manage_plan(row, "tuition plan npt found", "tuition not found")
}

} // verus!
