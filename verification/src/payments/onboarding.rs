//! Connecting a workspace to Paystack: checking a bank account and creating the
//! workspace's payout sub-account.
use vstd::prelude::*;
use crate::error::{
    AppError, ErrorKind, Refusal, ValidationErrors, decided, failed_field, finish_validation,
    invalid_with, note_field, refuse, validation_outcome,
};
use crate::validation::{chars_within, len_within};
use crate::workspaces::types::{PaymentMode, WorkspaceRole};

verus! {

pub struct ResolveAccountRequest {
    pub bank_code: String,
    pub account_number: String,
}

impl ResolveAccountRequest {
    pub open spec fn failures(self) -> Seq<Seq<char>> {
        Seq::empty() + failed_field(len_within(self.bank_code@, 3, 10), "bank_code"@)
            + failed_field(self.account_number@.len() == 10, "account_number"@)
    }

    pub fn validate(&self) -> (r: Result<(), ValidationErrors>)
        ensures
            validation_outcome(r, self.failures()),
    {
        let mut errs: Vec<String> = Vec::new();
        assert(crate::json::views(errs@) =~= Seq::<Seq<char>>::empty());
        note_field(&mut errs, chars_within(self.bank_code.as_str(), 3, 10), "bank_code");
        note_field(&mut errs, chars_within(self.account_number.as_str(), 10, 10), "account_number");
        finish_validation(errs)
    }
}

pub struct ResolveAccountResponse {
    pub account_number: String,
    pub account_name: String,
}

pub struct PaystackOnboardingRequest {
    pub bank_code: String,
    pub account_number: String,
    pub business_name: String,
}

impl PaystackOnboardingRequest {
    pub open spec fn failures(self) -> Seq<Seq<char>> {
        Seq::empty() + failed_field(len_within(self.bank_code@, 3, 10), "bank_code"@)
            + failed_field(self.account_number@.len() == 10, "account_number"@) + failed_field(
            len_within(self.business_name@, 2, 100),
            "business_name"@,
        )
    }

    pub fn validate(&self) -> (r: Result<(), ValidationErrors>)
        ensures
            validation_outcome(r, self.failures()),
    {
        let mut errs: Vec<String> = Vec::new();
        assert(crate::json::views(errs@) =~= Seq::<Seq<char>>::empty());
        note_field(&mut errs, chars_within(self.bank_code.as_str(), 3, 10), "bank_code");
        note_field(&mut errs, chars_within(self.account_number.as_str(), 10, 10), "account_number");
        note_field(&mut errs, chars_within(self.business_name.as_str(), 2, 100), "business_name");
        finish_validation(errs)
    }
}

pub struct PaystackOnboardingResponse {
    pub subaccount_code: String,
    pub subaccoubt_status: String,
    pub resolved_account_number: String,
}

pub open spec fn onboard_refusal(role: WorkspaceRole, mode: PaymentMode) -> Option<Refusal> {
    if !(role is Proprietor) {
        Some((ErrorKind::Forbidden, "proprietor only"@))
    } else if mode is External {
        Some((ErrorKind::BadRequest, "this workspace uses external payments"@))
    } else {
        None
    }
}

/// Decides whether onboarding may go ahead before Paystack is asked: a valid
/// request, a caller who is the proprietor, and a workspace whose payment mode
/// is not external.
pub fn check_onboard_paystack(
    req: &PaystackOnboardingRequest,
    role: WorkspaceRole,
    mode: PaymentMode,
) -> (r: Result<(), AppError>)
    ensures
        req.failures().len() > 0 ==> invalid_with(r, req.failures()),
        req.failures().len() == 0 ==> decided(r, onboard_refusal(role, mode)),
{
    match req.validate() {
        Err(e) => {
            return Err(AppError::Validation(e));
        },
        Ok(()) => {},
    }
    if !matches!(role, WorkspaceRole::Proprietor) {
        return Err(refuse(ErrorKind::Forbidden, "proprietor only"));
    }
    if matches!(mode, PaymentMode::External) {
        return Err(refuse(ErrorKind::BadRequest, "this workspace uses external payments"));
    }
    Ok(())
}

/// A workspace is onboarded once: a second sub-account is refused.
pub fn check_no_subaccount(existing: bool) -> (r: Result<(), AppError>)
    ensures
        decided(
            r,
            if existing {
                Some((ErrorKind::Conflict, "paystack subaccount already onboarded"@))
            } else {
                None
            },
        ),
{
    if existing {
        return Err(refuse(ErrorKind::Conflict, "paystack subaccount already onboarded"));
    }
    Ok(())
}

} // verus!
