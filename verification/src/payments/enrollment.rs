//! Enrolling students in a tuition plan: through Paystack, or recorded by hand
//! for workspaces that take payments themselves.
use vstd::prelude::*;
use crate::auth::handlers::NANOS_PER_DAY;
use crate::crypto::is_base64_url_char;
use crate::error::{AppError, ErrorKind, Refusal, decided, refuse};
use crate::text::str_eq;
use crate::workspaces::types::{PaymentMode, WorkspaceRole};

verus! {

/// A tuition plan as stored.
pub struct PlanRow {
    pub id: u128,
    pub amount_kobo: i64,
    pub duration_days: i32,
    pub is_active: bool,
}

/// Integer division rounding toward zero, as Rust's `/` on signed integers.
pub open spec fn div_toward_zero(x: int, d: int) -> int {
    if x >= 0 {
        x / d
    } else {
        -((-x) / d)
    }
}

/// The platform's fee on an amount, given in basis points.
pub open spec fn platform_fee(amount: int, bps: int) -> int {
    div_toward_zero(amount * bps, 10000)
}

pub open spec fn initiate_refusal(
    mode: PaymentMode,
    plan: Option<PlanRow>,
    subaccount_code: Option<Seq<char>>,
    subaccount_status: Seq<char>,
) -> Option<Refusal> {
    if mode is External {
        Some(
            (
                ErrorKind::BadRequest,
                "this workspace uses external payments; contact the center directly"@,
            ),
        )
    } else if plan is None {
        Some((ErrorKind::NotFound, "tuition plan not found"@))
    } else if !plan->0.is_active {
        Some((ErrorKind::BadRequest, "plan is not active"@))
    } else if subaccount_code is None {
        Some((ErrorKind::BadRequest, "workspace has not completed payment onboarding"@))
    } else if subaccount_status != "active"@ {
        Some((ErrorKind::BadRequest, "workspace payment onboarding is not active"@))
    } else {
        None
    }
}

/// Decides a Paystack enrollment: the workspace must take payments through
/// Lekta, the plan exist and be active, and the workspace's sub-account be set
/// up and active. On success, the platform's fee in kobo.
pub fn plan_initiate_enrollment(
    mode: PaymentMode,
    plan: Option<PlanRow>,
    subaccount_code: Option<&str>,
    subaccount_status: &str,
    fee_basis_points: i32,
) -> (r: Result<i64, AppError>)
    requires
        plan matches Some(p) ==> i64::MIN <= p.amount_kobo * fee_basis_points <= i64::MAX,
    ensures
        decided(
            r,
            initiate_refusal(
                mode,
                plan,
                match subaccount_code {
                    Some(c) => Some(c@),
                    None => None,
                },
                subaccount_status@,
            ),
        ),
        r matches Ok(fee) ==> fee == platform_fee(plan->0.amount_kobo as int, fee_basis_points as int),
{
    if matches!(mode, PaymentMode::External) {
        return Err(
            refuse(
                ErrorKind::BadRequest,
                "this workspace uses external payments; contact the center directly",
            ),
        );
    }
    let p = match plan {
        None => {
            return Err(refuse(ErrorKind::NotFound, "tuition plan not found"));
        },
        Some(p) => p,
    };
    if !p.is_active {
        return Err(refuse(ErrorKind::BadRequest, "plan is not active"));
    }
    if subaccount_code.is_none() {
        return Err(refuse(ErrorKind::BadRequest, "workspace has not completed payment onboarding"));
    }
    if !str_eq(subaccount_status, "active") {
        return Err(refuse(ErrorKind::BadRequest, "workspace payment onboarding is not active"));
    }
    let prod: i64 = p.amount_kobo * (fee_basis_points as i64);
    let fee: i64 = if prod >= 0 {
        prod / 10000
    } else {
        assert(prod > i64::MIN || prod == i64::MIN);
        let m: i128 = -(prod as i128);
        let q: i128 = m / 10000;
        -(q as i64)
    };
    Ok(fee)
}

/// Calls `nanoid::format` with the crate's random source and its URL-safe
/// alphabet, for `len` characters. The characters are random; the contract
/// claims their count and alphabet, as the crate's source fixes them. The crate
/// never returns for an empty length and computes `8 * len`, so `len` is at
/// least one and that product fits.
#[verifier::external_body]
pub(crate) fn nanoid_of_len(len: usize) -> (r: String)
    requires
        1 <= len,
        8 * len <= usize::MAX,
    ensures
        r@.len() == len,
        forall|i: int| 0 <= i < r@.len() ==> is_base64_url_char(#[trigger] r@[i]),
{
    nanoid::format(nanoid::rngs::default, &nanoid::alphabet::SAFE, len)
}

/// A payment reference: the prefix followed by ten random URL-safe characters.
pub fn payment_reference(prefix: &str) -> (r: String)
    ensures
        r@.len() == prefix@.len() + 10,
        r@.subrange(0, prefix@.len() as int) == prefix@,
{
    let mut s = String::from_str(prefix);
    let id = nanoid_of_len(10);
    s.append(id.as_str());
    assert(s@.subrange(0, prefix@.len() as int) =~= prefix@);
    s
}

/// Where Paystack sends the payer back after paying.
pub fn payment_callback_url(app_base_url: &str) -> (r: String)
    ensures
        r@ == app_base_url@ + "/api/v1/payments/callback"@,
{
    let mut s = String::from_str(app_base_url);
    s.append("/api/v1/payments/callback");
    s
}

pub open spec fn manual_refusal(
    role: WorkspaceRole,
    mode: PaymentMode,
    member_role: Option<Seq<char>>,
    plan: Option<PlanRow>,
) -> Option<Refusal> {
    if !role.admin_or_above() {
        Some((ErrorKind::Forbidden, "admin role required"@))
    } else if mode is LektaManaged {
        Some(
            (
                ErrorKind::BadRequest,
                "this workspace uses lekta-managed payments; use the standard enrollment endpoint"@,
            ),
        )
    } else if member_role is None {
        Some((ErrorKind::NotFound, "user is not a workspace member"@))
    } else if member_role != Some("student"@) {
        Some((ErrorKind::BadRequest, "target must be a student"@))
    } else if plan is None {
        Some((ErrorKind::NotFound, "tuition plan is not found"@))
    } else if !plan->0.is_active {
        Some((ErrorKind::BadRequest, "plan is not active"@))
    } else {
        None
    }
}

/// A manual enrollment as recorded: the amount paid and the enrollment's span.
pub struct ManualEnrollment {
    pub paid_amount_kobo: i64,
    pub starts_at: i64,
    pub ends_at: i64,
}

/// Decides a manual enrollment. The caller must be an administrator; the workspace must not take payments through Lekta; the
/// target must be an active student member and the plan exist and be active.
/// The enrollment runs from `now` for the plan's duration; the amount paid
/// defaults to the plan's price.
pub fn plan_manual_enrollment(
    role: WorkspaceRole,
    mode: PaymentMode,
    member_role: Option<&str>,
    plan: Option<PlanRow>,
    paid_amount_kobo: Option<i64>,
    now: i64,
) -> (r: Result<ManualEnrollment, AppError>)
    requires
        plan matches Some(p) ==> i64::MIN <= now + p.duration_days * NANOS_PER_DAY <= i64::MAX,
    ensures
        decided(
            r,
            manual_refusal(
                role,
                mode,
                match member_role {
                    Some(m) => Some(m@),
                    None => None,
                },
                plan,
            ),
        ),
        r matches Ok(m) ==> m.starts_at == now && m.ends_at == now + plan->0.duration_days
            * NANOS_PER_DAY && m.paid_amount_kobo == match paid_amount_kobo {
            Some(a) => a,
            None => plan->0.amount_kobo,
        },
{
    if !role.is_admin_or_above() {
        return Err(refuse(ErrorKind::Forbidden, "admin role required"));
    }
    if matches!(mode, PaymentMode::LektaManaged) {
        return Err(
            refuse(
                ErrorKind::BadRequest,
                "this workspace uses lekta-managed payments; use the standard enrollment endpoint",
            ),
        );
    }
    match member_role {
        None => {
            return Err(refuse(ErrorKind::NotFound, "user is not a workspace member"));
        },
        Some(m) => {
            if !str_eq(m, "student") {
                return Err(refuse(ErrorKind::BadRequest, "target must be a student"));
            }
        },
    }
    let p = match plan {
        None => {
            return Err(refuse(ErrorKind::NotFound, "tuition plan is not found"));
        },
        Some(p) => p,
    };
    if !p.is_active {
        return Err(refuse(ErrorKind::BadRequest, "plan is not active"));
    }
    let (starts_at, ends_at) = activation_period(now, p.duration_days);
    let paid = match paid_amount_kobo {
        Some(a) => a,
        None => p.amount_kobo,
    };
    Ok(ManualEnrollment { paid_amount_kobo: paid, starts_at, ends_at })
}

/// The period of an enrollment activated at `now` on a plan of `duration_days`
/// days, by a successful charge or by hand: from `now` until the duration has
/// run.
pub fn activation_period(now: i64, duration_days: i32) -> (r: (i64, i64))
    requires
        i64::MIN <= now + duration_days * NANOS_PER_DAY <= i64::MAX,
    ensures
        r.0 == now,
        r.1 == now + duration_days * NANOS_PER_DAY,
{
    assert(-2147483648 * NANOS_PER_DAY <= duration_days * NANOS_PER_DAY <= 2147483647 * NANOS_PER_DAY) by (nonlinear_arith)
        requires
            -2147483648 <= duration_days <= 2147483647,
    ;
    let span: i128 = (duration_days as i128) * (NANOS_PER_DAY as i128);
    let ends: i128 = (now as i128) + span;
    (now, ends as i64)
}

/// A manual enrollment on a plan that exists but is not active is refused,
/// once the caller, the workspace's payment mode and the student pass.
pub proof fn law_manual_needs_active_plan(
    role: WorkspaceRole,
    mode: PaymentMode,
    member_role: Option<Seq<char>>,
    p: PlanRow,
)
    requires
        role is Proprietor || role is Admin,
        !(mode is LektaManaged),
        member_role == Some("student"@),
        !p.is_active,
    ensures
        manual_refusal(role, mode, member_role, Some(p)) == Some(
            (ErrorKind::BadRequest, "plan is not active"@),
        ),
{
}

/// A manual enrollment is accepted exactly when a proprietor or admin records
/// it, in a workspace whose payments Lekta does not manage, for an active member
/// who is a student, on a plan that exists and is active.
pub proof fn law_manual_allowed_exactly_when(
    role: WorkspaceRole,
    mode: PaymentMode,
    member_role: Option<Seq<char>>,
    plan: Option<PlanRow>,
)
    ensures
        manual_refusal(role, mode, member_role, plan) is None <==> ((role is Proprietor || role is Admin)
            && !(mode is LektaManaged) && member_role == Some("student"@) && (plan matches Some(p)
            && p.is_active)),
{
}

/// A Paystack enrollment is accepted exactly when the workspace does not take
/// its payments externally, the plan exists and is active, and the workspace's
/// sub-account is set up and active.
pub proof fn law_paystack_enrollment_allowed_exactly_when(
    mode: PaymentMode,
    plan: Option<PlanRow>,
    subaccount_code: Option<Seq<char>>,
    subaccount_status: Seq<char>,
)
    ensures
        initiate_refusal(mode, plan, subaccount_code, subaccount_status) is None <==> (!(mode is External)
            && (plan matches Some(p) && p.is_active) && subaccount_code is Some && subaccount_status
            == "active"@),
        !(mode is External) && (plan matches Some(p) && !p.is_active) ==> initiate_refusal(
            mode,
            plan,
            subaccount_code,
            subaccount_status,
        ) == Some((ErrorKind::BadRequest, "plan is not active"@)),
{
}

/// The platform's fee is the amount times the basis points over ten thousand,
/// the remainder dropped toward zero: never more than the exact share in size,
/// and short of it by less than one kobo.
pub proof fn law_platform_fee_rounds_toward_zero(amount: int, bps: int)
    ensures
        amount * bps >= 0 ==> 0 <= amount * bps - 10000 * platform_fee(amount, bps) < 10000,
        amount * bps < 0 ==> 0 <= 10000 * platform_fee(amount, bps) - amount * bps < 10000,
{
    let x = amount * bps;
    if x >= 0 {
        vstd::arithmetic::div_mod::lemma_fundamental_div_mod(x, 10000);
        vstd::arithmetic::div_mod::lemma_mod_pos_bound(x, 10000);
    } else {
        vstd::arithmetic::div_mod::lemma_fundamental_div_mod(-x, 10000);
        vstd::arithmetic::div_mod::lemma_mod_pos_bound(-x, 10000);
    }
}

} // verus!
