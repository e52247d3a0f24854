//! How an exam picks its questions: from which banks, how many from each and
//! under which filters, and the checks a selection must pass.
use vstd::prelude::*;
use crate::error::{AppError, ErrorKind, Refusal, decided, refuse};
use crate::ids::{uuid_text, uuid_to_string};
use crate::text::{signed_decimal, signed_decimal_string, str_eq};

verus! {

pub struct SelectionCriteria {
    pub sources: Vec<SelectionSource>,
}

pub struct SelectionSource {
    pub bank_id: u128,
    pub count: i32,
    pub filters: SelectionFilters,
}

pub struct SelectionFilters {
    pub topic_tags: Option<Vec<String>>,
    pub difficulty: Option<Vec<String>>,
    pub year_min: Option<i32>,
    pub year_max: Option<i32>,
}

impl Default for SelectionFilters {
    /// No filter at all.
    fn default() -> (f: Self)
        ensures
            f.topic_tags is None,
            f.difficulty is None,
            f.year_min is None,
            f.year_max is None,
    {
        SelectionFilters { topic_tags: None, difficulty: None, year_min: None, year_max: None }
    }
}

/// A selection names at least one source.
pub fn check_has_sources(criteria: &SelectionCriteria) -> (r: Result<(), AppError>)
    ensures
        decided(
            r,
            if criteria.sources@.len() == 0 {
                Some((ErrorKind::BadRequest, "selection_criteria must have at least one source"@))
            } else {
                None
            },
        ),
{
    if criteria.sources.len() == 0 {
        return Err(refuse(ErrorKind::BadRequest, "selection_criteria must have at least one source"));
    }
    Ok(())
}

/// A question bank as a selection sees it.
pub struct BankAccess {
    pub owner_type: String,
    pub owner_workspace_id: Option<u128>,
    pub is_published: bool,
}

pub open spec fn missing_bank_message(bank_id: u128) -> Seq<char> {
    "bank "@ + uuid_text(bank_id) + " not found"@
}

pub open spec fn shortage_message(bank_id: u128, count: i32, available: i64) -> Seq<char> {
    "source "@ + uuid_text(bank_id) + " needs "@ + signed_decimal(count as int) + " questions but only "@
        + signed_decimal(available as int) + " available"@
}

/// The first check a source fails, if any: its count, its bank (`bank` is the
/// bank it names, if that exists) and the number of questions there that match
/// its filters (`available`).
pub open spec fn source_refusal(
    source: SelectionSource,
    bank: Option<BankAccess>,
    available: i64,
    workspace_id: u128,
) -> Option<Refusal> {
    if source.count <= 0 {
        Some((ErrorKind::BadRequest, "source count must be positive"@))
    } else {
        match bank {
            None => Some((ErrorKind::BadRequest, missing_bank_message(source.bank_id))),
            Some(b) => if !b.is_published {
                Some((ErrorKind::Forbidden, "cannot use unpublished bank"@))
            } else if b.owner_type@ == "workspace"@ && b.owner_workspace_id != Some(workspace_id) {
                Some((ErrorKind::Forbidden, "bank not accessible in this workspace"@))
            } else if available < source.count {
                Some(
                    (
                        ErrorKind::UnprocessableEntity,
                        shortage_message(source.bank_id, source.count, available),
                    ),
                )
            } else {
                None
            },
        }
    }
}

/// Checks one source of a selection: a positive count, drawn from a published
/// bank that is the platform's or this workspace's, which holds at least that
/// many questions matching the source's filters.
pub fn check_source(
    source: &SelectionSource,
    bank: &Option<BankAccess>,
    available: i64,
    workspace_id: u128,
) -> (r: Result<(), AppError>)
    ensures
        decided(r, source_refusal(*source, *bank, available, workspace_id)),
{
    if source.count <= 0 {
        return Err(refuse(ErrorKind::BadRequest, "source count must be positive"));
    }
    match bank {
        None => {
            let mut m = String::from_str("bank ");
            let id = uuid_to_string(source.bank_id);
            m.append(id.as_str());
            m.append(" not found");
            Err(AppError::BadRequest(m))
        },
        Some(b) => {
            if !b.is_published {
                return Err(refuse(ErrorKind::Forbidden, "cannot use unpublished bank"));
            }
            let foreign = match b.owner_workspace_id {
                Some(w) => w != workspace_id,
                None => true,
            };
            if str_eq(b.owner_type.as_str(), "workspace") && foreign {
                return Err(refuse(ErrorKind::Forbidden, "bank not accessible in this workspace"));
            }
            if available < source.count as i64 {
                let mut m = String::from_str("source ");
                let id = uuid_to_string(source.bank_id);
                m.append(id.as_str());
                m.append(" needs ");
                let c = signed_decimal_string(source.count as i64);
                m.append(c.as_str());
                m.append(" questions but only ");
                let a = signed_decimal_string(available);
                m.append(a.as_str());
                m.append(" available");
                return Err(AppError::UnprocessableEntity(m));
            }
            Ok(())
        },
    }
}

/// A workspace never draws from another workspace's bank.
pub proof fn law_foreign_banks_refused(
    source: SelectionSource,
    bank: BankAccess,
    available: i64,
    workspace_id: u128,
)
    requires
        source.count > 0,
        bank.is_published,
        bank.owner_type@ == "workspace"@,
        bank.owner_workspace_id != Some(workspace_id),
    ensures
        source_refusal(source, Some(bank), available, workspace_id) == Some(
            (ErrorKind::Forbidden, "bank not accessible in this workspace"@),
        ),
{
}

} // verus!
