//! Searching a workspace's messages.
use vstd::prelude::*;
use crate::error::{
    AppError, ValidationErrors, failed_field, finish_validation, invalid_with, note_field,
    validation_outcome,
};
use crate::validation::{chars_within, len_within};

verus! {

/// The number of results a search returns when it names none.
pub fn default_search_limit() -> (n: u32)
    ensures
        n == 20,
{
    20
}

pub struct SearchQuery {
    pub q: String,
    pub limit: u32,
}

impl SearchQuery {
    pub open spec fn failures(self) -> Seq<Seq<char>> {
        Seq::empty() + failed_field(len_within(self.q@, 2, 200), "q"@)
    }

    pub fn validate(&self) -> (r: Result<(), ValidationErrors>)
        ensures
            validation_outcome(r, self.failures()),
    {
        let mut errs: Vec<String> = Vec::new();
        assert(crate::json::views(errs@) =~= Seq::<Seq<char>>::empty());
        note_field(&mut errs, chars_within(self.q.as_str(), 2, 200), "q");
        finish_validation(errs)
    }
}

/// A search: a valid query, returning at most 50 results. Returns the number of
/// results to ask for.
pub fn plan_search(q: &SearchQuery) -> (r: Result<i64, AppError>)
    ensures
        q.failures().len() > 0 ==> invalid_with(r, q.failures()),
        q.failures().len() == 0 ==> r == Ok::<i64, AppError>(
            if q.limit <= 50 { q.limit as i64 } else { 50 },
        ),
{
    match q.validate() {
        Err(e) => Err(AppError::Validation(e)),
        Ok(()) => Ok(if q.limit <= 50 { q.limit as i64 } else { 50 }),
    }
}

} // verus!
