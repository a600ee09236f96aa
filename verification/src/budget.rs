//! Budget guard: whether a lead can afford a stage's cost.

use vstd::prelude::*;
use crate::models::Lead;

verus! {

/// Whether spending `cost` more cents keeps `spent` within `budget`.
pub open spec fn affordable(spent: int, budget: int, cost: int) -> bool {
    spent + cost <= budget
}

/// Return true if spending `cost_cents` would not exceed the lead's budget.
///
/// The sum is taken exactly, so no pair of `i64` values overflows it.
pub fn can_spend(lead: &Lead, cost_cents: i64) -> (ok: bool)
    ensures
        ok == affordable(lead.spent_cents as int, lead.budget_cents as int, cost_cents as int),
{
    (lead.spent_cents as i128) + (cost_cents as i128) <= (lead.budget_cents as i128)
}

} // verus!
