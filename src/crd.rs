//! Readiness of the installed resource definition.
use vstd::prelude::*;

use crate::resource::CRD_NAME;

verus! {

/// Condition type that reports the definition's names as accepted.
pub const NAMES_ACCEPTED: &'static str = "NamesAccepted";

/// Condition status that reports a condition as met.
pub const CONDITION_TRUE: &'static str = "True";

/// One condition of the definition's status.
#[derive(Clone, Debug)]
pub struct CrdCondition {
    pub type_: String,
    pub status: String,
}

pub open spec fn is_names_accepted(c: CrdCondition) -> bool {
    c.type_@ == NAMES_ACCEPTED@ && c.status@ == CONDITION_TRUE@
}

/// Whether the conditions report the definition's names as accepted, which
/// is when the definition can be used.
pub fn names_accepted(conditions: &Vec<CrdCondition>) -> (r: bool)
    ensures
        r == exists|i: int| 0 <= i < conditions@.len() && is_names_accepted(#[trigger] conditions@[i]),
{
    let accepted = String::from_str(NAMES_ACCEPTED);
    let met = String::from_str(CONDITION_TRUE);
    let mut i: usize = 0;
    while i < conditions.len()
        invariant
            i <= conditions@.len(),
            accepted@ == NAMES_ACCEPTED@,
            met@ == CONDITION_TRUE@,
            forall|j: int| 0 <= j < i ==> !is_names_accepted(#[trigger] conditions@[j]),
        decreases conditions@.len() - i,
    {
        if conditions[i].type_ == accepted && conditions[i].status == met {
            return true;
        }
        i = i + 1;
    }
    false
}

/// Field selector that watches the definition of At alone.
pub fn field_selector() -> (r: String)
    ensures
        r@ == "metadata.name="@ + CRD_NAME@,
{
    let mut r = String::from_str("metadata.name=");
    r.append(CRD_NAME);
    r
}

} // verus!
