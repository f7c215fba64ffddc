//! `status` and `broker`: the broker at a glance.
use vstd::prelude::*;
use crate::plan::{CommandPlan, get_value, get_value_view};
use crate::text::owned;

verus! {

/// The plan of `status`: the broker's status.
pub fn execute() -> (r: CommandPlan)
    ensures
        r@ == get_value_view("/status"@),
{
    get_value(owned("/status"))
}

/// The plan of `broker`: the nodes of the broker, shown as a value.
pub fn broker() -> (r: CommandPlan)
    ensures
        r@ == get_value_view("/nodes"@),
{
    get_value(owned("/nodes"))
}

} // verus!
