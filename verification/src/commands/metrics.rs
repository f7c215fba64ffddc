//! `metrics` and `stats`: the counters of the broker or of one node.
use vstd::prelude::*;
use crate::plan::{CommandPlan, PlanView, get_value, get_value_view};
use crate::text::{owned, concat3};

verus! {

/// What `metrics` does: the metrics of `node` when given, else of the whole broker.
pub open spec fn metrics_plan(node: Option<Seq<char>>) -> PlanView {
    match node {
        Some(n) => get_value_view("/nodes/"@ + n + "/metrics"@),
        None => get_value_view("/metrics"@),
    }
}

/// What `stats` does: the statistics of `node` when given, else of the whole broker.
pub open spec fn stats_plan(node: Option<Seq<char>>) -> PlanView {
    match node {
        Some(n) => get_value_view("/nodes/"@ + n + "/stats"@),
        None => get_value_view("/stats"@),
    }
}

/// The plan of `metrics`.
pub fn execute_metrics(node: Option<&str>) -> (r: CommandPlan)
    ensures
        r@ == metrics_plan(
            match node {
                Some(n) => Some(n@),
                None => None,
            },
        ),
{
    match node {
        Some(n) => get_value(concat3("/nodes/", n, "/metrics")),
        None => get_value(owned("/metrics")),
    }
}

/// The plan of `stats`.
pub fn execute_stats(node: Option<&str>) -> (r: CommandPlan)
    ensures
        r@ == stats_plan(
            match node {
                Some(n) => Some(n@),
                None => None,
            },
        ),
{
    match node {
        Some(n) => get_value(concat3("/nodes/", n, "/stats")),
        None => get_value(owned("/stats")),
    }
}

} // verus!
