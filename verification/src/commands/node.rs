//! `node`: the broker nodes of the cluster.
use vstd::prelude::*;
use crate::columns::ColumnSet;
use crate::plan::{CommandPlan, PlanView, get_value, get_value_view};
use crate::text::{owned, concat2, concat3};
use crate::commands::{list_view, item_view, list_all, handle_get};

verus! {

/// A `node` command.
pub enum NodeCommand {
    /// List all nodes.
    List,
    /// Show one node.
    Get { node: String },
    /// Show the metrics of one node.
    Metrics { node: String },
    /// Show the statistics of one node.
    Stats { node: String },
}

/// What a `node` command does.
pub open spec fn node_plan(cmd: NodeCommand) -> PlanView {
    match cmd {
        NodeCommand::List => list_view("/nodes"@, ColumnSet::NodeList),
        NodeCommand::Get { node } => item_view("/nodes/"@ + node@, ColumnSet::NodeDetail),
        NodeCommand::Metrics { node } => get_value_view("/nodes/"@ + node@ + "/metrics"@),
        NodeCommand::Stats { node } => get_value_view("/nodes/"@ + node@ + "/stats"@),
    }
}

impl NodeCommand {
    /// The plan of this command.
    pub fn plan(&self) -> (r: CommandPlan)
        ensures
            r@ == node_plan(*self),
    {
        match self {
            NodeCommand::List => list_all(owned("/nodes"), ColumnSet::NodeList),
            NodeCommand::Get { node } => handle_get(concat2("/nodes/", node.as_str()), ColumnSet::NodeDetail),
            NodeCommand::Metrics { node } => get_value(concat3("/nodes/", node.as_str(), "/metrics")),
            NodeCommand::Stats { node } => get_value(concat3("/nodes/", node.as_str(), "/stats")),
        }
    }
}

} // verus!
