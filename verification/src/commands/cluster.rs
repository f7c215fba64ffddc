//! `cluster`: the cluster as a whole.
use vstd::prelude::*;
use crate::client::query_view;
use crate::plan::{
    BodyView, CommandPlan, HttpMethod, MethodView, PlanView, Render, RenderView, RequestBody,
    get_value, get_value_view,
};
use crate::text::{decimal, owned, u64_to_decimal};

verus! {

/// A `cluster` command.
pub enum ClusterCommand {
    /// Show the cluster status.
    Status,
    /// Show the current cluster metrics, the latest `n` samples when given.
    Metrics { latest: Option<u32> },
}

/// What a `cluster` command does.
pub open spec fn cluster_plan(cmd: ClusterCommand) -> PlanView {
    match cmd {
        ClusterCommand::Status => get_value_view("/cluster"@),
        ClusterCommand::Metrics { latest } => match latest {
            Some(n) => PlanView::Call {
                method: MethodView::Get,
                path: "/monitor_current"@,
                query: seq![("latest"@, decimal(n as nat))],
                body: BodyView::Empty,
                render: RenderView::Value,
            },
            None => get_value_view("/monitor_current"@),
        },
    }
}

impl ClusterCommand {
    /// The plan of this command.
    pub fn plan(&self) -> (r: CommandPlan)
        ensures
            r@ == cluster_plan(*self),
    {
        match self {
            ClusterCommand::Status => get_value(owned("/cluster")),
            ClusterCommand::Metrics { latest } => match latest {
                Some(n) => {
                    let mut query: Vec<(String, String)> = Vec::new();
                    query.push((owned("latest"), u64_to_decimal(*n as u64)));
                    assert(query_view(query@) =~= seq![("latest"@, decimal(*n as nat))]);
                    CommandPlan::Call {
                        method: HttpMethod::Get,
                        path: owned("/monitor_current"),
                        query,
                        body: RequestBody::Empty,
                        render: Render::Value,
                    }
                },
                None => get_value(owned("/monitor_current")),
            },
        }
    }
}

} // verus!
