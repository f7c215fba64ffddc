//! `rule`: the rules of the rule engine.
use vstd::prelude::*;
use crate::columns::ColumnSet;
use crate::plan::{
    BodyView, CommandPlan, HttpMethod, MethodView, PlanView, Render, RenderView, RequestBody, call,
    call_view, get_value, get_value_view,
};
use crate::text::{owned, concat2, concat3};
use crate::commands::{
    list_view, item_view, upsert_view, delete_view, put_null_view, list_all, handle_get,
    handle_create_or_update, handle_delete, put_null,
};

verus! {

/// A `rule` command.
pub enum RuleCommand {
    List,
    Get { id: String },
    Create { file: String },
    Update { id: String, file: String },
    Delete { id: String },
    /// Test a rule against the input in a file.
    Test { id: String, file: String },
    Metrics { id: String },
    ResetMetrics { id: String },
}

/// What a `rule` command does.
pub open spec fn rule_plan(cmd: RuleCommand) -> PlanView {
    match cmd {
        RuleCommand::List => list_view("/rules"@, ColumnSet::RuleList),
        RuleCommand::Get { id } => item_view("/rules/"@ + id@, ColumnSet::RuleDetail),
        RuleCommand::Create { file } => upsert_view(MethodView::Post, "/rules"@, file@, "Rule created"@),
        RuleCommand::Update { id, file } => upsert_view(MethodView::Put, "/rules/"@ + id@, file@, "Rule updated"@),
        RuleCommand::Delete { id } => delete_view("/rules/"@ + id@, "Rule '"@ + id@ + "' deleted"@),
        RuleCommand::Test { id, file } => call_view(
            MethodView::Post,
            "/rules/"@ + id@ + "/test"@,
            BodyView::InputFile(file@),
            RenderView::Value,
        ),
        RuleCommand::Metrics { id } => get_value_view("/rules/"@ + id@ + "/metrics"@),
        RuleCommand::ResetMetrics { id } => put_null_view(
            "/rules/"@ + id@ + "/metrics/reset"@,
            "Metrics for rule '"@ + id@ + "' reset"@,
        ),
    }
}

impl RuleCommand {
    /// The plan of this command.
    pub fn plan(&self) -> (r: CommandPlan)
        ensures
            r@ == rule_plan(*self),
    {
        match self {
            RuleCommand::List => list_all(owned("/rules"), ColumnSet::RuleList),
            RuleCommand::Get { id } => handle_get(concat2("/rules/", id.as_str()), ColumnSet::RuleDetail),
            RuleCommand::Create { file } => handle_create_or_update(
                HttpMethod::Post,
                owned("/rules"),
                file.clone(),
                owned("Rule created"),
            ),
            RuleCommand::Update { id, file } => handle_create_or_update(
                HttpMethod::Put,
                concat2("/rules/", id.as_str()),
                file.clone(),
                owned("Rule updated"),
            ),
            RuleCommand::Delete { id } => handle_delete(
                concat2("/rules/", id.as_str()),
                concat3("Rule '", id.as_str(), "' deleted"),
            ),
            RuleCommand::Test { id, file } => call(
                HttpMethod::Post,
                concat3("/rules/", id.as_str(), "/test"),
                RequestBody::InputFile(file.clone()),
                Render::Value,
            ),
            RuleCommand::Metrics { id } => get_value(concat3("/rules/", id.as_str(), "/metrics")),
            RuleCommand::ResetMetrics { id } => put_null(
                concat3("/rules/", id.as_str(), "/metrics/reset"),
                concat3("Metrics for rule '", id.as_str(), "' reset"),
            ),
        }
    }
}

} // verus!
