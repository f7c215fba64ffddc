//! `action`: the actions of the data integration.
use vstd::prelude::*;
use crate::columns::ColumnSet;
use crate::plan::{CommandPlan, HttpMethod, MethodView, PlanView, get_value, get_value_view};
use crate::text::{owned, concat2, concat3};
use crate::commands::{
    list_view, item_view, upsert_view, delete_view, post_empty_view, list_all, handle_get,
    handle_create_or_update, handle_delete, post_empty,
};

verus! {

/// An `action` command.
pub enum ActionCommand {
    List,
    Get { id: String },
    Create { file: String },
    Update { id: String, file: String },
    Delete { id: String },
    Metrics { id: String },
    Start { id: String },
    Stop { id: String },
}

/// What an `action` command does.
pub open spec fn action_plan(cmd: ActionCommand) -> PlanView {
    match cmd {
        ActionCommand::List => list_view("/actions"@, ColumnSet::ActionList),
        ActionCommand::Get { id } => item_view("/actions/"@ + id@, ColumnSet::ActionDetail),
        ActionCommand::Create { file } => upsert_view(MethodView::Post, "/actions"@, file@, "Action created"@),
        ActionCommand::Update { id, file } => upsert_view(
            MethodView::Put,
            "/actions/"@ + id@,
            file@,
            "Action updated"@,
        ),
        ActionCommand::Delete { id } => delete_view("/actions/"@ + id@, "Action '"@ + id@ + "' deleted"@),
        ActionCommand::Metrics { id } => get_value_view("/actions/"@ + id@ + "/metrics"@),
        ActionCommand::Start { id } => post_empty_view(
            "/actions/"@ + id@ + "/start"@,
            "Action '"@ + id@ + "' started"@,
        ),
        ActionCommand::Stop { id } => post_empty_view(
            "/actions/"@ + id@ + "/stop"@,
            "Action '"@ + id@ + "' stopped"@,
        ),
    }
}

impl ActionCommand {
    /// The plan of this command.
    pub fn plan(&self) -> (r: CommandPlan)
        ensures
            r@ == action_plan(*self),
    {
        match self {
            ActionCommand::List => list_all(owned("/actions"), ColumnSet::ActionList),
            ActionCommand::Get { id } => handle_get(concat2("/actions/", id.as_str()), ColumnSet::ActionDetail),
            ActionCommand::Create { file } => handle_create_or_update(
                HttpMethod::Post,
                owned("/actions"),
                file.clone(),
                owned("Action created"),
            ),
            ActionCommand::Update { id, file } => handle_create_or_update(
                HttpMethod::Put,
                concat2("/actions/", id.as_str()),
                file.clone(),
                owned("Action updated"),
            ),
            ActionCommand::Delete { id } => handle_delete(
                concat2("/actions/", id.as_str()),
                concat3("Action '", id.as_str(), "' deleted"),
            ),
            ActionCommand::Metrics { id } => get_value(concat3("/actions/", id.as_str(), "/metrics")),
            ActionCommand::Start { id } => post_empty(
                concat3("/actions/", id.as_str(), "/start"),
                concat3("Action '", id.as_str(), "' started"),
            ),
            ActionCommand::Stop { id } => post_empty(
                concat3("/actions/", id.as_str(), "/stop"),
                concat3("Action '", id.as_str(), "' stopped"),
            ),
        }
    }
}

} // verus!
