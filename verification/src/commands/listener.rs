//! `listener`: the MQTT listeners of the broker.
use vstd::prelude::*;
use crate::columns::ColumnSet;
use crate::plan::{CommandPlan, HttpMethod, MethodView, PlanView};
use crate::text::{owned, concat2, concat3};
use crate::commands::{
    list_view, item_view, upsert_view, delete_view, post_empty_view, list_all, handle_get,
    handle_create_or_update, handle_delete, post_empty,
};

verus! {

/// A `listener` command.
pub enum ListenerCommand {
    List,
    Get { id: String },
    Create { file: String },
    Update { id: String, file: String },
    Delete { id: String },
    Start { id: String },
    Stop { id: String },
    Restart { id: String },
}

/// What a `listener` command does.
pub open spec fn listener_plan(cmd: ListenerCommand) -> PlanView {
    match cmd {
        ListenerCommand::List => list_view("/listeners"@, ColumnSet::ListenerList),
        ListenerCommand::Get { id } => item_view("/listeners/"@ + id@, ColumnSet::ListenerDetail),
        ListenerCommand::Create { file } => upsert_view(MethodView::Post, "/listeners"@, file@, "Listener created"@),
        ListenerCommand::Update { id, file } => upsert_view(
            MethodView::Put,
            "/listeners/"@ + id@,
            file@,
            "Listener updated"@,
        ),
        ListenerCommand::Delete { id } => delete_view("/listeners/"@ + id@, "Listener '"@ + id@ + "' deleted"@),
        ListenerCommand::Start { id } => post_empty_view(
            "/listeners/"@ + id@ + "/start"@,
            "Listener '"@ + id@ + "' started"@,
        ),
        ListenerCommand::Stop { id } => post_empty_view(
            "/listeners/"@ + id@ + "/stop"@,
            "Listener '"@ + id@ + "' stopped"@,
        ),
        ListenerCommand::Restart { id } => post_empty_view(
            "/listeners/"@ + id@ + "/restart"@,
            "Listener '"@ + id@ + "' restarted"@,
        ),
    }
}

impl ListenerCommand {
    /// The plan of this command.
    pub fn plan(&self) -> (r: CommandPlan)
        ensures
            r@ == listener_plan(*self),
    {
        match self {
            ListenerCommand::List => list_all(owned("/listeners"), ColumnSet::ListenerList),
            ListenerCommand::Get { id } => handle_get(concat2("/listeners/", id.as_str()), ColumnSet::ListenerDetail),
            ListenerCommand::Create { file } => handle_create_or_update(
                HttpMethod::Post,
                owned("/listeners"),
                file.clone(),
                owned("Listener created"),
            ),
            ListenerCommand::Update { id, file } => handle_create_or_update(
                HttpMethod::Put,
                concat2("/listeners/", id.as_str()),
                file.clone(),
                owned("Listener updated"),
            ),
            ListenerCommand::Delete { id } => handle_delete(
                concat2("/listeners/", id.as_str()),
                concat3("Listener '", id.as_str(), "' deleted"),
            ),
            ListenerCommand::Start { id } => post_empty(
                concat3("/listeners/", id.as_str(), "/start"),
                concat3("Listener '", id.as_str(), "' started"),
            ),
            ListenerCommand::Stop { id } => post_empty(
                concat3("/listeners/", id.as_str(), "/stop"),
                concat3("Listener '", id.as_str(), "' stopped"),
            ),
            ListenerCommand::Restart { id } => post_empty(
                concat3("/listeners/", id.as_str(), "/restart"),
                concat3("Listener '", id.as_str(), "' restarted"),
            ),
        }
    }
}

} // verus!
