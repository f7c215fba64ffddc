//! `retainer`: the retained messages and their store.
use vstd::prelude::*;
use crate::cli::PaginationArgs;
use crate::columns::ColumnSet;
use crate::plan::{CommandPlan, HttpMethod, MethodView, PlanView, get_value, get_value_view};
use crate::text::{owned, concat2, concat3};
use crate::commands::{paged_view, upsert_view, delete_view, paged_list, handle_create_or_update, handle_delete};

verus! {

/// A `retainer` command.
pub enum RetainerCommand {
    List { pagination: PaginationArgs },
    Get { topic: String },
    Delete { topic: String },
    /// Show the retainer configuration.
    Config,
    /// Replace the retainer configuration from a file.
    ConfigUpdate { file: String },
}

/// What a `retainer` command does.
pub open spec fn retainer_plan(cmd: RetainerCommand) -> PlanView {
    match cmd {
        RetainerCommand::List { pagination } => paged_view(
            "/retainer/messages"@,
            Seq::empty(),
            pagination,
            ColumnSet::RetainerList,
            None,
        ),
        RetainerCommand::Get { topic } => get_value_view("/retainer/message/"@ + topic@),
        RetainerCommand::Delete { topic } => delete_view(
            "/retainer/message/"@ + topic@,
            "Retained message for '"@ + topic@ + "' deleted"@,
        ),
        RetainerCommand::Config => get_value_view("/retainer"@),
        RetainerCommand::ConfigUpdate { file } => upsert_view(
            MethodView::Put,
            "/retainer"@,
            file@,
            "Retainer config updated"@,
        ),
    }
}

impl RetainerCommand {
    /// The plan of this command.
    pub fn plan(&self) -> (r: CommandPlan)
        ensures
            r@ == retainer_plan(*self),
    {
        match self {
            RetainerCommand::List { pagination } => paged_list(
                owned("/retainer/messages"),
                *pagination,
                ColumnSet::RetainerList,
            ),
            RetainerCommand::Get { topic } => get_value(concat2("/retainer/message/", topic.as_str())),
            RetainerCommand::Delete { topic } => handle_delete(
                concat2("/retainer/message/", topic.as_str()),
                concat3("Retained message for '", topic.as_str(), "' deleted"),
            ),
            RetainerCommand::Config => get_value(owned("/retainer")),
            RetainerCommand::ConfigUpdate { file } => handle_create_or_update(
                HttpMethod::Put,
                owned("/retainer"),
                file.clone(),
                owned("Retainer config updated"),
            ),
        }
    }
}

} // verus!
