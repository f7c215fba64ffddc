//! `source`: the sources of the data integration.
use vstd::prelude::*;
use crate::columns::ColumnSet;
use crate::plan::{CommandPlan, HttpMethod, MethodView, PlanView, get_value, get_value_view};
use crate::text::{owned, concat2, concat3};
use crate::commands::{
    list_view, item_view, upsert_view, delete_view, list_all, handle_get, handle_create_or_update,
    handle_delete,
};

verus! {

/// A `source` command.
pub enum SourceCommand {
    List,
    Get { id: String },
    Create { file: String },
    Update { id: String, file: String },
    Delete { id: String },
    Metrics { id: String },
}

/// What a `source` command does.
pub open spec fn source_plan(cmd: SourceCommand) -> PlanView {
    match cmd {
        SourceCommand::List => list_view("/sources"@, ColumnSet::SourceList),
        SourceCommand::Get { id } => item_view("/sources/"@ + id@, ColumnSet::SourceDetail),
        SourceCommand::Create { file } => upsert_view(MethodView::Post, "/sources"@, file@, "Source created"@),
        SourceCommand::Update { id, file } => upsert_view(
            MethodView::Put,
            "/sources/"@ + id@,
            file@,
            "Source updated"@,
        ),
        SourceCommand::Delete { id } => delete_view("/sources/"@ + id@, "Source '"@ + id@ + "' deleted"@),
        SourceCommand::Metrics { id } => get_value_view("/sources/"@ + id@ + "/metrics"@),
    }
}

impl SourceCommand {
    /// The plan of this command.
    pub fn plan(&self) -> (r: CommandPlan)
        ensures
            r@ == source_plan(*self),
    {
        match self {
            SourceCommand::List => list_all(owned("/sources"), ColumnSet::SourceList),
            SourceCommand::Get { id } => handle_get(concat2("/sources/", id.as_str()), ColumnSet::SourceDetail),
            SourceCommand::Create { file } => handle_create_or_update(
                HttpMethod::Post,
                owned("/sources"),
                file.clone(),
                owned("Source created"),
            ),
            SourceCommand::Update { id, file } => handle_create_or_update(
                HttpMethod::Put,
                concat2("/sources/", id.as_str()),
                file.clone(),
                owned("Source updated"),
            ),
            SourceCommand::Delete { id } => handle_delete(
                concat2("/sources/", id.as_str()),
                concat3("Source '", id.as_str(), "' deleted"),
            ),
            SourceCommand::Metrics { id } => get_value(concat3("/sources/", id.as_str(), "/metrics")),
        }
    }
}

} // verus!
