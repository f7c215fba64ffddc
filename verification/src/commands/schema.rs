//! `schema`: the schemas of the schema registry.
use vstd::prelude::*;
use crate::columns::ColumnSet;
use crate::plan::{CommandPlan, HttpMethod, MethodView, PlanView, get_value, get_value_view};
use crate::text::{owned, concat2, concat3};
use crate::commands::{list_view, upsert_view, delete_view, list_all, handle_create_or_update, handle_delete};

verus! {

/// A `schema` command.
pub enum SchemaCommand {
    List,
    Get { name: String },
    Create { file: String },
    Update { name: String, file: String },
    Delete { name: String },
}

/// What a `schema` command does.
pub open spec fn schema_plan(cmd: SchemaCommand) -> PlanView {
    match cmd {
        SchemaCommand::List => list_view("/schemas"@, ColumnSet::SchemaList),
        SchemaCommand::Get { name } => get_value_view("/schemas/"@ + name@),
        SchemaCommand::Create { file } => upsert_view(MethodView::Post, "/schemas"@, file@, "Schema created"@),
        SchemaCommand::Update { name, file } => upsert_view(
            MethodView::Put,
            "/schemas/"@ + name@,
            file@,
            "Schema updated"@,
        ),
        SchemaCommand::Delete { name } => delete_view("/schemas/"@ + name@, "Schema '"@ + name@ + "' deleted"@),
    }
}

impl SchemaCommand {
    /// The plan of this command.
    pub fn plan(&self) -> (r: CommandPlan)
        ensures
            r@ == schema_plan(*self),
    {
        match self {
            SchemaCommand::List => list_all(owned("/schemas"), ColumnSet::SchemaList),
            SchemaCommand::Get { name } => get_value(concat2("/schemas/", name.as_str())),
            SchemaCommand::Create { file } => handle_create_or_update(
                HttpMethod::Post,
                owned("/schemas"),
                file.clone(),
                owned("Schema created"),
            ),
            SchemaCommand::Update { name, file } => handle_create_or_update(
                HttpMethod::Put,
                concat2("/schemas/", name.as_str()),
                file.clone(),
                owned("Schema updated"),
            ),
            SchemaCommand::Delete { name } => handle_delete(
                concat2("/schemas/", name.as_str()),
                concat3("Schema '", name.as_str(), "' deleted"),
            ),
        }
    }
}

} // verus!
