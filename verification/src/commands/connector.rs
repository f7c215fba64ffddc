//! `connector`: the connectors of the data integration.
use vstd::prelude::*;
use crate::client::query_view;
use crate::columns::ColumnSet;
use crate::plan::{
    BodyView, CommandPlan, HttpMethod, MethodView, PlanView, Render, RenderView, RequestBody,
    get_value, get_value_view, empty_object, empty_object_value,
};
use crate::text::{owned, concat2, concat3};
use crate::commands::{
    list_view, item_view, upsert_view, delete_view, post_empty_view, list_all, handle_get,
    handle_create_or_update, handle_delete, post_empty,
};

verus! {

/// A `connector` command.
pub enum ConnectorCommand {
    /// List connectors, of one type when given.
    List { connector_type: Option<String> },
    Get { id: String },
    Create { file: String },
    Update { id: String, file: String },
    Delete { id: String },
    /// Test a connector and show the result.
    Test { id: String },
    Start { id: String },
    Stop { id: String },
    Restart { id: String },
    Metrics { id: String },
}

/// What a `connector` command does.
pub open spec fn connector_plan(cmd: ConnectorCommand) -> PlanView {
    match cmd {
        ConnectorCommand::List { connector_type } => match connector_type {
            Some(t) => PlanView::Call {
                method: MethodView::Get,
                path: "/connectors"@,
                query: seq![("type"@, t@)],
                body: BodyView::Empty,
                render: RenderView::List(ColumnSet::ConnectorList),
            },
            None => list_view("/connectors"@, ColumnSet::ConnectorList),
        },
        ConnectorCommand::Get { id } => item_view("/connectors/"@ + id@, ColumnSet::ConnectorDetail),
        ConnectorCommand::Create { file } => upsert_view(MethodView::Post, "/connectors"@, file@, "Connector created"@),
        ConnectorCommand::Update { id, file } => upsert_view(
            MethodView::Put,
            "/connectors/"@ + id@,
            file@,
            "Connector updated"@,
        ),
        ConnectorCommand::Delete { id } => delete_view("/connectors/"@ + id@, "Connector '"@ + id@ + "' deleted"@),
        ConnectorCommand::Test { id } => PlanView::Call {
            method: MethodView::Post,
            path: "/connectors/"@ + id@ + "/test"@,
            query: Seq::empty(),
            body: BodyView::Json(empty_object()),
            render: RenderView::Value,
        },
        ConnectorCommand::Start { id } => post_empty_view(
            "/connectors/"@ + id@ + "/start"@,
            "Connector '"@ + id@ + "' started"@,
        ),
        ConnectorCommand::Stop { id } => post_empty_view(
            "/connectors/"@ + id@ + "/stop"@,
            "Connector '"@ + id@ + "' stopped"@,
        ),
        ConnectorCommand::Restart { id } => post_empty_view(
            "/connectors/"@ + id@ + "/restart"@,
            "Connector '"@ + id@ + "' restarted"@,
        ),
        ConnectorCommand::Metrics { id } => get_value_view("/connectors/"@ + id@ + "/metrics"@),
    }
}

impl ConnectorCommand {
    /// The plan of this command.
    pub fn plan(&self) -> (r: CommandPlan)
        ensures
            r@ == connector_plan(*self),
    {
        match self {
            ConnectorCommand::List { connector_type } => match connector_type {
                Some(t) => {
                    let mut query: Vec<(String, String)> = Vec::new();
                    query.push((owned("type"), t.clone()));
                    assert(query_view(query@) =~= seq![("type"@, t@)]);
                    CommandPlan::Call {
                        method: HttpMethod::Get,
                        path: owned("/connectors"),
                        query,
                        body: RequestBody::Empty,
                        render: Render::List(ColumnSet::ConnectorList),
                    }
                },
                None => list_all(owned("/connectors"), ColumnSet::ConnectorList),
            },
            ConnectorCommand::Get { id } => handle_get(concat2("/connectors/", id.as_str()), ColumnSet::ConnectorDetail),
            ConnectorCommand::Create { file } => handle_create_or_update(
                HttpMethod::Post,
                owned("/connectors"),
                file.clone(),
                owned("Connector created"),
            ),
            ConnectorCommand::Update { id, file } => handle_create_or_update(
                HttpMethod::Put,
                concat2("/connectors/", id.as_str()),
                file.clone(),
                owned("Connector updated"),
            ),
            ConnectorCommand::Delete { id } => handle_delete(
                concat2("/connectors/", id.as_str()),
                concat3("Connector '", id.as_str(), "' deleted"),
            ),
            ConnectorCommand::Test { id } => {
                let query: Vec<(String, String)> = Vec::new();
                assert(query_view(query@) =~= Seq::<(Seq<char>, Seq<char>)>::empty());
                CommandPlan::Call {
                    method: HttpMethod::Post,
                    path: concat3("/connectors/", id.as_str(), "/test"),
                    query,
                    body: RequestBody::Json(empty_object_value()),
                    render: Render::Value,
                }
            },
            ConnectorCommand::Start { id } => post_empty(
                concat3("/connectors/", id.as_str(), "/start"),
                concat3("Connector '", id.as_str(), "' started"),
            ),
            ConnectorCommand::Stop { id } => post_empty(
                concat3("/connectors/", id.as_str(), "/stop"),
                concat3("Connector '", id.as_str(), "' stopped"),
            ),
            ConnectorCommand::Restart { id } => post_empty(
                concat3("/connectors/", id.as_str(), "/restart"),
                concat3("Connector '", id.as_str(), "' restarted"),
            ),
            ConnectorCommand::Metrics { id } => get_value(concat3("/connectors/", id.as_str(), "/metrics")),
        }
    }
}

} // verus!
