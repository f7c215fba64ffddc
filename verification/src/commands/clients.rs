//! `client`: the connected MQTT clients.
use vstd::prelude::*;
use crate::cli::PaginationArgs;
use crate::client::query_view;
use crate::columns::ColumnSet;
use crate::json::{JsonValue, JsonView, members_view};
use crate::plan::{BodyView, CommandPlan, HttpMethod, MethodView, PlanView, RequestBody};
use crate::text::{decimal, owned, concat2, concat3, concat5, u64_to_decimal};
use crate::commands::{
    paged_view, item_view, delete_view, list_view, confirm_view, opt_pair, opt_view, clone_opt,
    push_opt, push_member, push_value, json_object, handle_paginated_list, handle_get, handle_delete,
    list_all, send_and_confirm,
};

verus! {

/// A `client` command.
pub enum ClientCommand {
    /// List clients, filtered.
    List { pagination: PaginationArgs, filters: ClientFilters },
    /// Show one client.
    Get { clientid: String },
    /// Disconnect a client.
    Kick { clientid: String },
    /// List the subscriptions of a client.
    Subscriptions { clientid: String },
    /// Subscribe a client to a topic.
    Subscribe { clientid: String, topic: String, qos: u8 },
    /// Unsubscribe a client from a topic.
    Unsubscribe { clientid: String, topic: String },
    /// List the queued messages of a client, from a cursor.
    Mqueue { clientid: String, limit: u64, position: Option<String> },
    /// List the in-flight messages of a client, from a cursor.
    Inflight { clientid: String, limit: u64, position: Option<String> },
}

/// The filters of a client listing.
pub struct ClientFilters {
    pub username: Option<String>,
    pub ip_address: Option<String>,
    pub conn_state: Option<String>,
    pub clean_start: Option<bool>,
    pub proto_ver: Option<String>,
    pub like_clientid: Option<String>,
    pub like_username: Option<String>,
}

/// How a boolean is written in a query.
pub open spec fn bool_text(b: bool) -> Seq<char> {
    if b {
        "true"@
    } else {
        "false"@
    }
}

/// The query of a client listing: one pair per filter given, in this order.
pub open spec fn client_filter_query(f: ClientFilters) -> Seq<(Seq<char>, Seq<char>)> {
    opt_pair("username"@, opt_view(f.username)) + opt_pair("ip_address"@, opt_view(f.ip_address))
        + opt_pair("conn_state"@, opt_view(f.conn_state)) + opt_pair(
        "clean_start"@,
        match f.clean_start {
            Some(b) => Some(bool_text(b)),
            None => None,
        },
    ) + opt_pair("proto_ver"@, opt_view(f.proto_ver)) + opt_pair("like_clientid"@, opt_view(f.like_clientid))
        + opt_pair("like_username"@, opt_view(f.like_username))
}

/// What a `client` command does.
pub open spec fn client_plan(cmd: ClientCommand) -> PlanView {
    match cmd {
        ClientCommand::List { pagination, filters } => paged_view(
            "/clients"@,
            client_filter_query(filters),
            pagination,
            ColumnSet::ClientList,
            Some(ColumnSet::ClientWide),
        ),
        ClientCommand::Get { clientid } => item_view("/clients/"@ + clientid@, ColumnSet::ClientDetail),
        ClientCommand::Kick { clientid } => delete_view(
            "/clients/"@ + clientid@,
            "Client '"@ + clientid@ + "' kicked"@,
        ),
        ClientCommand::Subscriptions { clientid } => list_view(
            "/clients/"@ + clientid@ + "/subscriptions"@,
            ColumnSet::ClientSubscriptions,
        ),
        ClientCommand::Subscribe { clientid, topic, qos } => confirm_view(
            MethodView::Post,
            "/clients/"@ + clientid@ + "/subscribe"@,
            BodyView::Json(
                JsonView::Object(
                    seq![("qos"@, JsonView::Number(decimal(qos as nat))), ("topic"@, JsonView::Str(topic@))],
                ),
            ),
            "Client '"@ + clientid@ + "' subscribed to '"@ + topic@ + "'"@,
        ),
        ClientCommand::Unsubscribe { clientid, topic } => confirm_view(
            MethodView::Post,
            "/clients/"@ + clientid@ + "/unsubscribe"@,
            BodyView::Json(JsonView::Object(seq![("topic"@, JsonView::Str(topic@))])),
            "Client '"@ + clientid@ + "' unsubscribed from '"@ + topic@ + "'"@,
        ),
        ClientCommand::Mqueue { clientid, limit, position } => PlanView::CursorList {
            path: "/clients/"@ + clientid@ + "/mqueue_messages"@,
            limit,
            position: opt_view(position),
            columns: ColumnSet::QueuedMessages,
        },
        ClientCommand::Inflight { clientid, limit, position } => PlanView::CursorList {
            path: "/clients/"@ + clientid@ + "/inflight_messages"@,
            limit,
            position: opt_view(position),
            columns: ColumnSet::QueuedMessages,
        },
    }
}

impl ClientFilters {
    /// The query pairs of these filters.
    pub fn query(&self) -> (r: Vec<(String, String)>)
        ensures
            query_view(r@) == client_filter_query(*self),
    {
        let mut q: Vec<(String, String)> = Vec::new();
        push_opt(&mut q, "username", &self.username);
        push_opt(&mut q, "ip_address", &self.ip_address);
        push_opt(&mut q, "conn_state", &self.conn_state);
        let ghost before = query_view(q@);
        match self.clean_start {
            Some(b) => {
                q.push((owned("clean_start"), owned(if b { "true" } else { "false" })));
            },
            None => {},
        }
        assert(query_view(q@) =~= before + opt_pair(
            "clean_start"@,
            match self.clean_start {
                Some(b) => Some(bool_text(b)),
                None => None,
            },
        ));
        push_opt(&mut q, "proto_ver", &self.proto_ver);
        push_opt(&mut q, "like_clientid", &self.like_clientid);
        push_opt(&mut q, "like_username", &self.like_username);
        assert(query_view(q@) =~= client_filter_query(*self));
        q
    }
}

impl ClientCommand {
    /// The plan of this command.
    pub fn plan(&self) -> (r: CommandPlan)
        ensures
            r@ == client_plan(*self),
    {
        match self {
            ClientCommand::List { pagination, filters } => handle_paginated_list(
                owned("/clients"),
                filters.query(),
                *pagination,
                ColumnSet::ClientList,
                Some(ColumnSet::ClientWide),
            ),
            ClientCommand::Get { clientid } => handle_get(concat2("/clients/", clientid.as_str()), ColumnSet::ClientDetail),
            ClientCommand::Kick { clientid } => handle_delete(
                concat2("/clients/", clientid.as_str()),
                concat3("Client '", clientid.as_str(), "' kicked"),
            ),
            ClientCommand::Subscriptions { clientid } => list_all(
                concat3("/clients/", clientid.as_str(), "/subscriptions"),
                ColumnSet::ClientSubscriptions,
            ),
            ClientCommand::Subscribe { clientid, topic, qos } => {
                let mut m: Vec<(String, JsonValue)> = Vec::new();
                push_value(&mut m, "qos", JsonValue::Number(u64_to_decimal(*qos as u64)));
                push_member(&mut m, "topic", topic.as_str());
                assert(members_view(m@) =~= seq![
                    ("qos"@, JsonView::Number(decimal(*qos as nat))),
                    ("topic"@, JsonView::Str(topic@)),
                ]);
                let body = json_object(m);
                send_and_confirm(
                    HttpMethod::Post,
                    concat3("/clients/", clientid.as_str(), "/subscribe"),
                    RequestBody::Json(body),
                    concat5("Client '", clientid.as_str(), "' subscribed to '", topic.as_str(), "'"),
                )
            },
            ClientCommand::Unsubscribe { clientid, topic } => {
                let mut m: Vec<(String, JsonValue)> = Vec::new();
                push_member(&mut m, "topic", topic.as_str());
                assert(members_view(m@) =~= seq![("topic"@, JsonView::Str(topic@))]);
                let body = json_object(m);
                send_and_confirm(
                    HttpMethod::Post,
                    concat3("/clients/", clientid.as_str(), "/unsubscribe"),
                    RequestBody::Json(body),
                    concat5("Client '", clientid.as_str(), "' unsubscribed from '", topic.as_str(), "'"),
                )
            },
            ClientCommand::Mqueue { clientid, limit, position } => CommandPlan::CursorList {
                path: concat3("/clients/", clientid.as_str(), "/mqueue_messages"),
                limit: *limit,
                position: clone_opt(position),
                columns: ColumnSet::QueuedMessages,
            },
            ClientCommand::Inflight { clientid, limit, position } => CommandPlan::CursorList {
                path: concat3("/clients/", clientid.as_str(), "/inflight_messages"),
                limit: *limit,
                position: clone_opt(position),
                columns: ColumnSet::QueuedMessages,
            },
        }
    }
}

} // verus!
