//! Laws of the resource, client, alarm, ban, trace and publish commands: each item command addresses one resource path, with the
//! method that fits what it does, and its confirmation names the resource.
use vstd::prelude::*;
use crate::plan::{PlanView, MethodView, BodyView, RenderView};
use crate::json::JsonView;
use crate::commands::action::{ActionCommand, action_plan};
use crate::commands::connector::{ConnectorCommand, connector_plan};
use crate::commands::listener::{ListenerCommand, listener_plan};
use crate::commands::rule::{RuleCommand, rule_plan};
use crate::commands::source::{SourceCommand, source_plan};
use crate::commands::clients::{ClientCommand, ClientFilters, client_plan};
use crate::commands::opt_pair;
use crate::columns::ColumnSet;
use crate::cli::PaginationArgs;
use crate::commands::alarm::{AlarmCommand, alarm_plan};
use crate::commands::ban::{BanCommand, ban_plan};
use crate::commands::trace::{TraceCommand, trace_plan};
use crate::commands::publish::{PublishArgs, publish_plan};

verus! {

/// A plan that sends one request without query: this method, this path and this body.
pub open spec fn sends(p: PlanView, method: MethodView, path: Seq<char>, body: BodyView) -> bool {
    &&& p is Call
    &&& p->Call_method == method
    &&& p->Call_path == path
    &&& p->Call_query.len() == 0
    &&& p->Call_body == body
}

/// The confirmation that names `id` between `before` and `after`.
pub open spec fn confirmation(before: Seq<char>, id: Seq<char>, after: Seq<char>) -> RenderView {
    RenderView::Success(before + id + after)
}

/// The body `{}`.
pub open spec fn empty_body() -> BodyView {
    BodyView::Json(JsonView::Object(Seq::empty()))
}

/// An action is read with `GET`, replaced with `PUT` of the file, removed with `DELETE`, all on
/// `/actions/<id>`; it is started and stopped by `POST {}` to that path followed by `/start` and
/// `/stop`, and each confirmation names the action.
pub proof fn law_action_requests(id: String, file: String)
    ensures
        sends(action_plan(ActionCommand::Get { id }), MethodView::Get, "/actions/"@ + id@, BodyView::Empty),
        sends(
            action_plan(ActionCommand::Update { id, file }),
            MethodView::Put,
            "/actions/"@ + id@,
            BodyView::InputFile(file@),
        ),
        sends(action_plan(ActionCommand::Delete { id }), MethodView::Delete, "/actions/"@ + id@, BodyView::Empty),
        action_plan(ActionCommand::Delete { id })->Call_render == confirmation("Action '"@, id@, "' deleted"@),
        sends(action_plan(ActionCommand::Create { file }), MethodView::Post, "/actions"@, BodyView::InputFile(file@)),
        sends(
            action_plan(ActionCommand::Start { id }),
            MethodView::Post,
            "/actions/"@ + id@ + "/start"@,
            empty_body(),
        ),
        action_plan(ActionCommand::Start { id })->Call_render == confirmation("Action '"@, id@, "' started"@),
        sends(action_plan(ActionCommand::Stop { id }), MethodView::Post, "/actions/"@ + id@ + "/stop"@, empty_body()),
        action_plan(ActionCommand::Stop { id })->Call_render == confirmation("Action '"@, id@, "' stopped"@),
        sends(
            action_plan(ActionCommand::Metrics { id }),
            MethodView::Get,
            "/actions/"@ + id@ + "/metrics"@,
            BodyView::Empty,
        ),
{
}

/// A connector is read with `GET`, replaced with `PUT` of the file, removed with `DELETE`, all on
/// `/connectors/<id>`; it is tested, started, stopped and restarted by `POST {}` to that path
/// followed by the verb, and each confirmation names the connector.
pub proof fn law_connector_requests(id: String, file: String)
    ensures
        sends(connector_plan(ConnectorCommand::Get { id }), MethodView::Get, "/connectors/"@ + id@, BodyView::Empty),
        sends(
            connector_plan(ConnectorCommand::Update { id, file }),
            MethodView::Put,
            "/connectors/"@ + id@,
            BodyView::InputFile(file@),
        ),
        sends(
            connector_plan(ConnectorCommand::Delete { id }),
            MethodView::Delete,
            "/connectors/"@ + id@,
            BodyView::Empty,
        ),
        connector_plan(ConnectorCommand::Delete { id })->Call_render == confirmation("Connector '"@, id@, "' deleted"@),
        sends(
            connector_plan(ConnectorCommand::Test { id }),
            MethodView::Post,
            "/connectors/"@ + id@ + "/test"@,
            empty_body(),
        ),
        sends(
            connector_plan(ConnectorCommand::Start { id }),
            MethodView::Post,
            "/connectors/"@ + id@ + "/start"@,
            empty_body(),
        ),
        connector_plan(ConnectorCommand::Start { id })->Call_render == confirmation("Connector '"@, id@, "' started"@),
        sends(
            connector_plan(ConnectorCommand::Stop { id }),
            MethodView::Post,
            "/connectors/"@ + id@ + "/stop"@,
            empty_body(),
        ),
        connector_plan(ConnectorCommand::Stop { id })->Call_render == confirmation("Connector '"@, id@, "' stopped"@),
        sends(
            connector_plan(ConnectorCommand::Restart { id }),
            MethodView::Post,
            "/connectors/"@ + id@ + "/restart"@,
            empty_body(),
        ),
        connector_plan(ConnectorCommand::Restart { id })->Call_render == confirmation("Connector '"@, id@, "' restarted"@),
        sends(
            connector_plan(ConnectorCommand::Metrics { id }),
            MethodView::Get,
            "/connectors/"@ + id@ + "/metrics"@,
            BodyView::Empty,
        ),
{
}

/// A listener is read with `GET`, replaced with `PUT` of the file, removed with `DELETE`, all on
/// `/listeners/<id>`; it is started, stopped and restarted by `POST {}` to that path followed by
/// the verb, and each confirmation names the listener.
pub proof fn law_listener_requests(id: String, file: String)
    ensures
        sends(listener_plan(ListenerCommand::Get { id }), MethodView::Get, "/listeners/"@ + id@, BodyView::Empty),
        sends(
            listener_plan(ListenerCommand::Update { id, file }),
            MethodView::Put,
            "/listeners/"@ + id@,
            BodyView::InputFile(file@),
        ),
        sends(
            listener_plan(ListenerCommand::Delete { id }),
            MethodView::Delete,
            "/listeners/"@ + id@,
            BodyView::Empty,
        ),
        listener_plan(ListenerCommand::Delete { id })->Call_render == confirmation("Listener '"@, id@, "' deleted"@),
        sends(
            listener_plan(ListenerCommand::Start { id }),
            MethodView::Post,
            "/listeners/"@ + id@ + "/start"@,
            empty_body(),
        ),
        listener_plan(ListenerCommand::Start { id })->Call_render == confirmation("Listener '"@, id@, "' started"@),
        sends(
            listener_plan(ListenerCommand::Stop { id }),
            MethodView::Post,
            "/listeners/"@ + id@ + "/stop"@,
            empty_body(),
        ),
        listener_plan(ListenerCommand::Stop { id })->Call_render == confirmation("Listener '"@, id@, "' stopped"@),
        sends(
            listener_plan(ListenerCommand::Restart { id }),
            MethodView::Post,
            "/listeners/"@ + id@ + "/restart"@,
            empty_body(),
        ),
        listener_plan(ListenerCommand::Restart { id })->Call_render == confirmation("Listener '"@, id@, "' restarted"@),
{
}

/// A rule is read with `GET`, replaced with `PUT` of the file, removed with `DELETE`, all on
/// `/rules/<id>`; it is tested by `POST` of the file to that path followed by `/test`, and its
/// metrics are reset by `PUT null` to that path followed by `/metrics/reset`.
pub proof fn law_rule_requests(id: String, file: String)
    ensures
        sends(rule_plan(RuleCommand::Get { id }), MethodView::Get, "/rules/"@ + id@, BodyView::Empty),
        sends(rule_plan(RuleCommand::Update { id, file }), MethodView::Put, "/rules/"@ + id@, BodyView::InputFile(file@)),
        sends(rule_plan(RuleCommand::Delete { id }), MethodView::Delete, "/rules/"@ + id@, BodyView::Empty),
        rule_plan(RuleCommand::Delete { id })->Call_render == confirmation("Rule '"@, id@, "' deleted"@),
        sends(
            rule_plan(RuleCommand::Test { id, file }),
            MethodView::Post,
            "/rules/"@ + id@ + "/test"@,
            BodyView::InputFile(file@),
        ),
        sends(
            rule_plan(RuleCommand::ResetMetrics { id }),
            MethodView::Put,
            "/rules/"@ + id@ + "/metrics/reset"@,
            BodyView::Json(JsonView::Null),
        ),
        rule_plan(RuleCommand::ResetMetrics { id })->Call_render == RenderView::Success(
            "Metrics for rule '"@ + id@ + "' reset"@,
        ),
{
}

/// A source is read with `GET`, replaced with `PUT` of the file, removed with `DELETE`, all on
/// `/sources/<id>`, and created with `POST` of the file to `/sources`.
pub proof fn law_source_requests(id: String, file: String)
    ensures
        sends(source_plan(SourceCommand::Get { id }), MethodView::Get, "/sources/"@ + id@, BodyView::Empty),
        sends(
            source_plan(SourceCommand::Update { id, file }),
            MethodView::Put,
            "/sources/"@ + id@,
            BodyView::InputFile(file@),
        ),
        sends(source_plan(SourceCommand::Delete { id }), MethodView::Delete, "/sources/"@ + id@, BodyView::Empty),
        source_plan(SourceCommand::Delete { id })->Call_render == confirmation("Source '"@, id@, "' deleted"@),
        sends(source_plan(SourceCommand::Create { file }), MethodView::Post, "/sources"@, BodyView::InputFile(file@)),
{
}

/// A query part `key=value` holds the pair `(key, v)` exactly when its value is `Some(v)`.
proof fn lemma_opt_pair_contains(k: Seq<char>, o: Option<Seq<char>>, x: (Seq<char>, Seq<char>))
    ensures
        opt_pair(k, o).contains(x) <==> (o matches Some(v) && x == (k, v)),
{
    if o is Some {
        assert(opt_pair(k, o)[0] == (k, o->0));
    }
}

/// A client listing asks `/clients` for the clients that match every filter given: each query
/// key carries the value of the filter of the same name (`clean_start` as `true` or `false`),
/// and a key is asked exactly when its filter is given.
pub proof fn law_client_filters(pagination: PaginationArgs, filters: ClientFilters)
    ensures
        client_plan(ClientCommand::List { pagination, filters }) matches PlanView::PagedList {
            path,
            query,
            pagination: p,
            columns,
            wide_columns,
        } && {
            &&& path == "/clients"@
            &&& p == pagination
            &&& columns == ColumnSet::ClientList
            &&& wide_columns == Some(ColumnSet::ClientWide)
            &&& forall|v: Seq<char>|
                query.contains(("username"@, v)) <==> (filters.username matches Some(s) && s@ == v)
            &&& forall|v: Seq<char>|
                query.contains(("ip_address"@, v)) <==> (filters.ip_address matches Some(s) && s@ == v)
            &&& forall|v: Seq<char>|
                query.contains(("conn_state"@, v)) <==> (filters.conn_state matches Some(s) && s@ == v)
            &&& forall|v: Seq<char>|
                query.contains(("clean_start"@, v)) <==> (filters.clean_start matches Some(b) && v == if b {
                    "true"@
                } else {
                    "false"@
                })
            &&& forall|v: Seq<char>|
                query.contains(("proto_ver"@, v)) <==> (filters.proto_ver matches Some(s) && s@ == v)
            &&& forall|v: Seq<char>|
                query.contains(("like_clientid"@, v)) <==> (filters.like_clientid matches Some(s) && s@ == v)
            &&& forall|v: Seq<char>|
                query.contains(("like_username"@, v)) <==> (filters.like_username matches Some(s) && s@ == v)
        },
{
    broadcast use vstd::seq_lib::lemma_seq_concat_contains_all_elements;
    reveal_strlit("username");
    reveal_strlit("ip_address");
    reveal_strlit("conn_state");
    reveal_strlit("clean_start");
    reveal_strlit("proto_ver");
    reveal_strlit("like_clientid");
    reveal_strlit("like_username");
    let keys = seq![
        "username"@,
        "ip_address"@,
        "conn_state"@,
        "clean_start"@,
        "proto_ver"@,
        "like_clientid"@,
        "like_username"@,
    ];
    assert forall|i: int, j: int| 0 <= i < j < 7 implies keys[i] != keys[j] by {
        if keys[i].len() == keys[j].len() {
            if i == 1 {
                assert(keys[i][0] != keys[j][0]);
            } else {
                assert(keys[i][5] != keys[j][5]);
            }
        }
    }
    let f = filters;
    let parts = seq![
        opt_pair(keys[0], crate::commands::opt_view(f.username)),
        opt_pair(keys[1], crate::commands::opt_view(f.ip_address)),
        opt_pair(keys[2], crate::commands::opt_view(f.conn_state)),
        opt_pair(
            keys[3],
            match f.clean_start {
                Some(b) => Some(crate::commands::clients::bool_text(b)),
                None => None,
            },
        ),
        opt_pair(keys[4], crate::commands::opt_view(f.proto_ver)),
        opt_pair(keys[5], crate::commands::opt_view(f.like_clientid)),
        opt_pair(keys[6], crate::commands::opt_view(f.like_username)),
    ];
    let q = client_plan(ClientCommand::List { pagination, filters })->PagedList_query;
    assert(q == parts[0] + parts[1] + parts[2] + parts[3] + parts[4] + parts[5] + parts[6]);
    assert forall|k: int, x: (Seq<char>, Seq<char>)| 0 <= k < 7 implies #[trigger] parts[k].contains(x) ==> x.0
        == keys[k] by {
        if parts[k].contains(x) {
            let idx = choose|idx: int| 0 <= idx < parts[k].len() && parts[k][idx] == x;
        }
    }
    assert forall|k: int, v: Seq<char>| 0 <= k < 7 implies (#[trigger] q.contains((keys[k], v))
        <==> parts[k].contains((keys[k], v))) by {
        assert forall|j: int| 0 <= j < 7 && j != k implies !parts[j].contains((keys[k], v)) by {
            if parts[j].contains((keys[k], v)) {
                assert(keys[k] == keys[j]);
            }
        }
    }
    assert forall|v: Seq<char>| q.contains((keys[0], v)) <==> (f.username matches Some(s) && s@ == v) by {
        lemma_opt_pair_contains(keys[0], crate::commands::opt_view(f.username), (keys[0], v));
    }
    assert forall|v: Seq<char>| q.contains((keys[1], v)) <==> (f.ip_address matches Some(s) && s@ == v) by {
        lemma_opt_pair_contains(keys[1], crate::commands::opt_view(f.ip_address), (keys[1], v));
    }
    assert forall|v: Seq<char>| q.contains((keys[2], v)) <==> (f.conn_state matches Some(s) && s@ == v) by {
        lemma_opt_pair_contains(keys[2], crate::commands::opt_view(f.conn_state), (keys[2], v));
    }
    assert forall|v: Seq<char>|
        q.contains((keys[3], v)) <==> (f.clean_start matches Some(b) && v == if b {
            "true"@
        } else {
            "false"@
        }) by {
        lemma_opt_pair_contains(
            keys[3],
            match f.clean_start {
                Some(b) => Some(crate::commands::clients::bool_text(b)),
                None => None,
            },
            (keys[3], v),
        );
    }
    assert forall|v: Seq<char>| q.contains((keys[4], v)) <==> (f.proto_ver matches Some(s) && s@ == v) by {
        lemma_opt_pair_contains(keys[4], crate::commands::opt_view(f.proto_ver), (keys[4], v));
    }
    assert forall|v: Seq<char>| q.contains((keys[5], v)) <==> (f.like_clientid matches Some(s) && s@ == v) by {
        lemma_opt_pair_contains(keys[5], crate::commands::opt_view(f.like_clientid), (keys[5], v));
    }
    assert forall|v: Seq<char>| q.contains((keys[6], v)) <==> (f.like_username matches Some(s) && s@ == v) by {
        lemma_opt_pair_contains(keys[6], crate::commands::opt_view(f.like_username), (keys[6], v));
    }
}

/// The requests of a single client all start at `/clients/<clientid>`: it is shown with `GET`
/// and kicked with `DELETE` of that path; its subscriptions, queued and in-flight messages are
/// read below it, and `subscribe` posts the topic and QoS to `<path>/subscribe`.
pub proof fn law_client_requests(clientid: String, topic: String, qos: u8, limit: u64, position: Option<String>)
    ensures
        sends(client_plan(ClientCommand::Get { clientid }), MethodView::Get, "/clients/"@ + clientid@, BodyView::Empty),
        sends(
            client_plan(ClientCommand::Kick { clientid }),
            MethodView::Delete,
            "/clients/"@ + clientid@,
            BodyView::Empty,
        ),
        client_plan(ClientCommand::Kick { clientid })->Call_render == confirmation(
            "Client '"@,
            clientid@,
            "' kicked"@,
        ),
        sends(
            client_plan(ClientCommand::Subscriptions { clientid }),
            MethodView::Get,
            "/clients/"@ + clientid@ + "/subscriptions"@,
            BodyView::Empty,
        ),
        client_plan(ClientCommand::Subscribe { clientid, topic, qos })->Call_body == BodyView::Json(
            JsonView::Object(
                seq![("qos"@, JsonView::Number(crate::text::decimal(qos as nat))), ("topic"@, JsonView::Str(topic@))],
            ),
        ),
        client_plan(ClientCommand::Subscribe { clientid, topic, qos })->Call_render == RenderView::Success(
            "Client '"@ + clientid@ + "' subscribed to '"@ + topic@ + "'"@,
        ),
        client_plan(ClientCommand::Mqueue { clientid, limit, position }) matches PlanView::CursorList {
            path,
            limit: l,
            position: at,
            ..
        } && path == "/clients/"@ + clientid@ + "/mqueue_messages"@ && l == limit && at == crate::commands::opt_view(
            position,
        ),
        client_plan(ClientCommand::Inflight { clientid, limit, position }) matches PlanView::CursorList {
            path,
            limit: l,
            position: at,
            ..
        } && path == "/clients/"@ + clientid@ + "/inflight_messages"@ && l == limit && at == crate::commands::opt_view(
            position,
        ),
{
}

/// An alarm listing asks for the active alarms (`activated=true`) when `--activated` is given,
/// else for the cleared ones (`activated=false`) when `--deactivated` is given, else for all of
/// them, with no query.
pub proof fn law_alarm_filter(pagination: PaginationArgs, activated: bool, deactivated: bool)
    ensures
        alarm_plan(AlarmCommand::List { pagination, activated, deactivated }) matches PlanView::PagedList {
            path,
            query,
            pagination: p,
            ..
        } && path == "/alarms"@ && p == pagination && query == if activated {
            seq![("activated"@, "true"@)]
        } else if deactivated {
            seq![("activated"@, "false"@)]
        } else {
            Seq::empty()
        },
{
}

/// Lifting a ban needs a target `<as>/<who>`: one with a `/` is deleted at `/banned/<target>`
/// and confirmed by name, one without is refused.
pub proof fn law_ban_target(target: String)
    ensures
        ban_plan(BanCommand::Delete { target }) is None <==> !target@.contains('/'),
        target@.contains('/') ==> sends(
            ban_plan(BanCommand::Delete { target })->0,
            MethodView::Delete,
            "/banned/"@ + target@,
            BodyView::Empty,
        ) && ban_plan(BanCommand::Delete { target })->0->Call_render == confirmation(
            "Ban on '"@,
            target@,
            "' removed"@,
        ),
{
}

/// A trace is downloaded from `/trace/<name>/download` into the file `output`, or into
/// `<name>.zip` when `output` is `.`; its log is read from `/trace/<name>/log`.
pub proof fn law_trace_download(name: String, output: String)
    ensures
        trace_plan(TraceCommand::Download { name, output }) matches Some(PlanView::Download { path, dest, .. })
            && path == "/trace/"@ + name@ + "/download"@ && dest == if output@ == "."@ {
            name@ + ".zip"@
        } else {
            output@
        },
        trace_plan(TraceCommand::Log { name }) == Some(PlanView::Text { path: "/trace/"@ + name@ + "/log"@ }),
{
}

/// A message is published by `POST /publish` of an object with its payload, QoS, retain flag
/// and topic, and confirmed with the topic.
pub proof fn law_publish_body(a: PublishArgs)
    ensures
        sends(
            publish_plan(a),
            MethodView::Post,
            "/publish"@,
            BodyView::Json(
                JsonView::Object(
                    seq![
                        ("payload"@, JsonView::Str(a.payload@)),
                        ("qos"@, JsonView::Number(crate::text::decimal(a.qos as nat))),
                        ("retain"@, JsonView::Bool(a.retain)),
                        ("topic"@, JsonView::Str(a.topic@)),
                    ],
                ),
            ),
        ),
        publish_plan(a)->Call_render == RenderView::Success("Published to '"@ + a.topic@ + "'"@),
{
}

} // verus!
