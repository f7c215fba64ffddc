//! `trace`: the log traces of clients, topics and addresses.
use vstd::prelude::*;
use crate::columns::ColumnSet;
use crate::json::{JsonValue, JsonView, fields_of, object_set};
use crate::plan::{CommandPlan, HttpMethod, PlanView, Render, RenderView, RequestBody};
use crate::sorted::keys_sorted;
use crate::text::{owned, str_eq, concat2, concat3, concat5};
use crate::commands::{
    list_view, item_view, delete_view, put_null_view, list_all, handle_get, handle_delete, put_null,
};

verus! {

/// A `trace` command.
pub enum TraceCommand {
    List,
    Get { name: String },
    /// Start a trace of `target`, a client id, topic or address as `trace_type` says.
    Create { name: String, trace_type: String, target: String, start: Option<String>, end: Option<String> },
    Delete { name: String },
    Stop { name: String },
    /// Print the log of a trace.
    Log { name: String },
    /// Download a trace to `output` (`.` for a file named as the trace, with `.zip`).
    Download { name: String, output: String },
    Clear,
}

/// Where a trace download goes: `output`, or `<name>.zip` when `output` is `.`.
pub open spec fn trace_dest(name: Seq<char>, output: Seq<char>) -> Seq<char> {
    if output == "."@ {
        name + ".zip"@
    } else {
        output
    }
}

/// The members of the body that creates a trace: its name, its type, the target under the
/// type's name (which wins over `name` or `type` where the type is one of those), and the
/// start and end when given.
pub open spec fn trace_create_fields(
    name: Seq<char>,
    trace_type: Seq<char>,
    target: Seq<char>,
    start: Option<Seq<char>>,
    end: Option<Seq<char>>,
) -> Map<Seq<char>, JsonView> {
    let m = Map::empty().insert("name"@, JsonView::Str(name)).insert("type"@, JsonView::Str(trace_type)).insert(
        trace_type,
        JsonView::Str(target),
    );
    let m = match start {
        Some(s) => m.insert("start_at"@, JsonView::Str(s)),
        None => m,
    };
    match end {
        Some(e) => m.insert("end_at"@, JsonView::Str(e)),
        None => m,
    }
}

/// `r` is the plan of creating a trace: `POST /trace` with an object of exactly the
/// `trace_create_fields`, keys sorted, and an empty answer confirmed.
pub open spec fn is_trace_create(r: CommandPlan, name: String, trace_type: String, target: String, start: Option<String>, end: Option<String>) -> bool {
    &&& r matches CommandPlan::Call { method, path, query, body, render } && {
        &&& method is Post
        &&& path@ == "/trace"@
        &&& query@.len() == 0
        &&& render@ == RenderView::SuccessIfNull("Trace '"@ + name@ + "' created"@)
        &&& body matches RequestBody::Json(v) && v matches JsonValue::Object(es) && {
            &&& keys_sorted(es@)
            &&& fields_of(es@) == trace_create_fields(
                name@,
                trace_type@,
                target@,
                crate::commands::opt_view(start),
                crate::commands::opt_view(end),
            )
        }
    }
}

/// What a `trace` command other than `create` does (nothing for `create`, see
/// `is_trace_create`).
pub open spec fn trace_plan(cmd: TraceCommand) -> Option<PlanView> {
    match cmd {
        TraceCommand::List => Some(list_view("/trace"@, ColumnSet::TraceList)),
        TraceCommand::Get { name } => Some(item_view("/trace/"@ + name@, ColumnSet::TraceDetail)),
        TraceCommand::Delete { name } => Some(delete_view("/trace/"@ + name@, "Trace '"@ + name@ + "' deleted"@)),
        TraceCommand::Stop { name } => Some(
            put_null_view("/trace/"@ + name@ + "/stop"@, "Trace '"@ + name@ + "' stopped"@),
        ),
        TraceCommand::Log { name } => Some(PlanView::Text { path: "/trace/"@ + name@ + "/log"@ }),
        TraceCommand::Download { name, output } => Some(
            PlanView::Download {
                path: "/trace/"@ + name@ + "/download"@,
                dest: trace_dest(name@, output@),
                success: "Trace '"@ + name@ + "' downloaded to '"@ + trace_dest(name@, output@) + "'"@,
            },
        ),
        TraceCommand::Clear => Some(delete_view("/trace"@, "All traces cleared"@)),
        TraceCommand::Create { .. } => None,
    }
}

impl TraceCommand {
    /// The plan of this command.
    pub fn plan(&self) -> (r: CommandPlan)
        ensures
            match *self {
                TraceCommand::Create { name, trace_type, target, start, end } => is_trace_create(
                    r,
                    name,
                    trace_type,
                    target,
                    start,
                    end,
                ),
                _ => r@ == trace_plan(*self)->0,
            },
    {
        match self {
            TraceCommand::List => list_all(owned("/trace"), ColumnSet::TraceList),
            TraceCommand::Get { name } => handle_get(concat2("/trace/", name.as_str()), ColumnSet::TraceDetail),
            TraceCommand::Create { name, trace_type, target, start, end } => {
                let mut es: Vec<(String, JsonValue)> = Vec::new();
                assert(fields_of(es@) =~= Map::<Seq<char>, JsonView>::empty());
                object_set(&mut es, owned("name"), JsonValue::Str(name.clone()));
                object_set(&mut es, owned("type"), JsonValue::Str(trace_type.clone()));
                object_set(&mut es, trace_type.clone(), JsonValue::Str(target.clone()));
                match start {
                    Some(s) => object_set(&mut es, owned("start_at"), JsonValue::Str(s.clone())),
                    None => {},
                }
                match end {
                    Some(e) => object_set(&mut es, owned("end_at"), JsonValue::Str(e.clone())),
                    None => {},
                }
                assert(fields_of(es@) == trace_create_fields(
                    name@,
                    trace_type@,
                    target@,
                    crate::commands::opt_view(*start),
                    crate::commands::opt_view(*end),
                ));
                let query: Vec<(String, String)> = Vec::new();
                CommandPlan::Call {
                    method: HttpMethod::Post,
                    path: owned("/trace"),
                    query,
                    body: RequestBody::Json(JsonValue::Object(es)),
                    render: Render::SuccessIfNull(concat3("Trace '", name.as_str(), "' created")),
                }
            },
            TraceCommand::Delete { name } => handle_delete(
                concat2("/trace/", name.as_str()),
                concat3("Trace '", name.as_str(), "' deleted"),
            ),
            TraceCommand::Stop { name } => put_null(
                concat3("/trace/", name.as_str(), "/stop"),
                concat3("Trace '", name.as_str(), "' stopped"),
            ),
            TraceCommand::Log { name } => CommandPlan::Text { path: concat3("/trace/", name.as_str(), "/log") },
            TraceCommand::Download { name, output } => {
                let dest = if str_eq(output.as_str(), ".") {
                    concat2(name.as_str(), ".zip")
                } else {
                    output.clone()
                };
                let success = concat5("Trace '", name.as_str(), "' downloaded to '", dest.as_str(), "'");
                CommandPlan::Download { path: concat3("/trace/", name.as_str(), "/download"), dest, success }
            },
            TraceCommand::Clear => handle_delete(owned("/trace"), owned("All traces cleared")),
        }
    }
}

} // verus!
