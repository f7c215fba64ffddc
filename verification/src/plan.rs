//! What a command asks of the server and how it shows the answer: a plan that the
//! command-line front end carries out.
use vstd::prelude::*;
use crate::cli::PaginationArgs;
use crate::columns::ColumnSet;
use crate::json::{JsonValue, JsonView, json_view, views_of, items_of, extract_items};
use crate::client::query_view;

verus! {

/// An HTTP method.
#[derive(Debug, PartialEq)]
pub enum HttpMethod {
    Get,
    Post,
    Put,
    Delete,
    /// Any other method, by its name.
    Other(String),
}

/// The body of a request.
#[derive(Debug, PartialEq)]
pub enum RequestBody {
    /// No body.
    Empty,
    /// This JSON value.
    Json(JsonValue),
    /// This text, which must parse as JSON.
    JsonText(String),
    /// The contents of this input file (`-` for standard input), read as JSON or YAML.
    InputFile(String),
}

/// How the answer of a request is shown.
#[derive(Debug, PartialEq)]
pub enum Render {
    /// As a value.
    Value,
    /// As a single item with these columns.
    Item(ColumnSet),
    /// As a list (a bare array or the `data` of an envelope) with these columns.
    List(ColumnSet),
    /// As this confirmation, whatever the answer.
    Success(String),
    /// As this confirmation when the answer is empty, else as a value.
    SuccessIfNull(String),
}

/// What a command does.
#[derive(Debug, PartialEq)]
pub enum CommandPlan {
    /// Send one request and show the answer.
    Call { method: HttpMethod, path: String, query: Vec<(String, String)>, body: RequestBody, render: Render },
    /// Show a paged listing: one page with its footer, or every page with `--all`, the pages
    /// fetched and gathered as `first_page` and `gather_page` say.
    PagedList {
        path: String,
        query: Vec<(String, String)>,
        pagination: PaginationArgs,
        columns: ColumnSet,
        wide_columns: Option<ColumnSet>,
    },
    /// Show a cursor-paged listing and the next cursor.
    CursorList { path: String, limit: u64, position: Option<String>, columns: ColumnSet },
    /// Upload a file as a multipart form, then confirm.
    Upload { path: String, file: String, success: String },
    /// Download to a file, then confirm.
    Download { path: String, dest: String, success: String },
    /// Print the answer as raw text.
    Text { path: String },
}

/// The content of an HTTP method.
pub enum MethodView {
    Get,
    Post,
    Put,
    Delete,
    Other(Seq<char>),
}

/// The content of a request body.
pub enum BodyView {
    Empty,
    Json(JsonView),
    JsonText(Seq<char>),
    InputFile(Seq<char>),
}

/// The content of a rendering.
pub enum RenderView {
    Value,
    Item(ColumnSet),
    List(ColumnSet),
    Success(Seq<char>),
    SuccessIfNull(Seq<char>),
}

/// The content of a command plan.
pub enum PlanView {
    Call {
        method: MethodView,
        path: Seq<char>,
        query: Seq<(Seq<char>, Seq<char>)>,
        body: BodyView,
        render: RenderView,
    },
    PagedList {
        path: Seq<char>,
        query: Seq<(Seq<char>, Seq<char>)>,
        pagination: PaginationArgs,
        columns: ColumnSet,
        wide_columns: Option<ColumnSet>,
    },
    CursorList { path: Seq<char>, limit: u64, position: Option<Seq<char>>, columns: ColumnSet },
    Upload { path: Seq<char>, file: Seq<char>, success: Seq<char> },
    Download { path: Seq<char>, dest: Seq<char>, success: Seq<char> },
    Text { path: Seq<char> },
}

impl View for HttpMethod {
    type V = MethodView;

    open spec fn view(&self) -> MethodView {
        match self {
            HttpMethod::Get => MethodView::Get,
            HttpMethod::Post => MethodView::Post,
            HttpMethod::Put => MethodView::Put,
            HttpMethod::Delete => MethodView::Delete,
            HttpMethod::Other(m) => MethodView::Other(m@),
        }
    }
}

impl View for RequestBody {
    type V = BodyView;

    open spec fn view(&self) -> BodyView {
        match self {
            RequestBody::Empty => BodyView::Empty,
            RequestBody::Json(v) => BodyView::Json(json_view(*v)),
            RequestBody::JsonText(t) => BodyView::JsonText(t@),
            RequestBody::InputFile(f) => BodyView::InputFile(f@),
        }
    }
}

impl View for Render {
    type V = RenderView;

    open spec fn view(&self) -> RenderView {
        match self {
            Render::Value => RenderView::Value,
            Render::Item(c) => RenderView::Item(*c),
            Render::List(c) => RenderView::List(*c),
            Render::Success(m) => RenderView::Success(m@),
            Render::SuccessIfNull(m) => RenderView::SuccessIfNull(m@),
        }
    }
}

impl View for CommandPlan {
    type V = PlanView;

    open spec fn view(&self) -> PlanView {
        match self {
            CommandPlan::Call { method, path, query, body, render } => PlanView::Call {
                method: method@,
                path: path@,
                query: query_view(query@),
                body: body@,
                render: render@,
            },
            CommandPlan::PagedList { path, query, pagination, columns, wide_columns } => PlanView::PagedList {
                path: path@,
                query: query_view(query@),
                pagination: *pagination,
                columns: *columns,
                wide_columns: *wide_columns,
            },
            CommandPlan::CursorList { path, limit, position, columns } => PlanView::CursorList {
                path: path@,
                limit: *limit,
                position: match position {
                    Some(p) => Some(p@),
                    None => None,
                },
                columns: *columns,
            },
            CommandPlan::Upload { path, file, success } => PlanView::Upload {
                path: path@,
                file: file@,
                success: success@,
            },
            CommandPlan::Download { path, dest, success } => PlanView::Download {
                path: path@,
                dest: dest@,
                success: success@,
            },
            CommandPlan::Text { path } => PlanView::Text { path: path@ },
        }
    }
}

/// A request without query or body.
pub open spec fn call_view(method: MethodView, path: Seq<char>, body: BodyView, render: RenderView) -> PlanView {
    PlanView::Call { method, path, query: Seq::empty(), body, render }
}

/// `GET path`, shown as a value.
pub open spec fn get_value_view(path: Seq<char>) -> PlanView {
    call_view(MethodView::Get, path, BodyView::Empty, RenderView::Value)
}

/// The empty JSON object `{}`.
pub open spec fn empty_object() -> JsonView {
    JsonView::Object(Seq::empty())
}

/// A request without query.
pub fn call(method: HttpMethod, path: String, body: RequestBody, render: Render) -> (r: CommandPlan)
    ensures
        r@ == call_view(method@, path@, body@, render@),
{
    let query: Vec<(String, String)> = Vec::new();
    let r = CommandPlan::Call { method, path, query, body, render };
    assert(query_view(query@) =~= Seq::<(Seq<char>, Seq<char>)>::empty());
    r
}

/// `GET path`, shown as a value.
pub fn get_value(path: String) -> (r: CommandPlan)
    ensures
        r@ == get_value_view(path@),
{
    call(HttpMethod::Get, path, RequestBody::Empty, Render::Value)
}

/// The empty JSON object `{}`.
pub fn empty_object_value() -> (r: JsonValue)
    ensures
        json_view(r) == empty_object(),
{
    let es: Vec<(String, JsonValue)> = Vec::new();
    let r = JsonValue::Object(es);
    assert(json_view(r)->Object_0 =~= Seq::<(Seq<char>, JsonView)>::empty());
    r
}

/// How an answer is shown, once it has come back.
#[derive(Debug, PartialEq)]
pub enum Shown {
    /// The answer as a value.
    Value,
    /// The answer as one item with these columns.
    Item(ColumnSet),
    /// These items as a list with these columns.
    List(Vec<JsonValue>, ColumnSet),
    /// This confirmation.
    Success(String),
}

/// How an answer is shown as `render` says: a list shows the answer's items (a bare array, the
/// `data` array of an envelope, or the answer alone), and a confirmation that is owed only for
/// an empty answer shows the answer itself when there is one.
pub fn shown(render: Render, value: &JsonValue) -> (r: Shown)
    ensures
        match render {
            Render::Value => r == Shown::Value,
            Render::Item(c) => r == Shown::Item(c),
            Render::List(c) => r is List && r->List_1 == c && views_of(r->List_0@) == items_of(
                json_view(*value),
            ),
            Render::Success(m) => r == Shown::Success(m),
            Render::SuccessIfNull(m) => if *value is Null {
                r == Shown::Success(m)
            } else {
                r == Shown::Value
            },
        },
{
    match render {
        Render::Value => Shown::Value,
        Render::Item(c) => Shown::Item(c),
        Render::List(c) => Shown::List(extract_items(value), c),
        Render::Success(m) => Shown::Success(m),
        Render::SuccessIfNull(m) => match value {
            JsonValue::Null => Shown::Success(m),
            _ => Shown::Value,
        },
    }
}

} // verus!
