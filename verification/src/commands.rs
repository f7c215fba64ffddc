//! The command groups, each of which turns a parsed command into the plan of what
//! to ask the server and how to show the answer, and the plan shapes they share.
use vstd::prelude::*;
use crate::cli::PaginationArgs;
use crate::columns::ColumnSet;
use crate::client::query_view;
use crate::json::{JsonValue, JsonView, json_view, members_view, lemma_object_members};
use crate::text::owned;
use crate::plan::{
    BodyView, CommandPlan, HttpMethod, MethodView, PlanView, Render, RenderView, RequestBody,
    call, call_view, empty_object, empty_object_value,
};

pub mod action;
pub mod admin;
pub mod alarm;
pub mod api;
pub mod apikey;
pub mod authn;
pub mod authz;
pub mod backup;
pub mod ban;
pub mod cert;
pub mod clients;
pub mod config_cmd;
pub mod connector;
pub mod dispatch;
pub mod gateway;
pub mod listener;
pub mod metrics;
pub mod cluster;
pub mod node;
pub mod plugin;
pub mod publish;
pub mod retainer;
pub mod rule;
pub mod schema;
pub mod slow_sub;
pub mod source;
pub mod status;
pub mod subscription;
pub mod topic;
pub mod topic_metrics;
pub mod trace;

verus! {

/// `GET path`, its answer shown as a list.
pub open spec fn list_view(path: Seq<char>, columns: ColumnSet) -> PlanView {
    call_view(MethodView::Get, path, BodyView::Empty, RenderView::List(columns))
}

/// `GET path`, its answer shown as one item.
pub open spec fn item_view(path: Seq<char>, columns: ColumnSet) -> PlanView {
    call_view(MethodView::Get, path, BodyView::Empty, RenderView::Item(columns))
}

/// `DELETE path`, then the confirmation `msg`.
pub open spec fn delete_view(path: Seq<char>, msg: Seq<char>) -> PlanView {
    call_view(MethodView::Delete, path, BodyView::Empty, RenderView::Success(msg))
}

/// A request whose body is read from `file`; an empty answer is confirmed with `msg`.
pub open spec fn upsert_view(method: MethodView, path: Seq<char>, file: Seq<char>, msg: Seq<char>) -> PlanView {
    call_view(method, path, BodyView::InputFile(file), RenderView::SuccessIfNull(msg))
}

/// A request with this body, then the confirmation `msg` whatever the answer.
pub open spec fn confirm_view(method: MethodView, path: Seq<char>, body: BodyView, msg: Seq<char>) -> PlanView {
    call_view(method, path, body, RenderView::Success(msg))
}

/// `POST path` with the body `{}`, then the confirmation `msg`.
pub open spec fn post_empty_view(path: Seq<char>, msg: Seq<char>) -> PlanView {
    confirm_view(MethodView::Post, path, BodyView::Json(empty_object()), msg)
}

/// `PUT path` with the body `null`, then the confirmation `msg`.
pub open spec fn put_null_view(path: Seq<char>, msg: Seq<char>) -> PlanView {
    confirm_view(MethodView::Put, path, BodyView::Json(JsonView::Null), msg)
}

/// A paged listing of `path`.
pub open spec fn paged_view(
    path: Seq<char>,
    query: Seq<(Seq<char>, Seq<char>)>,
    pagination: PaginationArgs,
    columns: ColumnSet,
    wide_columns: Option<ColumnSet>,
) -> PlanView {
    PlanView::PagedList { path, query, pagination, columns, wide_columns }
}

/// `GET path`, its answer shown as a list.
pub fn list_all(path: String, columns: ColumnSet) -> (r: CommandPlan)
    ensures
        r@ == list_view(path@, columns),
{
    call(HttpMethod::Get, path, RequestBody::Empty, Render::List(columns))
}

/// `GET path`, its answer shown as one item with these columns.
pub fn handle_get(path: String, columns: ColumnSet) -> (r: CommandPlan)
    ensures
        r@ == item_view(path@, columns),
{
    call(HttpMethod::Get, path, RequestBody::Empty, Render::Item(columns))
}

/// `DELETE path`, then the confirmation `msg`.
pub fn handle_delete(path: String, msg: String) -> (r: CommandPlan)
    ensures
        r@ == delete_view(path@, msg@),
{
    call(HttpMethod::Delete, path, RequestBody::Empty, Render::Success(msg))
}

/// A create or update whose body is read from `file`; an empty answer is confirmed
/// with `msg`, any other is shown as a value.
pub fn handle_create_or_update(method: HttpMethod, path: String, file: String, msg: String) -> (r: CommandPlan)
    ensures
        r@ == upsert_view(method@, path@, file@, msg@),
{
    call(method, path, RequestBody::InputFile(file), Render::SuccessIfNull(msg))
}

/// A request with this body, then the confirmation `msg`.
pub fn send_and_confirm(method: HttpMethod, path: String, body: RequestBody, msg: String) -> (r: CommandPlan)
    ensures
        r@ == confirm_view(method@, path@, body@, msg@),
{
    call(method, path, body, Render::Success(msg))
}

/// `POST path` with the body `{}`, then the confirmation `msg`.
pub fn post_empty(path: String, msg: String) -> (r: CommandPlan)
    ensures
        r@ == post_empty_view(path@, msg@),
{
    let body = empty_object_value();
    send_and_confirm(HttpMethod::Post, path, RequestBody::Json(body), msg)
}

/// `PUT path` with the body `null`, then the confirmation `msg`.
pub fn put_null(path: String, msg: String) -> (r: CommandPlan)
    ensures
        r@ == put_null_view(path@, msg@),
{
    send_and_confirm(HttpMethod::Put, path, RequestBody::Json(JsonValue::Null), msg)
}

/// A paged listing of `path` with these query pairs.
pub fn handle_paginated_list(
    path: String,
    query: Vec<(String, String)>,
    pagination: PaginationArgs,
    columns: ColumnSet,
    wide_columns: Option<ColumnSet>,
) -> (r: CommandPlan)
    ensures
        r@ == paged_view(path@, query_view(query@), pagination, columns, wide_columns),
{
    CommandPlan::PagedList { path, query, pagination, columns, wide_columns }
}

/// A paged listing of `path` without filters.
pub fn paged_list(path: String, pagination: PaginationArgs, columns: ColumnSet) -> (r: CommandPlan)
    ensures
        r@ == paged_view(path@, Seq::empty(), pagination, columns, None),
{
    let query: Vec<(String, String)> = Vec::new();
    assert(query_view(query@) =~= Seq::<(Seq<char>, Seq<char>)>::empty());
    handle_paginated_list(path, query, pagination, columns, None)
}

/// The text of an optional string.
pub open spec fn opt_view(v: Option<String>) -> Option<Seq<char>> {
    match v {
        Some(s) => Some(s@),
        None => None,
    }
}

/// The query pair `key=value` when a value is given, else nothing.
pub open spec fn opt_pair(key: Seq<char>, v: Option<Seq<char>>) -> Seq<(Seq<char>, Seq<char>)> {
    match v {
        Some(s) => seq![(key, s)],
        None => Seq::empty(),
    }
}

/// The string member `key` when a value is given, else nothing.
pub open spec fn opt_member(key: Seq<char>, v: Option<Seq<char>>) -> Seq<(Seq<char>, JsonView)> {
    match v {
        Some(s) => seq![(key, JsonView::Str(s))],
        None => Seq::empty(),
    }
}

/// A copy of an optional string.
pub fn clone_opt(v: &Option<String>) -> (r: Option<String>)
    ensures
        r == *v,
{
    match v {
        Some(s) => Some(s.clone()),
        None => None,
    }
}

/// Appends the query pair `key=value` when a value is given.
pub fn push_opt(query: &mut Vec<(String, String)>, key: &str, value: &Option<String>)
    ensures
        query_view(final(query)@) == query_view(old(query)@) + opt_pair(key@, opt_view(*value)),
{
    let ghost q0 = query@;
    match value {
        Some(v) => {
            query.push((owned(key), owned(v.as_str())));
        },
        None => {},
    }
    assert(query_view(query@) =~= query_view(q0) + opt_pair(key@, opt_view(*value)));
}

/// Appends the object member `key` with a string value.
pub fn push_member(members: &mut Vec<(String, JsonValue)>, key: &str, value: &str)
    ensures
        members_view(final(members)@) == members_view(old(members)@).push((key@, JsonView::Str(value@))),
{
    let ghost m0 = members@;
    members.push((owned(key), JsonValue::Str(owned(value))));
    assert(members_view(members@) =~= members_view(m0).push((key@, JsonView::Str(value@))));
}

/// Appends the object member `key` with a string value, when a value is given.
pub fn push_opt_member(members: &mut Vec<(String, JsonValue)>, key: &str, value: &Option<String>)
    ensures
        members_view(final(members)@) == members_view(old(members)@) + opt_member(key@, opt_view(*value)),
{
    let ghost m0 = members@;
    match value {
        Some(v) => {
            push_member(members, key, v.as_str());
        },
        None => {},
    }
    assert(members_view(members@) =~= members_view(m0) + opt_member(key@, opt_view(*value)));
}

/// Appends the object member `key` with any value.
pub fn push_value(members: &mut Vec<(String, JsonValue)>, key: &str, value: JsonValue)
    ensures
        members_view(final(members)@) == members_view(old(members)@).push((key@, json_view(value))),
{
    let ghost m0 = members@;
    members.push((owned(key), value));
    assert(members_view(members@) =~= members_view(m0).push((key@, json_view(value))));
}

/// The object with these members, in this order.
pub fn json_object(members: Vec<(String, JsonValue)>) -> (r: JsonValue)
    ensures
        json_view(r) == JsonView::Object(members_view(members@)),
{
    let r = JsonValue::Object(members);
    proof { lemma_object_members(r); }
    r
}

} // verus!
