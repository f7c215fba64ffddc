//! `apikey`: the API keys of the management interface.
use vstd::prelude::*;
use crate::columns::ColumnSet;
use crate::json::{JsonValue, JsonView, members_view};
use crate::plan::{BodyView, CommandPlan, HttpMethod, MethodView, PlanView, Render, RenderView, RequestBody, call, call_view};
use crate::text::{owned, concat2, concat3};
use crate::commands::{
    list_view, item_view, upsert_view, delete_view, opt_member, opt_view, list_all, handle_get,
    handle_create_or_update, handle_delete, push_member, push_opt_member, json_object,
};

verus! {

/// An `apikey` command.
pub enum ApikeyCommand {
    List,
    Get { name: String },
    Create { name: String, expired_at: Option<String>, role: Option<String> },
    Update { name: String, file: String },
    Delete { name: String },
}

/// The body that creates an API key.
pub open spec fn apikey_create_body(name: Seq<char>, expired_at: Option<Seq<char>>, role: Option<Seq<char>>) -> JsonView {
    JsonView::Object(
        opt_member("expired_at"@, expired_at) + seq![("name"@, JsonView::Str(name))] + opt_member("role"@, role),
    )
}

/// What an `apikey` command does.
pub open spec fn apikey_plan(cmd: ApikeyCommand) -> PlanView {
    match cmd {
        ApikeyCommand::List => list_view("/api_key"@, ColumnSet::ApikeyList),
        ApikeyCommand::Get { name } => item_view("/api_key/"@ + name@, ColumnSet::ApikeyList),
        ApikeyCommand::Create { name, expired_at, role } => call_view(
            MethodView::Post,
            "/api_key"@,
            BodyView::Json(apikey_create_body(name@, opt_view(expired_at), opt_view(role))),
            RenderView::Value,
        ),
        ApikeyCommand::Update { name, file } => upsert_view(
            MethodView::Put,
            "/api_key/"@ + name@,
            file@,
            "API key '"@ + name@ + "' updated"@,
        ),
        ApikeyCommand::Delete { name } => delete_view("/api_key/"@ + name@, "API key '"@ + name@ + "' deleted"@),
    }
}

impl ApikeyCommand {
    /// The plan of this command.
    pub fn plan(&self) -> (r: CommandPlan)
        ensures
            r@ == apikey_plan(*self),
    {
        match self {
            ApikeyCommand::List => list_all(owned("/api_key"), ColumnSet::ApikeyList),
            ApikeyCommand::Get { name } => handle_get(concat2("/api_key/", name.as_str()), ColumnSet::ApikeyList),
            ApikeyCommand::Create { name, expired_at, role } => {
                let mut m: Vec<(String, JsonValue)> = Vec::new();
                push_opt_member(&mut m, "expired_at", expired_at);
                push_member(&mut m, "name", name.as_str());
                push_opt_member(&mut m, "role", role);
                assert(members_view(m@) =~= apikey_create_body(name@, opt_view(*expired_at), opt_view(*role))->Object_0);
                let body = json_object(m);
                call(HttpMethod::Post, owned("/api_key"), RequestBody::Json(body), Render::Value)
            },
            ApikeyCommand::Update { name, file } => handle_create_or_update(
                HttpMethod::Put,
                concat2("/api_key/", name.as_str()),
                file.clone(),
                concat3("API key '", name.as_str(), "' updated"),
            ),
            ApikeyCommand::Delete { name } => handle_delete(
                concat2("/api_key/", name.as_str()),
                concat3("API key '", name.as_str(), "' deleted"),
            ),
        }
    }
}

} // verus!
