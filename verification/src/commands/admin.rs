//! `admin`: the dashboard users.
use vstd::prelude::*;
use crate::columns::ColumnSet;
use crate::json::{JsonValue, JsonView, members_view};
use crate::plan::{BodyView, CommandPlan, HttpMethod, MethodView, PlanView, Render, RenderView, RequestBody, call, call_view};
use crate::text::{owned, concat2, concat3};
use crate::commands::{
    list_view, item_view, delete_view, confirm_view, opt_member, opt_view, list_all, handle_get,
    handle_delete, send_and_confirm, push_member, push_opt_member, json_object,
};

verus! {

/// An `admin` command.
pub enum AdminCommand {
    List,
    Get { username: String },
    Create { username: String, password: String, role: Option<String> },
    Update { username: String, role: String },
    Delete { username: String },
    ChangePassword { username: String, old_password: String, new_password: String },
}

/// The body that creates a dashboard user.
pub open spec fn admin_create_body(username: Seq<char>, password: Seq<char>, role: Option<Seq<char>>) -> JsonView {
    JsonView::Object(
        seq![("password"@, JsonView::Str(password))] + opt_member("role"@, role) + seq![
            ("username"@, JsonView::Str(username)),
        ],
    )
}

/// What an `admin` command does.
pub open spec fn admin_plan(cmd: AdminCommand) -> PlanView {
    match cmd {
        AdminCommand::List => list_view("/users"@, ColumnSet::AdminList),
        AdminCommand::Get { username } => item_view("/users/"@ + username@, ColumnSet::AdminList),
        AdminCommand::Create { username, password, role } => call_view(
            MethodView::Post,
            "/users"@,
            BodyView::Json(admin_create_body(username@, password@, opt_view(role))),
            RenderView::SuccessIfNull("User '"@ + username@ + "' created"@),
        ),
        AdminCommand::Update { username, role } => confirm_view(
            MethodView::Put,
            "/users/"@ + username@,
            BodyView::Json(JsonView::Object(seq![("role"@, JsonView::Str(role@))])),
            "User '"@ + username@ + "' updated"@,
        ),
        AdminCommand::Delete { username } => delete_view(
            "/users/"@ + username@,
            "User '"@ + username@ + "' deleted"@,
        ),
        AdminCommand::ChangePassword { username, old_password, new_password } => confirm_view(
            MethodView::Put,
            "/users/"@ + username@ + "/change_pwd"@,
            BodyView::Json(
                JsonView::Object(
                    seq![("new_pwd"@, JsonView::Str(new_password@)), ("old_pwd"@, JsonView::Str(old_password@))],
                ),
            ),
            "Password changed for '"@ + username@ + "'"@,
        ),
    }
}

impl AdminCommand {
    /// The plan of this command.
    pub fn plan(&self) -> (r: CommandPlan)
        ensures
            r@ == admin_plan(*self),
    {
        match self {
            AdminCommand::List => list_all(owned("/users"), ColumnSet::AdminList),
            AdminCommand::Get { username } => handle_get(concat2("/users/", username.as_str()), ColumnSet::AdminList),
            AdminCommand::Create { username, password, role } => {
                let mut m: Vec<(String, JsonValue)> = Vec::new();
                push_member(&mut m, "password", password.as_str());
                push_opt_member(&mut m, "role", role);
                push_member(&mut m, "username", username.as_str());
                assert(members_view(m@) =~= admin_create_body(username@, password@, opt_view(*role))->Object_0);
                let body = json_object(m);
                call(
                    HttpMethod::Post,
                    owned("/users"),
                    RequestBody::Json(body),
                    Render::SuccessIfNull(concat3("User '", username.as_str(), "' created")),
                )
            },
            AdminCommand::Update { username, role } => {
                let mut m: Vec<(String, JsonValue)> = Vec::new();
                push_member(&mut m, "role", role.as_str());
                assert(members_view(m@) =~= seq![("role"@, JsonView::Str(role@))]);
                let body = json_object(m);
                send_and_confirm(
                    HttpMethod::Put,
                    concat2("/users/", username.as_str()),
                    RequestBody::Json(body),
                    concat3("User '", username.as_str(), "' updated"),
                )
            },
            AdminCommand::Delete { username } => handle_delete(
                concat2("/users/", username.as_str()),
                concat3("User '", username.as_str(), "' deleted"),
            ),
            AdminCommand::ChangePassword { username, old_password, new_password } => {
                let mut m: Vec<(String, JsonValue)> = Vec::new();
                push_member(&mut m, "new_pwd", new_password.as_str());
                push_member(&mut m, "old_pwd", old_password.as_str());
                assert(members_view(m@) =~= seq![
                    ("new_pwd"@, JsonView::Str(new_password@)),
                    ("old_pwd"@, JsonView::Str(old_password@)),
                ]);
                let body = json_object(m);
                send_and_confirm(
                    HttpMethod::Put,
                    concat3("/users/", username.as_str(), "/change_pwd"),
                    RequestBody::Json(body),
                    concat3("Password changed for '", username.as_str(), "'"),
                )
            },
        }
    }
}

} // verus!
