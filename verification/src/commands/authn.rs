//! `authn`: the authenticators and their built-in user databases.
use vstd::prelude::*;
use crate::cli::PaginationArgs;
use crate::client::query_view;
use crate::columns::ColumnSet;
use crate::plan::{CommandPlan, HttpMethod, MethodView, PlanView};
use crate::text::{owned, concat2, concat3};
use crate::commands::{
    list_view, item_view, upsert_view, delete_view, paged_view, list_all, handle_get,
    handle_create_or_update, handle_delete, handle_paginated_list,
};

verus! {

/// An `authn` command.
pub enum AuthnCommand {
    List,
    Get { id: String },
    Create { file: String },
    Update { id: String, file: String },
    Delete { id: String },
    Reorder { file: String },
    /// Manage the users of authenticator `id`.
    Users { id: String, command: AuthnUsersCommand },
    /// Import users into authenticator `id` from a file.
    Import { id: String, file: String },
}

/// An `authn users` command.
pub enum AuthnUsersCommand {
    List { pagination: PaginationArgs },
    Get { userid: String },
    Create { file: String },
    Update { userid: String, file: String },
    Delete { userid: String },
}

/// What an `authn users` command does on the user collection at `base`.
pub open spec fn authn_users_plan(base: Seq<char>, cmd: AuthnUsersCommand) -> PlanView {
    match cmd {
        AuthnUsersCommand::List { pagination } => paged_view(base, Seq::empty(), pagination, ColumnSet::AuthnUsers, None),
        AuthnUsersCommand::Get { userid } => item_view(base + "/"@ + userid@, ColumnSet::AuthnUsers),
        AuthnUsersCommand::Create { file } => upsert_view(MethodView::Post, base, file@, "User created"@),
        AuthnUsersCommand::Update { userid, file } => upsert_view(
            MethodView::Put,
            base + "/"@ + userid@,
            file@,
            "User updated"@,
        ),
        AuthnUsersCommand::Delete { userid } => delete_view(base + "/"@ + userid@, "User '"@ + userid@ + "' deleted"@),
    }
}

/// What an `authn` command does.
pub open spec fn authn_plan(cmd: AuthnCommand) -> PlanView {
    match cmd {
        AuthnCommand::List => list_view("/authentication"@, ColumnSet::AuthnList),
        AuthnCommand::Get { id } => item_view("/authentication/"@ + id@, ColumnSet::AuthnList),
        AuthnCommand::Create { file } => upsert_view(MethodView::Post, "/authentication"@, file@, "Authenticator created"@),
        AuthnCommand::Update { id, file } => upsert_view(
            MethodView::Put,
            "/authentication/"@ + id@,
            file@,
            "Authenticator updated"@,
        ),
        AuthnCommand::Delete { id } => delete_view(
            "/authentication/"@ + id@,
            "Authenticator '"@ + id@ + "' deleted"@,
        ),
        AuthnCommand::Reorder { file } => upsert_view(
            MethodView::Post,
            "/authentication/order"@,
            file@,
            "Authentication order updated"@,
        ),
        AuthnCommand::Users { id, command } => authn_users_plan("/authentication/"@ + id@ + "/users"@, command),
        AuthnCommand::Import { id, file } => PlanView::Upload {
            path: "/authentication/"@ + id@ + "/import_users"@,
            file: file@,
            success: "Users imported"@,
        },
    }
}

impl AuthnUsersCommand {
    /// The plan of this command on the user collection at `base`.
    pub fn plan(&self, base: &str) -> (r: CommandPlan)
        ensures
            r@ == authn_users_plan(base@, *self),
    {
        match self {
            AuthnUsersCommand::List { pagination } => {
                let query: Vec<(String, String)> = Vec::new();
                assert(query_view(query@) =~= Seq::<(Seq<char>, Seq<char>)>::empty());
                handle_paginated_list(owned(base), query, *pagination, ColumnSet::AuthnUsers, None)
            },
            AuthnUsersCommand::Get { userid } => handle_get(concat3(base, "/", userid.as_str()), ColumnSet::AuthnUsers),
            AuthnUsersCommand::Create { file } => handle_create_or_update(
                HttpMethod::Post,
                owned(base),
                file.clone(),
                owned("User created"),
            ),
            AuthnUsersCommand::Update { userid, file } => handle_create_or_update(
                HttpMethod::Put,
                concat3(base, "/", userid.as_str()),
                file.clone(),
                owned("User updated"),
            ),
            AuthnUsersCommand::Delete { userid } => handle_delete(
                concat3(base, "/", userid.as_str()),
                concat3("User '", userid.as_str(), "' deleted"),
            ),
        }
    }
}

impl AuthnCommand {
    /// The plan of this command.
    pub fn plan(&self) -> (r: CommandPlan)
        ensures
            r@ == authn_plan(*self),
    {
        match self {
            AuthnCommand::List => list_all(owned("/authentication"), ColumnSet::AuthnList),
            AuthnCommand::Get { id } => handle_get(concat2("/authentication/", id.as_str()), ColumnSet::AuthnList),
            AuthnCommand::Create { file } => handle_create_or_update(
                HttpMethod::Post,
                owned("/authentication"),
                file.clone(),
                owned("Authenticator created"),
            ),
            AuthnCommand::Update { id, file } => handle_create_or_update(
                HttpMethod::Put,
                concat2("/authentication/", id.as_str()),
                file.clone(),
                owned("Authenticator updated"),
            ),
            AuthnCommand::Delete { id } => handle_delete(
                concat2("/authentication/", id.as_str()),
                concat3("Authenticator '", id.as_str(), "' deleted"),
            ),
            AuthnCommand::Reorder { file } => handle_create_or_update(
                HttpMethod::Post,
                owned("/authentication/order"),
                file.clone(),
                owned("Authentication order updated"),
            ),
            AuthnCommand::Users { id, command } => {
                let base = concat3("/authentication/", id.as_str(), "/users");
                command.plan(base.as_str())
            },
            AuthnCommand::Import { id, file } => CommandPlan::Upload {
                path: concat3("/authentication/", id.as_str(), "/import_users"),
                file: file.clone(),
                success: owned("Users imported"),
            },
        }
    }
}

} // verus!
