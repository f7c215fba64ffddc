//! `authz`: the authorization sources and cache.
use vstd::prelude::*;
use crate::columns::ColumnSet;
use crate::plan::{CommandPlan, HttpMethod, MethodView, PlanView};
use crate::text::{owned, concat2, concat3};
use crate::commands::{
    list_view, item_view, upsert_view, delete_view, list_all, handle_get, handle_create_or_update,
    handle_delete,
};

verus! {

/// An `authz` command.
pub enum AuthzCommand {
    List,
    Get { authz_type: String },
    Create { file: String },
    Update { authz_type: String, file: String },
    Delete { authz_type: String },
    Reorder { file: String },
    /// Clean the authorization cache of one client, or of all.
    CacheClean { clientid: Option<String> },
}

/// What an `authz` command does.
pub open spec fn authz_plan(cmd: AuthzCommand) -> PlanView {
    match cmd {
        AuthzCommand::List => list_view("/authorization/sources"@, ColumnSet::AuthzList),
        AuthzCommand::Get { authz_type } => item_view("/authorization/sources/"@ + authz_type@, ColumnSet::AuthzList),
        AuthzCommand::Create { file } => upsert_view(
            MethodView::Post,
            "/authorization/sources"@,
            file@,
            "Authorization source created"@,
        ),
        AuthzCommand::Update { authz_type, file } => upsert_view(
            MethodView::Put,
            "/authorization/sources/"@ + authz_type@,
            file@,
            "Authorization source updated"@,
        ),
        AuthzCommand::Delete { authz_type } => delete_view(
            "/authorization/sources/"@ + authz_type@,
            "Authorization source '"@ + authz_type@ + "' deleted"@,
        ),
        AuthzCommand::Reorder { file } => upsert_view(
            MethodView::Post,
            "/authorization/sources/order"@,
            file@,
            "Authorization order updated"@,
        ),
        AuthzCommand::CacheClean { clientid } => match clientid {
            Some(cid) => delete_view(
                "/authorization/cache/"@ + cid@,
                "Authorization cache cleaned for client '"@ + cid@ + "'"@,
            ),
            None => delete_view("/authorization/cache"@, "Authorization cache cleaned"@),
        },
    }
}

impl AuthzCommand {
    /// The plan of this command.
    pub fn plan(&self) -> (r: CommandPlan)
        ensures
            r@ == authz_plan(*self),
    {
        match self {
            AuthzCommand::List => list_all(owned("/authorization/sources"), ColumnSet::AuthzList),
            AuthzCommand::Get { authz_type } => handle_get(
                concat2("/authorization/sources/", authz_type.as_str()),
                ColumnSet::AuthzList,
            ),
            AuthzCommand::Create { file } => handle_create_or_update(
                HttpMethod::Post,
                owned("/authorization/sources"),
                file.clone(),
                owned("Authorization source created"),
            ),
            AuthzCommand::Update { authz_type, file } => handle_create_or_update(
                HttpMethod::Put,
                concat2("/authorization/sources/", authz_type.as_str()),
                file.clone(),
                owned("Authorization source updated"),
            ),
            AuthzCommand::Delete { authz_type } => handle_delete(
                concat2("/authorization/sources/", authz_type.as_str()),
                concat3("Authorization source '", authz_type.as_str(), "' deleted"),
            ),
            AuthzCommand::Reorder { file } => handle_create_or_update(
                HttpMethod::Post,
                owned("/authorization/sources/order"),
                file.clone(),
                owned("Authorization order updated"),
            ),
            AuthzCommand::CacheClean { clientid } => match clientid {
                Some(cid) => handle_delete(
                    concat2("/authorization/cache/", cid.as_str()),
                    concat3("Authorization cache cleaned for client '", cid.as_str(), "'"),
                ),
                None => handle_delete(owned("/authorization/cache"), owned("Authorization cache cleaned")),
            },
        }
    }
}

} // verus!
