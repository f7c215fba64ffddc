//! `gateway`: the protocol gateways, their clients, authentication and listeners.
use vstd::prelude::*;
use crate::cli::PaginationArgs;
use crate::columns::ColumnSet;
use crate::json::{JsonValue, JsonView, members_view};
use crate::plan::{BodyView, CommandPlan, HttpMethod, MethodView, PlanView, RequestBody, get_value, get_value_view};
use crate::text::{owned, concat2, concat3};
use crate::commands::{
    list_view, upsert_view, delete_view, confirm_view, paged_view, list_all, handle_create_or_update,
    handle_delete, paged_list, push_value, json_object, send_and_confirm,
};

verus! {

/// A `gateway` command.
pub enum GatewayCommand {
    List,
    Get { name: String },
    Enable { name: String },
    Disable { name: String },
    /// Replace the configuration of a gateway from a file.
    Update { name: String, file: String },
    /// Manage the clients of a gateway.
    Clients { name: String, command: GatewayClientCommand },
    /// Manage the authentication of a gateway.
    Authn { name: String, command: GatewayAuthnCommand },
    /// Manage the listeners of a gateway.
    Listeners { name: String, command: GatewayListenerCommand },
}

/// A `gateway clients` command.
pub enum GatewayClientCommand {
    List { pagination: PaginationArgs },
    Get { clientid: String },
    Kick { clientid: String },
}

/// A `gateway authn` command.
pub enum GatewayAuthnCommand {
    List,
    Create { file: String },
    Update { file: String },
    Delete,
    /// Manage the users of the gateway's authenticator.
    Users { command: GatewayAuthnUsersCommand },
}

/// A `gateway authn users` command.
pub enum GatewayAuthnUsersCommand {
    List { pagination: PaginationArgs },
    Create { file: String },
}

/// A `gateway listeners` command.
pub enum GatewayListenerCommand {
    List,
    Get { id: String },
    Create { file: String },
    Update { id: String, file: String },
    Delete { id: String },
}

/// What a `gateway clients` command does on the client collection at `base`.
pub open spec fn gateway_client_plan(base: Seq<char>, cmd: GatewayClientCommand) -> PlanView {
    match cmd {
        GatewayClientCommand::List { pagination } => paged_view(
            base,
            Seq::empty(),
            pagination,
            ColumnSet::GatewayClients,
            None,
        ),
        GatewayClientCommand::Get { clientid } => get_value_view(base + "/"@ + clientid@),
        GatewayClientCommand::Kick { clientid } => delete_view(
            base + "/"@ + clientid@,
            "Gateway client '"@ + clientid@ + "' kicked"@,
        ),
    }
}

/// What a `gateway authn users` command does on the user collection at `base`.
pub open spec fn gateway_users_plan(base: Seq<char>, cmd: GatewayAuthnUsersCommand) -> PlanView {
    match cmd {
        GatewayAuthnUsersCommand::List { pagination } => paged_view(
            base,
            Seq::empty(),
            pagination,
            ColumnSet::GatewayUsers,
            None,
        ),
        GatewayAuthnUsersCommand::Create { file } => upsert_view(
            MethodView::Post,
            base,
            file@,
            "Gateway auth user created"@,
        ),
    }
}

/// What a `gateway authn` command does on the authenticator at `base`.
pub open spec fn gateway_authn_plan(base: Seq<char>, cmd: GatewayAuthnCommand) -> PlanView {
    match cmd {
        GatewayAuthnCommand::List => get_value_view(base),
        GatewayAuthnCommand::Create { file } => upsert_view(
            MethodView::Post,
            base,
            file@,
            "Gateway authenticator created"@,
        ),
        GatewayAuthnCommand::Update { file } => upsert_view(
            MethodView::Put,
            base,
            file@,
            "Gateway authenticator updated"@,
        ),
        GatewayAuthnCommand::Delete => delete_view(base, "Gateway authenticator deleted"@),
        GatewayAuthnCommand::Users { command } => gateway_users_plan(base + "/users"@, command),
    }
}

/// What a `gateway listeners` command does on the listener collection at `base`.
pub open spec fn gateway_listener_plan(base: Seq<char>, cmd: GatewayListenerCommand) -> PlanView {
    match cmd {
        GatewayListenerCommand::List => list_view(base, ColumnSet::GatewayListeners),
        GatewayListenerCommand::Get { id } => get_value_view(base + "/"@ + id@),
        GatewayListenerCommand::Create { file } => upsert_view(
            MethodView::Post,
            base,
            file@,
            "Gateway listener created"@,
        ),
        GatewayListenerCommand::Update { id, file } => upsert_view(
            MethodView::Put,
            base + "/"@ + id@,
            file@,
            "Gateway listener updated"@,
        ),
        GatewayListenerCommand::Delete { id } => delete_view(
            base + "/"@ + id@,
            "Gateway listener '"@ + id@ + "' deleted"@,
        ),
    }
}

/// The body that enables or disables a gateway.
pub open spec fn enable_body(enable: bool) -> BodyView {
    BodyView::Json(JsonView::Object(seq![("enable"@, JsonView::Bool(enable))]))
}

/// What a `gateway` command does.
pub open spec fn gateway_plan(cmd: GatewayCommand) -> PlanView {
    match cmd {
        GatewayCommand::List => list_view("/gateways"@, ColumnSet::GatewayList),
        GatewayCommand::Get { name } => get_value_view("/gateways/"@ + name@),
        GatewayCommand::Enable { name } => confirm_view(
            MethodView::Put,
            "/gateways/"@ + name@,
            enable_body(true),
            "Gateway '"@ + name@ + "' enabled"@,
        ),
        GatewayCommand::Disable { name } => confirm_view(
            MethodView::Put,
            "/gateways/"@ + name@,
            enable_body(false),
            "Gateway '"@ + name@ + "' disabled"@,
        ),
        GatewayCommand::Update { name, file } => upsert_view(
            MethodView::Put,
            "/gateways/"@ + name@,
            file@,
            "Gateway '"@ + name@ + "' updated"@,
        ),
        GatewayCommand::Clients { name, command } => gateway_client_plan(
            "/gateways/"@ + name@ + "/clients"@,
            command,
        ),
        GatewayCommand::Authn { name, command } => gateway_authn_plan(
            "/gateways/"@ + name@ + "/authentication"@,
            command,
        ),
        GatewayCommand::Listeners { name, command } => gateway_listener_plan(
            "/gateways/"@ + name@ + "/listeners"@,
            command,
        ),
    }
}

/// `PUT` of `{"enable": enable}` to a gateway, then the confirmation `msg`.
fn set_enabled(path: String, enable: bool, msg: String) -> (r: CommandPlan)
    ensures
        r@ == confirm_view(MethodView::Put, path@, enable_body(enable), msg@),
{
    let mut m: Vec<(String, JsonValue)> = Vec::new();
    push_value(&mut m, "enable", JsonValue::Bool(enable));
    assert(members_view(m@) =~= seq![("enable"@, JsonView::Bool(enable))]);
    let body = json_object(m);
    send_and_confirm(HttpMethod::Put, path, RequestBody::Json(body), msg)
}

impl GatewayClientCommand {
    /// The plan of this command on the client collection at `base`.
    pub fn plan(&self, base: &str) -> (r: CommandPlan)
        ensures
            r@ == gateway_client_plan(base@, *self),
    {
        match self {
            GatewayClientCommand::List { pagination } => paged_list(owned(base), *pagination, ColumnSet::GatewayClients),
            GatewayClientCommand::Get { clientid } => get_value(concat3(base, "/", clientid.as_str())),
            GatewayClientCommand::Kick { clientid } => handle_delete(
                concat3(base, "/", clientid.as_str()),
                concat3("Gateway client '", clientid.as_str(), "' kicked"),
            ),
        }
    }
}

impl GatewayAuthnUsersCommand {
    /// The plan of this command on the user collection at `base`.
    pub fn plan(&self, base: &str) -> (r: CommandPlan)
        ensures
            r@ == gateway_users_plan(base@, *self),
    {
        match self {
            GatewayAuthnUsersCommand::List { pagination } => paged_list(owned(base), *pagination, ColumnSet::GatewayUsers),
            GatewayAuthnUsersCommand::Create { file } => handle_create_or_update(
                HttpMethod::Post,
                owned(base),
                file.clone(),
                owned("Gateway auth user created"),
            ),
        }
    }
}

impl GatewayAuthnCommand {
    /// The plan of this command on the authenticator at `base`.
    pub fn plan(&self, base: &str) -> (r: CommandPlan)
        ensures
            r@ == gateway_authn_plan(base@, *self),
    {
        match self {
            GatewayAuthnCommand::List => get_value(owned(base)),
            GatewayAuthnCommand::Create { file } => handle_create_or_update(
                HttpMethod::Post,
                owned(base),
                file.clone(),
                owned("Gateway authenticator created"),
            ),
            GatewayAuthnCommand::Update { file } => handle_create_or_update(
                HttpMethod::Put,
                owned(base),
                file.clone(),
                owned("Gateway authenticator updated"),
            ),
            GatewayAuthnCommand::Delete => handle_delete(owned(base), owned("Gateway authenticator deleted")),
            GatewayAuthnCommand::Users { command } => {
                let users_base = concat2(base, "/users");
                command.plan(users_base.as_str())
            },
        }
    }
}

impl GatewayListenerCommand {
    /// The plan of this command on the listener collection at `base`.
    pub fn plan(&self, base: &str) -> (r: CommandPlan)
        ensures
            r@ == gateway_listener_plan(base@, *self),
    {
        match self {
            GatewayListenerCommand::List => list_all(owned(base), ColumnSet::GatewayListeners),
            GatewayListenerCommand::Get { id } => get_value(concat3(base, "/", id.as_str())),
            GatewayListenerCommand::Create { file } => handle_create_or_update(
                HttpMethod::Post,
                owned(base),
                file.clone(),
                owned("Gateway listener created"),
            ),
            GatewayListenerCommand::Update { id, file } => handle_create_or_update(
                HttpMethod::Put,
                concat3(base, "/", id.as_str()),
                file.clone(),
                owned("Gateway listener updated"),
            ),
            GatewayListenerCommand::Delete { id } => handle_delete(
                concat3(base, "/", id.as_str()),
                concat3("Gateway listener '", id.as_str(), "' deleted"),
            ),
        }
    }
}

impl GatewayCommand {
    /// The plan of this command.
    pub fn plan(&self) -> (r: CommandPlan)
        ensures
            r@ == gateway_plan(*self),
    {
        match self {
            GatewayCommand::List => list_all(owned("/gateways"), ColumnSet::GatewayList),
            GatewayCommand::Get { name } => get_value(concat2("/gateways/", name.as_str())),
            GatewayCommand::Enable { name } => set_enabled(
                concat2("/gateways/", name.as_str()),
                true,
                concat3("Gateway '", name.as_str(), "' enabled"),
            ),
            GatewayCommand::Disable { name } => set_enabled(
                concat2("/gateways/", name.as_str()),
                false,
                concat3("Gateway '", name.as_str(), "' disabled"),
            ),
            GatewayCommand::Update { name, file } => handle_create_or_update(
                HttpMethod::Put,
                concat2("/gateways/", name.as_str()),
                file.clone(),
                concat3("Gateway '", name.as_str(), "' updated"),
            ),
            GatewayCommand::Clients { name, command } => {
                let base = concat3("/gateways/", name.as_str(), "/clients");
                command.plan(base.as_str())
            },
            GatewayCommand::Authn { name, command } => {
                let base = concat3("/gateways/", name.as_str(), "/authentication");
                command.plan(base.as_str())
            },
            GatewayCommand::Listeners { name, command } => {
                let base = concat3("/gateways/", name.as_str(), "/listeners");
                command.plan(base.as_str())
            },
        }
    }
}

} // verus!
