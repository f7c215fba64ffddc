//! `plugin`: the broker plugins.
use vstd::prelude::*;
use crate::columns::ColumnSet;
use crate::plan::{CommandPlan, HttpMethod, MethodView, PlanView, get_value, get_value_view};
use crate::text::{owned, concat2, concat3};
use crate::commands::{
    list_view, upsert_view, delete_view, put_null_view, list_all, handle_create_or_update,
    handle_delete, put_null,
};

verus! {

/// A `plugin` command.
pub enum PluginCommand {
    List,
    Get { name: String },
    /// Install a plugin package from a file.
    Install { file: String },
    Uninstall { name: String },
    Start { name: String },
    Stop { name: String },
    /// Show the configuration of a plugin, or replace it from a file.
    Config { name: String, file: Option<String> },
    Reorder { file: String },
}

/// What a `plugin` command does.
pub open spec fn plugin_plan(cmd: PluginCommand) -> PlanView {
    match cmd {
        PluginCommand::List => list_view("/plugins"@, ColumnSet::PluginList),
        PluginCommand::Get { name } => get_value_view("/plugins/"@ + name@),
        PluginCommand::Install { file } => PlanView::Upload {
            path: "/plugins/install"@,
            file: file@,
            success: "Plugin installed"@,
        },
        PluginCommand::Uninstall { name } => delete_view(
            "/plugins/"@ + name@,
            "Plugin '"@ + name@ + "' uninstalled"@,
        ),
        PluginCommand::Start { name } => put_null_view(
            "/plugins/"@ + name@ + "/start"@,
            "Plugin '"@ + name@ + "' started"@,
        ),
        PluginCommand::Stop { name } => put_null_view(
            "/plugins/"@ + name@ + "/stop"@,
            "Plugin '"@ + name@ + "' stopped"@,
        ),
        PluginCommand::Config { name, file } => match file {
            Some(f) => upsert_view(
                MethodView::Put,
                "/plugins/"@ + name@ + "/config"@,
                f@,
                "Plugin '"@ + name@ + "' config updated"@,
            ),
            None => get_value_view("/plugins/"@ + name@ + "/config"@),
        },
        PluginCommand::Reorder { file } => upsert_view(
            MethodView::Post,
            "/plugins/order"@,
            file@,
            "Plugin order updated"@,
        ),
    }
}

impl PluginCommand {
    /// The plan of this command.
    pub fn plan(&self) -> (r: CommandPlan)
        ensures
            r@ == plugin_plan(*self),
    {
        match self {
            PluginCommand::List => list_all(owned("/plugins"), ColumnSet::PluginList),
            PluginCommand::Get { name } => get_value(concat2("/plugins/", name.as_str())),
            PluginCommand::Install { file } => CommandPlan::Upload {
                path: owned("/plugins/install"),
                file: file.clone(),
                success: owned("Plugin installed"),
            },
            PluginCommand::Uninstall { name } => handle_delete(
                concat2("/plugins/", name.as_str()),
                concat3("Plugin '", name.as_str(), "' uninstalled"),
            ),
            PluginCommand::Start { name } => put_null(
                concat3("/plugins/", name.as_str(), "/start"),
                concat3("Plugin '", name.as_str(), "' started"),
            ),
            PluginCommand::Stop { name } => put_null(
                concat3("/plugins/", name.as_str(), "/stop"),
                concat3("Plugin '", name.as_str(), "' stopped"),
            ),
            PluginCommand::Config { name, file } => match file {
                Some(f) => handle_create_or_update(
                    HttpMethod::Put,
                    concat3("/plugins/", name.as_str(), "/config"),
                    f.clone(),
                    concat3("Plugin '", name.as_str(), "' config updated"),
                ),
                None => get_value(concat3("/plugins/", name.as_str(), "/config")),
            },
            PluginCommand::Reorder { file } => handle_create_or_update(
                HttpMethod::Post,
                owned("/plugins/order"),
                file.clone(),
                owned("Plugin order updated"),
            ),
        }
    }
}

} // verus!
