//! `config`: the local connection profiles, and the remote broker configuration.
use vstd::prelude::*;
use crate::config::{Config, ContextConfig, lists_contexts, use_context_missing_message, delete_context_missing_message};
use crate::error::AppError;
use crate::plan::{CommandPlan, HttpMethod, MethodView, PlanView, get_value, get_value_view};
use crate::text::{owned, concat2, concat3};
use crate::commands::{upsert_view, post_empty_view, clone_opt, handle_create_or_update, post_empty};

verus! {

/// A `config` command.
pub enum ConfigCommand {
    /// Store a context, making it current when there is none.
    SetContext {
        name: String,
        url: String,
        api_key: Option<String>,
        api_secret: Option<String>,
        username: Option<String>,
        password: Option<String>,
    },
    /// Make a context the current one.
    UseContext { name: String },
    /// List the contexts.
    GetContexts,
    /// Show the current context.
    CurrentContext,
    /// Remove a context.
    DeleteContext { name: String },
    /// Show the broker configuration, or one root key of it.
    Get { root_key: Option<String> },
    /// Replace one root key of the broker configuration from a file.
    Update { root_key: String, file: String },
    /// Reset one root key of the broker configuration.
    Reset { root_key: String },
    /// Show the global zone configuration.
    Global,
}

/// What a local `config` command did, for the front end to report (and save, where it changed
/// the configuration).
#[derive(Debug, PartialEq)]
pub enum LocalOutcome {
    /// The context of this name was stored.
    ContextSet(String),
    /// The context of this name became the current one.
    ContextSwitched(String),
    /// The context of this name was removed.
    ContextDeleted(String),
    /// These lines are to be printed.
    Lines(Vec<String>),
}

/// The commands that work on the configuration file alone, without the server.
pub open spec fn is_local(cmd: ConfigCommand) -> bool {
    match cmd {
        ConfigCommand::SetContext { .. } | ConfigCommand::UseContext { .. } | ConfigCommand::GetContexts
        | ConfigCommand::CurrentContext | ConfigCommand::DeleteContext { .. } => true,
        _ => false,
    }
}

/// What a remote `config` command does; nothing for a local one.
pub open spec fn config_remote_plan(cmd: ConfigCommand) -> Option<PlanView> {
    match cmd {
        ConfigCommand::Get { root_key } => Some(
            match root_key {
                Some(k) => get_value_view("/configs/"@ + k@),
                None => get_value_view("/configs"@),
            },
        ),
        ConfigCommand::Update { root_key, file } => Some(
            upsert_view(MethodView::Put, "/configs/"@ + root_key@, file@, "Config '"@ + root_key@ + "' updated"@),
        ),
        ConfigCommand::Reset { root_key } => Some(
            post_empty_view("/configs/"@ + root_key@ + "/reset"@, "Config '"@ + root_key@ + "' reset"@),
        ),
        ConfigCommand::Global => Some(get_value_view("/configs/global_zone"@)),
        _ => None,
    }
}

/// Whether this command works on the configuration file alone, without the server.
pub fn is_local_command(cmd: &ConfigCommand) -> (r: bool)
    ensures
        r == is_local(*cmd),
{
    match cmd {
        ConfigCommand::SetContext { .. } | ConfigCommand::UseContext { .. } | ConfigCommand::GetContexts
        | ConfigCommand::CurrentContext | ConfigCommand::DeleteContext { .. } => true,
        _ => false,
    }
}

impl ConfigCommand {
    /// The plan of a remote command; nothing for a local one.
    pub fn remote_plan(&self) -> (r: Option<CommandPlan>)
        ensures
            r is Some <==> !is_local(*self),
            r is Some ==> r->0@ == config_remote_plan(*self)->0,
    {
        match self {
            ConfigCommand::Get { root_key } => Some(
                match root_key {
                    Some(k) => get_value(concat2("/configs/", k.as_str())),
                    None => get_value(owned("/configs")),
                },
            ),
            ConfigCommand::Update { root_key, file } => Some(
                handle_create_or_update(
                    HttpMethod::Put,
                    concat2("/configs/", root_key.as_str()),
                    file.clone(),
                    concat3("Config '", root_key.as_str(), "' updated"),
                ),
            ),
            ConfigCommand::Reset { root_key } => Some(
                post_empty(
                    concat3("/configs/", root_key.as_str(), "/reset"),
                    concat3("Config '", root_key.as_str(), "' reset"),
                ),
            ),
            ConfigCommand::Global => Some(get_value(owned("/configs/global_zone"))),
            _ => None,
        }
    }

    /// Carries out a local command on the configuration: what `set-context`, `use-context`,
    /// `get-contexts`, `current-context` and `delete-context` do to it and report.
    pub fn execute_local(&self, config: &mut Config) -> (r: Result<LocalOutcome, AppError>)
        requires
            is_local(*self),
            old(config).wf(),
        ensures
            final(config).wf(),
            match *self {
                ConfigCommand::SetContext { name, url, api_key, api_secret, username, password } => {
                    &&& r == Ok::<LocalOutcome, AppError>(LocalOutcome::ContextSet(name))
                    &&& final(config).context_map() == old(config).context_map().insert(
                        name@,
                        ContextConfig { url, api_key, api_secret, username, password },
                    )
                    &&& final(config).current_context == match old(config).current_context {
                        Some(c) => Some(c),
                        None => Some(name),
                    }
                },
                ConfigCommand::UseContext { name } => {
                    &&& final(config).context_map() == old(config).context_map()
                    &&& if old(config).context_map().contains_key(name@) {
                        &&& r == Ok::<LocalOutcome, AppError>(LocalOutcome::ContextSwitched(name))
                        &&& final(config).current_name() == Some(name@)
                    } else {
                        &&& r is Err && r->Err_0 is Other
                        &&& r->Err_0->Other_0@ == use_context_missing_message(name@)
                        &&& final(config).current_context == old(config).current_context
                    }
                },
                ConfigCommand::GetContexts => {
                    &&& *final(config) == *old(config)
                    &&& r is Ok && r->Ok_0 is Lines
                    &&& lists_contexts(*old(config), r->Ok_0->Lines_0@)
                },
                ConfigCommand::CurrentContext => {
                    &&& *final(config) == *old(config)
                    &&& r is Ok && r->Ok_0 is Lines
                    &&& r->Ok_0->Lines_0@.len() == 1
                    &&& r->Ok_0->Lines_0@[0]@ == match old(config).current_context {
                        Some(c) => c@,
                        None => "No current context set."@,
                    }
                },
                ConfigCommand::DeleteContext { name } => {
                    &&& final(config).context_map() == old(config).context_map().remove(name@)
                    &&& if old(config).context_map().contains_key(name@) {
                        &&& r == Ok::<LocalOutcome, AppError>(LocalOutcome::ContextDeleted(name))
                        &&& final(config).current_name() == if old(config).current_name() == Some(name@) {
                            None
                        } else {
                            old(config).current_name()
                        }
                    } else {
                        &&& r is Err && r->Err_0 is Other
                        &&& r->Err_0->Other_0@ == delete_context_missing_message(name@)
                        &&& final(config).current_context == old(config).current_context
                    }
                },
                _ => true,
            },
    {
        match self {
            ConfigCommand::SetContext { name, url, api_key, api_secret, username, password } => {
                let ctx = ContextConfig {
                    url: url.clone(),
                    api_key: clone_opt(api_key),
                    api_secret: clone_opt(api_secret),
                    username: clone_opt(username),
                    password: clone_opt(password),
                };
                config.set_context(name.clone(), ctx);
                Ok(LocalOutcome::ContextSet(name.clone()))
            },
            ConfigCommand::UseContext { name } => {
                match config.use_context(name.as_str()) {
                    Ok(()) => Ok(LocalOutcome::ContextSwitched(name.clone())),
                    Err(e) => Err(e),
                }
            },
            ConfigCommand::GetContexts => Ok(LocalOutcome::Lines(config.context_lines())),
            ConfigCommand::CurrentContext => {
                let mut lines: Vec<String> = Vec::new();
                lines.push(config.current_context_line());
                Ok(LocalOutcome::Lines(lines))
            },
            ConfigCommand::DeleteContext { name } => {
                match config.delete_context(name.as_str()) {
                    Ok(()) => Ok(LocalOutcome::ContextDeleted(name.clone())),
                    Err(e) => Err(e),
                }
            },
            _ => {
                assert(false);
                Ok(LocalOutcome::Lines(Vec::new()))
            },
        }
    }
}

} // verus!
