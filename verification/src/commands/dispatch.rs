//! The command line as a whole: which command runs against the server with which plan, and
//! which works on the configuration file alone.
use vstd::prelude::*;
use crate::error::AppError;
use crate::plan::{CommandPlan, PlanView, get_value_view};
use crate::commands::opt_view;
use crate::commands::action::{ActionCommand, action_plan};
use crate::commands::admin::{AdminCommand, admin_plan};
use crate::commands::alarm::{AlarmCommand, alarm_plan};
use crate::commands::api::{ApiArgs, api_plan, invalid_method_message};
use crate::commands::apikey::{ApikeyCommand, apikey_plan};
use crate::commands::authn::{AuthnCommand, authn_plan};
use crate::commands::authz::{AuthzCommand, authz_plan};
use crate::commands::backup::{BackupCommand, backup_plan};
use crate::commands::ban::{BanCommand, ban_plan, ban_target_message};
use crate::commands::cert::{CertCommand, cert_plan};
use crate::commands::clients::{ClientCommand, client_plan};
use crate::commands::cluster::{ClusterCommand, cluster_plan};
use crate::commands::config_cmd::{ConfigCommand, is_local, config_remote_plan};
use crate::commands::connector::{ConnectorCommand, connector_plan};
use crate::commands::gateway::{GatewayCommand, gateway_plan};
use crate::commands::listener::{ListenerCommand, listener_plan};
use crate::commands::metrics::{metrics_plan, stats_plan, execute_metrics, execute_stats};
use crate::commands::node::{NodeCommand, node_plan};
use crate::commands::plugin::{PluginCommand, plugin_plan};
use crate::commands::publish::{PublishArgs, publish_plan, publish_batch_plan, execute_batch};
use crate::commands::retainer::{RetainerCommand, retainer_plan};
use crate::commands::rule::{RuleCommand, rule_plan};
use crate::commands::schema::{SchemaCommand, schema_plan};
use crate::commands::slow_sub::{SlowSubCommand, slow_sub_plan};
use crate::commands::source::{SourceCommand, source_plan};
use crate::commands::status;
use crate::commands::subscription::{SubscriptionCommand, subscription_plan};
use crate::commands::topic::{TopicCommand, topic_plan};
use crate::commands::topic_metrics::{TopicMetricsCommand, topic_metrics_plan};
use crate::commands::trace::{TraceCommand, trace_plan, is_trace_create};

verus! {

/// A command of the command line (shell completion aside, which needs no library).
pub enum Command {
    Status,
    Broker,
    Metrics { node: Option<String> },
    Stats { node: Option<String> },
    Node(NodeCommand),
    Cluster(ClusterCommand),
    Client(ClientCommand),
    Topic(TopicCommand),
    Subscription(SubscriptionCommand),
    Publish(PublishArgs),
    PublishBatch { file: String },
    Retainer(RetainerCommand),
    Rule(RuleCommand),
    Connector(ConnectorCommand),
    Action(ActionCommand),
    Source(SourceCommand),
    Authn(AuthnCommand),
    Authz(AuthzCommand),
    Ban(BanCommand),
    Listener(ListenerCommand),
    Alarm(AlarmCommand),
    Trace(TraceCommand),
    Config(ConfigCommand),
    Plugin(PluginCommand),
    Apikey(ApikeyCommand),
    Admin(AdminCommand),
    Gateway(GatewayCommand),
    Schema(SchemaCommand),
    SlowSub(SlowSubCommand),
    TopicMetrics(TopicMetricsCommand),
    Backup(BackupCommand),
    Cert(CertCommand),
    Api(ApiArgs),
}

/// `r` is a plan against the server with this content.
pub open spec fn planned(r: Option<Result<CommandPlan, AppError>>, v: PlanView) -> bool {
    r is Some && r->0 is Ok && r->0->Ok_0@ == v
}

/// `r` is the failure `Other(msg)`, reported once the server's context is resolved.
pub open spec fn refused(r: Option<Result<CommandPlan, AppError>>, msg: Seq<char>) -> bool {
    r is Some && r->0 is Err && r->0->Err_0 is Other && r->0->Err_0->Other_0@ == msg
}

/// What a command does: nothing against the server for the local `config` commands, else the
/// plan of its group (or the group's refusal, for a malformed ban target or HTTP method).
pub open spec fn command_plans(cmd: Command, r: Option<Result<CommandPlan, AppError>>) -> bool {
    match cmd {
        Command::Status => planned(r, get_value_view("/status"@)),
        Command::Broker => planned(r, get_value_view("/nodes"@)),
        Command::Metrics { node } => planned(r, metrics_plan(opt_view(node))),
        Command::Stats { node } => planned(r, stats_plan(opt_view(node))),
        Command::Node(c) => planned(r, node_plan(c)),
        Command::Cluster(c) => planned(r, cluster_plan(c)),
        Command::Client(c) => planned(r, client_plan(c)),
        Command::Topic(c) => planned(r, topic_plan(c)),
        Command::Subscription(c) => planned(r, subscription_plan(c)),
        Command::Publish(a) => planned(r, publish_plan(a)),
        Command::PublishBatch { file } => planned(r, publish_batch_plan(file@)),
        Command::Retainer(c) => planned(r, retainer_plan(c)),
        Command::Rule(c) => planned(r, rule_plan(c)),
        Command::Connector(c) => planned(r, connector_plan(c)),
        Command::Action(c) => planned(r, action_plan(c)),
        Command::Source(c) => planned(r, source_plan(c)),
        Command::Authn(c) => planned(r, authn_plan(c)),
        Command::Authz(c) => planned(r, authz_plan(c)),
        Command::Ban(c) => match ban_plan(c) {
            Some(v) => planned(r, v),
            None => refused(r, ban_target_message()),
        },
        Command::Listener(c) => planned(r, listener_plan(c)),
        Command::Alarm(c) => planned(r, alarm_plan(c)),
        Command::Trace(c) => match c {
            TraceCommand::Create { name, trace_type, target, start, end } => r is Some && r->0 is Ok
                && is_trace_create(r->0->Ok_0, name, trace_type, target, start, end),
            _ => planned(r, trace_plan(c)->0),
        },
        Command::Config(c) => if is_local(c) {
            r is None
        } else {
            planned(r, config_remote_plan(c)->0)
        },
        Command::Plugin(c) => planned(r, plugin_plan(c)),
        Command::Apikey(c) => planned(r, apikey_plan(c)),
        Command::Admin(c) => planned(r, admin_plan(c)),
        Command::Gateway(c) => planned(r, gateway_plan(c)),
        Command::Schema(c) => planned(r, schema_plan(c)),
        Command::SlowSub(c) => planned(r, slow_sub_plan(c)),
        Command::TopicMetrics(c) => planned(r, topic_metrics_plan(c)),
        Command::Backup(c) => planned(r, backup_plan(c)),
        Command::Cert(c) => planned(r, cert_plan(c)),
        Command::Api(a) => match api_plan(a) {
            Some(v) => planned(r, v),
            None => refused(r, invalid_method_message(a.method@)),
        },
    }
}

impl Command {
    /// What this command asks of the server: nothing for a local `config` command (which
    /// needs no server), else its plan or the reason it has none.
    pub fn plan(&self) -> (r: Option<Result<CommandPlan, AppError>>)
        ensures
            command_plans(*self, r),
    {
        match self {
            Command::Status => Some(Ok(status::execute())),
            Command::Broker => Some(Ok(status::broker())),
            Command::Metrics { node } => {
                let n: Option<&str> = match node {
                    Some(s) => Some(s.as_str()),
                    None => None,
                };
                Some(Ok(execute_metrics(n)))
            },
            Command::Stats { node } => {
                let n: Option<&str> = match node {
                    Some(s) => Some(s.as_str()),
                    None => None,
                };
                Some(Ok(execute_stats(n)))
            },
            Command::Node(c) => Some(Ok(c.plan())),
            Command::Cluster(c) => Some(Ok(c.plan())),
            Command::Client(c) => Some(Ok(c.plan())),
            Command::Topic(c) => Some(Ok(c.plan())),
            Command::Subscription(c) => Some(Ok(c.plan())),
            Command::Publish(a) => Some(Ok(a.plan())),
            Command::PublishBatch { file } => Some(Ok(execute_batch(file.as_str()))),
            Command::Retainer(c) => Some(Ok(c.plan())),
            Command::Rule(c) => Some(Ok(c.plan())),
            Command::Connector(c) => Some(Ok(c.plan())),
            Command::Action(c) => Some(Ok(c.plan())),
            Command::Source(c) => Some(Ok(c.plan())),
            Command::Authn(c) => Some(Ok(c.plan())),
            Command::Authz(c) => Some(Ok(c.plan())),
            Command::Ban(c) => Some(c.plan()),
            Command::Listener(c) => Some(Ok(c.plan())),
            Command::Alarm(c) => Some(Ok(c.plan())),
            Command::Trace(c) => Some(Ok(c.plan())),
            Command::Config(c) => match c.remote_plan() {
                Some(p) => Some(Ok(p)),
                None => None,
            },
            Command::Plugin(c) => Some(Ok(c.plan())),
            Command::Apikey(c) => Some(Ok(c.plan())),
            Command::Admin(c) => Some(Ok(c.plan())),
            Command::Gateway(c) => Some(Ok(c.plan())),
            Command::Schema(c) => Some(Ok(c.plan())),
            Command::SlowSub(c) => Some(Ok(c.plan())),
            Command::TopicMetrics(c) => Some(Ok(c.plan())),
            Command::Backup(c) => Some(Ok(c.plan())),
            Command::Cert(c) => Some(Ok(c.plan())),
            Command::Api(a) => Some(a.plan()),
        }
    }
}

} // verus!
