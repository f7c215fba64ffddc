//! The column tables of every listing and detail view.
use vstd::prelude::*;
use crate::output::Column;

verus! {

/// Names the column table of one listing or detail view.
#[derive(Clone, Copy, PartialEq, Eq, Structural, Debug)]
pub enum ColumnSet {
    ActionDetail,
    ActionList,
    AdminList,
    AlarmList,
    ApikeyList,
    AuthnList,
    AuthnUsers,
    AuthzList,
    BackupList,
    BanList,
    CertList,
    ClientDetail,
    ClientList,
    ClientSubscriptions,
    ClientWide,
    ConnectorDetail,
    ConnectorList,
    GatewayClients,
    GatewayList,
    GatewayListeners,
    GatewayUsers,
    ListenerDetail,
    ListenerList,
    NodeDetail,
    NodeList,
    PluginList,
    QueuedMessages,
    RetainerList,
    RuleDetail,
    RuleList,
    SchemaList,
    SlowSubList,
    SourceDetail,
    SourceList,
    SubscriptionList,
    TopicList,
    TopicMetricsList,
    TraceDetail,
    TraceList,
}

/// The columns of each table: heading, dotted value path, and width limit.
pub open spec fn column_table(set: ColumnSet) -> Seq<Column> {
    match set {
        ColumnSet::ActionDetail => seq![
            Column { header: "ID", json_path: "id", max_width: None },
            Column { header: "TYPE", json_path: "type", max_width: None },
            Column { header: "NAME", json_path: "name", max_width: None },
            Column { header: "STATUS", json_path: "status", max_width: None },
            Column { header: "CONNECTOR", json_path: "connector", max_width: None },
            Column { header: "DESCRIPTION", json_path: "description", max_width: None },
        ],
        ColumnSet::ActionList => seq![
            Column { header: "ID", json_path: "id", max_width: Some(30) },
            Column { header: "TYPE", json_path: "type", max_width: None },
            Column { header: "NAME", json_path: "name", max_width: Some(20) },
            Column { header: "STATUS", json_path: "status", max_width: None },
            Column { header: "CONNECTOR", json_path: "connector", max_width: Some(20) },
        ],
        ColumnSet::AdminList => seq![
            Column { header: "USERNAME", json_path: "username", max_width: None },
            Column { header: "ROLE", json_path: "role", max_width: None },
            Column { header: "DESCRIPTION", json_path: "description", max_width: Some(40) },
        ],
        ColumnSet::AlarmList => seq![
            Column { header: "NAME", json_path: "name", max_width: None },
            Column { header: "NODE", json_path: "node", max_width: None },
            Column { header: "MESSAGE", json_path: "message", max_width: Some(40) },
            Column { header: "ACTIVATE AT", json_path: "activate_at", max_width: None },
            Column { header: "DEACTIVATE AT", json_path: "deactivate_at", max_width: None },
        ],
        ColumnSet::ApikeyList => seq![
            Column { header: "NAME", json_path: "name", max_width: None },
            Column { header: "API KEY", json_path: "api_key", max_width: Some(20) },
            Column { header: "ROLE", json_path: "role", max_width: None },
            Column { header: "EXPIRED AT", json_path: "expired_at", max_width: None },
            Column { header: "CREATED AT", json_path: "created_at", max_width: None },
        ],
        ColumnSet::AuthnList => seq![
            Column { header: "ID", json_path: "id", max_width: None },
            Column { header: "MECHANISM", json_path: "mechanism", max_width: None },
            Column { header: "BACKEND", json_path: "backend", max_width: None },
            Column { header: "ENABLE", json_path: "enable", max_width: None },
        ],
        ColumnSet::AuthnUsers => seq![
            Column { header: "USER ID", json_path: "user_id", max_width: None },
            Column { header: "IS SUPERUSER", json_path: "is_superuser", max_width: None },
        ],
        ColumnSet::AuthzList => seq![
            Column { header: "TYPE", json_path: "type", max_width: None },
            Column { header: "ENABLE", json_path: "enable", max_width: None },
        ],
        ColumnSet::BackupList => seq![
            Column { header: "FILENAME", json_path: "filename", max_width: None },
            Column { header: "SIZE", json_path: "size", max_width: None },
            Column { header: "CREATED AT", json_path: "created_at", max_width: None },
            Column { header: "NODE", json_path: "node", max_width: None },
        ],
        ColumnSet::BanList => seq![
            Column { header: "WHO", json_path: "who", max_width: None },
            Column { header: "AS", json_path: "as", max_width: None },
            Column { header: "REASON", json_path: "reason", max_width: Some(30) },
            Column { header: "AT", json_path: "at", max_width: None },
            Column { header: "UNTIL", json_path: "until", max_width: None },
        ],
        ColumnSet::CertList => seq![
            Column { header: "ID", json_path: "id", max_width: None },
            Column { header: "COMMON NAME", json_path: "common_name", max_width: None },
            Column { header: "NOT BEFORE", json_path: "not_before", max_width: None },
            Column { header: "NOT AFTER", json_path: "not_after", max_width: None },
        ],
        ColumnSet::ClientDetail => seq![
            Column { header: "CLIENTID", json_path: "clientid", max_width: None },
            Column { header: "USERNAME", json_path: "username", max_width: None },
            Column { header: "IP ADDRESS", json_path: "ip_address", max_width: None },
            Column { header: "PORT", json_path: "port", max_width: None },
            Column { header: "CONNECTED", json_path: "connected", max_width: None },
            Column { header: "PROTO VER", json_path: "proto_ver", max_width: None },
            Column { header: "PROTO NAME", json_path: "proto_name", max_width: None },
            Column { header: "CLEAN START", json_path: "clean_start", max_width: None },
            Column { header: "KEEPALIVE", json_path: "keepalive", max_width: None },
            Column { header: "EXPIRY INTERVAL", json_path: "expiry_interval", max_width: None },
            Column { header: "SUBSCRIPTIONS", json_path: "subscriptions_cnt", max_width: None },
            Column { header: "INFLIGHT", json_path: "inflight_cnt", max_width: None },
            Column { header: "MQUEUE LEN", json_path: "mqueue_len", max_width: None },
            Column { header: "CREATED AT", json_path: "created_at", max_width: None },
            Column { header: "CONNECTED AT", json_path: "connected_at", max_width: None },
        ],
        ColumnSet::ClientList => seq![
            Column { header: "CLIENTID", json_path: "clientid", max_width: Some(30) },
            Column { header: "USERNAME", json_path: "username", max_width: Some(20) },
            Column { header: "IP ADDRESS", json_path: "ip_address", max_width: None },
            Column { header: "CONNECTED", json_path: "connected", max_width: None },
            Column { header: "PROTO", json_path: "proto_ver", max_width: None },
            Column { header: "CLEAN START", json_path: "clean_start", max_width: None },
        ],
        ColumnSet::ClientSubscriptions => seq![
            Column { header: "TOPIC", json_path: "topic", max_width: None },
            Column { header: "QOS", json_path: "qos", max_width: None },
            Column { header: "NL", json_path: "nl", max_width: None },
            Column { header: "RAP", json_path: "rap", max_width: None },
            Column { header: "RH", json_path: "rh", max_width: None },
        ],
        ColumnSet::ClientWide => seq![
            Column { header: "PORT", json_path: "port", max_width: None },
            Column { header: "KEEPALIVE", json_path: "keepalive", max_width: None },
            Column { header: "SUBSCRIPTIONS", json_path: "subscriptions_cnt", max_width: None },
            Column { header: "CREATED AT", json_path: "created_at", max_width: None },
            Column { header: "CONNECTED AT", json_path: "connected_at", max_width: None },
        ],
        ColumnSet::ConnectorDetail => seq![
            Column { header: "ID", json_path: "id", max_width: None },
            Column { header: "TYPE", json_path: "type", max_width: None },
            Column { header: "NAME", json_path: "name", max_width: None },
            Column { header: "STATUS", json_path: "status", max_width: None },
            Column { header: "DESCRIPTION", json_path: "description", max_width: None },
        ],
        ColumnSet::ConnectorList => seq![
            Column { header: "ID", json_path: "id", max_width: Some(30) },
            Column { header: "TYPE", json_path: "type", max_width: None },
            Column { header: "NAME", json_path: "name", max_width: Some(20) },
            Column { header: "STATUS", json_path: "status", max_width: None },
        ],
        ColumnSet::GatewayClients => seq![
            Column { header: "CLIENTID", json_path: "clientid", max_width: Some(30) },
            Column { header: "USERNAME", json_path: "username", max_width: Some(20) },
            Column { header: "IP ADDRESS", json_path: "ip_address", max_width: None },
            Column { header: "CONNECTED", json_path: "connected", max_width: None },
        ],
        ColumnSet::GatewayList => seq![
            Column { header: "NAME", json_path: "name", max_width: None },
            Column { header: "STATUS", json_path: "status", max_width: None },
            Column { header: "ENABLE", json_path: "enable", max_width: None },
            Column { header: "CURRENT CONNECTIONS", json_path: "current_connections", max_width: None },
        ],
        ColumnSet::GatewayListeners => seq![
            Column { header: "ID", json_path: "id", max_width: None },
            Column { header: "TYPE", json_path: "type", max_width: None },
            Column { header: "BIND", json_path: "bind", max_width: None },
            Column { header: "RUNNING", json_path: "running", max_width: None },
        ],
        ColumnSet::GatewayUsers => seq![
            Column { header: "USER ID", json_path: "user_id", max_width: None },
            Column { header: "IS SUPERUSER", json_path: "is_superuser", max_width: None },
        ],
        ColumnSet::ListenerDetail => seq![
            Column { header: "ID", json_path: "id", max_width: None },
            Column { header: "TYPE", json_path: "type", max_width: None },
            Column { header: "NAME", json_path: "name", max_width: None },
            Column { header: "BIND", json_path: "bind", max_width: None },
            Column { header: "RUNNING", json_path: "running", max_width: None },
            Column { header: "ACCEPTORS", json_path: "acceptors", max_width: None },
            Column { header: "MAX CONNECTIONS", json_path: "max_connections", max_width: None },
            Column { header: "CURRENT CONNECTIONS", json_path: "current_connections", max_width: None },
        ],
        ColumnSet::ListenerList => seq![
            Column { header: "ID", json_path: "id", max_width: None },
            Column { header: "TYPE", json_path: "type", max_width: None },
            Column { header: "NAME", json_path: "name", max_width: None },
            Column { header: "BIND", json_path: "bind", max_width: None },
            Column { header: "RUNNING", json_path: "running", max_width: None },
            Column { header: "ACCEPTORS", json_path: "acceptors", max_width: None },
        ],
        ColumnSet::NodeDetail => seq![
            Column { header: "NODE", json_path: "node", max_width: None },
            Column { header: "STATUS", json_path: "node_status", max_width: None },
            Column { header: "VERSION", json_path: "version", max_width: None },
            Column { header: "UPTIME", json_path: "uptime", max_width: None },
            Column { header: "CONNECTIONS", json_path: "connections", max_width: None },
            Column { header: "LOAD1", json_path: "load1", max_width: None },
            Column { header: "LOAD5", json_path: "load5", max_width: None },
            Column { header: "LOAD15", json_path: "load15", max_width: None },
            Column { header: "MAX FDS", json_path: "max_fds", max_width: None },
            Column { header: "MEMORY TOTAL", json_path: "memory_total", max_width: None },
            Column { header: "MEMORY USED", json_path: "memory_used", max_width: None },
            Column { header: "OTP RELEASE", json_path: "otp_release", max_width: None },
            Column { header: "EDITION", json_path: "edition", max_width: None },
        ],
        ColumnSet::NodeList => seq![
            Column { header: "NODE", json_path: "node", max_width: None },
            Column { header: "STATUS", json_path: "node_status", max_width: None },
            Column { header: "VERSION", json_path: "version", max_width: None },
            Column { header: "UPTIME", json_path: "uptime", max_width: None },
            Column { header: "CONNECTIONS", json_path: "connections", max_width: None },
            Column { header: "LOAD1", json_path: "load1", max_width: None },
        ],
        ColumnSet::PluginList => seq![
            Column { header: "NAME", json_path: "name", max_width: Some(30) },
            Column { header: "VERSION", json_path: "rel_vsn", max_width: None },
            Column { header: "STATUS", json_path: "running_status", max_width: None },
            Column { header: "DESCRIPTION", json_path: "description", max_width: Some(40) },
        ],
        ColumnSet::QueuedMessages => seq![
            Column { header: "MSGID", json_path: "msgid", max_width: Some(20) },
            Column { header: "TOPIC", json_path: "topic", max_width: Some(30) },
            Column { header: "QOS", json_path: "qos", max_width: None },
            Column { header: "PUBLISH AT", json_path: "publish_at", max_width: None },
        ],
        ColumnSet::RetainerList => seq![
            Column { header: "TOPIC", json_path: "topic", max_width: Some(50) },
            Column { header: "QOS", json_path: "qos", max_width: None },
            Column { header: "PUBLISH AT", json_path: "publish_at", max_width: None },
        ],
        ColumnSet::RuleDetail => seq![
            Column { header: "ID", json_path: "id", max_width: None },
            Column { header: "NAME", json_path: "name", max_width: None },
            Column { header: "ENABLED", json_path: "enable", max_width: None },
            Column { header: "SQL", json_path: "sql", max_width: None },
            Column { header: "ACTIONS", json_path: "actions", max_width: None },
            Column { header: "DESCRIPTION", json_path: "description", max_width: None },
            Column { header: "CREATED AT", json_path: "created_at", max_width: None },
        ],
        ColumnSet::RuleList => seq![
            Column { header: "ID", json_path: "id", max_width: Some(20) },
            Column { header: "NAME", json_path: "name", max_width: Some(20) },
            Column { header: "ENABLED", json_path: "enable", max_width: None },
            Column { header: "SQL", json_path: "sql", max_width: Some(50) },
            Column { header: "ACTIONS", json_path: "actions", max_width: Some(30) },
        ],
        ColumnSet::SchemaList => seq![
            Column { header: "NAME", json_path: "name", max_width: None },
            Column { header: "TYPE", json_path: "type", max_width: None },
            Column { header: "DESCRIPTION", json_path: "description", max_width: Some(40) },
        ],
        ColumnSet::SlowSubList => seq![
            Column { header: "CLIENTID", json_path: "clientid", max_width: Some(30) },
            Column { header: "TOPIC", json_path: "topic", max_width: Some(40) },
            Column { header: "TIMESPAN", json_path: "timespan", max_width: None },
            Column { header: "NODE", json_path: "node", max_width: None },
        ],
        ColumnSet::SourceDetail => seq![
            Column { header: "ID", json_path: "id", max_width: None },
            Column { header: "TYPE", json_path: "type", max_width: None },
            Column { header: "NAME", json_path: "name", max_width: None },
            Column { header: "STATUS", json_path: "status", max_width: None },
            Column { header: "DESCRIPTION", json_path: "description", max_width: None },
        ],
        ColumnSet::SourceList => seq![
            Column { header: "ID", json_path: "id", max_width: Some(30) },
            Column { header: "TYPE", json_path: "type", max_width: None },
            Column { header: "NAME", json_path: "name", max_width: Some(20) },
            Column { header: "STATUS", json_path: "status", max_width: None },
        ],
        ColumnSet::SubscriptionList => seq![
            Column { header: "CLIENTID", json_path: "clientid", max_width: Some(30) },
            Column { header: "TOPIC", json_path: "topic", max_width: Some(50) },
            Column { header: "QOS", json_path: "qos", max_width: None },
            Column { header: "NL", json_path: "nl", max_width: None },
            Column { header: "RAP", json_path: "rap", max_width: None },
            Column { header: "RH", json_path: "rh", max_width: None },
        ],
        ColumnSet::TopicList => seq![
            Column { header: "TOPIC", json_path: "topic", max_width: Some(50) },
            Column { header: "NODE", json_path: "node", max_width: None },
        ],
        ColumnSet::TopicMetricsList => seq![
            Column { header: "TOPIC", json_path: "topic", max_width: Some(50) },
            Column { header: "CREATE TIME", json_path: "create_time", max_width: None },
            Column { header: "RESET TIME", json_path: "reset_time", max_width: None },
        ],
        ColumnSet::TraceDetail => seq![
            Column { header: "NAME", json_path: "name", max_width: None },
            Column { header: "TYPE", json_path: "type", max_width: None },
            Column { header: "TARGET", json_path: "target", max_width: None },
            Column { header: "STATUS", json_path: "status", max_width: None },
            Column { header: "START", json_path: "start_at", max_width: None },
            Column { header: "END", json_path: "end_at", max_width: None },
            Column { header: "LOG SIZE", json_path: "log_size", max_width: None },
        ],
        ColumnSet::TraceList => seq![
            Column { header: "NAME", json_path: "name", max_width: None },
            Column { header: "TYPE", json_path: "type", max_width: None },
            Column { header: "STATUS", json_path: "status", max_width: None },
            Column { header: "START", json_path: "start_at", max_width: None },
            Column { header: "END", json_path: "end_at", max_width: None },
        ],
    }
}

/// The columns of a table.
pub fn columns(set: ColumnSet) -> (r: Vec<Column>)
    ensures
        r@ == column_table(set),
{
    let r = match set {
        ColumnSet::ActionDetail => vec![
            Column { header: "ID", json_path: "id", max_width: None },
            Column { header: "TYPE", json_path: "type", max_width: None },
            Column { header: "NAME", json_path: "name", max_width: None },
            Column { header: "STATUS", json_path: "status", max_width: None },
            Column { header: "CONNECTOR", json_path: "connector", max_width: None },
            Column { header: "DESCRIPTION", json_path: "description", max_width: None },
        ],
        ColumnSet::ActionList => vec![
            Column { header: "ID", json_path: "id", max_width: Some(30) },
            Column { header: "TYPE", json_path: "type", max_width: None },
            Column { header: "NAME", json_path: "name", max_width: Some(20) },
            Column { header: "STATUS", json_path: "status", max_width: None },
            Column { header: "CONNECTOR", json_path: "connector", max_width: Some(20) },
        ],
        ColumnSet::AdminList => vec![
            Column { header: "USERNAME", json_path: "username", max_width: None },
            Column { header: "ROLE", json_path: "role", max_width: None },
            Column { header: "DESCRIPTION", json_path: "description", max_width: Some(40) },
        ],
        ColumnSet::AlarmList => vec![
            Column { header: "NAME", json_path: "name", max_width: None },
            Column { header: "NODE", json_path: "node", max_width: None },
            Column { header: "MESSAGE", json_path: "message", max_width: Some(40) },
            Column { header: "ACTIVATE AT", json_path: "activate_at", max_width: None },
            Column { header: "DEACTIVATE AT", json_path: "deactivate_at", max_width: None },
        ],
        ColumnSet::ApikeyList => vec![
            Column { header: "NAME", json_path: "name", max_width: None },
            Column { header: "API KEY", json_path: "api_key", max_width: Some(20) },
            Column { header: "ROLE", json_path: "role", max_width: None },
            Column { header: "EXPIRED AT", json_path: "expired_at", max_width: None },
            Column { header: "CREATED AT", json_path: "created_at", max_width: None },
        ],
        ColumnSet::AuthnList => vec![
            Column { header: "ID", json_path: "id", max_width: None },
            Column { header: "MECHANISM", json_path: "mechanism", max_width: None },
            Column { header: "BACKEND", json_path: "backend", max_width: None },
            Column { header: "ENABLE", json_path: "enable", max_width: None },
        ],
        ColumnSet::AuthnUsers => vec![
            Column { header: "USER ID", json_path: "user_id", max_width: None },
            Column { header: "IS SUPERUSER", json_path: "is_superuser", max_width: None },
        ],
        ColumnSet::AuthzList => vec![
            Column { header: "TYPE", json_path: "type", max_width: None },
            Column { header: "ENABLE", json_path: "enable", max_width: None },
        ],
        ColumnSet::BackupList => vec![
            Column { header: "FILENAME", json_path: "filename", max_width: None },
            Column { header: "SIZE", json_path: "size", max_width: None },
            Column { header: "CREATED AT", json_path: "created_at", max_width: None },
            Column { header: "NODE", json_path: "node", max_width: None },
        ],
        ColumnSet::BanList => vec![
            Column { header: "WHO", json_path: "who", max_width: None },
            Column { header: "AS", json_path: "as", max_width: None },
            Column { header: "REASON", json_path: "reason", max_width: Some(30) },
            Column { header: "AT", json_path: "at", max_width: None },
            Column { header: "UNTIL", json_path: "until", max_width: None },
        ],
        ColumnSet::CertList => vec![
            Column { header: "ID", json_path: "id", max_width: None },
            Column { header: "COMMON NAME", json_path: "common_name", max_width: None },
            Column { header: "NOT BEFORE", json_path: "not_before", max_width: None },
            Column { header: "NOT AFTER", json_path: "not_after", max_width: None },
        ],
        ColumnSet::ClientDetail => vec![
            Column { header: "CLIENTID", json_path: "clientid", max_width: None },
            Column { header: "USERNAME", json_path: "username", max_width: None },
            Column { header: "IP ADDRESS", json_path: "ip_address", max_width: None },
            Column { header: "PORT", json_path: "port", max_width: None },
            Column { header: "CONNECTED", json_path: "connected", max_width: None },
            Column { header: "PROTO VER", json_path: "proto_ver", max_width: None },
            Column { header: "PROTO NAME", json_path: "proto_name", max_width: None },
            Column { header: "CLEAN START", json_path: "clean_start", max_width: None },
            Column { header: "KEEPALIVE", json_path: "keepalive", max_width: None },
            Column { header: "EXPIRY INTERVAL", json_path: "expiry_interval", max_width: None },
            Column { header: "SUBSCRIPTIONS", json_path: "subscriptions_cnt", max_width: None },
            Column { header: "INFLIGHT", json_path: "inflight_cnt", max_width: None },
            Column { header: "MQUEUE LEN", json_path: "mqueue_len", max_width: None },
            Column { header: "CREATED AT", json_path: "created_at", max_width: None },
            Column { header: "CONNECTED AT", json_path: "connected_at", max_width: None },
        ],
        ColumnSet::ClientList => vec![
            Column { header: "CLIENTID", json_path: "clientid", max_width: Some(30) },
            Column { header: "USERNAME", json_path: "username", max_width: Some(20) },
            Column { header: "IP ADDRESS", json_path: "ip_address", max_width: None },
            Column { header: "CONNECTED", json_path: "connected", max_width: None },
            Column { header: "PROTO", json_path: "proto_ver", max_width: None },
            Column { header: "CLEAN START", json_path: "clean_start", max_width: None },
        ],
        ColumnSet::ClientSubscriptions => vec![
            Column { header: "TOPIC", json_path: "topic", max_width: None },
            Column { header: "QOS", json_path: "qos", max_width: None },
            Column { header: "NL", json_path: "nl", max_width: None },
            Column { header: "RAP", json_path: "rap", max_width: None },
            Column { header: "RH", json_path: "rh", max_width: None },
        ],
        ColumnSet::ClientWide => vec![
            Column { header: "PORT", json_path: "port", max_width: None },
            Column { header: "KEEPALIVE", json_path: "keepalive", max_width: None },
            Column { header: "SUBSCRIPTIONS", json_path: "subscriptions_cnt", max_width: None },
            Column { header: "CREATED AT", json_path: "created_at", max_width: None },
            Column { header: "CONNECTED AT", json_path: "connected_at", max_width: None },
        ],
        ColumnSet::ConnectorDetail => vec![
            Column { header: "ID", json_path: "id", max_width: None },
            Column { header: "TYPE", json_path: "type", max_width: None },
            Column { header: "NAME", json_path: "name", max_width: None },
            Column { header: "STATUS", json_path: "status", max_width: None },
            Column { header: "DESCRIPTION", json_path: "description", max_width: None },
        ],
        ColumnSet::ConnectorList => vec![
            Column { header: "ID", json_path: "id", max_width: Some(30) },
            Column { header: "TYPE", json_path: "type", max_width: None },
            Column { header: "NAME", json_path: "name", max_width: Some(20) },
            Column { header: "STATUS", json_path: "status", max_width: None },
        ],
        ColumnSet::GatewayClients => vec![
            Column { header: "CLIENTID", json_path: "clientid", max_width: Some(30) },
            Column { header: "USERNAME", json_path: "username", max_width: Some(20) },
            Column { header: "IP ADDRESS", json_path: "ip_address", max_width: None },
            Column { header: "CONNECTED", json_path: "connected", max_width: None },
        ],
        ColumnSet::GatewayList => vec![
            Column { header: "NAME", json_path: "name", max_width: None },
            Column { header: "STATUS", json_path: "status", max_width: None },
            Column { header: "ENABLE", json_path: "enable", max_width: None },
            Column { header: "CURRENT CONNECTIONS", json_path: "current_connections", max_width: None },
        ],
        ColumnSet::GatewayListeners => vec![
            Column { header: "ID", json_path: "id", max_width: None },
            Column { header: "TYPE", json_path: "type", max_width: None },
            Column { header: "BIND", json_path: "bind", max_width: None },
            Column { header: "RUNNING", json_path: "running", max_width: None },
        ],
        ColumnSet::GatewayUsers => vec![
            Column { header: "USER ID", json_path: "user_id", max_width: None },
            Column { header: "IS SUPERUSER", json_path: "is_superuser", max_width: None },
        ],
        ColumnSet::ListenerDetail => vec![
            Column { header: "ID", json_path: "id", max_width: None },
            Column { header: "TYPE", json_path: "type", max_width: None },
            Column { header: "NAME", json_path: "name", max_width: None },
            Column { header: "BIND", json_path: "bind", max_width: None },
            Column { header: "RUNNING", json_path: "running", max_width: None },
            Column { header: "ACCEPTORS", json_path: "acceptors", max_width: None },
            Column { header: "MAX CONNECTIONS", json_path: "max_connections", max_width: None },
            Column { header: "CURRENT CONNECTIONS", json_path: "current_connections", max_width: None },
        ],
        ColumnSet::ListenerList => vec![
            Column { header: "ID", json_path: "id", max_width: None },
            Column { header: "TYPE", json_path: "type", max_width: None },
            Column { header: "NAME", json_path: "name", max_width: None },
            Column { header: "BIND", json_path: "bind", max_width: None },
            Column { header: "RUNNING", json_path: "running", max_width: None },
            Column { header: "ACCEPTORS", json_path: "acceptors", max_width: None },
        ],
        ColumnSet::NodeDetail => vec![
            Column { header: "NODE", json_path: "node", max_width: None },
            Column { header: "STATUS", json_path: "node_status", max_width: None },
            Column { header: "VERSION", json_path: "version", max_width: None },
            Column { header: "UPTIME", json_path: "uptime", max_width: None },
            Column { header: "CONNECTIONS", json_path: "connections", max_width: None },
            Column { header: "LOAD1", json_path: "load1", max_width: None },
            Column { header: "LOAD5", json_path: "load5", max_width: None },
            Column { header: "LOAD15", json_path: "load15", max_width: None },
            Column { header: "MAX FDS", json_path: "max_fds", max_width: None },
            Column { header: "MEMORY TOTAL", json_path: "memory_total", max_width: None },
            Column { header: "MEMORY USED", json_path: "memory_used", max_width: None },
            Column { header: "OTP RELEASE", json_path: "otp_release", max_width: None },
            Column { header: "EDITION", json_path: "edition", max_width: None },
        ],
        ColumnSet::NodeList => vec![
            Column { header: "NODE", json_path: "node", max_width: None },
            Column { header: "STATUS", json_path: "node_status", max_width: None },
            Column { header: "VERSION", json_path: "version", max_width: None },
            Column { header: "UPTIME", json_path: "uptime", max_width: None },
            Column { header: "CONNECTIONS", json_path: "connections", max_width: None },
            Column { header: "LOAD1", json_path: "load1", max_width: None },
        ],
        ColumnSet::PluginList => vec![
            Column { header: "NAME", json_path: "name", max_width: Some(30) },
            Column { header: "VERSION", json_path: "rel_vsn", max_width: None },
            Column { header: "STATUS", json_path: "running_status", max_width: None },
            Column { header: "DESCRIPTION", json_path: "description", max_width: Some(40) },
        ],
        ColumnSet::QueuedMessages => vec![
            Column { header: "MSGID", json_path: "msgid", max_width: Some(20) },
            Column { header: "TOPIC", json_path: "topic", max_width: Some(30) },
            Column { header: "QOS", json_path: "qos", max_width: None },
            Column { header: "PUBLISH AT", json_path: "publish_at", max_width: None },
        ],
        ColumnSet::RetainerList => vec![
            Column { header: "TOPIC", json_path: "topic", max_width: Some(50) },
            Column { header: "QOS", json_path: "qos", max_width: None },
            Column { header: "PUBLISH AT", json_path: "publish_at", max_width: None },
        ],
        ColumnSet::RuleDetail => vec![
            Column { header: "ID", json_path: "id", max_width: None },
            Column { header: "NAME", json_path: "name", max_width: None },
            Column { header: "ENABLED", json_path: "enable", max_width: None },
            Column { header: "SQL", json_path: "sql", max_width: None },
            Column { header: "ACTIONS", json_path: "actions", max_width: None },
            Column { header: "DESCRIPTION", json_path: "description", max_width: None },
            Column { header: "CREATED AT", json_path: "created_at", max_width: None },
        ],
        ColumnSet::RuleList => vec![
            Column { header: "ID", json_path: "id", max_width: Some(20) },
            Column { header: "NAME", json_path: "name", max_width: Some(20) },
            Column { header: "ENABLED", json_path: "enable", max_width: None },
            Column { header: "SQL", json_path: "sql", max_width: Some(50) },
            Column { header: "ACTIONS", json_path: "actions", max_width: Some(30) },
        ],
        ColumnSet::SchemaList => vec![
            Column { header: "NAME", json_path: "name", max_width: None },
            Column { header: "TYPE", json_path: "type", max_width: None },
            Column { header: "DESCRIPTION", json_path: "description", max_width: Some(40) },
        ],
        ColumnSet::SlowSubList => vec![
            Column { header: "CLIENTID", json_path: "clientid", max_width: Some(30) },
            Column { header: "TOPIC", json_path: "topic", max_width: Some(40) },
            Column { header: "TIMESPAN", json_path: "timespan", max_width: None },
            Column { header: "NODE", json_path: "node", max_width: None },
        ],
        ColumnSet::SourceDetail => vec![
            Column { header: "ID", json_path: "id", max_width: None },
            Column { header: "TYPE", json_path: "type", max_width: None },
            Column { header: "NAME", json_path: "name", max_width: None },
            Column { header: "STATUS", json_path: "status", max_width: None },
            Column { header: "DESCRIPTION", json_path: "description", max_width: None },
        ],
        ColumnSet::SourceList => vec![
            Column { header: "ID", json_path: "id", max_width: Some(30) },
            Column { header: "TYPE", json_path: "type", max_width: None },
            Column { header: "NAME", json_path: "name", max_width: Some(20) },
            Column { header: "STATUS", json_path: "status", max_width: None },
        ],
        ColumnSet::SubscriptionList => vec![
            Column { header: "CLIENTID", json_path: "clientid", max_width: Some(30) },
            Column { header: "TOPIC", json_path: "topic", max_width: Some(50) },
            Column { header: "QOS", json_path: "qos", max_width: None },
            Column { header: "NL", json_path: "nl", max_width: None },
            Column { header: "RAP", json_path: "rap", max_width: None },
            Column { header: "RH", json_path: "rh", max_width: None },
        ],
        ColumnSet::TopicList => vec![
            Column { header: "TOPIC", json_path: "topic", max_width: Some(50) },
            Column { header: "NODE", json_path: "node", max_width: None },
        ],
        ColumnSet::TopicMetricsList => vec![
            Column { header: "TOPIC", json_path: "topic", max_width: Some(50) },
            Column { header: "CREATE TIME", json_path: "create_time", max_width: None },
            Column { header: "RESET TIME", json_path: "reset_time", max_width: None },
        ],
        ColumnSet::TraceDetail => vec![
            Column { header: "NAME", json_path: "name", max_width: None },
            Column { header: "TYPE", json_path: "type", max_width: None },
            Column { header: "TARGET", json_path: "target", max_width: None },
            Column { header: "STATUS", json_path: "status", max_width: None },
            Column { header: "START", json_path: "start_at", max_width: None },
            Column { header: "END", json_path: "end_at", max_width: None },
            Column { header: "LOG SIZE", json_path: "log_size", max_width: None },
        ],
        ColumnSet::TraceList => vec![
            Column { header: "NAME", json_path: "name", max_width: None },
            Column { header: "TYPE", json_path: "type", max_width: None },
            Column { header: "STATUS", json_path: "status", max_width: None },
            Column { header: "START", json_path: "start_at", max_width: None },
            Column { header: "END", json_path: "end_at", max_width: None },
        ],
    };
    assert(r@ =~= column_table(set));
    r
}

} // verus!
