use emqxctl::cli::PaginationArgs;
use emqxctl::columns::ColumnSet;
use emqxctl::commands::api::ApiArgs;
use emqxctl::commands::ban::BanCommand;
use emqxctl::commands::backup::BackupCommand;
use emqxctl::commands::clients::{ClientCommand, ClientFilters};
use emqxctl::commands::cluster::ClusterCommand;
use emqxctl::commands::dispatch::Command;
use emqxctl::commands::config_cmd::{is_local_command, ConfigCommand, LocalOutcome};
use emqxctl::commands::gateway::{GatewayAuthnCommand, GatewayAuthnUsersCommand, GatewayCommand};
use emqxctl::commands::node::NodeCommand;
use emqxctl::commands::publish::{execute_batch, PublishArgs};
use emqxctl::commands::topic::TopicCommand;
use emqxctl::commands::trace::TraceCommand;
use emqxctl::config::Config;
use emqxctl::error::AppError;
use emqxctl::json::JsonValue;
use emqxctl::plan::{CommandPlan, HttpMethod, Render, RequestBody};

fn st(x: &str) -> String {
    x.to_string()
}

fn get(path: &str, render: Render) -> CommandPlan {
    CommandPlan::Call { method: HttpMethod::Get, path: st(path), query: vec![], body: RequestBody::Empty, render }
}

fn pages() -> PaginationArgs {
    PaginationArgs { page: 2, limit: 50, all: false }
}

#[test]
fn node_plans() {
    assert_eq!(NodeCommand::List.plan(), get("/nodes", Render::List(ColumnSet::NodeList)));
    assert_eq!(NodeCommand::Get { node: st("n1") }.plan(), get("/nodes/n1", Render::Item(ColumnSet::NodeDetail)));
    assert_eq!(NodeCommand::Stats { node: st("n1") }.plan(), get("/nodes/n1/stats", Render::Value));
}

#[test]
fn cluster_metrics_with_latest() {
    assert_eq!(
        ClusterCommand::Metrics { latest: Some(5) }.plan(),
        CommandPlan::Call {
            method: HttpMethod::Get,
            path: st("/monitor_current"),
            query: vec![(st("latest"), st("5"))],
            body: RequestBody::Empty,
            render: Render::Value,
        }
    );
    assert_eq!(ClusterCommand::Metrics { latest: None }.plan(), get("/monitor_current", Render::Value));
}

#[test]
fn client_list_filters_in_order() {
    let filters = ClientFilters {
        username: Some(st("bob")),
        ip_address: None,
        conn_state: Some(st("connected")),
        clean_start: Some(false),
        proto_ver: None,
        like_clientid: None,
        like_username: Some(st("b")),
    };
    assert_eq!(
        ClientCommand::List { pagination: pages(), filters }.plan(),
        CommandPlan::PagedList {
            path: st("/clients"),
            query: vec![
                (st("username"), st("bob")),
                (st("conn_state"), st("connected")),
                (st("clean_start"), st("false")),
                (st("like_username"), st("b")),
            ],
            pagination: pages(),
            columns: ColumnSet::ClientList,
            wide_columns: Some(ColumnSet::ClientWide),
        }
    );
}

#[test]
fn client_subscribe_body() {
    let plan = ClientCommand::Subscribe { clientid: st("c1"), topic: st("t/#"), qos: 1 }.plan();
    assert_eq!(
        plan,
        CommandPlan::Call {
            method: HttpMethod::Post,
            path: st("/clients/c1/subscribe"),
            query: vec![],
            body: RequestBody::Json(JsonValue::Object(vec![
                (st("qos"), JsonValue::Number(st("1"))),
                (st("topic"), JsonValue::Str(st("t/#"))),
            ])),
            render: Render::Success(st("Client 'c1' subscribed to 't/#'")),
        }
    );
    assert_eq!(
        ClientCommand::Mqueue { clientid: st("c1"), limit: 100, position: Some(st("p")) }.plan(),
        CommandPlan::CursorList {
            path: st("/clients/c1/mqueue_messages"),
            limit: 100,
            position: Some(st("p")),
            columns: ColumnSet::QueuedMessages,
        }
    );
}

#[test]
fn topic_get_escapes_the_topic() {
    assert_eq!(TopicCommand::Get { topic: st("a/+/#") }.plan(), get("/topics/a%2F%2B%2F%23", Render::Value));
}

#[test]
fn ban_targets_need_a_slash() {
    assert_eq!(
        BanCommand::Delete { target: st("clientid/bad/one") }.plan(),
        Ok(CommandPlan::Call {
            method: HttpMethod::Delete,
            path: st("/banned/clientid/bad/one"),
            query: vec![],
            body: RequestBody::Empty,
            render: Render::Success(st("Ban on 'clientid/bad/one' removed")),
        })
    );
    assert_eq!(
        BanCommand::Delete { target: st("noslash") }.plan(),
        Err(AppError::Other(st("Target must be in format <as>/<who>, e.g. clientid/myclient")))
    );
}

#[test]
fn ban_create_body_and_message() {
    let plan = BanCommand::Create { who: st("dev1"), as_type: st("clientid"), reason: None, until: Some(st("2030")) }
        .plan()
        .unwrap();
    assert_eq!(
        plan,
        CommandPlan::Call {
            method: HttpMethod::Post,
            path: st("/banned"),
            query: vec![],
            body: RequestBody::Json(JsonValue::Object(vec![
                (st("as"), JsonValue::Str(st("clientid"))),
                (st("until"), JsonValue::Str(st("2030"))),
                (st("who"), JsonValue::Str(st("dev1"))),
            ])),
            render: Render::SuccessIfNull(st("Banned clientid 'dev1'")),
        }
    );
}

#[test]
fn downloads_go_to_a_file_named_after_the_resource() {
    assert_eq!(
        TraceCommand::Download { name: st("t1"), output: st(".") }.plan(),
        CommandPlan::Download {
            path: st("/trace/t1/download"),
            dest: st("t1.zip"),
            success: st("Trace 't1' downloaded to 't1.zip'"),
        }
    );
    assert_eq!(
        BackupCommand::Download { name: st("b.tar.gz"), output: st("/tmp/x") }.plan(),
        CommandPlan::Download {
            path: st("/data/export/b.tar.gz"),
            dest: st("/tmp/x"),
            success: st("Backup 'b.tar.gz' downloaded to '/tmp/x'"),
        }
    );
    assert_eq!(
        BackupCommand::Download { name: st("b.tar.gz"), output: st(".") }.plan(),
        CommandPlan::Download {
            path: st("/data/export/b.tar.gz"),
            dest: st("b.tar.gz"),
            success: st("Backup 'b.tar.gz' downloaded to 'b.tar.gz'"),
        }
    );
}

#[test]
fn trace_create_puts_target_under_its_type() {
    let plan = TraceCommand::Create {
        name: st("t1"),
        trace_type: st("clientid"),
        target: st("c1"),
        start: None,
        end: Some(st("2030-01-01")),
    }
    .plan();
    assert_eq!(
        plan,
        CommandPlan::Call {
            method: HttpMethod::Post,
            path: st("/trace"),
            query: vec![],
            body: RequestBody::Json(JsonValue::Object(vec![
                (st("clientid"), JsonValue::Str(st("c1"))),
                (st("end_at"), JsonValue::Str(st("2030-01-01"))),
                (st("name"), JsonValue::Str(st("t1"))),
                (st("type"), JsonValue::Str(st("clientid"))),
            ])),
            render: Render::SuccessIfNull(st("Trace 't1' created")),
        }
    );
    assert_eq!(TraceCommand::Log { name: st("t1") }.plan(), CommandPlan::Text { path: st("/trace/t1/log") });
}

#[test]
fn gateway_nested_paths() {
    let plan = GatewayCommand::Authn {
        name: st("stomp"),
        command: GatewayAuthnCommand::Users { command: GatewayAuthnUsersCommand::List { pagination: pages() } },
    }
    .plan();
    assert_eq!(
        plan,
        CommandPlan::PagedList {
            path: st("/gateways/stomp/authentication/users"),
            query: vec![],
            pagination: pages(),
            columns: ColumnSet::GatewayUsers,
            wide_columns: None,
        }
    );
    assert_eq!(
        GatewayCommand::Enable { name: st("mqttsn") }.plan(),
        CommandPlan::Call {
            method: HttpMethod::Put,
            path: st("/gateways/mqttsn"),
            query: vec![],
            body: RequestBody::Json(JsonValue::Object(vec![(st("enable"), JsonValue::Bool(true))])),
            render: Render::Success(st("Gateway 'mqttsn' enabled")),
        }
    );
}

#[test]
fn publish_body_and_batch() {
    let plan = PublishArgs { topic: st("t/1"), payload: st("hello"), qos: 2, retain: true }.plan();
    assert_eq!(
        plan,
        CommandPlan::Call {
            method: HttpMethod::Post,
            path: st("/publish"),
            query: vec![],
            body: RequestBody::Json(JsonValue::Object(vec![
                (st("payload"), JsonValue::Str(st("hello"))),
                (st("qos"), JsonValue::Number(st("2"))),
                (st("retain"), JsonValue::Bool(true)),
                (st("topic"), JsonValue::Str(st("t/1"))),
            ])),
            render: Render::Success(st("Published to 't/1'")),
        }
    );
    assert_eq!(
        execute_batch("msgs.json"),
        CommandPlan::Call {
            method: HttpMethod::Post,
            path: st("/publish/bulk"),
            query: vec![],
            body: RequestBody::InputFile(st("msgs.json")),
            render: Render::Success(st("Batch publish completed")),
        }
    );
}

#[test]
fn api_methods_are_tokens() {
    let args = ApiArgs { method: st("GET"), path: st("/topics"), data: None, file: None };
    assert_eq!(args.plan(), Ok(get("/topics", Render::Value)));
    let args = ApiArgs { method: st("get"), path: st("/x"), data: Some(st("{}")), file: Some(st("f.json")) };
    assert_eq!(
        args.plan(),
        Ok(CommandPlan::Call {
            method: HttpMethod::Other(st("get")),
            path: st("/x"),
            query: vec![],
            body: RequestBody::JsonText(st("{}")),
            render: Render::Value,
        })
    );
    let args = ApiArgs { method: st("PATCH"), path: st("/x"), data: None, file: Some(st("f.yaml")) };
    assert_eq!(
        args.plan(),
        Ok(CommandPlan::Call {
            method: HttpMethod::Other(st("PATCH")),
            path: st("/x"),
            query: vec![],
            body: RequestBody::InputFile(st("f.yaml")),
            render: Render::Value,
        })
    );
    let args = ApiArgs { method: st("GE T"), path: st("/x"), data: None, file: None };
    assert_eq!(args.plan(), Err(AppError::Other(st("Invalid HTTP method: GE T"))));
    let args = ApiArgs { method: st(""), path: st("/x"), data: None, file: None };
    assert_eq!(args.plan(), Err(AppError::Other(st("Invalid HTTP method: "))));
}

#[test]
fn config_commands_split_local_and_remote() {
    assert!(is_local_command(&ConfigCommand::GetContexts));
    assert!(!is_local_command(&ConfigCommand::Global));
    assert_eq!(ConfigCommand::GetContexts.remote_plan(), None);
    assert_eq!(
        ConfigCommand::Get { root_key: Some(st("mqtt")) }.remote_plan(),
        Some(get("/configs/mqtt", Render::Value))
    );
    assert_eq!(ConfigCommand::Get { root_key: None }.remote_plan(), Some(get("/configs", Render::Value)));
}

#[test]
fn local_config_commands_edit_the_configuration() {
    let mut c = Config::empty();
    let set = ConfigCommand::SetContext {
        name: st("red"),
        url: st("http://red.lan:18083"),
        api_key: Some(st("k")),
        api_secret: Some(st("s")),
        username: None,
        password: None,
    };
    assert_eq!(set.execute_local(&mut c), Ok(LocalOutcome::ContextSet(st("red"))));
    assert_eq!(c.current_context, Some(st("red")));
    assert_eq!(
        ConfigCommand::UseContext { name: st("red") }.execute_local(&mut c),
        Ok(LocalOutcome::ContextSwitched(st("red")))
    );
    assert_eq!(
        ConfigCommand::CurrentContext.execute_local(&mut c),
        Ok(LocalOutcome::Lines(vec![st("red")]))
    );
    assert_eq!(
        ConfigCommand::DeleteContext { name: st("blue") }.execute_local(&mut c),
        Err(AppError::Other(st("Context 'blue' not found.")))
    );
    assert_eq!(
        ConfigCommand::DeleteContext { name: st("red") }.execute_local(&mut c),
        Ok(LocalOutcome::ContextDeleted(st("red")))
    );
    assert_eq!(
        ConfigCommand::GetContexts.execute_local(&mut c),
        Ok(LocalOutcome::Lines(vec![st("No contexts configured.")]))
    );
}

#[test]
fn top_level_commands_dispatch() {
    assert_eq!(Command::Status.plan(), Some(Ok(get("/status", Render::Value))));
    assert_eq!(Command::Broker.plan(), Some(Ok(get("/nodes", Render::Value))));
    assert_eq!(Command::Metrics { node: Some(st("n1")) }.plan(), Some(Ok(get("/nodes/n1/metrics", Render::Value))));
    assert_eq!(Command::Stats { node: None }.plan(), Some(Ok(get("/stats", Render::Value))));
    assert_eq!(Command::Config(ConfigCommand::GetContexts).plan(), None);
    assert_eq!(
        Command::Config(ConfigCommand::Global).plan(),
        Some(Ok(get("/configs/global_zone", Render::Value)))
    );
    assert_eq!(
        Command::Ban(BanCommand::Delete { target: st("x") }).plan(),
        Some(Err(AppError::Other(st("Target must be in format <as>/<who>, e.g. clientid/myclient"))))
    );
}
