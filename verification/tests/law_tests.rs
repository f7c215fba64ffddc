use emqxctl::client::{request_step, retry_delay, RequestStep, SendOutcome, MAX_RETRIES};
use emqxctl::commands::config_cmd::{is_local_command, ConfigCommand};
use emqxctl::config::{Config, ContextConfig, TokenCache};
use emqxctl::output::OutputFormatter;
use emqxctl::client::PaginationMeta;
use emqxctl::text::urlencoding_simple;
use emqxctl::json::{extract, object_set, JsonValue};

fn ctx(url: &str) -> ContextConfig {
    ContextConfig { url: url.to_string(), api_key: Some("k".to_string()), api_secret: Some("s".to_string()), username: None, password: None }
}

#[test]
fn resolution_order_on_values() {
    let mut c = Config::empty();
    c.set_context("a".to_string(), ctx("http://a"));
    c.set_context("b".to_string(), ctx("http://b"));
    c.set_context("c".to_string(), ctx("http://c"));
    assert_eq!(c.resolve_context(Some("b"), Some("c")).unwrap().name, "b");
    assert_eq!(c.resolve_context(None, Some("c")).unwrap().name, "c");
    assert_eq!(c.resolve_context(None, None).unwrap().name, "a");
}

#[test]
fn read_after_write_and_delete_on_values() {
    let mut c = Config::empty();
    c.set_context("x".to_string(), ctx("http://1"));
    c.set_context("y".to_string(), ctx("http://2"));
    assert_eq!(c.get_context("x"), Some(&ctx("http://1")));
    c.set_context("z".to_string(), ctx("http://3"));
    assert_eq!(c.delete_context("z"), Ok(()));
    assert_eq!(c.get_context("z"), None);
    assert_eq!(c.contexts.len(), 2);
    assert_eq!(c.get_context("y"), Some(&ctx("http://2")));
}

#[test]
fn retries_end_after_the_last_attempt() {
    for attempt in 0..=MAX_RETRIES {
        for outcome in [SendOutcome::OtherFailure, SendOutcome::Answered(503), SendOutcome::Answered(401)] {
            let step = request_step(attempt, true, "u", "c", &outcome);
            if let RequestStep::RetryAfter(_) = step {
                assert!(attempt < MAX_RETRIES);
            }
            if step == RequestStep::RefreshToken {
                assert_eq!(attempt, 0);
            }
        }
    }
    assert_eq!(retry_delay(1), 2 * retry_delay(0));
    assert_eq!(retry_delay(2), 2 * retry_delay(1));
}

#[test]
fn token_lifetime_on_values() {
    let t = 1_700_000_000;
    let cached = TokenCache { token: "tok".to_string(), expires_at: Config::token_expiry_at(t) };
    assert!(Config::fresh_token_at(Some(cached), t + 7199).is_some());
    let cached = TokenCache { token: "tok".to_string(), expires_at: Config::token_expiry_at(t) };
    assert!(Config::fresh_token_at(Some(cached), t + 7200).is_none());
}

#[test]
fn escaped_topics_are_single_segments() {
    let e = urlencoding_simple("a/b+#c");
    assert!(!e.contains('/') && !e.contains('#') && !e.contains('+'));
    assert_eq!(urlencoding_simple("abc"), "abc");
}

#[test]
fn local_and_remote_config_commands_partition() {
    let cmds = vec![
        ConfigCommand::GetContexts,
        ConfigCommand::CurrentContext,
        ConfigCommand::UseContext { name: "a".to_string() },
        ConfigCommand::DeleteContext { name: "a".to_string() },
        ConfigCommand::Global,
        ConfigCommand::Reset { root_key: "mqtt".to_string() },
        ConfigCommand::Get { root_key: None },
        ConfigCommand::Update { root_key: "mqtt".to_string(), file: "f".to_string() },
    ];
    for c in cmds {
        assert_eq!(is_local_command(&c), c.remote_plan().is_none());
    }
}

#[test]
fn footer_page_counts_on_values() {
    let m = PaginationMeta { page: Some(1), limit: Some(10), count: Some(21), hasnext: None, position: None };
    assert_eq!(OutputFormatter::page_footer(&m), Some("--- Page 1/3 (21 total) ---".to_string()));
    let m = PaginationMeta { page: Some(1), limit: Some(10), count: Some(20), hasnext: None, position: None };
    assert_eq!(OutputFormatter::page_footer(&m), Some("--- Page 1/2 (20 total) ---".to_string()));
}

#[test]
fn stored_members_are_read_back() {
    let mut es = Vec::new();
    object_set(&mut es, "status".to_string(), JsonValue::Str("old".to_string()));
    object_set(&mut es, "node".to_string(), JsonValue::Str("n1".to_string()));
    object_set(&mut es, "status".to_string(), JsonValue::Bool(true));
    let v = JsonValue::Object(es);
    assert_eq!(extract(&v, "status"), "true");
    assert_eq!(extract(&v, "node"), "n1");
}

#[test]
fn ascii_text_truncates_to_the_width() {
    assert_eq!(OutputFormatter::truncate("abcdefgh", 5), "ab...");
    assert_eq!(OutputFormatter::truncate("abcdefgh", 3), "abc");
    assert_eq!(OutputFormatter::truncate("abc", 5), "abc");
    assert!(OutputFormatter::can_truncate("abcdefgh", 1));
    assert_eq!(OutputFormatter::truncate("abcdefgh", 5).len(), 5);
}
