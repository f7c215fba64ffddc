use emqxctl::config::{AuthMethod, Config, ContextConfig, TokenCache, TOKEN_TTL_SECS};
use emqxctl::error::AppError;

fn api_key_ctx(url: &str) -> ContextConfig {
    ContextConfig {
        url: url.to_string(),
        api_key: Some("key_abc123".to_string()),
        api_secret: Some("secret_xyz".to_string()),
        username: None,
        password: None,
    }
}

fn dashboard_ctx(url: &str) -> ContextConfig {
    ContextConfig {
        url: url.to_string(),
        api_key: None,
        api_secret: None,
        username: Some("admin".to_string()),
        password: Some("changeme".to_string()),
    }
}

fn sample() -> Config {
    let mut c = Config::empty();
    c.set_context("red".to_string(), api_key_ctx("http://red.lan:18083/"));
    c.set_context("prod".to_string(), dashboard_ctx("https://emqx.example.com:18083"));
    c.set_context("broken".to_string(), ContextConfig {
        url: "http://x".to_string(),
        api_key: Some("k".to_string()),
        api_secret: None,
        username: None,
        password: None,
    });
    c
}

#[test]
fn first_context_becomes_current() {
    let c = sample();
    assert_eq!(c.current_context, Some("red".to_string()));
    let names: Vec<&str> = c.contexts.iter().map(|(n, _)| n.as_str()).collect();
    assert_eq!(names, vec!["broken", "prod", "red"]);
}

#[test]
fn set_then_get_returns_the_profile() {
    let mut c = sample();
    assert_eq!(c.get_context("prod"), Some(&dashboard_ctx("https://emqx.example.com:18083")));
    c.set_context("prod".to_string(), api_key_ctx("http://new"));
    assert_eq!(c.get_context("prod"), Some(&api_key_ctx("http://new")));
    assert_eq!(c.contexts.len(), 3);
    assert_eq!(c.get_context("nope"), None);
}

#[test]
fn use_context_switches_or_fails() {
    let mut c = sample();
    assert_eq!(c.use_context("prod"), Ok(()));
    assert_eq!(c.current_context, Some("prod".to_string()));
    let err = c.use_context("staging").unwrap_err();
    assert_eq!(
        err,
        AppError::Other(
            "Context 'staging' not found. Use `emqxctl config get-contexts` to see available contexts.".to_string()
        )
    );
    assert_eq!(c.current_context, Some("prod".to_string()));
}

#[test]
fn delete_context_clears_current_when_it_was_current() {
    let mut c = sample();
    assert_eq!(c.delete_context("red"), Ok(()));
    assert_eq!(c.current_context, None);
    assert_eq!(c.get_context("red"), None);
    assert_eq!(c.delete_context("red"), Err(AppError::Other("Context 'red' not found.".to_string())));
    let mut d = sample();
    assert_eq!(d.delete_context("prod"), Ok(()));
    assert_eq!(d.current_context, Some("red".to_string()));
}

#[test]
fn context_listing_marks_current() {
    let c = sample();
    let lines = c.context_lines();
    assert_eq!(lines.len(), 4);
    assert_eq!(lines[0], "     NAME                 URL");
    assert_eq!(lines[1], "     broken               http://x (api-key)");
    assert_eq!(lines[2], "     prod                 https://emqx.example.com:18083 (dashboard)");
    assert_eq!(lines[3], "*    red                  http://red.lan:18083/ (api-key)");
    assert_eq!(Config::empty().context_lines(), vec!["No contexts configured.".to_string()]);
    assert_eq!(c.current_context_line(), "red");
    assert_eq!(Config::empty().current_context_line(), "No current context set.");
}

#[test]
fn resolution_prefers_flag_then_environment_then_current() {
    let c = sample();
    let r = c.resolve_context(Some("prod"), Some("red")).unwrap();
    assert_eq!(r.name, "prod");
    assert_eq!(
        r.auth,
        AuthMethod::Dashboard { username: "admin".to_string(), password: "changeme".to_string() }
    );
    let r = c.resolve_context(None, Some("prod")).unwrap();
    assert_eq!(r.name, "prod");
    let r = c.resolve_context(None, None).unwrap();
    assert_eq!(r.name, "red");
    assert_eq!(r.url, "http://red.lan:18083");
    assert_eq!(
        r.auth,
        AuthMethod::ApiKey { key: "key_abc123".to_string(), secret: "secret_xyz".to_string() }
    );
}

#[test]
fn resolution_errors() {
    let c = sample();
    assert_eq!(c.resolve_context(None, Some("")).unwrap_err(), AppError::NoContext);
    assert_eq!(Config::empty().resolve_context(None, None).unwrap_err(), AppError::NoContext);
    assert_eq!(
        c.resolve_context(Some("staging"), None).unwrap_err(),
        AppError::ContextNotFound("staging".to_string())
    );
    assert_eq!(
        c.resolve_context(Some("broken"), None).unwrap_err(),
        AppError::InvalidConfig(
            "Context 'broken' has no valid auth configuration. Provide api_key+api_secret or username+password."
                .to_string()
        )
    );
}

#[test]
fn from_entries_keeps_the_last_of_each_name() {
    let c = Config::from_entries(
        vec![
            ("b".to_string(), api_key_ctx("http://b1")),
            ("a".to_string(), api_key_ctx("http://a")),
            ("b".to_string(), api_key_ctx("http://b2")),
        ],
        Some("a".to_string()),
    );
    assert_eq!(c.contexts.len(), 2);
    assert_eq!(c.get_context("b"), Some(&api_key_ctx("http://b2")));
    assert_eq!(c.current_context, Some("a".to_string()));
}

#[test]
fn file_locations() {
    assert_eq!(Config::config_path("/home/u/.emqxctl"), "/home/u/.emqxctl/config.yaml");
    assert_eq!(Config::cache_dir("/home/u/.emqxctl/"), "/home/u/.emqxctl/cache");
    assert_eq!(Config::token_cache_path("/c", "prod"), "/c/prod_token");
}

#[test]
fn tokens_are_used_until_they_expire() {
    let t = TokenCache { token: "tok".to_string(), expires_at: Config::token_expiry_at(1_000) };
    assert_eq!(t.expires_at, 1_000 + TOKEN_TTL_SECS);
    assert_eq!(
        Config::fresh_token_at(Some(TokenCache { token: "tok".to_string(), expires_at: 8_200 }), 8_199),
        Some(TokenCache { token: "tok".to_string(), expires_at: 8_200 })
    );
    assert_eq!(Config::fresh_token_at(Some(t), 8_200), None);
    assert_eq!(Config::fresh_token_at(None, 0), None);
}

#[test]
fn token_expiry_is_two_hours_from_now() {
    let e = Config::token_expiry();
    assert!(e > 1_600_000_000 + TOKEN_TTL_SECS);
    let stored = TokenCache { token: "t".to_string(), expires_at: e };
    assert!(Config::fresh_token(Some(stored)).is_some());
    let stale = TokenCache { token: "t".to_string(), expires_at: 1 };
    assert_eq!(Config::fresh_token(Some(stale)), None);
}
