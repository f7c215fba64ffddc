use emqxctl::error::AppError;
use emqxctl::input::{read_input_value, reads_stdin};
use emqxctl::json::JsonValue;

#[test]
fn error_messages() {
    assert_eq!(AppError::ContextNotFound("x".to_string()).message(), "Context 'x' not found");
    assert_eq!(AppError::NoContext.message(), "No context set. Use `emqxctl config set-context` or --context");
    assert_eq!(
        AppError::AuthFailed { context: "prod".to_string() }.message(),
        "Authentication failed for context 'prod'"
    );
    assert_eq!(AppError::ConnectionFailed { url: "http://h".to_string() }.message(), "Connection failed: http://h");
    assert_eq!(AppError::Timeout { url: "http://h".to_string() }.message(), "Request timed out: http://h");
    assert_eq!(AppError::InvalidConfig("bad".to_string()).message(), "Invalid configuration: bad");
    assert_eq!(AppError::FileNotFound("f".to_string()).message(), "File not found: f");
    assert_eq!(AppError::InvalidInput("i".to_string()).message(), "Invalid input: i");
    assert_eq!(AppError::Other("plain".to_string()).message(), "plain");
    assert_eq!(
        AppError::EmqxApi { status: 400, code: "BAD_REQUEST".to_string(), reason: "nope".to_string() }.message(),
        "EMQX API error (400): [BAD_REQUEST] nope"
    );
}

#[test]
fn error_hints() {
    assert_eq!(
        AppError::ContextNotFound("x".to_string()).hint(),
        Some(
            "Available contexts can be listed with: emqxctl config get-contexts\nCreate one with: emqxctl config set-context x --url <url> --api-key <key> --api-secret <secret>"
                .to_string()
        )
    );
    assert_eq!(
        AppError::ConnectionFailed { url: "http://h".to_string() }.hint(),
        Some(
            "Could not connect to http://h. Check that:\n- The EMQX dashboard is running\n- The URL is correct (default port is 18083)\n- Network/firewall allows the connection\n- The --context configuration points at the right instance (see: emqxctl config get-contexts)"
                .to_string()
        )
    );
    assert!(AppError::NoContext.hint().is_some());
    assert!(AppError::AuthFailed { context: "c".to_string() }.hint().is_some());
    assert_eq!(AppError::Timeout { url: "u".to_string() }.hint(), None);
    assert_eq!(AppError::Other("o".to_string()).hint(), None);
}

#[test]
fn inputs_are_json_first_then_yaml() {
    assert!(reads_stdin("-"));
    assert!(!reads_stdin("file.json"));
    let j = JsonValue::Str("json".to_string());
    let y = JsonValue::Str("yaml".to_string());
    assert_eq!(read_input_value("f", Some(JsonValue::Str("json".to_string())), Some(y)), Ok(j));
    assert_eq!(
        read_input_value("f", None, Some(JsonValue::Str("yaml".to_string()))),
        Ok(JsonValue::Str("yaml".to_string()))
    );
    assert_eq!(
        read_input_value("in.txt", None, None),
        Err(AppError::InvalidInput("Could not parse 'in.txt' as JSON or YAML".to_string()))
    );
    assert_eq!(
        read_input_value("-", None, None),
        Err(AppError::InvalidInput("Could not parse 'stdin' as JSON or YAML".to_string()))
    );
}
