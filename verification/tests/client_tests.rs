use emqxctl::cli::PaginationArgs;
use emqxctl::client::{first_page, gather_page, PageStep};
use emqxctl::client::{
    api_error, api_url, basic_auth, bearer_auth, cursor_query, interpret_body, interpret_upload_body,
    login_request, login_status, next_page, page_query, read_page, request_step, retry_delay,
    transfer_failure, ErrorFields, PageAnswer, PaginationMeta, RequestStep, SendOutcome,
};
use emqxctl::config::{AuthMethod, ResolvedContext};
use emqxctl::error::AppError;
use emqxctl::json::{object_set, JsonValue};

fn obj(members: Vec<(&str, JsonValue)>) -> JsonValue {
    let mut es = Vec::new();
    for (k, v) in members {
        object_set(&mut es, k.to_string(), v);
    }
    JsonValue::Object(es)
}

fn q(pairs: &[(&str, &str)]) -> Vec<(String, String)> {
    pairs.iter().map(|(a, b)| (a.to_string(), b.to_string())).collect()
}

#[test]
fn urls_and_credentials() {
    assert_eq!(api_url("http://red.lan:18083", "/clients"), "http://red.lan:18083/api/v5/clients");
    assert_eq!(basic_auth("key", "secret"), "Basic a2V5OnNlY3JldA==");
    assert_eq!(basic_auth("", ""), "Basic Og==");
    assert_eq!(bearer_auth("tok"), "Bearer tok");
}

#[test]
fn retry_delays_double_from_half_a_second() {
    assert_eq!(retry_delay(0), 500);
    assert_eq!(retry_delay(1), 1000);
    assert_eq!(retry_delay(2), 2000);
}

#[test]
fn transport_failures() {
    assert_eq!(
        request_step(0, false, "u", "c", &SendOutcome::ConnectFailed),
        RequestStep::Fail(AppError::ConnectionFailed { url: "u".to_string() })
    );
    assert_eq!(
        request_step(2, true, "u", "c", &SendOutcome::TimedOut),
        RequestStep::Fail(AppError::Timeout { url: "u".to_string() })
    );
    assert_eq!(request_step(1, false, "u", "c", &SendOutcome::OtherFailure), RequestStep::RetryAfter(1000));
    assert_eq!(request_step(3, false, "u", "c", &SendOutcome::OtherFailure), RequestStep::FailTransport);
}

#[test]
fn status_decisions() {
    assert_eq!(request_step(0, false, "u", "c", &SendOutcome::Answered(503)), RequestStep::RetryAfter(500));
    assert_eq!(request_step(3, false, "u", "c", &SendOutcome::Answered(502)), RequestStep::ReadBody);
    assert_eq!(request_step(0, true, "u", "c", &SendOutcome::Answered(401)), RequestStep::RefreshToken);
    assert_eq!(
        request_step(1, true, "u", "ctx", &SendOutcome::Answered(401)),
        RequestStep::Fail(AppError::AuthFailed { context: "ctx".to_string() })
    );
    assert_eq!(
        request_step(0, false, "u", "ctx", &SendOutcome::Answered(401)),
        RequestStep::Fail(AppError::AuthFailed { context: "ctx".to_string() })
    );
    assert_eq!(request_step(0, false, "u", "c", &SendOutcome::Answered(204)), RequestStep::NoContent);
    assert_eq!(request_step(0, false, "u", "c", &SendOutcome::Answered(200)), RequestStep::ReadBody);
    assert_eq!(request_step(0, false, "u", "c", &SendOutcome::Answered(404)), RequestStep::ReadBody);
}

#[test]
fn api_errors_carry_status_code_and_reason() {
    let e = api_error(
        404,
        "{...}".to_string(),
        Some(ErrorFields { code: Some("NOT_FOUND".to_string()), reason: Some("Client not found".to_string()) }),
    );
    assert_eq!(e, AppError::EmqxApi { status: 404, code: "NOT_FOUND".to_string(), reason: "Client not found".to_string() });
    assert_eq!(e.message(), "EMQX API error (404): [NOT_FOUND] Client not found");
    let e = api_error(500, "boom".to_string(), None);
    assert_eq!(e, AppError::EmqxApi { status: 500, code: "UNKNOWN".to_string(), reason: "boom".to_string() });
    let e = api_error(400, "raw".to_string(), Some(ErrorFields { code: None, reason: None }));
    assert_eq!(e, AppError::EmqxApi { status: 400, code: "UNKNOWN".to_string(), reason: "raw".to_string() });
}

#[test]
fn bodies_become_values() {
    assert_eq!(interpret_body(200, String::new(), None, None), Ok(JsonValue::Null));
    assert_eq!(
        interpret_body(200, "{\"a\":1}".to_string(), None, Some(obj(vec![("a", JsonValue::Number("1".to_string()))]))),
        Ok(obj(vec![("a", JsonValue::Number("1".to_string()))]))
    );
    assert_eq!(
        interpret_body(200, "mqtt {}".to_string(), None, None),
        Ok(JsonValue::Str("mqtt {}".to_string()))
    );
    assert_eq!(
        interpret_body(503, "down".to_string(), None, None),
        Err(AppError::EmqxApi { status: 503, code: "UNKNOWN".to_string(), reason: "down".to_string() })
    );
    assert_eq!(
        interpret_upload_body(200, "x".to_string(), None, Err("expected value".to_string())),
        Err(AppError::Other("expected value".to_string()))
    );
    assert_eq!(interpret_upload_body(201, String::new(), None, Err("e".to_string())), Ok(JsonValue::Null));
}

#[test]
fn transfers_fail_with_their_code() {
    assert_eq!(transfer_failure(200, "x".to_string(), true), None);
    assert_eq!(
        transfer_failure(404, "gone".to_string(), true),
        Some(AppError::EmqxApi { status: 404, code: "DOWNLOAD_FAILED".to_string(), reason: "gone".to_string() })
    );
    assert_eq!(
        transfer_failure(500, "e".to_string(), false),
        Some(AppError::EmqxApi { status: 500, code: "UNKNOWN".to_string(), reason: "e".to_string() })
    );
}

#[test]
fn login_for_dashboard_contexts_only() {
    let ctx = ResolvedContext {
        name: "prod".to_string(),
        url: "https://emqx".to_string(),
        auth: AuthMethod::Dashboard { username: "admin".to_string(), password: "pw".to_string() },
    };
    let (url, body) = login_request(&ctx).unwrap();
    assert_eq!(url, "https://emqx/api/v5/login");
    assert_eq!(
        body,
        obj(vec![("username", JsonValue::Str("admin".to_string())), ("password", JsonValue::Str("pw".to_string()))])
    );
    let ctx = ResolvedContext {
        name: "red".to_string(),
        url: "http://red".to_string(),
        auth: AuthMethod::ApiKey { key: "k".to_string(), secret: "s".to_string() },
    };
    assert_eq!(
        login_request(&ctx).unwrap_err(),
        AppError::Other("login() called on non-dashboard auth context".to_string())
    );
    assert_eq!(login_status(200, "prod"), Ok(()));
    assert_eq!(login_status(401, "prod"), Err(AppError::AuthFailed { context: "prod".to_string() }));
}

#[test]
fn page_queries() {
    assert_eq!(page_query(2, 50, &q(&[("username", "bob")])), q(&[("page", "2"), ("limit", "50"), ("username", "bob")]));
    assert_eq!(cursor_query(100, Some("abc"), &Vec::new()), q(&[("limit", "100"), ("position", "abc")]));
    assert_eq!(cursor_query(10, None, &Vec::new()), q(&[("limit", "10")]));
}

#[test]
fn pages_are_read_from_envelopes_and_arrays() {
    let env = obj(vec![
        ("data", JsonValue::Array(vec![JsonValue::Str("a".to_string())])),
        ("meta", obj(vec![("page", JsonValue::Number("1".to_string()))])),
    ]);
    match read_page(&env, false) {
        PageAnswer::Envelope { items, meta_json } => {
            assert_eq!(items, vec![JsonValue::Str("a".to_string())]);
            assert_eq!(meta_json, obj(vec![("page", JsonValue::Number("1".to_string()))]));
        }
        other => panic!("unexpected {:?}", other),
    }
    let arr = JsonValue::Array(vec![JsonValue::Null, JsonValue::Null]);
    assert_eq!(
        read_page(&arr, false),
        PageAnswer::Complete {
            items: vec![JsonValue::Null, JsonValue::Null],
            meta: PaginationMeta { page: Some(1), limit: None, count: Some(2), hasnext: Some(false), position: None },
        }
    );
    assert_eq!(
        read_page(&JsonValue::Str("x".to_string()), false),
        PageAnswer::Complete {
            items: vec![JsonValue::Str("x".to_string())],
            meta: PaginationMeta { page: Some(1), limit: None, count: Some(1), hasnext: Some(false), position: None },
        }
    );
    assert_eq!(
        read_page(&JsonValue::Str("x".to_string()), true),
        PageAnswer::Complete {
            items: vec![],
            meta: PaginationMeta { page: None, limit: None, count: Some(0), hasnext: Some(false), position: None },
        }
    );
}

#[test]
fn gathering_pages_stops_when_no_more_follow() {
    let more = PaginationMeta { page: Some(1), limit: Some(100), count: Some(250), hasnext: Some(true), position: None };
    assert_eq!(next_page(1, &more), Some(2));
    let last = PaginationMeta { page: Some(3), limit: Some(100), count: Some(250), hasnext: Some(false), position: None };
    assert_eq!(next_page(3, &last), None);
    let unknown = PaginationMeta { page: None, limit: None, count: None, hasnext: None, position: None };
    assert_eq!(next_page(1, &unknown), None);
}

#[test]
fn one_page_is_shown_with_its_footer() {
    let p = PaginationArgs { page: 2, limit: 10, all: false };
    assert_eq!(first_page(p), 2);
    let mut gathered = Vec::new();
    let meta = PaginationMeta { page: Some(2), limit: Some(10), count: Some(25), hasnext: Some(true), position: None };
    let step = gather_page(p, 2, &mut gathered, vec![JsonValue::Null], meta);
    assert_eq!(
        step,
        PageStep::Done(Some(PaginationMeta { page: Some(2), limit: Some(10), count: Some(25), hasnext: Some(true), position: None }))
    );
    assert_eq!(gathered, vec![JsonValue::Null]);
}

#[test]
fn all_pages_are_gathered_in_order_without_a_footer() {
    let p = PaginationArgs { page: 5, limit: 1, all: true };
    assert_eq!(first_page(p), 1);
    let mut gathered = Vec::new();
    let more = |page| PaginationMeta { page: Some(page), limit: Some(1), count: Some(2), hasnext: Some(true), position: None };
    assert_eq!(gather_page(p, 1, &mut gathered, vec![JsonValue::Str("a".to_string())], more(1)), PageStep::Next(2));
    let last = PaginationMeta { page: Some(2), limit: Some(1), count: Some(2), hasnext: Some(false), position: None };
    assert_eq!(gather_page(p, 2, &mut gathered, vec![JsonValue::Str("b".to_string())], last), PageStep::Done(None));
    assert_eq!(gathered, vec![JsonValue::Str("a".to_string()), JsonValue::Str("b".to_string())]);
}
