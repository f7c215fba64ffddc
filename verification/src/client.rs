//! The decisions of the HTTP client: request URLs and credentials, when to retry,
//! how answers become values or errors, and how pages of a list are read.
use vstd::prelude::*;
use base64::Engine;
use crate::cli::PaginationArgs;
use crate::config::{AuthMethod, ResolvedContext};
use crate::error::AppError;
use crate::json::{
    JsonValue, JsonView, json_view, views_of, field, object_field, copy_items,
    copy_json, object_set, is_sorted_object, object_fields,
};
use crate::text::{decimal, utf8_len, owned, concat2, concat3, u64_to_decimal};

verus! {

/// Paging information of a list answer.
#[derive(Debug, PartialEq)]
pub struct PaginationMeta {
    pub page: Option<u64>,
    pub limit: Option<u64>,
    pub count: Option<u64>,
    pub hasnext: Option<bool>,
    pub position: Option<String>,
}

/// The members of an error answer (`{"code": .., "reason": ..}`, with `message` accepted for `reason`).
#[derive(Debug, PartialEq)]
pub struct ErrorFields {
    pub code: Option<String>,
    pub reason: Option<String>,
}

/// How many times a request is sent again after a transient failure.
pub const MAX_RETRIES: u32 = 3;

/// The standard Base64 encoding (with padding) of the UTF-8 bytes of `text`.
pub uninterp spec fn base64_standard(text: Seq<char>) -> Seq<char>;

/// Standard Base64 (with padding) of the UTF-8 bytes of `text`.
/// Trusted: `base64::engine::general_purpose::STANDARD.encode`. Its result is named
/// `base64_standard`; the source panics only when the encoded length overflows `usize`,
/// which the bound on the input excludes.
#[verifier::external_body]
fn base64_encode_text(text: &str) -> (r: String)
    requires
        utf8_len(text@) <= usize::MAX / 2,
    ensures
        r@ == base64_standard(text@),
{
    base64::engine::general_purpose::STANDARD.encode(text.as_bytes())
}

/// The URL of an API path under a server's base URL.
pub open spec fn api_url_spec(base: Seq<char>, path: Seq<char>) -> Seq<char> {
    base + "/api/v5"@ + path
}

/// The `Authorization` value of API-key credentials: HTTP basic authentication.
pub open spec fn basic_auth_spec(key: Seq<char>, secret: Seq<char>) -> Seq<char> {
    "Basic "@ + base64_standard(key + ":"@ + secret)
}

/// Milliseconds waited before sending a request again after the failed `attempt` (0-based).
pub open spec fn retry_delay_ms(attempt: nat) -> nat
    decreases attempt,
{
    if attempt == 0 {
        500
    } else {
        2 * retry_delay_ms((attempt - 1) as nat)
    }
}

/// Whether a status is a success (2xx).
pub open spec fn is_success(status: u16) -> bool {
    200 <= status <= 299
}

/// Whether a status is a transient server error worth retrying (502, 503, 504).
pub open spec fn is_transient(status: u16) -> bool {
    status == 502 || status == 503 || status == 504
}

/// What came back from sending a request once.
#[derive(Debug, PartialEq)]
pub enum SendOutcome {
    /// The server could not be reached.
    ConnectFailed,
    /// The request timed out.
    TimedOut,
    /// Another transport failure.
    OtherFailure,
    /// An answer with this status.
    Answered(u16),
}

/// What the client does next after one send.
#[derive(Debug, PartialEq)]
pub enum RequestStep {
    /// Give up with this error.
    Fail(AppError),
    /// Give up with the transport failure as it is.
    FailTransport,
    /// Wait this many milliseconds, then send again.
    RetryAfter(u64),
    /// Forget the cached login token, then send again.
    RefreshToken,
    /// The answer has no content: the result is null.
    NoContent,
    /// Read the body and interpret it.
    ReadBody,
}

/// What the client does after the send numbered `attempt` (0-based) ended in `outcome`.
pub open spec fn request_step_spec(
    attempt: nat,
    dashboard: bool,
    url: Seq<char>,
    context_name: Seq<char>,
    outcome: SendOutcome,
    step: RequestStep,
) -> bool {
    match outcome {
        SendOutcome::ConnectFailed => step is Fail && step->Fail_0 is ConnectionFailed
            && step->Fail_0->ConnectionFailed_url@ == url,
        SendOutcome::TimedOut => step is Fail && step->Fail_0 is Timeout && step->Fail_0->Timeout_url@ == url,
        SendOutcome::OtherFailure => if attempt < MAX_RETRIES {
            step == RequestStep::RetryAfter(retry_delay_ms(attempt) as u64)
        } else {
            step is FailTransport
        },
        SendOutcome::Answered(status) => if is_transient(status) && attempt < MAX_RETRIES {
            step == RequestStep::RetryAfter(retry_delay_ms(attempt) as u64)
        } else if status == 401 {
            if dashboard && attempt == 0 {
                step is RefreshToken
            } else {
                step is Fail && step->Fail_0 is AuthFailed && step->Fail_0->AuthFailed_context@ == context_name
            }
        } else if status == 204 {
            step is NoContent
        } else {
            step is ReadBody
        },
    }
}

/// The error of an answer with a failure status: its code and reason where the body gives
/// them, else `UNKNOWN` and the body text.
pub open spec fn api_error_spec(
    status: u16,
    text: Seq<char>,
    fields: Option<ErrorFields>,
    e: AppError,
) -> bool {
    &&& e is EmqxApi
    &&& e->EmqxApi_status == status
    &&& e->EmqxApi_code@ == match fields {
        Some(f) => match f.code {
            Some(c) => c@,
            None => "UNKNOWN"@,
        },
        None => "UNKNOWN"@,
    }
    &&& e->EmqxApi_reason@ == match fields {
        Some(f) => match f.reason {
            Some(r) => r@,
            None => text,
        },
        None => text,
    }
}

/// The URL of an API path under a server's base URL.
pub fn api_url(base: &str, path: &str) -> (r: String)
    ensures
        r@ == api_url_spec(base@, path@),
{
    concat3(base, "/api/v5", path)
}

/// The `Authorization` header value for API-key credentials.
pub fn basic_auth(key: &str, secret: &str) -> (r: String)
    requires
        utf8_len(key@) + utf8_len(secret@) + 1 <= usize::MAX / 2,
    ensures
        r@ == basic_auth_spec(key@, secret@),
{
    let credentials = concat3(key, ":", secret);
    proof {
        reveal_strlit(":");
        crate::text::lemma_utf8_len_concat(key@, ":"@);
        crate::text::lemma_utf8_len_concat(key@ + ":"@, secret@);
        assert(":"@ =~= seq![':']);
        assert(seq![':'].drop_last() =~= Seq::<char>::empty());
        assert((':' as int) == 58);
        assert(crate::text::utf8_width(':') == 1);
        assert(seq![':'].last() == ':');
        assert(utf8_len(seq![':']) == utf8_len(seq![':'].drop_last()) + crate::text::utf8_width(':'));
        assert(utf8_len(seq![':']) == 1);
    }
    let encoded = base64_encode_text(credentials.as_str());
    concat2("Basic ", encoded.as_str())
}

/// The `Authorization` header value for a dashboard login token.
pub fn bearer_auth(token: &str) -> (r: String)
    ensures
        r@ == "Bearer "@ + token@,
{
    concat2("Bearer ", token)
}

/// Milliseconds to wait before sending again after the failed `attempt`.
pub fn retry_delay(attempt: u32) -> (r: u64)
    requires
        attempt < MAX_RETRIES,
    ensures
        r == retry_delay_ms(attempt as nat),
{
    let mut d: u64 = 500;
    let mut a: u32 = 0;
    while a < attempt
        invariant
            a <= attempt < MAX_RETRIES,
            d == retry_delay_ms(a as nat),
            a == 0 ==> d == 500,
            a == 1 ==> d == 1000,
            a == 2 ==> d == 2000,
        decreases attempt - a,
    {
        d = d * 2;
        a = a + 1;
    }
    d
}

/// What the client does after one send: the decision of its retry loop. Unreachable servers and
/// timeouts end the request; other transport failures and 502/503/504 answers are retried with a
/// doubling delay while retries remain; a 401 for dashboard credentials on the first send
/// refreshes the token once; 204 means no content.
pub fn request_step(
    attempt: u32,
    dashboard: bool,
    url: &str,
    context_name: &str,
    outcome: &SendOutcome,
) -> (r: RequestStep)
    requires
        attempt <= MAX_RETRIES,
    ensures
        request_step_spec(attempt as nat, dashboard, url@, context_name@, *outcome, r),
{
    match outcome {
        SendOutcome::ConnectFailed => RequestStep::Fail(AppError::ConnectionFailed { url: owned(url) }),
        SendOutcome::TimedOut => RequestStep::Fail(AppError::Timeout { url: owned(url) }),
        SendOutcome::OtherFailure => {
            if attempt < MAX_RETRIES {
                RequestStep::RetryAfter(retry_delay(attempt))
            } else {
                RequestStep::FailTransport
            }
        },
        SendOutcome::Answered(status) => {
            let status = *status;
            if (status == 502 || status == 503 || status == 504) && attempt < MAX_RETRIES {
                RequestStep::RetryAfter(retry_delay(attempt))
            } else if status == 401 {
                if dashboard && attempt == 0 {
                    RequestStep::RefreshToken
                } else {
                    RequestStep::Fail(AppError::AuthFailed { context: owned(context_name) })
                }
            } else if status == 204 {
                RequestStep::NoContent
            } else {
                RequestStep::ReadBody
            }
        },
    }
}

/// The error for an answer with a failure status.
pub fn api_error(status: u16, text: String, fields: Option<ErrorFields>) -> (r: AppError)
    ensures
        api_error_spec(status, text@, fields, r),
{
    proof { reveal_strlit("UNKNOWN"); }
    match fields {
        Some(f) => {
            let code = match f.code {
                Some(c) => c,
                None => owned("UNKNOWN"),
            };
            let reason = match f.reason {
                Some(r) => r,
                None => text,
            };
            AppError::EmqxApi { status, code, reason }
        },
        None => AppError::EmqxApi { status, code: owned("UNKNOWN"), reason: text },
    }
}

/// The value of an answer whose body was read. `fields` is the body read as an error answer and
/// `parsed` the body read as JSON (each `None` where the body is not one). A failure status gives
/// the error the body describes; otherwise an empty body is null, a JSON body is its value, and
/// any other body (such as HOCON text) is a string value.
pub fn interpret_body(status: u16, text: String, fields: Option<ErrorFields>, parsed: Option<JsonValue>) -> (r:
    Result<JsonValue, AppError>)
    ensures
        !is_success(status) ==> r is Err && api_error_spec(status, text@, fields, r->Err_0),
        is_success(status) && text@.len() == 0 ==> r is Ok && json_view(r->Ok_0) == JsonView::Null,
        is_success(status) && text@.len() > 0 ==> r is Ok && json_view(r->Ok_0) == match parsed {
            Some(v) => json_view(v),
            None => JsonView::Str(text@),
        },
{
    if !(200 <= status && status <= 299) {
        return Err(api_error(status, text, fields));
    }
    if text.as_str().unicode_len() == 0 {
        return Ok(JsonValue::Null);
    }
    match parsed {
        Some(v) => Ok(v),
        None => Ok(JsonValue::Str(text)),
    }
}

/// The value of an upload answer. A failure status gives the error the body describes; an empty
/// body is null; any other body must be JSON, and `parsed` is its reading: the value, or the
/// parser's message.
pub fn interpret_upload_body(
    status: u16,
    text: String,
    fields: Option<ErrorFields>,
    parsed: Result<JsonValue, String>,
) -> (r: Result<JsonValue, AppError>)
    ensures
        !is_success(status) ==> r is Err && api_error_spec(status, text@, fields, r->Err_0),
        is_success(status) && text@.len() == 0 ==> r is Ok && json_view(r->Ok_0) == JsonView::Null,
        is_success(status) && text@.len() > 0 ==> match parsed {
            Ok(v) => r is Ok && json_view(r->Ok_0) == json_view(v),
            Err(m) => r is Err && r->Err_0 == AppError::Other(m),
        },
{
    if !(200 <= status && status <= 299) {
        return Err(api_error(status, text, fields));
    }
    if text.as_str().unicode_len() == 0 {
        return Ok(JsonValue::Null);
    }
    match parsed {
        Ok(v) => Ok(v),
        Err(m) => Err(AppError::Other(m)),
    }
}

/// The outcome of a download or text request: failures carry the body as their reason, under
/// the code `DOWNLOAD_FAILED` for downloads and `UNKNOWN` for text.
pub fn transfer_failure(status: u16, text: String, download: bool) -> (r: Option<AppError>)
    ensures
        is_success(status) ==> r is None,
        !is_success(status) ==> r is Some && r->Some_0 is EmqxApi && r->Some_0->EmqxApi_status == status
            && r->Some_0->EmqxApi_reason@ == text@ && r->Some_0->EmqxApi_code@ == if download {
            "DOWNLOAD_FAILED"@
        } else {
            "UNKNOWN"@
        },
{
    if 200 <= status && status <= 299 {
        None
    } else {
        let code = if download {
            owned("DOWNLOAD_FAILED")
        } else {
            owned("UNKNOWN")
        };
        Some(AppError::EmqxApi { status, code, reason: text })
    }
}

/// The login request of a dashboard context: its URL and the credentials body
/// `{"password": .., "username": ..}`. Other contexts have no login.
pub fn login_request(ctx: &ResolvedContext) -> (r: Result<(String, JsonValue), AppError>)
    ensures
        match ctx.auth {
            AuthMethod::Dashboard { username, password } => r is Ok && r->Ok_0.0@ == ctx.url@
                + "/api/v5/login"@ && is_sorted_object(r->Ok_0.1) && object_fields(r->Ok_0.1)
                == Map::<Seq<char>, JsonView>::empty().insert("username"@, JsonView::Str(username@)).insert(
                "password"@,
                JsonView::Str(password@),
            ),
            AuthMethod::ApiKey { .. } => r is Err && r->Err_0 is Other && r->Err_0->Other_0@
                == "login() called on non-dashboard auth context"@,
        },
{
    match &ctx.auth {
        AuthMethod::Dashboard { username, password } => {
            let url = concat2(ctx.url.as_str(), "/api/v5/login");
            let mut body: Vec<(String, JsonValue)> = Vec::new();
            object_set(&mut body, owned("username"), JsonValue::Str(username.clone()));
            object_set(&mut body, owned("password"), JsonValue::Str(password.clone()));
            Ok((url, JsonValue::Object(body)))
        },
        AuthMethod::ApiKey { .. } => Err(AppError::Other(owned("login() called on non-dashboard auth context"))),
    }
}

/// The outcome of a login answer with `status`: anything but success means the credentials
/// were refused.
pub fn login_status(status: u16, context_name: &str) -> (r: Result<(), AppError>)
    ensures
        is_success(status) ==> r is Ok,
        !is_success(status) ==> r is Err && r->Err_0 is AuthFailed && r->Err_0->AuthFailed_context@
            == context_name@,
{
    if 200 <= status && status <= 299 {
        Ok(())
    } else {
        Err(AppError::AuthFailed { context: owned(context_name) })
    }
}

/// The text pairs of a query, as character sequences.
pub open spec fn query_view(q: Seq<(String, String)>) -> Seq<(Seq<char>, Seq<char>)> {
    q.map_values(|p: (String, String)| (p.0@, p.1@))
}

/// A list answer before its paging information is read.
#[derive(Debug, PartialEq)]
pub enum PageAnswer {
    /// An envelope `{"data": [..], "meta": {..}}`: its items, and the `meta` member still to be
    /// read as paging information.
    Envelope { items: Vec<JsonValue>, meta_json: JsonValue },
    /// Any other answer, with the paging information it stands for.
    Complete { items: Vec<JsonValue>, meta: PaginationMeta },
}

/// Paging information written out: page, limit, count, whether more follow, and the cursor.
pub open spec fn meta_is(
    m: PaginationMeta,
    page: Option<u64>,
    limit: Option<u64>,
    count: Option<u64>,
    hasnext: Option<bool>,
) -> bool {
    m.page == page && m.limit == limit && m.count == count && m.hasnext == hasnext && m.position is None
}

/// How a list answer is read: an envelope's `data` items (none where `data` is not an array);
/// a bare array as one complete page; any other value as a page holding that value alone, or,
/// for cursor listings, as an empty page. Page numbers are absent from cursor listings.
pub open spec fn page_answer_spec(resp: JsonView, cursor: bool, r: PageAnswer) -> bool {
    let envelope = match resp {
        JsonView::Object(es) => field(es, "data"@) is Some && field(es, "meta"@) is Some,
        _ => false,
    };
    if envelope {
        let es = resp->Object_0;
        &&& r is Envelope
        &&& views_of(r->Envelope_items@) == match field(es, "data"@)->0 {
            JsonView::Array(xs) => xs,
            _ => Seq::empty(),
        }
        &&& json_view(r->Envelope_meta_json) == field(es, "meta"@)->0
    } else if resp is Array {
        let xs = resp->Array_0;
        &&& r is Complete
        &&& views_of(r->Complete_items@) == xs
        &&& meta_is(
            r->Complete_meta,
            if cursor {
                None
            } else {
                Some(1)
            },
            None,
            Some(xs.len() as u64),
            Some(false),
        )
    } else if cursor {
        &&& r is Complete
        &&& r->Complete_items@.len() == 0
        &&& meta_is(r->Complete_meta, None, None, Some(0), Some(false))
    } else {
        &&& r is Complete
        &&& views_of(r->Complete_items@) == seq![resp]
        &&& meta_is(r->Complete_meta, Some(1), None, Some(1), Some(false))
    }
}

/// Reads a list answer (the shape handling of `get_paginated` and `get_cursor_paginated`).
pub fn read_page(resp: &JsonValue, cursor: bool) -> (r: PageAnswer)
    ensures
        page_answer_spec(json_view(*resp), cursor, r),
{
    proof {
        reveal_strlit("data");
        reveal_strlit("meta");
    }
    if let JsonValue::Object(es) = resp {
        proof { crate::json::lemma_object_members(*resp); }
        let data = object_field(es, "data");
        let meta = object_field(es, "meta");
        if let (Some(d), Some(m)) = (data, meta) {
            let items = match d {
                JsonValue::Array(xs) => {
                    proof { crate::json::lemma_array_items(*d); }
                    copy_items(xs)
                },
                _ => {
                    let empty: Vec<JsonValue> = Vec::new();
                    assert(views_of(empty@) =~= Seq::<JsonView>::empty());
                    empty
                },
            };
            return PageAnswer::Envelope { items, meta_json: copy_json(m) };
        }
    }
    match resp {
        JsonValue::Array(xs) => {
            proof { crate::json::lemma_array_items(*resp); }
            let items = copy_items(xs);
            let count = xs.len() as u64;
            let page = if cursor {
                None
            } else {
                Some(1u64)
            };
            PageAnswer::Complete {
                items,
                meta: PaginationMeta { page, limit: None, count: Some(count), hasnext: Some(false), position: None },
            }
        },
        _ => {
            if cursor {
                PageAnswer::Complete {
                    items: Vec::new(),
                    meta: PaginationMeta {
                        page: None,
                        limit: None,
                        count: Some(0),
                        hasnext: Some(false),
                        position: None,
                    },
                }
            } else {
                let items = vec![copy_json(resp)];
                assert(views_of(items@) =~= seq![json_view(*resp)]);
                PageAnswer::Complete {
                    items,
                    meta: PaginationMeta {
                        page: Some(1),
                        limit: None,
                        count: Some(1),
                        hasnext: Some(false),
                        position: None,
                    },
                }
            }
        },
    }
}

/// Copies of query pairs appended to `q`.
fn append_query(q: &mut Vec<(String, String)>, extra: &Vec<(String, String)>)
    ensures
        query_view(final(q)@) == query_view(old(q)@) + query_view(extra@),
{
    let ghost start = query_view(q@);
    let mut i: usize = 0;
    while i < extra.len()
        invariant
            i <= extra@.len(),
            query_view(q@) == start + query_view(extra@.take(i as int)),
        decreases extra@.len() - i,
    {
        let ghost before = q@;
        q.push((extra[i].0.clone(), extra[i].1.clone()));
        assert(query_view(q@) =~= query_view(before).push((extra@[i as int].0@, extra@[i as int].1@)));
        assert(query_view(extra@.take(i + 1)) =~= query_view(extra@.take(i as int)).push(
            (extra@[i as int].0@, extra@[i as int].1@),
        ));
        assert(query_view(q@) =~= start + query_view(extra@.take(i + 1)));
        i = i + 1;
    }
    assert(extra@.take(extra@.len() as int) =~= extra@);
}

/// The query of a numbered page: `page`, `limit`, then the listing's own filters.
pub fn page_query(page: u64, limit: u64, extra: &Vec<(String, String)>) -> (r: Vec<(String, String)>)
    ensures
        query_view(r@) == seq![("page"@, decimal(page as nat)), ("limit"@, decimal(limit as nat))]
            + query_view(extra@),
{
    let mut q: Vec<(String, String)> = Vec::new();
    q.push((owned("page"), u64_to_decimal(page)));
    q.push((owned("limit"), u64_to_decimal(limit)));
    assert(query_view(q@) =~= seq![("page"@, decimal(page as nat)), ("limit"@, decimal(limit as nat))]);
    append_query(&mut q, extra);
    q
}

/// The query of a cursor listing: `limit`, the cursor `position` if given, then the filters.
pub fn cursor_query(limit: u64, position: Option<&str>, extra: &Vec<(String, String)>) -> (r: Vec<(String, String)>)
    ensures
        query_view(r@) == seq![("limit"@, decimal(limit as nat))] + match position {
            Some(p) => seq![("position"@, p@)],
            None => Seq::empty(),
        } + query_view(extra@),
{
    let mut q: Vec<(String, String)> = Vec::new();
    q.push((owned("limit"), u64_to_decimal(limit)));
    match position {
        Some(p) => {
            q.push((owned("position"), owned(p)));
        },
        None => {},
    }
    assert(query_view(q@) =~= seq![("limit"@, decimal(limit as nat))] + match position {
        Some(p) => seq![("position"@, p@)],
        None => Seq::empty(),
    });
    append_query(&mut q, extra);
    q
}

/// The page to fetch after `page` when gathering every page: the next one while the
/// answer says more follow.
pub fn next_page(page: u64, meta: &PaginationMeta) -> (r: Option<u64>)
    requires
        meta.hasnext == Some(true) ==> page < u64::MAX,
    ensures
        r == if meta.hasnext == Some(true) {
            Some((page + 1) as u64)
        } else {
            None::<u64>
        },
{
    match meta.hasnext {
        Some(true) => Some(page + 1),
        _ => None,
    }
}

/// What a listing does after taking in one page.
#[derive(Debug, PartialEq)]
pub enum PageStep {
    /// Fetch this page next.
    Next(u64),
    /// Show the gathered items, with this paging information for the footer (none when every
    /// page was gathered).
    Done(Option<PaginationMeta>),
}

/// The page a listing fetches after page `page`: the next one while every page is gathered and
/// the answer says more follow, else none (the listing is shown).
pub open spec fn page_after(pagination: PaginationArgs, page: u64, meta: PaginationMeta) -> Option<u64> {
    if pagination.all && meta.hasnext == Some(true) {
        Some((page + 1) as u64)
    } else {
        None
    }
}

/// The page a listing fetches first: the first page when gathering every page, else the page
/// asked for.
pub fn first_page(pagination: PaginationArgs) -> (r: u64)
    ensures
        r == if pagination.all {
            1
        } else {
            pagination.page
        },
{
    if pagination.all {
        1
    } else {
        pagination.page
    }
}

/// Takes in the items and paging information of page `page` of a listing: its items join the
/// gathered ones. When gathering every page (`--all`), the next page follows while the answer
/// says more follow, and at the end everything is shown without a footer; otherwise the one
/// page is shown with its paging information for the footer.
pub fn gather_page(
    pagination: PaginationArgs,
    page: u64,
    gathered: &mut Vec<JsonValue>,
    items: Vec<JsonValue>,
    meta: PaginationMeta,
) -> (r: PageStep)
    requires
        pagination.all && meta.hasnext == Some(true) ==> page < u64::MAX,
    ensures
        final(gathered)@ == old(gathered)@ + items@,
        r is Next <==> page_after(pagination, page, meta) is Some,
        r is Next ==> page_after(pagination, page, meta) == Some(r->Next_0),
        !pagination.all ==> r == PageStep::Done(Some(meta)),
        pagination.all && meta.hasnext == Some(true) ==> r == PageStep::Next((page + 1) as u64),
        pagination.all && meta.hasnext != Some(true) ==> r == PageStep::Done(None),
{
    let mut items = items;
    gathered.append(&mut items);
    if !pagination.all {
        return PageStep::Done(Some(meta));
    }
    match next_page(page, &meta) {
        Some(p) => PageStep::Next(p),
        None => PageStep::Done(None),
    }
}

} // verus!