//! What a request does with each way a send can end, and how answers become errors and pages.
use vstd::prelude::*;
use vstd::arithmetic::power2::pow2;
use crate::client::{
    request_step_spec, api_error_spec, page_answer_spec, RequestStep, SendOutcome, ErrorFields,
    PageAnswer,
};
use crate::error::AppError;
use crate::json::{JsonView, field, json_view};
use crate::laws::law_retry_delay_doubles;

verus! {

/// A send that cannot reach the server ends the request with a connection error naming the URL,
/// one that times out with a timeout error naming the URL, whatever the attempt; any other
/// transport failure is sent again after `500 * 2^attempt` milliseconds while fewer than three
/// retries were made, and ends the request with that failure after the third.
pub proof fn law_transport_failures(
    attempt: nat,
    dashboard: bool,
    url: Seq<char>,
    context_name: Seq<char>,
    outcome: SendOutcome,
    step: RequestStep,
)
    requires
        request_step_spec(attempt, dashboard, url, context_name, outcome, step),
    ensures
        outcome is ConnectFailed ==> step is Fail && step->Fail_0 is ConnectionFailed
            && step->Fail_0->ConnectionFailed_url@ == url,
        outcome is TimedOut ==> step is Fail && step->Fail_0 is Timeout && step->Fail_0->Timeout_url@ == url,
        outcome is OtherFailure && attempt < 3 ==> step == RequestStep::RetryAfter((500 * pow2(attempt)) as u64),
        outcome is OtherFailure && attempt >= 3 ==> step is FailTransport,
{
    law_retry_delay_doubles(attempt);
}

/// What an answer with `status` leads to: 401 refreshes a dashboard login token once, after the
/// first send, and otherwise fails the request with an authentication error naming the context;
/// 204 means no content; every other status that is not retried (success, client errors,
/// other server errors, and 502/503/504 after the third retry) has its body read.
pub proof fn law_answer_statuses(
    attempt: nat,
    dashboard: bool,
    url: Seq<char>,
    context_name: Seq<char>,
    status: u16,
    step: RequestStep,
)
    requires
        request_step_spec(attempt, dashboard, url, context_name, SendOutcome::Answered(status), step),
    ensures
        status == 401 && dashboard && attempt == 0 ==> step is RefreshToken,
        status == 401 && !(dashboard && attempt == 0) ==> step is Fail && step->Fail_0 is AuthFailed
            && step->Fail_0->AuthFailed_context@ == context_name,
        status == 204 ==> step is NoContent,
        (200 <= status <= 299 && status != 204) ==> step is ReadBody,
        (400 <= status <= 499 && status != 401) ==> step is ReadBody,
        (500 <= status <= 599 && status != 502 && status != 503 && status != 504) ==> step is ReadBody,
        (status == 502 || status == 503 || status == 504) && attempt >= 3 ==> step is ReadBody,
        step is Fail ==> status == 401,
{
}

/// The error of a failure answer carries its status, the code and reason the body gives, and
/// `UNKNOWN` for a missing code and the whole body text for a missing reason.
pub proof fn law_error_answer_fields(status: u16, text: Seq<char>, fields: Option<ErrorFields>, e: AppError)
    requires
        api_error_spec(status, text, fields, e),
    ensures
        e is EmqxApi,
        e->EmqxApi_status == status,
        fields is Some && fields->0.code is Some ==> e->EmqxApi_code@ == fields->0.code->0@,
        fields is Some && fields->0.reason is Some ==> e->EmqxApi_reason@ == fields->0.reason->0@,
        (fields is None || fields->0.code is None) ==> e->EmqxApi_code@ == "UNKNOWN"@,
        (fields is None || fields->0.reason is None) ==> e->EmqxApi_reason@ == text,
{
}

/// Whether an answer is an envelope `{"data": .., "meta": ..}`.
pub open spec fn is_envelope(resp: JsonView) -> bool {
    match resp {
        JsonView::Object(es) => field(es, "data"@) is Some && field(es, "meta"@) is Some,
        _ => false,
    }
}

/// An envelope whose `data` is not an array has no items; an answer that is neither an envelope
/// nor an array is a page holding that answer alone (page 1 of 1 item), or, for a cursor
/// listing, an empty page.
pub proof fn law_other_answers_as_pages(resp: JsonView, cursor: bool, r: PageAnswer)
    requires
        page_answer_spec(resp, cursor, r),
        !(resp is Array),
    ensures
        is_envelope(resp) ==> r is Envelope,
        is_envelope(resp) && !(field(resp->Object_0, "data"@)->0 is Array) ==> r->Envelope_items@.len() == 0,
        !is_envelope(resp) && !cursor ==> {
            &&& r is Complete
            &&& r->Complete_items@.len() == 1
            &&& json_view(r->Complete_items@[0]) == resp
            &&& r->Complete_meta.page == Some(1u64)
            &&& r->Complete_meta.count == Some(1u64)
            &&& r->Complete_meta.hasnext == Some(false)
        },
        !is_envelope(resp) && cursor ==> {
            &&& r is Complete
            &&& r->Complete_items@.len() == 0
            &&& r->Complete_meta.page is None
            &&& r->Complete_meta.count == Some(0u64)
            &&& r->Complete_meta.hasnext == Some(false)
        },
{
    if !is_envelope(resp) && !cursor {
        assert(r is Complete);
        assert(crate::json::views_of(r->Complete_items@) == seq![resp]);
        assert(crate::json::views_of(r->Complete_items@).len() == 1);
        assert(crate::json::views_of(r->Complete_items@)[0] == resp);
        assert(crate::client::meta_is(r->Complete_meta, Some(1), None, Some(1), Some(false)));
    }
    if is_envelope(resp) && !(field(resp->Object_0, "data"@)->0 is Array) {
        assert(crate::json::views_of(r->Envelope_items@).len() == 0);
    }
}

} // verus!
