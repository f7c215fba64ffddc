//! Properties that hold across the operations of the library, stated over the spec functions
//! that the operations' own contracts use.
use vstd::prelude::*;
use vstd::arithmetic::power2::{pow2, lemma_pow2_unfold};
use crate::cli::PaginationArgs;
use crate::client::{page_after, PaginationMeta, request_step_spec, retry_delay_ms, RequestStep, SendOutcome, MAX_RETRIES};
use crate::commands::config_cmd::{ConfigCommand, is_local, config_remote_plan};
use crate::config::{chosen_context, ContextConfig, TokenCache, TOKEN_TTL_SECS, is_fresh};
use crate::json::{JsonValue, JsonView, extracted, field, fields_of, members_view, cell_text, json_view, views_of};
use crate::client::{PageAnswer, page_answer_spec};
use crate::plan::{PlanView, MethodView, BodyView, RenderView};
use crate::commands::clients::{ClientCommand, client_plan};
use crate::commands::subscription::{SubscriptionCommand, subscription_plan};
use crate::sorted::{keys_sorted, has_key, key_index, lemma_sorted_unique};
use crate::text::split_on;
use crate::output::{Column, cell_for, total_pages, truncatable, truncated, is_boundary, cut_point};
use crate::text::{utf8_len, utf8_width};
use crate::text::{url_escaped, escape_char};

pub mod requests;
pub mod display;
pub mod profiles;
pub mod command_laws;

verus! {

/// The context a command runs against is the one named by the `--context` flag; without the
/// flag, the one named by `EMQXCTL_CONTEXT` (none when it is set but empty); without either,
/// the configuration's current context.
pub proof fn law_context_resolution_order(
    flag: Option<Seq<char>>,
    env: Option<Seq<char>>,
    current: Option<Seq<char>>,
)
    ensures
        flag is Some ==> chosen_context(flag, env, current) == flag,
        flag is None && env is Some && env->0.len() > 0 ==> chosen_context(flag, env, current) == env,
        flag is None && env is Some && env->0.len() == 0 ==> chosen_context(flag, env, current) is None,
        flag is None && env is None ==> chosen_context(flag, env, current) == current,
{
}

/// Reading a context back after storing it gives the stored profile, and every other context
/// is as it was.
pub proof fn law_set_context_then_get(
    before: Map<Seq<char>, ContextConfig>,
    after: Map<Seq<char>, ContextConfig>,
    name: Seq<char>,
    ctx: ContextConfig,
)
    requires
        after == before.insert(name, ctx),
    ensures
        after.contains_key(name),
        after[name] == ctx,
        forall|k: Seq<char>| k != name ==> (#[trigger] after.contains_key(k) <==> before.contains_key(k)),
        forall|k: Seq<char>| k != name && before.contains_key(k) ==> #[trigger] after[k] == before[k],
{
}

/// A context just stored can be made the current one: `use-context` succeeds exactly on the
/// names the configuration holds, and storing a context adds its name.
pub proof fn law_set_context_then_use(
    before: Map<Seq<char>, ContextConfig>,
    after: Map<Seq<char>, ContextConfig>,
    name: Seq<char>,
    ctx: ContextConfig,
)
    requires
        after == before.insert(name, ctx),
    ensures
        after.contains_key(name),
{
}

/// After a context is removed, reading it finds nothing, and every other context is as it was.
pub proof fn law_delete_context_then_get(
    before: Map<Seq<char>, ContextConfig>,
    after: Map<Seq<char>, ContextConfig>,
    name: Seq<char>,
)
    requires
        after == before.remove(name),
    ensures
        !after.contains_key(name),
        forall|k: Seq<char>| k != name ==> (#[trigger] after.contains_key(k) <==> before.contains_key(k)),
        forall|k: Seq<char>| k != name && before.contains_key(k) ==> #[trigger] after[k] == before[k],
{
}

/// Storing a context under a new name and then removing it leaves the contexts as they were.
pub proof fn law_set_then_delete_context(
    before: Map<Seq<char>, ContextConfig>,
    name: Seq<char>,
    ctx: ContextConfig,
)
    requires
        !before.contains_key(name),
    ensures
        before.insert(name, ctx).remove(name) == before,
{
    assert(before.insert(name, ctx).remove(name) =~= before);
}

/// A request is sent at most `MAX_RETRIES + 1` times: after the last retry no failure is
/// retried, and the login token is refreshed only after the first send, for dashboard
/// credentials.
pub proof fn law_retries_bounded(
    attempt: nat,
    dashboard: bool,
    url: Seq<char>,
    context_name: Seq<char>,
    outcome: SendOutcome,
    step: RequestStep,
)
    requires
        request_step_spec(attempt, dashboard, url, context_name, outcome, step),
    ensures
        step is RetryAfter ==> attempt < MAX_RETRIES,
        step is RefreshToken ==> attempt == 0 && dashboard,
{
}

/// The wait before sending again doubles with each retry, from half a second:
/// `500 * 2^attempt` milliseconds.
pub proof fn law_retry_delay_doubles(attempt: nat)
    ensures
        retry_delay_ms(attempt) == 500 * pow2(attempt),
        retry_delay_ms(attempt + 1) == 2 * retry_delay_ms(attempt),
    decreases attempt,
{
    if attempt == 0 {
        assert(pow2(0) == 1) by {
            vstd::arithmetic::power2::lemma2_to64();
        }
    } else {
        law_retry_delay_doubles((attempt - 1) as nat);
        lemma_pow2_unfold(attempt);
    }
}

/// A login token cached at time `t` with the expiry `t + TOKEN_TTL_SECS` is used until that
/// expiry, and never after it.
pub proof fn law_token_lifetime(token: String, t: i64, now: i64)
    requires
        t <= i64::MAX - TOKEN_TTL_SECS,
    ensures
        is_fresh(TokenCache { token, expires_at: (t + TOKEN_TTL_SECS) as i64 }, now) <==> now < t
            + TOKEN_TTL_SECS,
{
}

/// An escaped topic holds no `/`, `#` or `+`, so that it stands as a single path segment.
pub proof fn law_escaped_topic_is_one_segment(s: Seq<char>)
    ensures
        !url_escaped(s).contains('/'),
        !url_escaped(s).contains('#'),
        !url_escaped(s).contains('+'),
    decreases s.len(),
{
    if s.len() > 0 {
        law_escaped_topic_is_one_segment(s.drop_last());
        let a = url_escaped(s.drop_last());
        let b = escape_char(s.last());
        assert(!b.contains('/') && !b.contains('#') && !b.contains('+')) by {
            if b.contains('/') || b.contains('#') || b.contains('+') {
                let j = choose|j: int| 0 <= j < b.len() && (b[j] == '/' || b[j] == '#' || b[j] == '+');
                assert(b[j] == '/' || b[j] == '#' || b[j] == '+');
            }
        }
        assert forall|c: char| (c == '/' || c == '#' || c == '+') implies !(a + b).contains(c) by {
            if (a + b).contains(c) {
                let j = choose|j: int| 0 <= j < (a + b).len() && (a + b)[j] == c;
                if j < a.len() {
                    assert(a[j] == c);
                } else {
                    assert(b[j - a.len()] == c);
                }
            }
        }
    }
}

/// A topic without `/`, `#` or `+` is left as it is by escaping.
pub proof fn law_plain_topic_unescaped(s: Seq<char>)
    requires
        !s.contains('/'),
        !s.contains('#'),
        !s.contains('+'),
    ensures
        url_escaped(s) == s,
    decreases s.len(),
{
    if s.len() > 0 {
        let p = s.drop_last();
        assert(!p.contains('/') && !p.contains('#') && !p.contains('+')) by {
            if p.contains('/') || p.contains('#') || p.contains('+') {
                let j = choose|j: int| 0 <= j < p.len() && (p[j] == '/' || p[j] == '#' || p[j] == '+');
                assert(s[j] == p[j]);
            }
        }
        law_plain_topic_unescaped(p);
        assert(s[s.len() - 1] == s.last());
        assert(url_escaped(s) =~= s);
    }
}

/// A `config` command either works on the configuration file alone or has a server plan,
/// never both.
pub proof fn law_config_local_or_remote(cmd: ConfigCommand)
    ensures
        is_local(cmd) <==> config_remote_plan(cmd) is None,
{
}

/// The page count of a footer is the least number of pages of `limit` items that hold `count`
/// items.
pub proof fn law_footer_page_count(count: nat, limit: nat)
    requires
        count > 0,
        limit > 0,
    ensures
        (total_pages(count, limit) - 1) * limit < count,
        count <= total_pages(count, limit) * limit,
{
    let t = total_pages(count, limit);
    let n: int = count + limit - 1;
    assert(t == n / (limit as int));
    assert((t - 1) * limit < count && count <= t * limit) by (nonlinear_arith)
        requires
            t == n / (limit as int),
            n == count + limit - 1,
            count > 0,
            limit > 0,
    {
        let q = n / (limit as int);
        let r = n % (limit as int);
        assert(n == q * limit + r);
        assert(0 <= r < limit);
    }
}

/// In an object whose keys are sorted, looking a member up by key (the lookup of dotted
/// paths) finds exactly the member the object holds under that key.
pub proof fn law_member_lookup(es: Seq<(String, JsonValue)>, k: Seq<char>)
    requires
        keys_sorted(es),
    ensures
        field(members_view(es), k) == if fields_of(es).contains_key(k) {
            Some(fields_of(es)[k])
        } else {
            None
        },
    decreases es.len(),
{
    let mv = members_view(es);
    if es.len() == 0 {
        assert(!has_key(es, k));
    } else {
        let rest = es.drop_first();
        assert(keys_sorted(rest)) by {
            assert forall|i: int, j: int| 0 <= i < j < rest.len() implies crate::text::seq_lt(
                #[trigger] rest[i].0@,
                #[trigger] rest[j].0@,
            ) by {
                assert(rest[i] == es[i + 1] && rest[j] == es[j + 1]);
            }
        }
        assert(mv.drop_first() =~= members_view(rest));
        if es[0].0@ == k {
            assert(has_key(es, k)) by {
                assert(es[0].0@ == k);
            }
            let i = key_index(es, k);
            lemma_sorted_unique(es, 0, i);
        } else {
            law_member_lookup(rest, k);
            assert(has_key(es, k) <==> has_key(rest, k)) by {
                if has_key(es, k) {
                    let i = key_index(es, k);
                    assert(i != 0);
                    assert(rest[i - 1] == es[i]);
                }
                if has_key(rest, k) {
                    let j = key_index(rest, k);
                    assert(es[j + 1] == rest[j]);
                }
            }
            if has_key(es, k) {
                let i = key_index(es, k);
                let j = key_index(rest, k);
                assert(es[j + 1] == rest[j]);
                lemma_sorted_unique(es, i, j + 1);
            }
        }
    }
}

/// A path without dots is a single step.
proof fn lemma_split_without_separator(s: Seq<char>, sep: char)
    requires
        !s.contains(sep),
    ensures
        split_on(s, sep) == seq![s],
    decreases s.len(),
{
    if s.len() > 0 {
        let p = s.drop_last();
        assert(!p.contains(sep)) by {
            if p.contains(sep) {
                let j = choose|j: int| 0 <= j < p.len() && p[j] == sep;
                assert(s[j] == sep);
            }
        }
        lemma_split_without_separator(p, sep);
        assert(s.last() != sep) by {
            assert(s[s.len() - 1] == s.last());
        }
        assert(p.push(s.last()) =~= s);
    } else {
        assert(s =~= Seq::<char>::empty());
    }
}

/// What is stored in an object under a key without dots is what a cell at that key shows:
/// a read at the key gives back what the write put there.
pub proof fn law_object_set_then_extract(
    before: Seq<(String, JsonValue)>,
    after: Seq<(String, JsonValue)>,
    key: Seq<char>,
    value: JsonValue,
)
    requires
        keys_sorted(after),
        fields_of(after) == fields_of(before).insert(key, json_view(value)),
        !key.contains('.'),
    ensures
        extracted(JsonView::Object(members_view(after)), key) == cell_text(json_view(value)),
{
    law_member_lookup(after, key);
    lemma_split_without_separator(key, '.');
    let parts = split_on(key, '.');
    let obj = JsonView::Object(members_view(after));
    let w = json_view(value);
    assert(parts[0] == key);
    assert(parts.drop_first() =~= Seq::<Seq<char>>::empty());
    assert(fields_of(after).contains_key(key) && fields_of(after)[key] == w);
    assert(crate::json::path_step(obj, key) == Some(w));
    assert(crate::json::navigate(w, Seq::<Seq<char>>::empty()) == Some(w));
    assert(crate::json::navigate(obj, parts) == Some(w));
}

/// Gathering every page shows every page's items, in page order: when each page's items join
/// the gathered ones (as `gather_page` does), starting from none, the items at the end are all
/// the pages' items one after another.
pub proof fn law_all_pages_concatenated(pages: Seq<Seq<JsonValue>>, gathered: Seq<Seq<JsonValue>>)
    requires
        gathered.len() == pages.len() + 1,
        gathered[0].len() == 0,
        forall|i: int| 0 <= i < pages.len() ==> #[trigger] gathered[i + 1] == gathered[i] + pages[i],
    ensures
        gathered.last() == pages.flatten(),
    decreases pages.len(),
{
    pages.lemma_flatten_and_flatten_alt_are_equivalent();
    if pages.len() == 0 {
        assert(gathered.last() =~= Seq::<JsonValue>::empty());
    } else {
        let n = pages.len() - 1;
        let ps = pages.drop_last();
        let gs = gathered.drop_last();
        assert forall|i: int| 0 <= i < ps.len() implies #[trigger] gs[i + 1] == gs[i] + ps[i] by {
            assert(gathered[i + 1] == gathered[i] + pages[i]);
        }
        law_all_pages_concatenated(ps, gs);
        ps.lemma_flatten_and_flatten_alt_are_equivalent();
        assert(gathered[n + 1] == gathered[n] + pages[n]);
        assert(gs.last() == gathered[n]);
    }
}

/// With `--all`, when answers `metas` say that more pages follow up to the last one, the listing
/// asks for pages 1, 2, ..., k in that order (each request as `first_page` and `gather_page`
/// name it), asks for none after page k, and shows every page's items in page order.
pub proof fn law_gathering_every_page(
    pagination: PaginationArgs,
    metas: Seq<PaginationMeta>,
    pages: Seq<u64>,
    items: Seq<Seq<JsonValue>>,
    gathered: Seq<Seq<JsonValue>>,
)
    requires
        pagination.all,
        0 < metas.len() < u64::MAX,
        pages.len() == metas.len(),
        items.len() == metas.len(),
        gathered.len() == metas.len() + 1,
        forall|i: int| 0 <= i < metas.len() - 1 ==> (#[trigger] metas[i]).hasnext == Some(true),
        metas.last().hasnext != Some(true),
        pages[0] == 1,
        forall|i: int|
            0 <= i < metas.len() - 1 ==> page_after(pagination, #[trigger] pages[i], metas[i]) == Some(
                pages[i + 1],
            ),
        gathered[0].len() == 0,
        forall|i: int| 0 <= i < items.len() ==> #[trigger] gathered[i + 1] == gathered[i] + items[i],
    ensures
        forall|i: int| 0 <= i < pages.len() ==> #[trigger] pages[i] == i + 1,
        page_after(pagination, pages.last(), metas.last()) is None,
        gathered.last() == items.flatten(),
{
    assert forall|i: int| 0 <= i < pages.len() implies #[trigger] pages[i] == i + 1 by {
        lemma_pages_count_up(pagination, metas, pages, i);
    }
    law_all_pages_concatenated(items, gathered);
}

/// The pages asked for count up from 1.
proof fn lemma_pages_count_up(pagination: PaginationArgs, metas: Seq<PaginationMeta>, pages: Seq<u64>, i: int)
    requires
        pagination.all,
        0 < metas.len() < u64::MAX,
        pages.len() == metas.len(),
        forall|j: int| 0 <= j < metas.len() - 1 ==> (#[trigger] metas[j]).hasnext == Some(true),
        pages[0] == 1,
        forall|j: int|
            0 <= j < metas.len() - 1 ==> page_after(pagination, #[trigger] pages[j], metas[j]) == Some(
                pages[j + 1],
            ),
        0 <= i < pages.len(),
    ensures
        pages[i] == i + 1,
    decreases i,
{
    if i > 0 {
        lemma_pages_count_up(pagination, metas, pages, i - 1);
        assert(page_after(pagination, pages[i - 1], metas[i - 1]) == Some(pages[i]));
    }
}

/// Every character of `s` is ASCII (one byte in UTF-8).
pub open spec fn is_ascii_text(s: Seq<char>) -> bool {
    forall|i: int| 0 <= i < s.len() ==> (#[trigger] s[i] as int) < 128
}

/// An ASCII text has as many bytes as characters.
proof fn lemma_ascii_len(s: Seq<char>)
    requires
        is_ascii_text(s),
    ensures
        utf8_len(s) == s.len(),
    decreases s.len(),
{
    if s.len() > 0 {
        let p = s.drop_last();
        assert(is_ascii_text(p)) by {
            assert forall|i: int| 0 <= i < p.len() implies (#[trigger] p[i] as int) < 128 by {
                assert(p[i] == s[i]);
            }
        }
        lemma_ascii_len(p);
        assert(s[s.len() - 1] == s.last());
        assert(utf8_width(s.last()) == 1);
    }
}

/// Every ASCII text can be shortened to any width: it is kept when it fits, otherwise cut to
/// `max - 3` characters and marked "..." (cut to `max` characters when `max` is three or less),
/// and the result is exactly as wide as the text or the width, whichever is less.
pub proof fn law_ascii_truncation(s: Seq<char>, max: nat)
    requires
        is_ascii_text(s),
    ensures
        truncatable(s, max),
        truncated(s, max) == if s.len() <= max {
            s
        } else if max > 3 {
            s.take(max - 3) + "..."@
        } else {
            s.take(max as int)
        },
        utf8_len(truncated(s, max)) == if s.len() <= max {
            s.len()
        } else {
            max
        },
{
    lemma_ascii_len(s);
    if s.len() > max {
        let c = cut_point(max);
        let t = s.take(c as int);
        assert(is_ascii_text(t)) by {
            assert forall|i: int| 0 <= i < t.len() implies (#[trigger] t[i] as int) < 128 by {
                assert(t[i] == s[i]);
            }
        }
        lemma_ascii_len(t);
        assert(is_boundary(s, c));
        let k = choose|k: int| 0 <= k <= s.len() && utf8_len(#[trigger] s.take(k)) == c;
        let tk = s.take(k);
        assert(is_ascii_text(tk)) by {
            assert forall|i: int| 0 <= i < tk.len() implies (#[trigger] tk[i] as int) < 128 by {
                assert(tk[i] == s[i]);
            }
        }
        lemma_ascii_len(tk);
        assert(k == c);
        if max > 3 {
            reveal_strlit("...");
            assert("..."@ =~= seq!['.', '.', '.']);
            let d = seq!['.', '.', '.'];
            assert(is_ascii_text(d)) by {
                assert forall|i: int| 0 <= i < d.len() implies (#[trigger] d[i] as int) < 128 by {
                    assert(d[i] == '.');
                }
            }
            lemma_ascii_len(d);
            crate::text::lemma_utf8_len_concat(t, d);
        }
    }
}

/// In the wide format no cell is shortened: it shows the whole value at its column's path.
pub proof fn law_wide_cells_whole(item: JsonView, col: Column)
    ensures
        cell_for(item, col, true) == extracted(item, col.json_path@),
{
}

/// A page of a list answer holds every item of the answer's data, in order: the items of an
/// envelope `{"data": xs, "meta": ..}` are exactly the elements of `xs`.
pub proof fn law_envelope_page_keeps_every_item(
    es: Seq<(Seq<char>, JsonView)>,
    xs: Seq<JsonView>,
    cursor: bool,
    r: PageAnswer,
)
    requires
        field(es, "data"@) == Some(JsonView::Array(xs)),
        field(es, "meta"@) is Some,
        page_answer_spec(JsonView::Object(es), cursor, r),
    ensures
        r is Envelope,
        r->Envelope_items@.len() == xs.len(),
        forall|i: int| 0 <= i < xs.len() ==> json_view(#[trigger] r->Envelope_items@[i]) == xs[i],
{
    assert(views_of(r->Envelope_items@) == xs);
    assert forall|i: int| 0 <= i < xs.len() implies json_view(#[trigger] r->Envelope_items@[i]) == xs[i] by {
        assert(views_of(r->Envelope_items@)[i] == xs[i]);
    }
}

/// A bare array answer is one complete page of all its elements, in order, counted and with
/// no page after it.
pub proof fn law_array_page_keeps_every_item(xs: Seq<JsonView>, cursor: bool, r: PageAnswer)
    requires
        page_answer_spec(JsonView::Array(xs), cursor, r),
    ensures
        r is Complete,
        r->Complete_items@.len() == xs.len(),
        forall|i: int| 0 <= i < xs.len() ==> json_view(#[trigger] r->Complete_items@[i]) == xs[i],
        r->Complete_meta.count == Some(xs.len() as u64),
        r->Complete_meta.hasnext == Some(false),
{
    assert forall|i: int| 0 <= i < xs.len() implies json_view(#[trigger] r->Complete_items@[i]) == xs[i] by {
        assert(views_of(r->Complete_items@)[i] == xs[i]);
    }
}

/// A cell shows a boolean as its Rust text, `true` or `false`, a number as its JSON text and a
/// string as it is; only null shows as nothing, so `false` never looks like a missing value.
pub proof fn law_cells_of_plain_values(v: JsonValue, cell: Seq<char>)
    requires
        cell == cell_text(json_view(v)),
    ensures
        v matches JsonValue::Bool(b) ==> cell == if b {
            "true"@
        } else {
            "false"@
        },
        v is Bool ==> cell.len() > 0 && cell != cell_text(JsonView::Null),
        v matches JsonValue::Number(t) ==> cell == t@,
        v matches JsonValue::Str(t) ==> cell == t@,
        v is Null ==> cell.len() == 0,
{
    reveal_strlit("true");
    reveal_strlit("false");
    assert("true"@ =~= seq!['t', 'r', 'u', 'e']);
    assert("false"@ =~= seq!['f', 'a', 'l', 's', 'e']);
}

/// While retries remain, an answer 502 (bad gateway), 503 (service unavailable) or 504 (gateway
/// timeout) is always sent again after `500 * 2^attempt` milliseconds, whatever the credentials.
pub proof fn law_gateway_errors_are_retried(
    attempt: nat,
    dashboard: bool,
    url: Seq<char>,
    context_name: Seq<char>,
    status: u16,
    step: RequestStep,
)
    requires
        attempt < 3,
        status == 502 || status == 503 || status == 504,
        request_step_spec(attempt, dashboard, url, context_name, SendOutcome::Answered(status), step),
    ensures
        step == RequestStep::RetryAfter((500 * pow2(attempt)) as u64),
{
    law_retry_delay_doubles(attempt);
    assert(pow2(attempt) <= 4) by {
        vstd::arithmetic::power2::lemma2_to64();
    }
}

/// `client unsubscribe` posts the topic to the client's `unsubscribe` endpoint and
/// `client subscribe` to its `subscribe` endpoint: the two never share a path, and each
/// confirms what it did.
pub proof fn law_client_subscription_endpoints(clientid: String, topic: String, qos: u8)
    ensures
        client_plan(ClientCommand::Unsubscribe { clientid, topic }) == (PlanView::Call {
            method: MethodView::Post,
            path: "/clients/"@ + clientid@ + "/unsubscribe"@,
            query: Seq::empty(),
            body: BodyView::Json(JsonView::Object(seq![("topic"@, JsonView::Str(topic@))])),
            render: RenderView::Success("Client '"@ + clientid@ + "' unsubscribed from '"@ + topic@ + "'"@),
        }),
        client_plan(ClientCommand::Subscribe { clientid, topic, qos })->Call_method == MethodView::Post,
        client_plan(ClientCommand::Subscribe { clientid, topic, qos })->Call_path == "/clients/"@ + clientid@
            + "/subscribe"@,
        client_plan(ClientCommand::Subscribe { clientid, topic, qos })->Call_path != client_plan(
            ClientCommand::Unsubscribe { clientid, topic },
        )->Call_path,
{
    reveal_strlit("/subscribe");
    reveal_strlit("/unsubscribe");
    reveal_strlit("/clients/");
    let a = "/clients/"@ + clientid@ + "/subscribe"@;
    let b = "/clients/"@ + clientid@ + "/unsubscribe"@;
    assert(a.len() != b.len());
}

/// A subscription listing asks for the subscriptions of client `c` exactly when `--clientid c`
/// is given, and for those of topic `t` exactly when `--topic t` is given: each query key
/// carries the value of the option of the same name, and nothing else is asked.
pub proof fn law_subscription_filters(
    pagination: PaginationArgs,
    clientid: Option<String>,
    topic: Option<String>,
)
    ensures
        subscription_plan(SubscriptionCommand::List { pagination, clientid, topic }) matches PlanView::PagedList {
            path,
            query,
            pagination: p,
            ..
        } && {
            &&& path == "/subscriptions"@
            &&& p == pagination
            &&& forall|v: Seq<char>| query.contains(("clientid"@, v)) <==> (clientid matches Some(c) && c@ == v)
            &&& forall|v: Seq<char>| query.contains(("topic"@, v)) <==> (topic matches Some(t) && t@ == v)
            &&& query.len() == (if clientid is Some { 1int } else { 0 }) + (if topic is Some { 1int } else { 0 })
        },
{
    reveal_strlit("clientid");
    reveal_strlit("topic");
    assert("clientid"@ != "topic"@) by {
        assert("clientid"@.len() != "topic"@.len());
    }
    let q = subscription_plan(SubscriptionCommand::List { pagination, clientid, topic })->PagedList_query;
    assert forall|v: Seq<char>| q.contains(("clientid"@, v)) <==> (clientid matches Some(c) && c@ == v) by {
        if q.contains(("clientid"@, v)) {
            let j = choose|j: int| 0 <= j < q.len() && q[j] == ("clientid"@, v);
        }
        if clientid matches Some(c) && c@ == v {
            assert(q[0] == ("clientid"@, v));
        }
    }
    assert forall|v: Seq<char>| q.contains(("topic"@, v)) <==> (topic matches Some(t) && t@ == v) by {
        if q.contains(("topic"@, v)) {
            let j = choose|j: int| 0 <= j < q.len() && q[j] == ("topic"@, v);
        }
        if topic matches Some(t) && t@ == v {
            assert(q[q.len() - 1] == ("topic"@, v));
        }
    }
}

} // verus!
