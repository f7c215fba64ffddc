//! JSON values as the library reads and writes them, and the text renderings
//! that tables and item listings show for them.
use vstd::prelude::*;
use crate::sorted::{keys_sorted, has_key, key_index, entries_map, insert_entry};
use crate::text::{split_on, parsed_usize, owned, concat3, str_eq, split_char, parse_usize};

verus! {

/// A JSON value. Object members are kept sorted by key, each key once, as in
/// `serde_json`'s default map; numbers keep the text `serde_json` prints for them.
#[derive(Debug, PartialEq)]
pub enum JsonValue {
    Null,
    Bool(bool),
    Number(String),
    Str(String),
    Array(Vec<JsonValue>),
    Object(Vec<(String, JsonValue)>),
}

/// The mathematical content of a [`JsonValue`].
pub enum JsonView {
    Null,
    Bool(bool),
    Number(Seq<char>),
    Str(Seq<char>),
    Array(Seq<JsonView>),
    Object(Seq<(Seq<char>, JsonView)>),
}

/// The content of a JSON value.
pub open spec fn json_view(v: JsonValue) -> JsonView
    decreases v,
{
    match v {
        JsonValue::Null => JsonView::Null,
        JsonValue::Bool(b) => JsonView::Bool(b),
        JsonValue::Number(n) => JsonView::Number(n@),
        JsonValue::Str(s) => JsonView::Str(s@),
        JsonValue::Array(items) => JsonView::Array(
            Seq::new(
                items@.len(),
                |i: int|
                    if 0 <= i < items@.len() {
                        json_view(items@[i])
                    } else {
                        JsonView::Null
                    },
            ),
        ),
        JsonValue::Object(entries) => JsonView::Object(
            Seq::new(
                entries@.len(),
                |i: int|
                    if 0 <= i < entries@.len() {
                        (entries@[i].0@, json_view(entries@[i].1))
                    } else {
                        (Seq::empty(), JsonView::Null)
                    },
            ),
        ),
    }
}

impl View for JsonValue {
    type V = JsonView;

    open spec fn view(&self) -> JsonView {
        json_view(*self)
    }
}

/// The contents of a list of JSON values.
pub open spec fn views_of(items: Seq<JsonValue>) -> Seq<JsonView> {
    items.map_values(|x: JsonValue| json_view(x))
}

/// The members of an object, read as a map from key to content.
pub open spec fn fields_of(e: Seq<(String, JsonValue)>) -> Map<Seq<char>, JsonView> {
    Map::new(|k: Seq<char>| has_key(e, k), |k: Seq<char>| json_view(e[key_index(e, k)].1))
}

/// The members of `v` as a map, when `v` is an object with sorted, unique keys.
pub open spec fn object_fields(v: JsonValue) -> Map<Seq<char>, JsonView> {
    match v {
        JsonValue::Object(es) => fields_of(es@),
        _ => Map::empty(),
    }
}

/// `v` is an object whose keys are sorted and unique, as `serde_json` keeps them.
pub open spec fn is_sorted_object(v: JsonValue) -> bool {
    match v {
        JsonValue::Object(es) => keys_sorted(es@),
        _ => false,
    }
}

/// A lowercase hexadecimal digit.
pub open spec fn hex_digit(d: int) -> char {
    if d < 10 {
        (48 + d) as char
    } else {
        (87 + d) as char
    }
}

/// How `serde_json` writes one character inside a string literal: `"` and `\\` behind a
/// backslash, the short escapes `\b \t \n \f \r`, other control characters below 0x20 as
/// `\u00` and two lowercase hex digits, and every other character as it is.
pub open spec fn json_escape_char(c: char) -> Seq<char> {
    if c == '"' {
        seq!['\\', '"']
    } else if c == '\\' {
        seq!['\\', '\\']
    } else if (c as int) == 8 {
        seq!['\\', 'b']
    } else if (c as int) == 9 {
        seq!['\\', 't']
    } else if (c as int) == 10 {
        seq!['\\', 'n']
    } else if (c as int) == 12 {
        seq!['\\', 'f']
    } else if (c as int) == 13 {
        seq!['\\', 'r']
    } else if (c as int) < 32 {
        seq!['\\', 'u', '0', '0', hex_digit((c as int) / 16), hex_digit((c as int) % 16)]
    } else {
        seq![c]
    }
}

/// Every character of `s` written as `json_escape_char` writes it.
pub open spec fn json_escaped(s: Seq<char>) -> Seq<char>
    decreases s.len(),
{
    if s.len() == 0 {
        Seq::empty()
    } else {
        json_escaped(s.drop_last()) + json_escape_char(s.last())
    }
}

/// The text that `serde_json::to_string` gives for a string: its escaped characters between
/// double quotes.
pub open spec fn json_string_literal(s: Seq<char>) -> Seq<char> {
    seq!['"'] + json_escaped(s) + seq!['"']
}

/// Compact JSON text (`serde_json::to_string`) of a value.
pub open spec fn compact_json(v: JsonView) -> Seq<char>
    decreases v,
{
    match v {
        JsonView::Null => seq!['n', 'u', 'l', 'l'],
        JsonView::Bool(b) => if b {
            seq!['t', 'r', 'u', 'e']
        } else {
            seq!['f', 'a', 'l', 's', 'e']
        },
        JsonView::Number(t) => t,
        JsonView::Str(s) => json_string_literal(s),
        JsonView::Array(xs) => seq!['['] + compact_list(xs) + seq![']'],
        JsonView::Object(es) => seq!['{'] + compact_members(es) + seq!['}'],
    }
}

/// Compact JSON texts of the elements, separated by commas.
pub open spec fn compact_list(xs: Seq<JsonView>) -> Seq<char>
    decreases xs,
{
    if xs.len() == 0 {
        Seq::empty()
    } else if xs.len() == 1 {
        compact_json(xs[0])
    } else {
        compact_list(xs.subrange(0, xs.len() - 1)) + seq![','] + compact_json(xs[xs.len() - 1])
    }
}

/// Compact JSON texts `"key":value` of the members, separated by commas.
pub open spec fn compact_members(es: Seq<(Seq<char>, JsonView)>) -> Seq<char>
    decreases es,
{
    if es.len() == 0 {
        Seq::empty()
    } else if es.len() == 1 {
        json_string_literal(es[0].0) + seq![':'] + compact_json(es[0].1)
    } else {
        compact_members(es.subrange(0, es.len() - 1)) + seq![','] + json_string_literal(
            es[es.len() - 1].0,
        ) + seq![':'] + compact_json(es[es.len() - 1].1)
    }
}

/// The text a table cell shows for a value: nothing for null, the plain text of
/// booleans, numbers and strings, array elements joined by ", ", and objects as compact JSON.
pub open spec fn cell_text(v: JsonView) -> Seq<char>
    decreases v,
{
    match v {
        JsonView::Null => Seq::empty(),
        JsonView::Bool(b) => if b {
            seq!['t', 'r', 'u', 'e']
        } else {
            seq!['f', 'a', 'l', 's', 'e']
        },
        JsonView::Number(t) => t,
        JsonView::Str(s) => s,
        JsonView::Array(xs) => cell_list(xs),
        JsonView::Object(_) => compact_json(v),
    }
}

/// Cell texts of the elements, separated by ", ".
pub open spec fn cell_list(xs: Seq<JsonView>) -> Seq<char>
    decreases xs,
{
    if xs.len() == 0 {
        Seq::empty()
    } else if xs.len() == 1 {
        cell_text(xs[0])
    } else {
        cell_list(xs.subrange(0, xs.len() - 1)) + seq![',', ' '] + cell_text(xs[xs.len() - 1])
    }
}

/// The first member of an object with key `k`.
pub open spec fn field(es: Seq<(Seq<char>, JsonView)>, k: Seq<char>) -> Option<JsonView>
    decreases es.len(),
{
    if es.len() == 0 {
        None
    } else if es[0].0 == k {
        Some(es[0].1)
    } else {
        field(es.drop_first(), k)
    }
}

/// One step of a dotted path: an object member by name, or an array element by index.
pub open spec fn path_step(v: JsonView, part: Seq<char>) -> Option<JsonView> {
    match v {
        JsonView::Object(es) => field(es, part),
        JsonView::Array(xs) => match parsed_usize(part) {
            Some(i) => if i < xs.len() {
                Some(xs[i as int])
            } else {
                None
            },
            None => None,
        },
        _ => None,
    }
}

/// The value reached from `v` by following `parts` in order.
pub open spec fn navigate(v: JsonView, parts: Seq<Seq<char>>) -> Option<JsonView>
    decreases parts.len(),
{
    if parts.len() == 0 {
        Some(v)
    } else {
        match path_step(v, parts[0]) {
            Some(w) => navigate(w, parts.drop_first()),
            None => None,
        }
    }
}

/// The text at a dot-separated path: the cell text of the value reached, or nothing.
pub open spec fn extracted(v: JsonView, path: Seq<char>) -> Seq<char> {
    match navigate(v, split_on(path, '.')) {
        Some(w) => cell_text(w),
        None => Seq::empty(),
    }
}

/// The list items of a response: a bare array, the `data` array of an envelope, or the value alone.
pub open spec fn items_of(v: JsonView) -> Seq<JsonView> {
    match v {
        JsonView::Array(xs) => xs,
        JsonView::Object(es) => match field(es, seq!['d', 'a', 't', 'a']) {
            Some(JsonView::Array(xs)) => xs,
            _ => seq![v],
        },
        _ => seq![v],
    }
}

/// Compact JSON text of a string: its quoted, escaped literal.
/// Trusted: `serde_json::to_string` on a `&str`, which writes the string as `json_string_literal`
/// states (its escape table in `ser.rs`); serialising a string into memory cannot fail in
/// `serde_json`'s source, so the default never stands in for it.
#[verifier::external_body]
fn quote_json_string(s: &str) -> (r: String)
    ensures
        r@ == json_string_literal(s@),
{
    serde_json::to_string(s).unwrap_or_default()
}

proof fn lemma_view_array_index(v: JsonValue, i: int)
    requires
        v is Array,
        0 <= i < v->Array_0@.len(),
    ensures
        json_view(v) is Array,
        json_view(v)->Array_0.len() == v->Array_0@.len(),
        json_view(v)->Array_0[i] == json_view(v->Array_0@[i]),
{
}

proof fn lemma_view_object_index(v: JsonValue, i: int)
    requires
        v is Object,
        0 <= i < v->Object_0@.len(),
    ensures
        json_view(v) is Object,
        json_view(v)->Object_0.len() == v->Object_0@.len(),
        json_view(v)->Object_0[i] == (v->Object_0@[i].0@, json_view(v->Object_0@[i].1)),
{
}

/// A copy of a JSON value with the same content.
pub fn copy_json(v: &JsonValue) -> (r: JsonValue)
    ensures
        json_view(r) == json_view(*v),
    decreases v,
{
    match v {
        JsonValue::Null => JsonValue::Null,
        JsonValue::Bool(b) => JsonValue::Bool(*b),
        JsonValue::Number(n) => JsonValue::Number(n.clone()),
        JsonValue::Str(s) => JsonValue::Str(s.clone()),
        JsonValue::Array(items) => {
            let out = copy_items(items);
            let r = JsonValue::Array(out);
            assert(json_view(r)->Array_0 =~= json_view(*v)->Array_0) by {
                assert forall|j: int| 0 <= j < out@.len() implies
                    json_view(r)->Array_0[j] == json_view(*v)->Array_0[j] by {
                    lemma_view_array_index(r, j);
                    lemma_view_array_index(*v, j);
                    assert(views_of(out@)[j] == views_of(items@)[j]);
                }
            }
            r
        },
        JsonValue::Object(entries) => {
            let out = copy_entries(entries);
            let r = JsonValue::Object(out);
            assert(json_view(r)->Object_0 =~= json_view(*v)->Object_0) by {
                assert forall|j: int| 0 <= j < out@.len() implies
                    json_view(r)->Object_0[j] == json_view(*v)->Object_0[j] by {
                    lemma_view_object_index(r, j);
                    lemma_view_object_index(*v, j);
                }
            }
            r
        },
    }
}

/// A copy of a list of JSON values with the same contents.
pub fn copy_items(items: &Vec<JsonValue>) -> (r: Vec<JsonValue>)
    ensures
        views_of(r@) == views_of(items@),
        r@.len() == items@.len(),
        forall|j: int| 0 <= j < r@.len() ==> json_view(#[trigger] r@[j]) == json_view(items@[j]),
    decreases items,
{
    let mut out: Vec<JsonValue> = Vec::new();
    let mut i: usize = 0;
    while i < items.len()
        invariant
            i <= items@.len(),
            out@.len() == i,
            forall|j: int| 0 <= j < i ==> json_view(#[trigger] out@[j]) == json_view(items@[j]),
        decreases items@.len() - i,
    {
        let x = copy_json(&items[i]);
        out.push(x);
        i = i + 1;
    }
    assert(views_of(out@) =~= views_of(items@));
    out
}

/// A copy of a list of object members with the same keys and contents.
pub fn copy_entries(entries: &Vec<(String, JsonValue)>) -> (r: Vec<(String, JsonValue)>)
    ensures
        r@.len() == entries@.len(),
        forall|j: int| 0 <= j < r@.len() ==> #[trigger] r@[j].0@ == entries@[j].0@
            && json_view(r@[j].1) == json_view(entries@[j].1),
    decreases entries,
{
    let mut out: Vec<(String, JsonValue)> = Vec::new();
    let mut i: usize = 0;
    while i < entries.len()
        invariant
            i <= entries@.len(),
            out@.len() == i,
            forall|j: int| 0 <= j < i ==> #[trigger] out@[j].0@ == entries@[j].0@
                && json_view(out@[j].1) == json_view(entries@[j].1),
        decreases entries@.len() - i,
    {
        let k = entries[i].0.clone();
        let x = copy_json(&entries[i].1);
        out.push((k, x));
        i = i + 1;
    }
    out
}

/// The members of an object with their contents, in order.
pub open spec fn members_view(e: Seq<(String, JsonValue)>) -> Seq<(Seq<char>, JsonView)> {
    Seq::new(e.len(), |i: int| (e[i].0@, json_view(e[i].1)))
}

pub proof fn lemma_object_members(v: JsonValue)
    requires
        v is Object,
    ensures
        json_view(v) == JsonView::Object(members_view(v->Object_0@)),
{
    assert(json_view(v)->Object_0 =~= members_view(v->Object_0@));
}

pub proof fn lemma_array_items(v: JsonValue)
    requires
        v is Array,
    ensures
        json_view(v) == JsonView::Array(views_of(v->Array_0@)),
{
    assert(json_view(v)->Array_0 =~= views_of(v->Array_0@));
}

/// Compact JSON texts of a list of values, separated by commas.
fn compact_list_text(items: &Vec<JsonValue>) -> (r: String)
    ensures
        r@ == compact_list(views_of(items@)),
    decreases items,
{
    let ghost xs = views_of(items@);
    let mut r = String::new();
    let mut i: usize = 0;
    proof { reveal_strlit(","); }
    while i < items.len()
        invariant
            xs == views_of(items@),
            i <= items@.len(),
            r@ == compact_list(xs.take(i as int)),
        decreases items@.len() - i,
    {
        let ghost before = r@;
        if i > 0 {
            r.append(",");
        }
        let t = to_compact_json(&items[i]);
        r.append(t.as_str());
        proof {
            let nx = xs.take(i + 1);
            assert(nx.subrange(0, i as int) =~= xs.take(i as int));
            assert(nx[i as int] == json_view(items@[i as int]));
            reveal_strlit(",");
            assert(","@ =~= seq![',']);
            if i == 0 {
                assert(before =~= Seq::<char>::empty());
            }
            assert(r@ =~= compact_list(nx));
        }
        i = i + 1;
    }
    assert(xs.take(items@.len() as int) =~= xs);
    r
}

/// Compact JSON texts `"key":value` of object members, separated by commas.
fn compact_members_text(entries: &Vec<(String, JsonValue)>) -> (r: String)
    ensures
        r@ == compact_members(members_view(entries@)),
    decreases entries,
{
    let ghost es = members_view(entries@);
    let mut r = String::new();
    let mut i: usize = 0;
    proof {
        reveal_strlit(",");
        reveal_strlit(":");
    }
    while i < entries.len()
        invariant
            es == members_view(entries@),
            i <= entries@.len(),
            r@ == compact_members(es.take(i as int)),
        decreases entries@.len() - i,
    {
        let ghost before = r@;
        if i > 0 {
            r.append(",");
        }
        let key = quote_json_string(entries[i].0.as_str());
        r.append(key.as_str());
        r.append(":");
        let t = to_compact_json(&entries[i].1);
        r.append(t.as_str());
        proof {
            let ne = es.take(i + 1);
            assert(ne.subrange(0, i as int) =~= es.take(i as int));
            assert(ne[i as int] == (entries@[i as int].0@, json_view(entries@[i as int].1)));
            reveal_strlit(",");
            reveal_strlit(":");
            assert(","@ =~= seq![',']);
            assert(":"@ =~= seq![':']);
            if i == 0 {
                assert(before =~= Seq::<char>::empty());
            }
            assert(r@ =~= compact_members(ne));
        }
        i = i + 1;
    }
    assert(es.take(entries@.len() as int) =~= es);
    r
}

/// Compact JSON text of a value (`serde_json::to_string`).
pub fn to_compact_json(v: &JsonValue) -> (r: String)
    ensures
        r@ == compact_json(json_view(*v)),
    decreases v,
{
    match v {
        JsonValue::Null => {
            proof {
                reveal_strlit("null");
                assert("null"@ =~= seq!['n', 'u', 'l', 'l']);
            }
            owned("null")
        },
        JsonValue::Bool(b) => {
            proof {
                reveal_strlit("true");
                reveal_strlit("false");
                assert("true"@ =~= seq!['t', 'r', 'u', 'e']);
                assert("false"@ =~= seq!['f', 'a', 'l', 's', 'e']);
            }
            if *b {
                owned("true")
            } else {
                owned("false")
            }
        },
        JsonValue::Number(t) => t.clone(),
        JsonValue::Str(s) => quote_json_string(s.as_str()),
        JsonValue::Array(items) => {
            let inner = compact_list_text(items);
            proof {
                reveal_strlit("[");
                reveal_strlit("]");
                lemma_array_items(*v);
            }
            let r = concat3("[", inner.as_str(), "]");
            assert(r@ =~= compact_json(json_view(*v)));
            r
        },
        JsonValue::Object(entries) => {
            let inner = compact_members_text(entries);
            proof {
                reveal_strlit("{");
                reveal_strlit("}");
                lemma_object_members(*v);
            }
            let r = concat3("{", inner.as_str(), "}");
            assert(r@ =~= compact_json(json_view(*v)));
            r
        },
    }
}

/// Cell texts of a list of values, separated by ", ".
fn cell_list_text(items: &Vec<JsonValue>) -> (r: String)
    ensures
        r@ == cell_list(views_of(items@)),
    decreases items,
{
    let ghost xs = views_of(items@);
    let mut r = String::new();
    let mut i: usize = 0;
    proof { reveal_strlit(", "); }
    while i < items.len()
        invariant
            xs == views_of(items@),
            i <= items@.len(),
            r@ == cell_list(xs.take(i as int)),
        decreases items@.len() - i,
    {
        let ghost before = r@;
        if i > 0 {
            r.append(", ");
        }
        let t = value_to_string(&items[i]);
        r.append(t.as_str());
        proof {
            let nx = xs.take(i + 1);
            assert(nx.subrange(0, i as int) =~= xs.take(i as int));
            assert(nx[i as int] == json_view(items@[i as int]));
            reveal_strlit(", ");
            assert(", "@ =~= seq![',', ' ']);
            if i == 0 {
                assert(before =~= Seq::<char>::empty());
            }
            assert(r@ =~= cell_list(nx));
        }
        i = i + 1;
    }
    assert(xs.take(items@.len() as int) =~= xs);
    r
}

/// The text a table cell shows for a value.
pub fn value_to_string(v: &JsonValue) -> (r: String)
    ensures
        r@ == cell_text(json_view(*v)),
    decreases v,
{
    match v {
        JsonValue::Null => String::new(),
        JsonValue::Bool(b) => {
            proof {
                reveal_strlit("true");
                reveal_strlit("false");
                assert("true"@ =~= seq!['t', 'r', 'u', 'e']);
                assert("false"@ =~= seq!['f', 'a', 'l', 's', 'e']);
            }
            if *b {
                owned("true")
            } else {
                owned("false")
            }
        },
        JsonValue::Number(t) => t.clone(),
        JsonValue::Str(s) => s.clone(),
        JsonValue::Array(items) => {
            proof { lemma_array_items(*v); }
            cell_list_text(items)
        },
        JsonValue::Object(_) => to_compact_json(v),
    }
}

/// The first member of an object with the given key.
pub fn object_field<'a>(entries: &'a Vec<(String, JsonValue)>, key: &str) -> (r: Option<&'a JsonValue>)
    ensures
        match r {
            Some(x) => field(members_view(entries@), key@) == Some(json_view(*x)),
            None => field(members_view(entries@), key@) is None,
        },
{
    let ghost mv = members_view(entries@);
    let mut i: usize = 0;
    assert(mv.skip(0) =~= mv);
    while i < entries.len()
        invariant
            mv == members_view(entries@),
            i <= entries@.len(),
            field(mv, key@) == field(mv.skip(i as int), key@),
        decreases entries@.len() - i,
    {
        assert(mv.skip(i as int)[0] == mv[i as int]);
        if str_eq(entries[i].0.as_str(), key) {
            return Some(&entries[i].1);
        }
        assert(mv.skip(i as int).drop_first() =~= mv.skip(i + 1));
        i = i + 1;
    }
    None
}

/// The text at a dot-separated path into a value: the cell text of what the path
/// reaches, or nothing where the path leaves the value.
pub fn extract(value: &JsonValue, path: &str) -> (r: String)
    ensures
        r@ == extracted(json_view(*value), path@),
{
    let parts = split_char(path, '.');
    let ghost sp = split_on(path@, '.');
    let mut cur: &JsonValue = value;
    let mut i: usize = 0;
    assert(sp.skip(0) =~= sp);
    while i < parts.len()
        invariant
            sp == split_on(path@, '.'),
            parts@.len() == sp.len(),
            forall|j: int| 0 <= j < parts@.len() ==> #[trigger] parts@[j]@ == sp[j],
            i <= parts@.len(),
            navigate(json_view(*value), sp) == navigate(json_view(*cur), sp.skip(i as int)),
        decreases parts@.len() - i,
    {
        assert(sp.skip(i as int)[0] == sp[i as int]);
        assert(sp.skip(i as int).drop_first() =~= sp.skip(i + 1));
        match cur {
            JsonValue::Object(es) => {
                proof { lemma_object_members(*cur); }
                match object_field(es, parts[i].as_str()) {
                    Some(x) => {
                        cur = x;
                    },
                    None => {
                        return String::new();
                    },
                }
            },
            JsonValue::Array(xs) => {
                proof { lemma_array_items(*cur); }
                match parse_usize(parts[i].as_str()) {
                    Some(idx) => {
                        if idx < xs.len() {
                            cur = &xs[idx];
                        } else {
                            return String::new();
                        }
                    },
                    None => {
                        return String::new();
                    },
                }
            },
            _ => {
                return String::new();
            },
        }
        i = i + 1;
    }
    value_to_string(cur)
}

/// The list items of a response: a bare array, the `data` array of an envelope,
/// or else the value itself as the one item.
pub fn extract_items(value: &JsonValue) -> (r: Vec<JsonValue>)
    ensures
        views_of(r@) == items_of(json_view(*value)),
{
    proof {
        reveal_strlit("data");
        assert("data"@ =~= seq!['d', 'a', 't', 'a']);
    }
    match value {
        JsonValue::Array(arr) => {
            proof { lemma_array_items(*value); }
            copy_items(arr)
        },
        JsonValue::Object(es) => {
            proof { lemma_object_members(*value); }
            match object_field(es, "data") {
                Some(JsonValue::Array(arr)) => {
                    proof { lemma_array_items(JsonValue::Array(*arr)); }
                    copy_items(arr)
                },
                _ => {
                    let one = vec![copy_json(value)];
                    assert(views_of(one@) =~= seq![json_view(*value)]);
                    one
                },
            }
        },
        _ => {
            let one = vec![copy_json(value)];
            assert(views_of(one@) =~= seq![json_view(*value)]);
            one
        },
    }
}

/// Sets member `key` of an object under construction to `value`, replacing an earlier one.
pub fn object_set(entries: &mut Vec<(String, JsonValue)>, key: String, value: JsonValue)
    requires
        keys_sorted(old(entries)@),
    ensures
        keys_sorted(final(entries)@),
        fields_of(final(entries)@) == fields_of(old(entries)@).insert(key@, json_view(value)),
{
    let ghost k = key@;
    let ghost jv = json_view(value);
    let ghost old_e = entries@;
    insert_entry(entries, key, value);
    proof {
        let nm = fields_of(entries@);
        let om = fields_of(old_e).insert(k, jv);
        assert forall|q: Seq<char>| nm.contains_key(q) <==> om.contains_key(q) by {
            assert(nm.contains_key(q) == entries_map(entries@).contains_key(q));
            assert(fields_of(old_e).contains_key(q) == entries_map(old_e).contains_key(q));
        }
        assert forall|q: Seq<char>| nm.contains_key(q) implies nm[q] == om[q] by {
            assert(nm[q] == json_view(entries_map(entries@)[q]));
            if q != k {
                assert(entries_map(old_e).contains_key(q));
                assert(fields_of(old_e)[q] == json_view(entries_map(old_e)[q]));
            }
        }
        assert(nm =~= om);
    }
}

} // verus!
