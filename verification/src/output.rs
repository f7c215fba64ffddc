//! What the tool prints for lists, single items, raw values and confirmations,
//! in each output format.
use vstd::prelude::*;
use crate::client::PaginationMeta;
use crate::json::{JsonValue, JsonView, json_view, views_of, extracted, extract, object_set,
    object_fields, is_sorted_object};
use crate::text::{utf8_len, utf8_width, padded, decimal, owned, concat2, char_utf8_width,
    pad_right, u64_to_decimal};

verus! {

/// The output format chosen with `--output`.
#[derive(Clone, Copy, PartialEq, Eq, Structural, Debug)]
pub enum OutputFormat {
    Table,
    Json,
    Yaml,
    Wide,
}

/// A table column: its heading, the dotted path of the value it shows, and the width
/// (in bytes) beyond which narrow tables shorten the value.
#[derive(Clone, Copy, Debug)]
pub struct Column {
    pub header: &'static str,
    pub json_path: &'static str,
    pub max_width: Option<usize>,
}

/// Prints command results in the chosen format.
#[derive(Clone, Copy, Debug)]
pub struct OutputFormatter {
    pub format: OutputFormat,
}

/// The table text `tabled` renders for these rows (the first row being the headings) in its
/// blank style.
pub uninterp spec fn blank_table(rows: Seq<Seq<Seq<char>>>) -> Seq<char>;

/// The rows of a table as character sequences.
pub open spec fn rows_view(rows: Seq<Vec<String>>) -> Seq<Seq<Seq<char>>> {
    rows.map_values(|row: Vec<String>| row@.map_values(|c: String| c@))
}

/// Renders rows as a table in `tabled`'s blank style.
/// Trusted: `tabled::Table::from_iter(rows).with(Style::blank()).to_string()`; its result is
/// named `blank_table`.
#[verifier::external_body]
fn render_blank_table(rows: Vec<Vec<String>>) -> (r: String)
    ensures
        r@ == blank_table(rows_view(rows@)),
{
    let mut table = tabled::Table::from_iter(rows);
    table.with(tabled::settings::Style::blank());
    table.to_string()
}

/// Where values are cut: three bytes before the limit (room for "..."), or at the limit itself
/// when it is three or less.
pub open spec fn cut_point(max: nat) -> nat {
    if max > 3 {
        (max - 3) as nat
    } else {
        max
    }
}

/// Whether some prefix of `s` has exactly `n` bytes (`n` is a character boundary).
pub open spec fn is_boundary(s: Seq<char>, n: nat) -> bool {
    exists|k: int| 0 <= k <= s.len() && utf8_len(#[trigger] s.take(k)) == n
}

/// Whether `s` can be shortened to `max` bytes: it fits, or the cut falls between characters.
/// A cut inside a character is not a string; the command-line tool stops there with a panic.
pub open spec fn truncatable(s: Seq<char>, max: nat) -> bool {
    utf8_len(s) <= max || is_boundary(s, cut_point(max))
}

/// `s` shortened to at most `max` bytes: unchanged when it fits, else cut and marked "...".
pub open spec fn truncated(s: Seq<char>, max: nat) -> Seq<char> {
    if utf8_len(s) <= max {
        s
    } else {
        let k = choose|k: int| 0 <= k <= s.len() && utf8_len(#[trigger] s.take(k)) == cut_point(max);
        if max > 3 {
            s.take(k) + "..."@
        } else {
            s.take(k)
        }
    }
}

/// The text a column shows for an item: the value at its path, shortened in narrow tables.
pub open spec fn cell_for(item: JsonView, col: Column, wide: bool) -> Seq<char> {
    let v = extracted(item, col.json_path@);
    match col.max_width {
        Some(m) => if !wide {
            truncated(v, m as nat)
        } else {
            v
        },
        None => v,
    }
}

/// The columns of a table: the narrow ones, then in the wide format the wide ones.
pub open spec fn table_columns(columns: Seq<Column>, wide_columns: Option<Seq<Column>>, wide: bool) -> Seq<Column> {
    if wide && wide_columns is Some {
        columns + wide_columns->0
    } else {
        columns
    }
}

/// The rows of a table: the headings, then one row per item.
pub open spec fn table_rows(items: Seq<JsonView>, cols: Seq<Column>, wide: bool) -> Seq<Seq<Seq<char>>> {
    seq![cols.map_values(|c: Column| c.header@)] + items.map_values(
        |it: JsonView| cols.map_values(|c: Column| cell_for(it, c, wide)),
    )
}

/// Whether every cell of a table can be shortened without cutting a character.
pub open spec fn cells_truncatable(items: Seq<JsonView>, cols: Seq<Column>, wide: bool) -> bool {
    forall|i: int, j: int|
        #![trigger items[i], cols[j]]
        0 <= i < items.len() && 0 <= j < cols.len() && !wide && cols[j].max_width is Some ==> truncatable(
            extracted(items[i], cols[j].json_path@),
            cols[j].max_width->0 as nat,
        )
}

/// How many pages of `limit` items hold `count` items (at least one page).
pub open spec fn total_pages(count: nat, limit: nat) -> nat {
    if count == 0 {
        1
    } else {
        ((count + limit - 1) as nat / limit) as nat
    }
}

/// The footer under a paged table: `--- Page p/t (c total) ---`, shown when the answer gives a
/// page number and a count; the page size defaults to 100.
pub open spec fn footer_text(meta: PaginationMeta) -> Option<Seq<char>> {
    match (meta.page, meta.count) {
        (Some(p), Some(c)) => {
            let limit = match meta.limit {
                Some(l) => l,
                None => 100,
            };
            Some(
                "--- Page "@ + decimal(p as nat) + "/"@ + decimal(total_pages(c as nat, limit as nat))
                    + " ("@ + decimal(c as nat) + " total) ---"@,
            )
        },
        _ => None,
    }
}

/// The line a single item shows for one column: `HEADER:` padded to 20, then the value.
pub open spec fn item_line(item: JsonView, col: Column) -> Seq<char> {
    padded(col.header@ + ":"@, 20) + " "@ + extracted(item, col.json_path@)
}

/// What to print for a list.
#[derive(Debug, PartialEq)]
pub enum ListOutput {
    /// The items as pretty JSON.
    Json,
    /// The items as YAML.
    Yaml,
    /// The note "No resources found.".
    NoItems,
    /// This table text.
    Table(String),
}

/// What to print for a single item.
#[derive(Debug, PartialEq)]
pub enum ItemOutput {
    /// The item as pretty JSON.
    Json,
    /// The item as YAML.
    Yaml,
    /// These lines, one per column.
    Lines(Vec<String>),
}

/// What to print for a value.
#[derive(Debug, PartialEq)]
pub enum ValueOutput {
    /// This text as it is.
    Raw(String),
    /// The value as pretty JSON.
    Json,
    /// The value as YAML.
    Yaml,
}

/// What to print for a confirmation.
#[derive(Debug, PartialEq)]
pub enum SuccessOutput {
    /// This object as pretty JSON.
    Json(JsonValue),
    /// This object as YAML.
    Yaml(JsonValue),
    /// This message, in green.
    Plain(String),
}

/// The confirmation object `{"message": msg, "status": "ok"}`.
pub open spec fn success_object_fields(msg: Seq<char>) -> Map<Seq<char>, JsonView> {
    Map::<Seq<char>, JsonView>::empty().insert("status"@, JsonView::Str("ok"@)).insert(
        "message"@,
        JsonView::Str(msg),
    )
}

proof fn lemma_take_len_step(s: Seq<char>, k: int)
    requires
        0 <= k < s.len(),
    ensures
        utf8_len(s.take(k + 1)) == utf8_len(s.take(k)) + utf8_width(s[k]),
        utf8_width(s[k]) >= 1,
{
    assert(s.take(k + 1).drop_last() =~= s.take(k));
}

/// Prefix byte lengths strictly increase with the prefix.
proof fn lemma_take_len_strict(s: Seq<char>, j: int, k: int)
    requires
        0 <= j < k <= s.len(),
    ensures
        utf8_len(s.take(j)) < utf8_len(s.take(k)),
    decreases k - j,
{
    lemma_take_len_step(s, k - 1);
    if j < k - 1 {
        lemma_take_len_strict(s, j, k - 1);
    }
}

/// The one prefix of a given byte length.
proof fn lemma_boundary_unique(s: Seq<char>, j: int, k: int)
    requires
        0 <= j <= s.len(),
        0 <= k <= s.len(),
        utf8_len(s.take(j)) == utf8_len(s.take(k)),
    ensures
        j == k,
{
    if j < k {
        lemma_take_len_strict(s, j, k);
    } else if k < j {
        lemma_take_len_strict(s, k, j);
    }
}

/// Whether the first `limit` bytes hold all of `s`, and else the length of the longest prefix
/// whose byte count stays at or below `limit`, with that byte count.
fn prefix_within(s: &str, limit: usize) -> (r: (bool, usize, usize))
    ensures
        r.0 <==> utf8_len(s@) <= limit,
        r.1 <= s@.len(),
        r.2 == utf8_len(s@.take(r.1 as int)),
        r.2 <= limit,
        r.0 ==> r.1 == s@.len(),
        !r.0 ==> r.1 < s@.len() && utf8_len(s@.take(r.1 + 1)) > limit,
{
    let n = s.unicode_len();
    let mut k: usize = 0;
    let mut b: usize = 0;
    while k < n
        invariant
            n == s@.len(),
            k <= n,
            b == utf8_len(s@.take(k as int)),
            b <= limit,
        decreases n - k,
    {
        let w = char_utf8_width(s.get_char(k));
        proof { lemma_take_len_step(s@, k as int); }
        if w > limit - b {
            proof {
                assert forall|m: int| k < m <= n implies utf8_len(#[trigger] s@.take(m)) > limit by {
                    if m > k + 1 {
                        lemma_take_len_strict(s@, k + 1, m);
                    }
                }
                assert(s@.take(n as int) =~= s@);
            }
            return (false, k, b);
        }
        b = b + w;
        k = k + 1;
    }
    assert(s@.take(n as int) =~= s@);
    (true, n, b)
}

impl OutputFormatter {
    /// A formatter for the given format.
    pub fn new(format: OutputFormat) -> (r: OutputFormatter)
        ensures
            r.format == format,
    {
        OutputFormatter { format }
    }

    /// Whether `s` can be shortened to `max` bytes without cutting a character.
    pub fn can_truncate(s: &str, max: usize) -> (r: bool)
        ensures
            r == truncatable(s@, max as nat),
    {
        let (fits, _, _) = prefix_within(s, max);
        if fits {
            return true;
        }
        let cut: usize = if max > 3 { max - 3 } else { max };
        let (_, k, b) = prefix_within(s, cut);
        proof {
            if is_boundary(s@, cut as nat) {
                let kk = choose|kk: int| 0 <= kk <= s@.len() && utf8_len(#[trigger] s@.take(kk)) == cut;
                if kk > k + 1 {
                    lemma_take_len_strict(s@, k + 1, kk);
                } else if kk < k {
                    lemma_take_len_strict(s@, kk, k as int);
                }
            }
        }
        b == cut
    }

    /// `s` shortened to at most `max` bytes: unchanged when it fits, else cut before byte
    /// `max - 3` and marked with "..." (or cut at `max` when `max` is three or less).
    pub fn truncate(s: &str, max: usize) -> (r: String)
        requires
            truncatable(s@, max as nat),
        ensures
            r@ == truncated(s@, max as nat),
            utf8_len(r@) <= max,
    {
        let (fits, _, _) = prefix_within(s, max);
        if fits {
            return owned(s);
        }
        let cut: usize = if max > 3 { max - 3 } else { max };
        let (_, k, b) = prefix_within(s, cut);
        proof {
            let kk = choose|kk: int| 0 <= kk <= s@.len() && utf8_len(#[trigger] s@.take(kk)) == cut;
            if b != cut {
                // the boundary lies past `k`, yet the prefix one longer already exceeds it
                if kk > k {
                    if kk > k + 1 {
                        lemma_take_len_strict(s@, k + 1, kk);
                    }
                } else if kk < k {
                    lemma_take_len_strict(s@, kk, k as int);
                }
            }
            lemma_boundary_unique(s@, k as int, kk);
        }
        let prefix = s.substring_char(0, k);
        if max > 3 {
            let r = concat2(prefix, "...");
            proof {
                reveal_strlit("...");
                crate::text::lemma_utf8_len_concat(s@.take(k as int), "..."@);
                assert("..."@ =~= seq!['.', '.', '.']);
                assert(utf8_len(seq!['.', '.', '.']) == 3) by {
                    assert(('.' as int) == 46);
                    assert(utf8_width('.') == 1);
                    assert(seq!['.', '.', '.'].drop_last() =~= seq!['.', '.']);
                    assert(seq!['.', '.'].drop_last() =~= seq!['.']);
                    assert(seq!['.'].drop_last() =~= Seq::<char>::empty());
                    assert(utf8_len(Seq::<char>::empty()) == 0);
                    assert(utf8_len(seq!['.']) == 1);
                    assert(utf8_len(seq!['.', '.']) == 2);
                }
            }
            r
        } else {
            owned(prefix)
        }
    }
}

/// Whether the footer of a page can be computed: a zero page size with items to count cannot
/// be divided into pages (the command-line tool stops there with a panic).
pub open spec fn footer_computable(meta: PaginationMeta) -> bool {
    match (meta.page, meta.count) {
        (Some(_), Some(c)) => c != 0 ==> meta.limit != Some(0u64),
        _ => true,
    }
}

proof fn lemma_ceil_div(c: u64, l: u64)
    requires
        l > 0,
    ensures
        (c / l + if c % l != 0 {
            1int
        } else {
            0int
        }) == (c + l - 1) as nat / (l as nat),
{
    assert((c / l + if c % l != 0 {
        1int
    } else {
        0int
    }) == (c + l - 1) as nat / (l as nat)) by (nonlinear_arith)
        requires
            l > 0,
    {
        let q = c / l;
        let r = c % l;
        assert(c == q * l + r);
        assert(0 <= r < l);
        if r == 0 {
            assert(c + l - 1 == q * l + (l - 1));
        } else {
            assert(c + l - 1 == (q + 1) * l + (r - 1));
        }
    }
}

/// Copies of the columns of a table: the narrow ones, then in the wide format the wide ones.
fn all_columns(columns: &Vec<Column>, wide_columns: Option<&Vec<Column>>, wide: bool) -> (r: Vec<Column>)
    ensures
        r@ == table_columns(
            columns@,
            match wide_columns {
                Some(w) => Some(w@),
                None => None,
            },
            wide,
        ),
{
    let mut r: Vec<Column> = Vec::new();
    let mut i: usize = 0;
    while i < columns.len()
        invariant
            i <= columns@.len(),
            r@ == columns@.take(i as int),
        decreases columns@.len() - i,
    {
        r.push(columns[i]);
        assert(columns@.take(i + 1) =~= columns@.take(i as int).push(columns@[i as int]));
        i = i + 1;
    }
    assert(columns@.take(columns@.len() as int) =~= columns@);
    if wide {
        if let Some(extra) = wide_columns {
            let mut j: usize = 0;
            while j < extra.len()
                invariant
                    j <= extra@.len(),
                    r@ == columns@ + extra@.take(j as int),
                decreases extra@.len() - j,
            {
                r.push(extra[j]);
                assert(extra@.take(j + 1) =~= extra@.take(j as int).push(extra@[j as int]));
                j = j + 1;
            }
            assert(extra@.take(extra@.len() as int) =~= extra@);
        }
    }
    r
}

/// The cell a column shows for an item.
fn cell(item: &JsonValue, col: &Column, wide: bool) -> (r: String)
    requires
        !wide && col.max_width is Some ==> truncatable(
            extracted(json_view(*item), col.json_path@),
            col.max_width->0 as nat,
        ),
    ensures
        r@ == cell_for(json_view(*item), *col, wide),
{
    let v = extract(item, col.json_path);
    match col.max_width {
        Some(m) => {
            if !wide {
                OutputFormatter::truncate(v.as_str(), m)
            } else {
                v
            }
        },
        None => v,
    }
}

impl OutputFormatter {
    /// Whether every cell of the table `list_output` would build can be shortened without
    /// cutting a character (the condition `list_output` needs for the table format).
    pub fn cells_fit(&self, items: &Vec<JsonValue>, columns: &Vec<Column>, wide_columns: Option<&Vec<Column>>) -> (r: bool)
        ensures
            r == cells_truncatable(
                views_of(items@),
                table_columns(
                    columns@,
                    match wide_columns {
                        Some(w) => Some(w@),
                        None => None,
                    },
                    self.format == OutputFormat::Wide,
                ),
                self.format == OutputFormat::Wide,
            ),
    {
        let wide = self.format == OutputFormat::Wide;
        let cols = all_columns(columns, wide_columns, wide);
        let ghost xs = views_of(items@);
        let ghost tcols = cols@;
        if wide {
            return true;
        }
        let mut i: usize = 0;
        while i < items.len()
            invariant
                !wide,
                wide == (self.format == OutputFormat::Wide),
                cols@ == tcols,
                tcols == table_columns(
                    columns@,
                    match wide_columns {
                        Some(w) => Some(w@),
                        None => None,
                    },
                    wide,
                ),
                xs == views_of(items@),
                i <= items@.len(),
                forall|a: int, b: int|
                    0 <= a < i && 0 <= b < cols@.len() && cols@[b].max_width is Some ==> truncatable(
                        extracted(xs[a], cols@[b].json_path@),
                        cols@[b].max_width->0 as nat,
                    ),
            decreases items@.len() - i,
        {
            let mut j: usize = 0;
            while j < cols.len()
                invariant
                    !wide,
                    wide == (self.format == OutputFormat::Wide),
                    cols@ == tcols,
                tcols == table_columns(
                    columns@,
                    match wide_columns {
                        Some(w) => Some(w@),
                        None => None,
                    },
                    wide,
                ),
                    xs == views_of(items@),
                    i < items@.len(),
                    j <= cols@.len(),
                    forall|a: int, b: int|
                        0 <= a < i && 0 <= b < cols@.len() && cols@[b].max_width is Some ==> truncatable(
                            extracted(xs[a], cols@[b].json_path@),
                            cols@[b].max_width->0 as nat,
                        ),
                    forall|b: int|
                        0 <= b < j && cols@[b].max_width is Some ==> truncatable(
                            extracted(xs[i as int], cols@[b].json_path@),
                            cols@[b].max_width->0 as nat,
                        ),
                decreases cols@.len() - j,
            {
                if let Some(m) = cols[j].max_width {
                    let v = extract(&items[i], cols[j].json_path);
                    if !OutputFormatter::can_truncate(v.as_str(), m) {
                        proof {
                            assert(xs[i as int] == json_view(items@[i as int]));
                            let _ = cols@[j as int];
                            assert(!cells_truncatable(xs, cols@, wide));
                        }
                        return false;
                    }
                }
                j = j + 1;
            }
            i = i + 1;
        }
        proof {
            assert forall|a: int, b: int|
                #![trigger xs[a], cols@[b]]
                0 <= a < xs.len() && 0 <= b < cols@.len() && !wide && cols@[b].max_width is Some implies truncatable(
                    extracted(xs[a], cols@[b].json_path@),
                    cols@[b].max_width->0 as nat,
                ) by {}
        }
        true
    }

    /// What to print for a list of items (`print_list`, without the page footer): the items
    /// themselves in the JSON and YAML formats; otherwise a note when there are none, else a table
    /// whose first row holds the headings and each further row one item's cells.
    pub fn list_output(&self, items: &Vec<JsonValue>, columns: &Vec<Column>, wide_columns: Option<&Vec<Column>>) -> (r:
        ListOutput)
        requires
            self.format == OutputFormat::Table ==> cells_truncatable(
                views_of(items@),
                table_columns(
                    columns@,
                    match wide_columns {
                        Some(w) => Some(w@),
                        None => None,
                    },
                    self.format == OutputFormat::Wide,
                ),
                self.format == OutputFormat::Wide,
            ),
        ensures
            self.format == OutputFormat::Json ==> r is Json,
            self.format == OutputFormat::Yaml ==> r is Yaml,
            (self.format == OutputFormat::Table || self.format == OutputFormat::Wide) && items@.len() == 0
                ==> r is NoItems,
            (self.format == OutputFormat::Table || self.format == OutputFormat::Wide) && items@.len() > 0
                ==> r is Table && r->Table_0@ == blank_table(
                table_rows(
                    views_of(items@),
                    table_columns(
                        columns@,
                        match wide_columns {
                            Some(w) => Some(w@),
                            None => None,
                        },
                        self.format == OutputFormat::Wide,
                    ),
                    self.format == OutputFormat::Wide,
                ),
            ),
    {
        match self.format {
            OutputFormat::Json => {
                return ListOutput::Json;
            },
            OutputFormat::Yaml => {
                return ListOutput::Yaml;
            },
            _ => {},
        }
        let wide = self.format == OutputFormat::Wide;
        let cols = all_columns(columns, wide_columns, wide);
        if items.len() == 0 {
            return ListOutput::NoItems;
        }
        let ghost xs = views_of(items@);
        let mut headers: Vec<String> = Vec::new();
        let mut j: usize = 0;
        while j < cols.len()
            invariant
                j <= cols@.len(),
                headers@.len() == j,
                forall|b: int| 0 <= b < j ==> #[trigger] headers@[b]@ == cols@[b].header@,
            decreases cols@.len() - j,
        {
            headers.push(owned(cols[j].header));
            j = j + 1;
        }
        let mut rows: Vec<Vec<String>> = Vec::new();
        rows.push(headers);
        let mut i: usize = 0;
        while i < items.len()
            invariant
                xs == views_of(items@),
                cells_truncatable(xs, cols@, wide),
                i <= items@.len(),
                rows@.len() == i + 1,
                rows_view(rows@)[0] == cols@.map_values(|c: Column| c.header@),
                forall|a: int| 0 <= a < i ==> #[trigger] rows_view(rows@)[a + 1] == cols@.map_values(
                    |c: Column| cell_for(xs[a], c, wide),
                ),
            decreases items@.len() - i,
        {
            let mut row: Vec<String> = Vec::new();
            let mut j: usize = 0;
            while j < cols.len()
                invariant
                    xs == views_of(items@),
                    cells_truncatable(xs, cols@, wide),
                    i < items@.len(),
                    j <= cols@.len(),
                    row@.len() == j,
                    forall|b: int| 0 <= b < j ==> #[trigger] row@[b]@ == cell_for(xs[i as int], cols@[b], wide),
                decreases cols@.len() - j,
            {
                proof {
                    let _ = xs[i as int];
                    let _ = cols@[j as int];
                    assert(xs[i as int] == json_view(items@[i as int]));
                }
                let c = cell(&items[i], &cols[j], wide);
                row.push(c);
                j = j + 1;
            }
            let ghost before = rows@;
            rows.push(row);
            proof {
                assert(row@.map_values(|c: String| c@) =~= cols@.map_values(
                    |c: Column| cell_for(xs[i as int], c, wide),
                ));
                assert(rows_view(rows@) =~= rows_view(before).push(row@.map_values(|c: String| c@)));
                assert forall|a: int| 0 <= a < i + 1 implies #[trigger] rows_view(rows@)[a + 1] == cols@.map_values(
                    |c: Column| cell_for(xs[a], c, wide),
                ) by {
                    if a < i {
                        assert(rows@[a + 1] == before[a + 1]);
                    }
                }
                assert(rows@[0] == before[0]);
            }
            i = i + 1;
        }
        proof {
            let tr = table_rows(xs, cols@, wide);
            assert forall|a: int| 0 <= a < rows_view(rows@).len() implies rows_view(rows@)[a] == tr[a] by {
                if a > 0 {
                    assert(rows_view(rows@)[(a - 1) + 1] == cols@.map_values(|c: Column| cell_for(xs[a - 1], c, wide)));
                }
            }
            assert(rows_view(rows@) =~= tr);
        }
        ListOutput::Table(render_blank_table(rows))
    }

    /// The footer under a paged table, when the answer gives a page number and a count.
    pub fn page_footer(meta: &PaginationMeta) -> (r: Option<String>)
        requires
            footer_computable(*meta),
        ensures
            match r {
                Some(t) => footer_text(*meta) == Some(t@),
                None => footer_text(*meta) is None,
            },
    {
        match (meta.page, meta.count) {
            (Some(p), Some(c)) => {
                let limit: u64 = match meta.limit {
                    Some(l) => l,
                    None => 100,
                };
                let total: u64 = if c == 0 {
                    1
                } else {
                    proof {
                        lemma_ceil_div(c, limit);
                        assert(c % limit != 0 ==> c / limit < c) by (nonlinear_arith)
                            requires
                                limit > 0,
                        {
                            if c % limit != 0 {
                                assert(limit >= 2 || c % limit == 0);
                            }
                        }
                    }
                    c / limit + if c % limit != 0 {
                        1
                    } else {
                        0
                    }
                };
                let ps = u64_to_decimal(p);
                let ts = u64_to_decimal(total);
                let cs = u64_to_decimal(c);
                let mut line = owned("--- Page ");
                line.append(ps.as_str());
                line.append("/");
                line.append(ts.as_str());
                line.append(" (");
                line.append(cs.as_str());
                line.append(" total) ---");
                Some(line)
            },
            _ => None,
        }
    }

    /// What to print for a single item (`print_item`): the item in the JSON and YAML formats,
    /// otherwise one line per column, `HEADER:` padded to 20 then the value.
    pub fn item_output(&self, item: &JsonValue, columns: &Vec<Column>) -> (r: ItemOutput)
        ensures
            self.format == OutputFormat::Json ==> r is Json,
            self.format == OutputFormat::Yaml ==> r is Yaml,
            self.format == OutputFormat::Table || self.format == OutputFormat::Wide ==> r is Lines
                && r->Lines_0@.len() == columns@.len() && forall|j: int| 0 <= j < columns@.len()
                ==> #[trigger] r->Lines_0@[j]@ == item_line(json_view(*item), columns@[j]),
    {
        match self.format {
            OutputFormat::Json => ItemOutput::Json,
            OutputFormat::Yaml => ItemOutput::Yaml,
            _ => {
                let mut lines: Vec<String> = Vec::new();
                let mut j: usize = 0;
                while j < columns.len()
                    invariant
                        j <= columns@.len(),
                        lines@.len() == j,
                        forall|b: int| 0 <= b < j ==> #[trigger] lines@[b]@ == item_line(
                            json_view(*item),
                            columns@[b],
                        ),
                    decreases columns@.len() - j,
                {
                    let label = concat2(columns[j].header, ":");
                    let mut line = pad_right(label.as_str(), 20);
                    line.append(" ");
                    let v = extract(item, columns[j].json_path);
                    line.append(v.as_str());
                    lines.push(line);
                    j = j + 1;
                }
                ItemOutput::Lines(lines)
            },
        }
    }

    /// What to print for a value (`print_value`): a string value as its raw text in every format
    /// (HOCON configuration comes back that way); otherwise YAML in the YAML format and pretty
    /// JSON in the others.
    pub fn value_output(&self, value: &JsonValue) -> (r: ValueOutput)
        ensures
            value is Str ==> r is Raw && r->Raw_0@ == value->Str_0@,
            !(value is Str) && self.format == OutputFormat::Yaml ==> r is Yaml,
            !(value is Str) && self.format != OutputFormat::Yaml ==> r is Json,
    {
        if let JsonValue::Str(s) = value {
            return ValueOutput::Raw(s.clone());
        }
        match self.format {
            OutputFormat::Yaml => ValueOutput::Yaml,
            _ => ValueOutput::Json,
        }
    }

    /// What to print for a confirmation (`print_success`): `{"message": msg, "status": "ok"}` in
    /// the JSON and YAML formats, the message in green otherwise.
    pub fn success_output(&self, msg: &str) -> (r: SuccessOutput)
        ensures
            self.format == OutputFormat::Json ==> r is Json && is_sorted_object(r->Json_0) && object_fields(
                r->Json_0,
            ) == success_object_fields(msg@),
            self.format == OutputFormat::Yaml ==> r is Yaml && is_sorted_object(r->Yaml_0) && object_fields(
                r->Yaml_0,
            ) == success_object_fields(msg@),
            self.format == OutputFormat::Table || self.format == OutputFormat::Wide ==> r is Plain
                && r->Plain_0@ == msg@,
    {
        match self.format {
            OutputFormat::Json => SuccessOutput::Json(success_object(msg)),
            OutputFormat::Yaml => SuccessOutput::Yaml(success_object(msg)),
            _ => SuccessOutput::Plain(owned(msg)),
        }
    }
}

/// The confirmation object `{"message": msg, "status": "ok"}`.
fn success_object(msg: &str) -> (r: JsonValue)
    ensures
        is_sorted_object(r),
        object_fields(r) == success_object_fields(msg@),
{
    let mut es: Vec<(String, JsonValue)> = Vec::new();
    object_set(&mut es, owned("status"), JsonValue::Str(owned("ok")));
    object_set(&mut es, owned("message"), JsonValue::Str(owned(msg)));
    JsonValue::Object(es)
}

} // verus!
