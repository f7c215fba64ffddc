//! Laws of what is shown: list items, cell texts, table shape, item lines, the page footer, and
//! decimal numbers.
use vstd::prelude::*;
use crate::client::PaginationMeta;
use crate::json::{JsonView, cell_text, items_of, field, extracted};
use crate::output::{Column, cell_for, truncated, table_columns, table_rows, footer_text, total_pages, item_line};
use crate::text::{decimal, all_digits, digits_value, digit_char, spaces};
use crate::laws::law_footer_page_count;

verus! {

/// The items a list shows: a bare array's elements, an envelope's `data` array's elements, and
/// otherwise the answer itself as the one item.
pub proof fn law_list_items(v: JsonView)
    ensures
        v matches JsonView::Array(xs) ==> items_of(v) == xs,
        v is Object && field(v->Object_0, "data"@) is Some && field(v->Object_0, "data"@)->0 is Array
            ==> items_of(v) == field(v->Object_0, "data"@)->0->Array_0,
        !(v is Array) && !(v is Object && field(v->Object_0, "data"@) is Some && field(
            v->Object_0,
            "data"@,
        )->0 is Array) ==> items_of(v) == seq![v],
{
    reveal_strlit("data");
    assert("data"@ =~= seq!['d', 'a', 't', 'a']);
}

/// The cell of a list of values is the cells of its elements joined by ", ": adding an element
/// adds ", " and its cell; the cell of an empty list is empty, that of a one-element list is its
/// element's cell.
pub proof fn law_list_cells(xs: Seq<JsonView>, x: JsonView)
    ensures
        cell_text(JsonView::Array(Seq::empty())).len() == 0,
        cell_text(JsonView::Array(seq![x])) == cell_text(x),
        xs.len() > 0 ==> cell_text(JsonView::Array(xs.push(x))) == cell_text(JsonView::Array(xs)) + ", "@
            + cell_text(x),
{
    reveal_strlit(", ");
    assert(", "@ =~= seq![',', ' ']);
    assert(xs.push(x).subrange(0, xs.len() as int) =~= xs);
    assert(seq![x][0] == x);
}

/// A cell shows the whole value at its column's path, except in a narrow table where a column
/// with a width limit shows the value shortened to that width.
pub proof fn law_cell_width(item: JsonView, col: Column, wide: bool)
    ensures
        wide || col.max_width is None ==> cell_for(item, col, wide) == extracted(item, col.json_path@),
        !wide && col.max_width is Some ==> cell_for(item, col, wide) == truncated(
            extracted(item, col.json_path@),
            col.max_width->0 as nat,
        ),
{
}

/// A table has a heading row of the column headers and one row per item, each with one cell
/// per column in column order; the wide format adds the wide columns after the narrow ones.
pub proof fn law_table_shape(
    items: Seq<JsonView>,
    columns: Seq<Column>,
    wide_columns: Option<Seq<Column>>,
    wide: bool,
)
    ensures
        table_columns(columns, wide_columns, wide) == if wide && wide_columns is Some {
            columns + wide_columns->0
        } else {
            columns
        },
        table_rows(items, columns, wide).len() == items.len() + 1,
        table_rows(items, columns, wide)[0].len() == columns.len(),
        forall|j: int| 0 <= j < columns.len() ==> #[trigger] table_rows(items, columns, wide)[0][j] == columns[j].header@,
        forall|i: int, j: int|
            0 <= i < items.len() && 0 <= j < columns.len() ==> #[trigger] table_rows(items, columns, wide)[i
                + 1][j] == cell_for(items[i], columns[j], wide),
        forall|i: int| 0 <= i < items.len() ==> #[trigger] table_rows(items, columns, wide)[i + 1].len() == columns.len(),
{
}

/// An item line is the column header and ":" padded with spaces to 20 characters, a space, and
/// the value at the column's path.
pub proof fn law_item_line(item: JsonView, col: Column)
    ensures
        item_line(item, col) == col.header@ + ":"@ + spaces(
            if col.header@.len() + 1 < 20 {
                (19 - col.header@.len()) as nat
            } else {
                0
            },
        ) + " "@ + extracted(item, col.json_path@),
{
    reveal_strlit(":");
    let h = col.header@ + ":"@;
    assert(h.len() == col.header@.len() + 1);
    if h.len() >= 20 {
        assert(h + spaces(0) =~= h);
    }
}

/// The footer of a page reads `--- Page p/t (c total) ---`: the page number, the least number of
/// pages of the page size that hold all items (one page when there are none), and the item
/// count; it is shown exactly when the answer gives a page number and a count, and without a page
/// size the size is 100.
pub proof fn law_footer(meta: PaginationMeta)
    requires
        meta.limit != Some(0u64),
    ensures
        footer_text(meta) is Some <==> meta.page is Some && meta.count is Some,
        footer_text(meta) == footer_text(
            PaginationMeta {
                limit: Some(
                    match meta.limit {
                        Some(l) => l,
                        None => 100,
                    },
                ),
                ..meta
            },
        ),
        meta.page is Some && meta.count is Some ==> {
            let l: nat = match meta.limit {
                Some(l) => l as nat,
                None => 100,
            };
            let c: nat = meta.count->0 as nat;
            let t = total_pages(c, l);
            &&& footer_text(meta) == Some(
                "--- Page "@ + decimal(meta.page->0 as nat) + "/"@ + decimal(t) + " ("@ + decimal(c)
                    + " total) ---"@,
            )
            &&& c == 0 ==> t == 1
            &&& c > 0 ==> (t - 1) * l < c && c <= t * l
        },
{
    if meta.page is Some && meta.count is Some {
        let l: nat = match meta.limit {
            Some(l) => l as nat,
            None => 100,
        };
        let c: nat = meta.count->0 as nat;
        if c > 0 {
            law_footer_page_count(c, l);
        }
    }
}

/// A number is written in decimal: digits only, no leading zero, and reading the digits back
/// gives the number.
pub proof fn law_decimal_reads_back(n: nat)
    ensures
        decimal(n).len() > 0,
        all_digits(decimal(n)),
        digits_value(decimal(n)) == n,
        n > 0 ==> decimal(n)[0] != '0',
    decreases n,
{
    if n < 10 {
        assert(decimal(n) == seq![digit_char(n)]);
        assert(seq![digit_char(n)].drop_last() =~= Seq::<char>::empty());
        assert((digit_char(n) as int) == n + 48);
        assert(seq![digit_char(n)].last() == digit_char(n));
        assert(digits_value(seq![digit_char(n)]) == digits_value(Seq::<char>::empty()) * 10 + ((
        digit_char(n) as int - 48) as nat));
    } else {
        law_decimal_reads_back(n / 10);
        let p = decimal(n / 10);
        let d = digit_char(n % 10);
        assert((d as int) == n % 10 + 48);
        assert(decimal(n) == p.push(d));
        assert(p.push(d).drop_last() =~= p);
        assert(p.push(d)[0] == p[0]);
        assert(all_digits(p.push(d))) by {
            assert forall|i: int| 0 <= i < p.push(d).len() implies '0' <= #[trigger] p.push(d)[i] <= '9' by {
                if i < p.len() {
                    assert(p.push(d)[i] == p[i]);
                }
            }
        }
        assert(p.push(d).last() == d);
        assert(digits_value(p.push(d)) == digits_value(p) * 10 + ((d as int - 48) as nat));
        assert(n == (n / 10) * 10 + n % 10);
    }
}

} // verus!
