//! Columnar layout: cells are filled column by column and printed row by row.
use vstd::prelude::*;

use crate::text::{pad_right, push_char, push_padded};

verus! {

/// The number of rows `n` cells take in `columns` columns: `n / columns`
/// rounded up.
pub open spec fn row_count(n: int, columns: int) -> int
    recommends
        columns > 0,
{
    (n + columns - 1) / columns
}

/// The text of the cell that holds entry `idx`: the entry padded to `width`,
/// or nothing past the last entry.
pub open spec fn cell(es: Seq<Seq<char>>, idx: int, width: nat) -> Seq<char> {
    if 0 <= idx < es.len() {
        pad_right(es[idx], width)
    } else {
        Seq::empty()
    }
}

/// The first `c` cells of row `row`; column `k` holds entry `k * rows + row`.
pub open spec fn row_prefix(es: Seq<Seq<char>>, rows: int, width: nat, row: int, c: int) -> Seq<
    char,
>
    decreases c,
{
    if c <= 0 {
        Seq::empty()
    } else {
        row_prefix(es, rows, width, row, c - 1) + cell(es, (c - 1) * rows + row, width)
    }
}

/// The first `r` rows, each ended by a newline.
pub open spec fn rows_prefix(
    es: Seq<Seq<char>>,
    columns: int,
    rows: int,
    width: nat,
    r: int,
) -> Seq<char>
    decreases r,
{
    if r <= 0 {
        Seq::empty()
    } else {
        rows_prefix(es, columns, rows, width, r - 1) + row_prefix(es, rows, width, r - 1, columns)
            + seq!['\n']
    }
}

/// The whole block of `es` laid out in `columns` columns of `width`
/// characters.
pub open spec fn layout(es: Seq<Seq<char>>, columns: int, width: nat) -> Seq<char> {
    let rows = row_count(es.len() as int, columns);
    rows_prefix(es, columns, rows, width, rows)
}

/// The views of a list of strings.
pub open spec fn views(es: Seq<String>) -> Seq<Seq<char>> {
    es.map_values(|s: String| s@)
}

/// Appends `entries` laid out in `columns` columns of `width` characters:
/// entry `i` stands in column `i / rows`, row `i % rows`; rows are printed
/// top to bottom, each ended by a newline, and a row's missing cells are
/// left out. An entry longer than `width` is kept whole and pushes the rest
/// of its row to the right.
pub fn display_in_columns(tooltip: &mut String, entries: &Vec<String>, columns: usize, width: usize)
    requires
        columns > 0,
    ensures
        final(tooltip)@ == old(tooltip)@ + layout(views(entries@), columns as int, width as nat),
{
    let ghost es = views(entries@);
    let n = entries.len();
    let q = n / columns;
    let rows: usize = if n % columns == 0 {
        q
    } else {
        assert(q < usize::MAX) by (nonlinear_arith)
            requires
                q == n / columns,
                n % columns != 0,
                columns > 0,
                n <= usize::MAX,
        {
            assert(columns >= 2);
            assert(q * columns <= n);
        }
        q + 1
    };
    assert(rows as int == row_count(n as int, columns as int)) by (nonlinear_arith)
        requires
            q == n / columns,
            rows == if n % columns == 0 { q as int } else { q + 1 },
            columns > 0,
    {
        let m = n as int % columns as int;
        assert(n as int == q * columns + m);
    }
    let mut row: usize = 0;
    while row < rows
        invariant
            row <= rows,
            es == views(entries@),
            rows as int == row_count(n as int, columns as int),
            n == entries@.len(),
            columns > 0,
            tooltip@ == old(tooltip)@ + rows_prefix(
                es,
                columns as int,
                rows as int,
                width as nat,
                row as int,
            ),
        decreases rows - row,
    {
        let ghost before = tooltip@;
        let mut col: usize = 0;
        while col < columns
            invariant
                row < rows,
                col <= columns,
                es == views(entries@),
                n == entries@.len(),
                tooltip@ == before + row_prefix(
                    es,
                    rows as int,
                    width as nat,
                    row as int,
                    col as int,
                ),
            decreases columns - col,
        {
            assert((col as int) * (rows as int) + row as int <= u128::MAX) by (nonlinear_arith)
                requires
                    col <= usize::MAX,
                    rows <= usize::MAX,
                    row <= usize::MAX,
                    usize::MAX <= u64::MAX,
            ;
            let idx: u128 = (col as u128) * (rows as u128) + (row as u128);
            if idx < n as u128 {
                push_padded(tooltip, entries[idx as usize].as_str(), width);
            }
            assert(tooltip@ =~= before + row_prefix(
                es,
                rows as int,
                width as nat,
                row as int,
                col + 1,
            ));
            col = col + 1;
        }
        push_char(tooltip, '\n');
        assert(tooltip@ =~= old(tooltip)@ + rows_prefix(
            es,
            columns as int,
            rows as int,
            width as nat,
            row + 1,
        ));
        row = row + 1;
    }
}

/// Column-major fill: with `rows` rows, every entry `i` of `n` has a cell,
/// in column `i / rows` (one of the `columns`) and row `i % rows`, and that
/// cell holds entry `i`.
pub proof fn lemma_column_major(n: int, columns: int, i: int)
    requires
        columns > 0,
        0 <= i < n,
    ensures
        ({
            let rows = row_count(n, columns);
            &&& rows > 0
            &&& i / rows < columns
            &&& i % rows < rows
            &&& (i / rows) * rows + i % rows == i
        }),
{
    let rows = row_count(n, columns);
    assert(rows * columns >= n && rows > 0) by (nonlinear_arith)
        requires
            rows == (n + columns - 1) / columns,
            columns > 0,
            n > 0,
    ;
    assert(i / rows < columns) by (nonlinear_arith)
        requires
            rows * columns >= n,
            rows > 0,
            0 <= i < n,
    ;
    assert((i / rows) * rows + i % rows == i) by (nonlinear_arith)
        requires
            rows > 0,
    ;
}

} // verus!
