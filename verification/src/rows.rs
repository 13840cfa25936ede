//! Rows of cells, and the linear scans that find one.
//!
//! A table is a sequence of rows and a row a sequence of text cells. Rows
//! come back from the store without their trailing empty cells, so no row is
//! taken to have any particular length. Every lookup is a scan from the top.

use vstd::prelude::*;
use crate::text::{same_text, Text};

verus! {

/// A row as the contracts see it.
pub type RowModel = Seq<Text>;

/// A table as the contracts see it.
pub type TableModel = Seq<Seq<Text>>;

/// The cell at `column`, or the empty text where the row has no such cell.
pub open spec fn cell_or_empty(row: RowModel, column: int) -> Text {
    if 0 <= column < row.len() {
        row[column]
    } else {
        Seq::empty()
    }
}

/// Whether the row's first cell is `key`.
pub open spec fn keyed_by(row: RowModel, key: Text) -> bool {
    row.len() >= 1 && row[0] == key
}

/// Whether the row's first two cells are `first` and `second`.
pub open spec fn keyed_by_pair(row: RowModel, first: Text, second: Text) -> bool {
    row.len() >= 2 && row[0] == first && row[1] == second
}

/// The index of the first row at or after `from` whose first cell is `key`.
pub open spec fn first_keyed_from(rows: TableModel, key: Text, from: int) -> Option<int>
    decreases rows.len() - from,
{
    if from < 0 || from >= rows.len() {
        None
    } else if keyed_by(rows[from], key) {
        Some(from)
    } else {
        first_keyed_from(rows, key, from + 1)
    }
}

/// The index of the first row below the header whose first cell is `key`.
pub open spec fn first_keyed(rows: TableModel, key: Text) -> Option<int> {
    first_keyed_from(rows, key, 1)
}

/// The index of the first row at or after `from` whose first two cells are
/// `first` and `second`.
pub open spec fn first_pair_from(rows: TableModel, first: Text, second: Text, from: int) -> Option<
    int,
>
    decreases rows.len() - from,
{
    if from < 0 || from >= rows.len() {
        None
    } else if keyed_by_pair(rows[from], first, second) {
        Some(from)
    } else {
        first_pair_from(rows, first, second, from + 1)
    }
}

/// The index of the first row below the header whose first two cells are
/// `first` and `second`.
pub open spec fn first_pair(rows: TableModel, first: Text, second: Text) -> Option<int> {
    first_pair_from(rows, first, second, 1)
}

/// The first `columns` cells of a row.
pub open spec fn row_prefix(row: RowModel, columns: int) -> RowModel {
    if columns <= 0 {
        Seq::empty()
    } else if columns < row.len() {
        row.subrange(0, columns)
    } else {
        row
    }
}

/// The first `columns` cells of every row.
pub open spec fn table_prefix(rows: TableModel, columns: int) -> TableModel {
    Seq::new(rows.len(), |i: int| row_prefix(rows[i], columns))
}

/// The row with `cells` written over it from `column` on; cells between the
/// end of the row and `column` are empty.
pub open spec fn row_written(row: RowModel, column: int, cells: RowModel) -> RowModel {
    let width = if row.len() > column + cells.len() {
        row.len() as int
    } else {
        column + cells.len()
    };
    Seq::new(
        width as nat,
        |j: int|
            if column <= j < column + cells.len() {
                cells[j - column]
            } else {
                cell_or_empty(row, j)
            },
    )
}

/// A scan finds `at` exactly when `at` is the first keyed row at or after
/// `from`.
pub proof fn lemma_first_keyed_from(rows: TableModel, key: Text, from: int)
    requires
        0 <= from,
    ensures
        match first_keyed_from(rows, key, from) {
            Some(at) => from <= at < rows.len() && keyed_by(rows[at], key) && forall|j: int|
                from <= j < at ==> !keyed_by(#[trigger] rows[j], key),
            None => forall|j: int| from <= j < rows.len() ==> !keyed_by(#[trigger] rows[j], key),
        },
    decreases rows.len() - from,
{
    if from < rows.len() && !keyed_by(rows[from], key) {
        lemma_first_keyed_from(rows, key, from + 1);
    }
}

/// A scan finds `at` exactly when `at` is the first row at or after `from`
/// keyed by the pair.
pub proof fn lemma_first_pair_from(rows: TableModel, first: Text, second: Text, from: int)
    requires
        0 <= from,
    ensures
        match first_pair_from(rows, first, second, from) {
            Some(at) => from <= at < rows.len() && keyed_by_pair(rows[at], first, second)
                && forall|j: int|
                from <= j < at ==> !keyed_by_pair(#[trigger] rows[j], first, second),
            None => forall|j: int|
                from <= j < rows.len() ==> !keyed_by_pair(#[trigger] rows[j], first, second),
        },
    decreases rows.len() - from,
{
    if from < rows.len() && !keyed_by_pair(rows[from], first, second) {
        lemma_first_pair_from(rows, first, second, from + 1);
    }
}

/// Whether the first cell of `row` is `key`.
pub fn row_keyed_by(row: &Vec<String>, key: &str) -> (yes: bool)
    ensures
        yes == keyed_by(row.deep_view(), key@),
{
    row.len() >= 1 && same_text(row[0].as_str(), key)
}

/// Whether the first two cells of `row` are `first` and `second`.
pub fn row_keyed_by_pair(row: &Vec<String>, first: &str, second: &str) -> (yes: bool)
    ensures
        yes == keyed_by_pair(row.deep_view(), first@, second@),
{
    row.len() >= 2 && same_text(row[0].as_str(), first) && same_text(row[1].as_str(), second)
}

/// Scans the rows below the header for the first one whose first cell is
/// `key`, and returns its index.
pub fn find_keyed(rows: &Vec<Vec<String>>, key: &str) -> (found: Option<usize>)
    ensures
        match found {
            Some(at) => 1 <= at < rows.len() && first_keyed(rows.deep_view(), key@) == Some(
                at as int,
            ),
            None => first_keyed(rows.deep_view(), key@) is None,
        },
{
    let ghost all = rows.deep_view();
    let mut i: usize = 1;
    while i < rows.len()
        invariant
            1 <= i,
            all == rows.deep_view(),
            first_keyed(all, key@) == first_keyed_from(all, key@, i as int),
        decreases rows.len() - i,
    {
        if row_keyed_by(&rows[i], key) {
            return Some(i);
        }
        i += 1;
    }
    None
}

/// Scans the rows below the header for the first one whose first two cells
/// are `first` and `second`, and returns its index.
pub fn find_pair(rows: &Vec<Vec<String>>, first: &str, second: &str) -> (found: Option<usize>)
    ensures
        match found {
            Some(at) => 1 <= at < rows.len() && first_pair(rows.deep_view(), first@, second@)
                == Some(at as int),
            None => first_pair(rows.deep_view(), first@, second@) is None,
        },
{
    let ghost all = rows.deep_view();
    let mut i: usize = 1;
    while i < rows.len()
        invariant
            1 <= i,
            all == rows.deep_view(),
            first_pair(all, first@, second@) == first_pair_from(all, first@, second@, i as int),
        decreases rows.len() - i,
    {
        if row_keyed_by_pair(&rows[i], first, second) {
            return Some(i);
        }
        i += 1;
    }
    None
}

/// The row number, counted from one, of the first row below the header whose
/// first cell is `quest_id`.
pub fn find_row_index(rows: &Vec<Vec<String>>, quest_id: &str) -> (found: Option<usize>)
    ensures
        match found {
            Some(number) => 2 <= number <= rows.len() && first_keyed(
                rows.deep_view(),
                quest_id@,
            ) == Some(number - 1),
            None => first_keyed(rows.deep_view(), quest_id@) is None,
        },
{
    match find_keyed(rows, quest_id) {
        Some(at) => Some(at + 1),
        None => None,
    }
}

/// Copies the first `columns` cells of a row.
pub fn prefix_of_row(row: &Vec<String>, columns: usize) -> (out: Vec<String>)
    ensures
        out.deep_view() == row_prefix(row.deep_view(), columns as int),
{
    let mut out: Vec<String> = Vec::new();
    let mut j: usize = 0;
    while j < row.len() && j < columns
        invariant
            j <= row.len(),
            j <= columns,
            out.len() == j,
            forall|k: int| 0 <= k < j ==> out[k]@ == row[k]@,
        decreases row.len() - j,
    {
        out.push(row[j].clone());
        j += 1;
    }
    assert(out.deep_view() =~= row_prefix(row.deep_view(), columns as int));
    out
}

/// Copies the first `columns` cells of every row.
pub fn prefix_of_table(rows: &Vec<Vec<String>>, columns: usize) -> (out: Vec<Vec<String>>)
    ensures
        out.deep_view() == table_prefix(rows.deep_view(), columns as int),
{
    let mut out: Vec<Vec<String>> = Vec::new();
    let mut i: usize = 0;
    while i < rows.len()
        invariant
            i <= rows.len(),
            out.len() == i,
            forall|k: int|
                0 <= k < i ==> out[k].deep_view() == row_prefix(
                    rows[k].deep_view(),
                    columns as int,
                ),
        decreases rows.len() - i,
    {
        out.push(prefix_of_row(&rows[i], columns));
        i += 1;
    }
    assert(out.deep_view() =~= table_prefix(rows.deep_view(), columns as int));
    out
}

/// Writes `cells` over a row from `column` on, filling any gap with empty
/// cells.
pub fn write_cells(row: &Vec<String>, column: usize, cells: &Vec<String>) -> (out: Vec<String>)
    requires
        column + cells.len() <= usize::MAX,
    ensures
        out.deep_view() == row_written(row.deep_view(), column as int, cells.deep_view()),
{
    let end = column + cells.len();
    let width = if row.len() > end {
        row.len()
    } else {
        end
    };
    let mut out: Vec<String> = Vec::new();
    let mut j: usize = 0;
    while j < width
        invariant
            j <= width,
            end == column + cells.len(),
            width == if row.len() > end {
                row.len()
            } else {
                end
            },
            out.len() == j,
            forall|k: int|
                0 <= k < j ==> out[k]@ == (if column <= k < column + cells.len() {
                    cells[k - column]@
                } else {
                    cell_or_empty(row.deep_view(), k)
                }),
        decreases width - j,
    {
        if column <= j && j < end {
            out.push(cells[j - column].clone());
        } else if j < row.len() {
            out.push(row[j].clone());
        } else {
            out.push(String::new());
        }
        j += 1;
    }
    assert(out.deep_view() =~= row_written(row.deep_view(), column as int, cells.deep_view()));
    out
}

/// Copies one row of cells.
pub fn copy_row(row: &Vec<String>) -> (copy: Vec<String>)
    ensures
        copy.deep_view() == row.deep_view(),
{
    let mut copy: Vec<String> = Vec::new();
    let mut i: usize = 0;
    while i < row.len()
        invariant
            i <= row.len(),
            copy.len() == i,
            forall|j: int| 0 <= j < i ==> copy[j]@ == row[j]@,
        decreases row.len() - i,
    {
        copy.push(row[i].clone());
        i += 1;
    }
    assert(copy.deep_view() =~= row.deep_view());
    copy
}

/// Copies a table of rows.
pub fn copy_table(rows: &Vec<Vec<String>>) -> (copy: Vec<Vec<String>>)
    ensures
        copy.deep_view() == rows.deep_view(),
{
    let mut copy: Vec<Vec<String>> = Vec::new();
    let mut i: usize = 0;
    while i < rows.len()
        invariant
            i <= rows.len(),
            copy.len() == i,
            forall|j: int| 0 <= j < i ==> copy[j].deep_view() == rows[j].deep_view(),
        decreases rows.len() - i,
    {
        copy.push(copy_row(&rows[i]));
        i += 1;
    }
    assert(copy.deep_view() =~= rows.deep_view());
    copy
}

} // verus!
