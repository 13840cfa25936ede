//! How a request addresses the store: the range in A1 notation and the way
//! the store is to read what is written.

use vstd::prelude::*;
use vstd::string::StringExecFns;
use crate::store::{table_title, RequestModel, StoreRequest, Table};
use crate::text::{decimal_text, u64_to_string, Text};

verus! {

/// The letter of a column, counted from zero; only the first twenty-six
/// columns have one.
pub open spec fn column_letter(column: int) -> Option<Text> {
    if column == 0 {
        Some("A"@)
    } else if column == 1 {
        Some("B"@)
    } else if column == 2 {
        Some("C"@)
    } else if column == 3 {
        Some("D"@)
    } else if column == 4 {
        Some("E"@)
    } else if column == 5 {
        Some("F"@)
    } else if column == 6 {
        Some("G"@)
    } else if column == 7 {
        Some("H"@)
    } else if column == 8 {
        Some("I"@)
    } else if column == 9 {
        Some("J"@)
    } else if column == 10 {
        Some("K"@)
    } else if column == 11 {
        Some("L"@)
    } else if column == 12 {
        Some("M"@)
    } else if column == 13 {
        Some("N"@)
    } else if column == 14 {
        Some("O"@)
    } else if column == 15 {
        Some("P"@)
    } else if column == 16 {
        Some("Q"@)
    } else if column == 17 {
        Some("R"@)
    } else if column == 18 {
        Some("S"@)
    } else if column == 19 {
        Some("T"@)
    } else if column == 20 {
        Some("U"@)
    } else if column == 21 {
        Some("V"@)
    } else if column == 22 {
        Some("W"@)
    } else if column == 23 {
        Some("X"@)
    } else if column == 24 {
        Some("Y"@)
    } else if column == 25 {
        Some("Z"@)
    } else {
        None
    }
}

/// The range of whole columns `A` to the letter of `last`.
pub open spec fn columns_range(table: Table, last: int) -> Option<Text> {
    match column_letter(last) {
        Some(letter) => Some(table_title(table) + "!A:"@ + letter),
        None => None,
    }
}

/// The range of the cells of one row from the column `first` to the column
/// `last`; a single cell is addressed by itself.
pub open spec fn cells_range(table: Table, row_number: int, first: int, last: int) -> Option<
    Text,
> {
    match (column_letter(first), column_letter(last)) {
        (Some(from), Some(to)) => {
            let start = table_title(table) + "!"@ + from + decimal_text(row_number);
            if first == last {
                Some(start)
            } else {
                Some(start + ":"@ + to + decimal_text(row_number))
            }
        },
        _ => None,
    }
}

/// The range that a request addresses, for the requests that address one
/// and whose columns have letters.
pub open spec fn range_text(request: RequestModel) -> Option<Text> {
    match request {
        RequestModel::Append { table, .. } => Some(table_title(table) + "!A1"@),
        RequestModel::ReadAll { table, columns } => columns_range(table, columns - 1),
        RequestModel::ReadRow { table, row_number, columns } => if columns >= 1 {
            cells_range(table, row_number, 0, columns - 1)
        } else {
            None
        },
        RequestModel::Write { table, row_number, column, cells } => if cells.len() >= 1 {
            cells_range(table, row_number, column, column + cells.len() - 1)
        } else {
            None
        },
        RequestModel::SheetIds => None,
        RequestModel::DeleteRows { .. } => None,
    }
}

/// How the store is to read what a request writes: an appended row as if a
/// user had typed it, overwritten cells as they are.
pub open spec fn input_mode(request: RequestModel) -> Option<Text> {
    match request {
        RequestModel::Append { .. } => Some("USER_ENTERED"@),
        RequestModel::Write { .. } => Some("RAW"@),
        _ => None,
    }
}

/// The title of the sheet that holds a table.
pub fn title_of(table: Table) -> (title: &'static str)
    ensures
        title@ == table_title(table),
{
    match table {
        Table::Quests => "Quests",
        Table::Participants => "Participants",
        Table::Communities => "Communities",
        Table::Submissions => "Submissions",
    }
}

/// The letter of a column, counted from zero.
pub fn letter_of(column: usize) -> (letter: Option<&'static str>)
    ensures
        letter.deep_view() == column_letter(column as int),
{
    match column {
        0 => Some("A"),
        1 => Some("B"),
        2 => Some("C"),
        3 => Some("D"),
        4 => Some("E"),
        5 => Some("F"),
        6 => Some("G"),
        7 => Some("H"),
        8 => Some("I"),
        9 => Some("J"),
        10 => Some("K"),
        11 => Some("L"),
        12 => Some("M"),
        13 => Some("N"),
        14 => Some("O"),
        15 => Some("P"),
        16 => Some("Q"),
        17 => Some("R"),
        18 => Some("S"),
        19 => Some("T"),
        20 => Some("U"),
        21 => Some("V"),
        22 => Some("W"),
        23 => Some("X"),
        24 => Some("Y"),
        25 => Some("Z"),
        _ => None,
    }
}

/// Writes the range of the cells of one row.
pub fn cells_range_text(table: Table, row_number: usize, first: usize, last: usize) -> (range:
    Option<String>)
    ensures
        range.deep_view() == cells_range(table, row_number as int, first as int, last as int),
{
    match (letter_of(first), letter_of(last)) {
        (Some(from), Some(to)) => {
            let number = u64_to_string(row_number as u64);
            let mut range = String::from_str(title_of(table));
            range.append("!");
            range.append(from);
            range.append(number.as_str());
            if first != last {
                range.append(":");
                range.append(to);
                range.append(number.as_str());
            }
            Some(range)
        },
        _ => None,
    }
}

/// Writes the range that a request addresses.
pub fn range_of(request: &StoreRequest) -> (range: Option<String>)
    ensures
        range.deep_view() == range_text(request.deep_view()),
{
    match request {
        StoreRequest::Append { table, row } => {
            let mut range = String::from_str(title_of(*table));
            range.append("!A1");
            Some(range)
        },
        StoreRequest::ReadAll { table, columns } => {
            if *columns >= 1 {
                match letter_of(*columns - 1) {
                    Some(letter) => {
                        let mut range = String::from_str(title_of(*table));
                        range.append("!A:");
                        range.append(letter);
                        Some(range)
                    },
                    None => None,
                }
            } else {
                None
            }
        },
        StoreRequest::ReadRow { table, row_number, columns } => {
            if *columns >= 1 {
                cells_range_text(*table, *row_number, 0, *columns - 1)
            } else {
                None
            }
        },
        StoreRequest::Write { table, row_number, column, cells } => {
            if cells.len() >= 1 && cells.len() - 1 <= usize::MAX - *column {
                cells_range_text(*table, *row_number, *column, *column + (cells.len() - 1))
            } else {
                None
            }
        },
        StoreRequest::SheetIds => None,
        StoreRequest::DeleteRows { deletions } => None,
    }
}

/// How the store is to read what a request writes.
pub fn input_mode_of(request: &StoreRequest) -> (mode: Option<&'static str>)
    ensures
        mode.deep_view() == input_mode(request.deep_view()),
{
    match request {
        StoreRequest::Append { .. } => Some("USER_ENTERED"),
        StoreRequest::Write { .. } => Some("RAW"),
        _ => None,
    }
}

} // verus!
