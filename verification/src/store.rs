//! The tabular store at its boundary: what the writer may ask of it, what it
//! answers, and a ledger held in memory that answers the same way.
//!
//! The store knows four tables, each a sequence of rows below a header row.
//! It can append a row, read a range, overwrite cells of a row, name its
//! sheets, and remove rows in one all-or-nothing batch. It has no lookup by
//! key: whoever wants a row reads and scans.

use vstd::prelude::*;
use crate::rows::{copy_row, copy_table};
use crate::rows::{
    prefix_of_row, prefix_of_table, row_prefix, row_written, table_prefix, write_cells, RowModel,
    TableModel,
};
use crate::text::Text;

verus! {

/// One of the logical tables.
#[derive(Debug, Clone, Copy, PartialEq, Eq, Structural)]
pub enum Table {
    Quests,
    Participants,
    Communities,
    Submissions,
}

/// The removal of the rows `start_index..end_index` of one sheet; indices
/// count from zero and include the header row.
#[derive(Debug, Clone, Copy, PartialEq, Eq, Structural)]
pub struct RowDeletion {
    pub sheet_id: i32,
    pub start_index: i32,
    pub end_index: i32,
}

/// What the store tells about one of its sheets.
#[derive(Debug)]
pub struct SheetInfo {
    pub title: Option<String>,
    pub sheet_id: Option<i32>,
}

/// A `SheetInfo` as the contracts see it.
pub struct SheetModel {
    pub title: Option<Text>,
    pub sheet_id: Option<i32>,
}

impl DeepView for SheetInfo {
    type V = SheetModel;

    open spec fn deep_view(&self) -> SheetModel {
        SheetModel { title: self.title.deep_view(), sheet_id: self.sheet_id }
    }
}

/// One request to the store.
#[derive(Debug)]
pub enum StoreRequest {
    /// Append a row below the last row of a table.
    Append { table: Table, row: Vec<String> },
    /// Read the first `columns` columns of every row of a table.
    ReadAll { table: Table, columns: usize },
    /// Read the first `columns` columns of the row with the given number,
    /// counted from one.
    ReadRow { table: Table, row_number: usize, columns: usize },
    /// Overwrite the cells of the row with the given number, counted from
    /// one, starting at `column`, counted from zero. The row has to exist.
    Write { table: Table, row_number: usize, column: usize, cells: Vec<String> },
    /// Name the sheets and their identifiers.
    SheetIds,
    /// Remove rows, instruction by instruction, all of them or none.
    DeleteRows { deletions: Vec<RowDeletion> },
}

/// A `StoreRequest` as the contracts see it.
pub enum RequestModel {
    Append { table: Table, row: RowModel },
    ReadAll { table: Table, columns: int },
    ReadRow { table: Table, row_number: int, columns: int },
    Write { table: Table, row_number: int, column: int, cells: RowModel },
    SheetIds,
    DeleteRows { deletions: Seq<RowDeletion> },
}

impl DeepView for StoreRequest {
    type V = RequestModel;

    open spec fn deep_view(&self) -> RequestModel {
        match self {
            StoreRequest::Append { table, row } => RequestModel::Append {
                table: *table,
                row: row.deep_view(),
            },
            StoreRequest::ReadAll { table, columns } => RequestModel::ReadAll {
                table: *table,
                columns: *columns as int,
            },
            StoreRequest::ReadRow { table, row_number, columns } => RequestModel::ReadRow {
                table: *table,
                row_number: *row_number as int,
                columns: *columns as int,
            },
            StoreRequest::Write { table, row_number, column, cells } => RequestModel::Write {
                table: *table,
                row_number: *row_number as int,
                column: *column as int,
                cells: cells.deep_view(),
            },
            StoreRequest::SheetIds => RequestModel::SheetIds,
            StoreRequest::DeleteRows { deletions } => RequestModel::DeleteRows {
                deletions: deletions@,
            },
        }
    }
}

/// The store's answer to one request.
#[derive(Debug)]
pub enum StoreReply {
    /// The append, write or removal took effect.
    Done,
    /// The rows of the range that was read.
    Rows(Vec<Vec<String>>),
    /// The sheets of the store.
    Sheets(Vec<SheetInfo>),
    /// The request failed and changed nothing.
    Failed,
}

/// A `StoreReply` as the contracts see it.
pub enum ReplyModel {
    Done,
    Rows(TableModel),
    Sheets(Seq<SheetModel>),
    Failed,
}

impl DeepView for StoreReply {
    type V = ReplyModel;

    open spec fn deep_view(&self) -> ReplyModel {
        match self {
            StoreReply::Done => ReplyModel::Done,
            StoreReply::Rows(rows) => ReplyModel::Rows(rows.deep_view()),
            StoreReply::Sheets(sheets) => ReplyModel::Sheets(sheets.deep_view()),
            StoreReply::Failed => ReplyModel::Failed,
        }
    }
}

/// The four tables held in memory, with the identifiers of their sheets.
#[derive(Debug)]
pub struct Ledger {
    pub quests: Vec<Vec<String>>,
    pub participants: Vec<Vec<String>>,
    pub communities: Vec<Vec<String>>,
    pub submissions: Vec<Vec<String>>,
    pub quests_sheet: i32,
    pub participants_sheet: i32,
    pub communities_sheet: i32,
    pub submissions_sheet: i32,
}

/// A `Ledger` as the contracts see it.
pub struct LedgerModel {
    pub quests: TableModel,
    pub participants: TableModel,
    pub communities: TableModel,
    pub submissions: TableModel,
    pub quests_sheet: i32,
    pub participants_sheet: i32,
    pub communities_sheet: i32,
    pub submissions_sheet: i32,
}

impl DeepView for Ledger {
    type V = LedgerModel;

    open spec fn deep_view(&self) -> LedgerModel {
        LedgerModel {
            quests: self.quests.deep_view(),
            participants: self.participants.deep_view(),
            communities: self.communities.deep_view(),
            submissions: self.submissions.deep_view(),
            quests_sheet: self.quests_sheet,
            participants_sheet: self.participants_sheet,
            communities_sheet: self.communities_sheet,
            submissions_sheet: self.submissions_sheet,
        }
    }
}

/// The title of the sheet that holds a table.
pub open spec fn table_title(table: Table) -> Text {
    match table {
        Table::Quests => "Quests"@,
        Table::Participants => "Participants"@,
        Table::Communities => "Communities"@,
        Table::Submissions => "Submissions"@,
    }
}

/// The rows that remain when the rows `start..end` are removed.
pub open spec fn rows_removed(rows: TableModel, start: int, end: int) -> TableModel {
    rows.subrange(0, start) + rows.subrange(end, rows.len() as int)
}

impl LedgerModel {
    /// No two sheets share an identifier, and every table can be held in
    /// memory.
    pub open spec fn wf(self) -> bool {
        &&& self.quests.len() <= usize::MAX
        &&& self.participants.len() <= usize::MAX
        &&& self.communities.len() <= usize::MAX
        &&& self.submissions.len() <= usize::MAX
        &&& self.quests_sheet != self.participants_sheet
        &&& self.quests_sheet != self.communities_sheet
        &&& self.quests_sheet != self.submissions_sheet
        &&& self.participants_sheet != self.communities_sheet
        &&& self.participants_sheet != self.submissions_sheet
        &&& self.communities_sheet != self.submissions_sheet
    }

    /// The rows of a table.
    pub open spec fn table(self, table: Table) -> TableModel {
        match table {
            Table::Quests => self.quests,
            Table::Participants => self.participants,
            Table::Communities => self.communities,
            Table::Submissions => self.submissions,
        }
    }

    /// This ledger with the rows of one table replaced.
    pub open spec fn with_table(self, table: Table, rows: TableModel) -> LedgerModel {
        match table {
            Table::Quests => LedgerModel { quests: rows, ..self },
            Table::Participants => LedgerModel { participants: rows, ..self },
            Table::Communities => LedgerModel { communities: rows, ..self },
            Table::Submissions => LedgerModel { submissions: rows, ..self },
        }
    }

    /// The identifier of the sheet that holds a table.
    pub open spec fn sheet_of(self, table: Table) -> i32 {
        match table {
            Table::Quests => self.quests_sheet,
            Table::Participants => self.participants_sheet,
            Table::Communities => self.communities_sheet,
            Table::Submissions => self.submissions_sheet,
        }
    }

    /// The table held by the sheet with the given identifier.
    pub open spec fn table_with_sheet(self, sheet_id: i32) -> Option<Table> {
        if sheet_id == self.quests_sheet {
            Some(Table::Quests)
        } else if sheet_id == self.participants_sheet {
            Some(Table::Participants)
        } else if sheet_id == self.communities_sheet {
            Some(Table::Communities)
        } else if sheet_id == self.submissions_sheet {
            Some(Table::Submissions)
        } else {
            None
        }
    }

    /// The sheets as the store names them.
    pub open spec fn sheets(self) -> Seq<SheetModel> {
        seq![
            SheetModel { title: Some(table_title(Table::Quests)), sheet_id: Some(self.quests_sheet) },
            SheetModel {
                title: Some(table_title(Table::Participants)),
                sheet_id: Some(self.participants_sheet),
            },
            SheetModel {
                title: Some(table_title(Table::Communities)),
                sheet_id: Some(self.communities_sheet),
            },
            SheetModel {
                title: Some(table_title(Table::Submissions)),
                sheet_id: Some(self.submissions_sheet),
            },
        ]
    }

    /// The ledger after one removal, or nothing if the removal names no
    /// sheet of this ledger or rows that are not there.
    pub open spec fn delete_one(self, deletion: RowDeletion) -> Option<LedgerModel> {
        match self.table_with_sheet(deletion.sheet_id) {
            Some(table) => {
                let rows = self.table(table);
                if 0 <= deletion.start_index <= deletion.end_index <= rows.len() {
                    Some(
                        self.with_table(
                            table,
                            rows_removed(
                                rows,
                                deletion.start_index as int,
                                deletion.end_index as int,
                            ),
                        ),
                    )
                } else {
                    None
                }
            },
            None => None,
        }
    }

    /// The ledger after a batch of removals, each applied to what the ones
    /// before it left; nothing if any of them fails.
    pub open spec fn delete_all(self, deletions: Seq<RowDeletion>) -> Option<LedgerModel>
        decreases deletions.len(),
    {
        if deletions.len() == 0 {
            Some(self)
        } else {
            match self.delete_one(deletions[0]) {
                Some(next) => next.delete_all(deletions.drop_first()),
                None => None,
            }
        }
    }

    /// The ledger after a request, and the answer to it.
    pub open spec fn performed(self, request: RequestModel) -> (LedgerModel, ReplyModel) {
        match request {
            RequestModel::Append { table, row } => (
                self.with_table(table, self.table(table).push(row)),
                ReplyModel::Done,
            ),
            RequestModel::ReadAll { table, columns } => (
                self,
                ReplyModel::Rows(table_prefix(self.table(table), columns)),
            ),
            RequestModel::ReadRow { table, row_number, columns } => {
                let rows = self.table(table);
                if 1 <= row_number <= rows.len() {
                    (self, ReplyModel::Rows(seq![row_prefix(rows[row_number - 1], columns)]))
                } else {
                    (self, ReplyModel::Rows(Seq::empty()))
                }
            },
            RequestModel::Write { table, row_number, column, cells } => {
                let rows = self.table(table);
                if 1 <= row_number <= rows.len() && column + cells.len() <= usize::MAX {
                    (
                        self.with_table(
                            table,
                            rows.update(
                                row_number - 1,
                                row_written(rows[row_number - 1], column, cells),
                            ),
                        ),
                        ReplyModel::Done,
                    )
                } else {
                    (self, ReplyModel::Failed)
                }
            },
            RequestModel::SheetIds => (self, ReplyModel::Sheets(self.sheets())),
            RequestModel::DeleteRows { deletions } => match self.delete_all(deletions) {
                Some(after) => (after, ReplyModel::Done),
                None => (self, ReplyModel::Failed),
            },
        }
    }
}

/// Copies the rows of a table except the rows `start..end`.
pub fn remove_rows(rows: &Vec<Vec<String>>, start: usize, end: usize) -> (out: Vec<Vec<String>>)
    requires
        start <= end <= rows.len(),
    ensures
        out.deep_view() == rows_removed(rows.deep_view(), start as int, end as int),
{
    let mut out: Vec<Vec<String>> = Vec::new();
    let mut i: usize = 0;
    while i < start
        invariant
            i <= start <= end <= rows.len(),
            out.len() == i,
            forall|k: int| 0 <= k < i ==> out[k].deep_view() == rows[k].deep_view(),
        decreases start - i,
    {
        out.push(copy_row(&rows[i]));
        i += 1;
    }
    let mut j: usize = end;
    while j < rows.len()
        invariant
            start <= end <= j <= rows.len(),
            out.len() == start + (j - end),
            forall|k: int| 0 <= k < start ==> out[k].deep_view() == rows[k].deep_view(),
            forall|k: int|
                start <= k < out.len() ==> out[k].deep_view() == rows[k - start + end].deep_view(),
        decreases rows.len() - j,
    {
        out.push(copy_row(&rows[j]));
        j += 1;
    }
    assert(out.deep_view() =~= rows_removed(rows.deep_view(), start as int, end as int));
    out
}

impl Ledger {
    /// A ledger whose four tables hold only their header rows.
    pub fn new(headers: [Vec<String>; 4], sheet_ids: [i32; 4]) -> (ledger: Ledger)
        ensures
            ledger.quests.deep_view() == seq![headers[0].deep_view()],
            ledger.participants.deep_view() == seq![headers[1].deep_view()],
            ledger.communities.deep_view() == seq![headers[2].deep_view()],
            ledger.submissions.deep_view() == seq![headers[3].deep_view()],
            ledger.quests_sheet == sheet_ids[0],
            ledger.participants_sheet == sheet_ids[1],
            ledger.communities_sheet == sheet_ids[2],
            ledger.submissions_sheet == sheet_ids[3],
    {
        let mut quests: Vec<Vec<String>> = Vec::new();
        quests.push(copy_row(&headers[0]));
        let mut participants: Vec<Vec<String>> = Vec::new();
        participants.push(copy_row(&headers[1]));
        let mut communities: Vec<Vec<String>> = Vec::new();
        communities.push(copy_row(&headers[2]));
        let mut submissions: Vec<Vec<String>> = Vec::new();
        submissions.push(copy_row(&headers[3]));
        let ledger = Ledger {
            quests,
            participants,
            communities,
            submissions,
            quests_sheet: sheet_ids[0],
            participants_sheet: sheet_ids[1],
            communities_sheet: sheet_ids[2],
            submissions_sheet: sheet_ids[3],
        };
        assert(ledger.quests.deep_view() =~= seq![headers[0].deep_view()]);
        assert(ledger.participants.deep_view() =~= seq![headers[1].deep_view()]);
        assert(ledger.communities.deep_view() =~= seq![headers[2].deep_view()]);
        assert(ledger.submissions.deep_view() =~= seq![headers[3].deep_view()]);
        ledger
    }

    /// No two sheets share an identifier.
    pub fn is_well_formed(&self) -> (ok: bool)
        ensures
            ok == self.deep_view().wf(),
    {
        assert(self.quests.deep_view().len() == self.quests.len());
        assert(self.participants.deep_view().len() == self.participants.len());
        assert(self.communities.deep_view().len() == self.communities.len());
        assert(self.submissions.deep_view().len() == self.submissions.len());
        self.quests_sheet != self.participants_sheet && self.quests_sheet
            != self.communities_sheet && self.quests_sheet != self.submissions_sheet
            && self.participants_sheet != self.communities_sheet && self.participants_sheet
            != self.submissions_sheet && self.communities_sheet != self.submissions_sheet
    }

    /// The rows of a table.
    pub fn rows(&self, table: Table) -> (rows: &Vec<Vec<String>>)
        ensures
            rows.deep_view() == self.deep_view().table(table),
    {
        match table {
            Table::Quests => &self.quests,
            Table::Participants => &self.participants,
            Table::Communities => &self.communities,
            Table::Submissions => &self.submissions,
        }
    }

    /// Replaces the rows of a table.
    pub fn set_rows(&mut self, table: Table, rows: Vec<Vec<String>>)
        ensures
            final(self).deep_view() == old(self).deep_view().with_table(table, rows.deep_view()),
    {
        match table {
            Table::Quests => {
                self.quests = rows;
            },
            Table::Participants => {
                self.participants = rows;
            },
            Table::Communities => {
                self.communities = rows;
            },
            Table::Submissions => {
                self.submissions = rows;
            },
        }
    }
    /// A copy of this ledger.
    pub fn copy(&self) -> (other: Ledger)
        ensures
            other.deep_view() == self.deep_view(),
    {
        Ledger {
            quests: copy_table(&self.quests),
            participants: copy_table(&self.participants),
            communities: copy_table(&self.communities),
            submissions: copy_table(&self.submissions),
            quests_sheet: self.quests_sheet,
            participants_sheet: self.participants_sheet,
            communities_sheet: self.communities_sheet,
            submissions_sheet: self.submissions_sheet,
        }
    }

    /// The table held by the sheet with the given identifier.
    pub fn table_with_sheet(&self, sheet_id: i32) -> (table: Option<Table>)
        ensures
            table == self.deep_view().table_with_sheet(sheet_id),
    {
        if sheet_id == self.quests_sheet {
            Some(Table::Quests)
        } else if sheet_id == self.participants_sheet {
            Some(Table::Participants)
        } else if sheet_id == self.communities_sheet {
            Some(Table::Communities)
        } else if sheet_id == self.submissions_sheet {
            Some(Table::Submissions)
        } else {
            None
        }
    }

    /// The sheets as the store names them.
    pub fn sheets(&self) -> (sheets: Vec<SheetInfo>)
        ensures
            sheets.deep_view() == self.deep_view().sheets(),
    {
        let mut sheets: Vec<SheetInfo> = Vec::new();
        sheets.push(SheetInfo { title: Some("Quests".to_string()), sheet_id: Some(self.quests_sheet) });
        sheets.push(
            SheetInfo {
                title: Some("Participants".to_string()),
                sheet_id: Some(self.participants_sheet),
            },
        );
        sheets.push(
            SheetInfo {
                title: Some("Communities".to_string()),
                sheet_id: Some(self.communities_sheet),
            },
        );
        sheets.push(
            SheetInfo {
                title: Some("Submissions".to_string()),
                sheet_id: Some(self.submissions_sheet),
            },
        );
        assert(sheets.deep_view() =~= self.deep_view().sheets());
        sheets
    }

    /// Removes the rows that one instruction names; answers whether it could.
    pub fn delete_one(&mut self, deletion: RowDeletion) -> (done: bool)
        ensures
            match old(self).deep_view().delete_one(deletion) {
                Some(after) => done && final(self).deep_view() == after,
                None => !done && final(self).deep_view() == old(self).deep_view(),
            },
    {
        match self.table_with_sheet(deletion.sheet_id) {
            Some(table) => {
                let rows = self.rows(table);
                if 0 <= deletion.start_index && deletion.start_index <= deletion.end_index
                    && deletion.end_index as usize <= rows.len() {
                    let kept = remove_rows(
                        rows,
                        deletion.start_index as usize,
                        deletion.end_index as usize,
                    );
                    self.set_rows(table, kept);
                    true
                } else {
                    false
                }
            },
            None => false,
        }
    }

    /// Answers one request the way the store would, changing the tables as
    /// the request says.
    pub fn perform(&mut self, request: &StoreRequest) -> (reply: StoreReply)
        ensures
            (final(self).deep_view(), reply.deep_view()) == old(self).deep_view().performed(
                request.deep_view(),
            ),
    {
        match request {
            StoreRequest::Append { table, row } => {
                let mut rows = copy_table(self.rows(*table));
                rows.push(copy_row(row));
                assert(rows.deep_view() =~= old(self).deep_view().table(*table).push(
                    row.deep_view(),
                ));
                self.set_rows(*table, rows);
                StoreReply::Done
            },
            StoreRequest::ReadAll { table, columns } => StoreReply::Rows(
                prefix_of_table(self.rows(*table), *columns),
            ),
            StoreRequest::ReadRow { table, row_number, columns } => {
                let rows = self.rows(*table);
                let mut out: Vec<Vec<String>> = Vec::new();
                if 1 <= *row_number && *row_number <= rows.len() {
                    out.push(prefix_of_row(&rows[*row_number - 1], *columns));
                    assert(out.deep_view() =~= seq![
                        row_prefix(rows.deep_view()[*row_number - 1], *columns as int),
                    ]);
                } else {
                    assert(out.deep_view() =~= Seq::<RowModel>::empty());
                }
                StoreReply::Rows(out)
            },
            StoreRequest::Write { table, row_number, column, cells } => {
                let rows = self.rows(*table);
                if 1 <= *row_number && *row_number <= rows.len() && cells.len() <= usize::MAX
                    - *column {
                    let at = *row_number - 1;
                    let row = write_cells(&rows[at], *column, cells);
                    let mut out = copy_table(rows);
                    let ghost before = out.deep_view();
                    assert(out.len() == before.len());
                    out.set(at, row);
                    assert(out.deep_view() =~= before.update(at as int, row.deep_view()));
                    self.set_rows(*table, out);
                    StoreReply::Done
                } else {
                    StoreReply::Failed
                }
            },
            StoreRequest::SheetIds => StoreReply::Sheets(self.sheets()),
            StoreRequest::DeleteRows { deletions } => {
                let mut work = self.copy();
                let ghost start = self.deep_view();
                let mut i: usize = 0;
                assert(deletions@.skip(0) =~= deletions@);
                while i < deletions.len()
                    invariant
                        i <= deletions.len(),
                        start == old(self).deep_view(),
                        start == self.deep_view(),
                        request.deep_view() == (RequestModel::DeleteRows { deletions: deletions@ }),
                        start.delete_all(deletions@) == work.deep_view().delete_all(
                            deletions@.skip(i as int),
                        ),
                    decreases deletions.len() - i,
                {
                    proof {
                        assert(deletions@.skip(i as int).drop_first() =~= deletions@.skip(
                            i as int + 1,
                        ));
                        assert(deletions@.skip(i as int)[0] == deletions@[i as int]);
                    }
                    if !work.delete_one(deletions[i]) {
                        return StoreReply::Failed;
                    }
                    i += 1;
                }
                *self = work;
                StoreReply::Done
            },
        }
    }
}

} // verus!
