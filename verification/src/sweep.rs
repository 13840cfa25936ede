//! The deadline sweep: participations still in progress on a quest whose
//! deadline has passed are marked as failed.
//!
//! A sweep reads the quests and the participations in full, decides which
//! rows below the headers are overdue, and overwrites the status of each.
//! The rows are handled independently: a write that fails does not stop the
//! others.

use vstd::prelude::*;
use crate::rows::{row_prefix, row_written, table_prefix, RowModel, TableModel};
use crate::store::{Ledger, LedgerModel, RequestModel, StoreReply, StoreRequest, Table};
use crate::text::{same_text, Text};
use crate::time::{now, parse_instant, rfc3339_instant, Instant};
use crate::writer::{ParticipationStatus, STATUS_COLUMN};

verus! {

/// The column of a quest row that holds its deadline.
pub const DEADLINE_COLUMN: usize = 8;

/// The deadline that a quest row sets for `quest_id`, if the row is that
/// quest's and its deadline cell reads as a time.
pub open spec fn deadline_in(row: RowModel, quest_id: Text) -> Option<Instant> {
    if row.len() > DEADLINE_COLUMN && row[0] == quest_id {
        rfc3339_instant(row[DEADLINE_COLUMN as int])
    } else {
        None
    }
}

/// The deadline of a quest among the quest rows below the header and above
/// `upto`: that of the last row that sets one.
pub open spec fn deadline_of(quests: TableModel, quest_id: Text, upto: int) -> Option<Instant>
    decreases upto,
{
    if upto <= 1 {
        None
    } else if deadline_in(quests[upto - 1], quest_id) is Some {
        deadline_in(quests[upto - 1], quest_id)
    } else {
        deadline_of(quests, quest_id, upto - 1)
    }
}

/// Whether a participation row is in progress.
pub open spec fn in_progress(row: RowModel) -> bool {
    row.len() > STATUS_COLUMN && row[STATUS_COLUMN as int] == ParticipationStatus::OnProgress.text()
}

/// Whether a participation row is in progress on a quest whose deadline
/// lies strictly before `now`.
pub open spec fn is_overdue(quests: TableModel, row: RowModel, now: Instant) -> bool {
    in_progress(row) && match deadline_of(quests, row[0], quests.len() as int) {
        Some(deadline) => now.later_than(deadline),
        None => false,
    }
}

/// The request that marks the participation row with the given number,
/// counted from one, as failed.
pub open spec fn failure_mark(row_number: int) -> RequestModel {
    RequestModel::Write {
        table: Table::Participants,
        row_number,
        column: STATUS_COLUMN as int,
        cells: seq![ParticipationStatus::Failed.text()],
    }
}

/// The requests of a sweep over the participation rows below the header and
/// above `upto`: one failure mark for each overdue row, from the top down.
pub open spec fn failure_marks(
    quests: TableModel,
    participants: TableModel,
    now: Instant,
    upto: int,
) -> Seq<RequestModel>
    decreases upto,
{
    if upto <= 1 {
        Seq::empty()
    } else {
        let before = failure_marks(quests, participants, now, upto - 1);
        if is_overdue(quests, participants[upto - 1], now) {
            before.push(failure_mark(upto))
        } else {
            before
        }
    }
}

/// A participation row after a sweep: failed if it was overdue, untouched
/// otherwise.
pub open spec fn swept_row(quests: TableModel, row: RowModel, now: Instant) -> RowModel {
    if is_overdue(quests, row, now) {
        row_written(row, STATUS_COLUMN as int, seq![ParticipationStatus::Failed.text()])
    } else {
        row
    }
}

/// The participation rows after a sweep of those below the header and above
/// `upto`.
pub open spec fn swept_upto(quests: TableModel, participants: TableModel, now: Instant, upto: int)
    -> TableModel {
    Seq::new(
        participants.len(),
        |i: int|
            if 1 <= i < upto {
                swept_row(quests, participants[i], now)
            } else {
                participants[i]
            },
    )
}

/// The ledger after a sweep at `now`.
pub open spec fn swept(ledger: LedgerModel, now: Instant) -> LedgerModel {
    LedgerModel {
        participants: swept_upto(
            ledger.quests,
            ledger.participants,
            now,
            ledger.participants.len() as int,
        ),
        ..ledger
    }
}

/// The ledger after it has answered the requests one after another.
pub open spec fn performed_all(ledger: LedgerModel, requests: Seq<RequestModel>) -> LedgerModel
    decreases requests.len(),
{
    if requests.len() == 0 {
        ledger
    } else {
        performed_all(ledger, requests.drop_last()).performed(requests.last()).0
    }
}

/// The request that reads what a sweep needs of the quests.
pub fn quests_for_sweep() -> (request: StoreRequest)
    ensures
        request.deep_view() == (RequestModel::ReadAll {
            table: Table::Quests,
            columns: DEADLINE_COLUMN as int + 1,
        }),
{
    StoreRequest::ReadAll { table: Table::Quests, columns: DEADLINE_COLUMN + 1 }
}

/// The request that reads what a sweep needs of the participations.
pub fn participants_for_sweep() -> (request: StoreRequest)
    ensures
        request.deep_view() == (RequestModel::ReadAll {
            table: Table::Participants,
            columns: STATUS_COLUMN as int + 1,
        }),
{
    StoreRequest::ReadAll { table: Table::Participants, columns: STATUS_COLUMN + 1 }
}

/// Finds the deadline of a quest: that of the last quest row below the
/// header that sets one.
pub fn find_deadline(quests: &Vec<Vec<String>>, quest_id: &str) -> (deadline: Option<Instant>)
    ensures
        deadline == deadline_of(quests.deep_view(), quest_id@, quests.len() as int),
{
    let ghost all = quests.deep_view();
    let mut i: usize = quests.len();
    while i > 1
        invariant
            i <= quests.len(),
            all == quests.deep_view(),
            deadline_of(all, quest_id@, quests.len() as int) == deadline_of(
                all,
                quest_id@,
                i as int,
            ),
        decreases i,
    {
        i -= 1;
        let row = &quests[i];
        if row.len() > DEADLINE_COLUMN && same_text(row[0].as_str(), quest_id) {
            match parse_instant(row[DEADLINE_COLUMN].as_str()) {
                Some(at) => {
                    return Some(at);
                },
                None => {},
            }
        }
    }
    None
}

/// Whether a participation row is in progress on a quest whose deadline has
/// passed.
pub fn row_is_overdue(quests: &Vec<Vec<String>>, row: &Vec<String>, now: &Instant) -> (overdue:
    bool)
    ensures
        overdue == is_overdue(quests.deep_view(), row.deep_view(), *now),
{
    if row.len() > STATUS_COLUMN && same_text(
        row[STATUS_COLUMN].as_str(),
        ParticipationStatus::OnProgress.as_str(),
    ) {
        match find_deadline(quests, row[0].as_str()) {
            Some(deadline) => now.is_after(&deadline),
            None => false,
        }
    } else {
        false
    }
}

/// Decides a sweep: the requests that mark every overdue participation
/// below the header as failed, from the top of the table down.
pub fn plan_sweep(
    quests: &Vec<Vec<String>>,
    participants: &Vec<Vec<String>>,
    now: &Instant,
) -> (requests: Vec<StoreRequest>)
    ensures
        requests.deep_view() == failure_marks(
            quests.deep_view(),
            participants.deep_view(),
            *now,
            participants.len() as int,
        ),
{
    let ghost q = quests.deep_view();
    let ghost p = participants.deep_view();
    let mut requests: Vec<StoreRequest> = Vec::new();
    if participants.len() <= 1 {
        assert(requests.deep_view() =~= failure_marks(q, p, *now, participants.len() as int));
        return requests;
    }
    let mut i: usize = 1;
    assert(requests.deep_view() =~= failure_marks(q, p, *now, 1));
    while i < participants.len()
        invariant
            1 <= i <= participants.len(),
            q == quests.deep_view(),
            p == participants.deep_view(),
            requests.deep_view() == failure_marks(q, p, *now, i as int),
        decreases participants.len() - i,
    {
        let ghost before = requests.deep_view();
        if row_is_overdue(quests, &participants[i], now) {
            let cells = vec![ParticipationStatus::Failed.as_str().to_string()];
            assert(cells.deep_view() =~= seq![ParticipationStatus::Failed.text()]);
            requests.push(
                StoreRequest::Write {
                    table: Table::Participants,
                    row_number: i + 1,
                    column: STATUS_COLUMN,
                    cells,
                },
            );
            assert(requests.deep_view() =~= before.push(failure_mark(i as int + 1)));
        }
        i += 1;
    }
    requests
}

/// Decides a sweep by the clock: the requests that mark as failed every
/// participation that is overdue at the time the clock shows.
pub fn plan_sweep_now(quests: &Vec<Vec<String>>, participants: &Vec<Vec<String>>) -> (requests:
    Vec<StoreRequest>)
    ensures
        exists|at: Instant|
            requests.deep_view() == #[trigger] failure_marks(
                quests.deep_view(),
                participants.deep_view(),
                at,
                participants.len() as int,
            ),
{
    let at = now();
    plan_sweep(quests, participants, &at)
}

/// Reading only the columns up to the deadline does not change a quest's
/// deadline.
pub proof fn lemma_deadline_prefix(quests: TableModel, quest_id: Text, upto: int)
    requires
        upto <= quests.len(),
    ensures
        deadline_of(table_prefix(quests, DEADLINE_COLUMN as int + 1), quest_id, upto)
            == deadline_of(quests, quest_id, upto),
    decreases upto,
{
    if upto > 0 {
        let seen = table_prefix(quests, DEADLINE_COLUMN as int + 1);
        assert(deadline_in(seen[upto - 1], quest_id) == deadline_in(quests[upto - 1], quest_id));
        lemma_deadline_prefix(quests, quest_id, upto - 1);
    }
}

/// Reading only the columns that a sweep reads does not change which rows
/// are overdue.
pub proof fn lemma_failure_marks_prefix(
    quests: TableModel,
    participants: TableModel,
    now: Instant,
    upto: int,
)
    requires
        upto <= participants.len(),
    ensures
        failure_marks(
            table_prefix(quests, DEADLINE_COLUMN as int + 1),
            table_prefix(participants, STATUS_COLUMN as int + 1),
            now,
            upto,
        ) == failure_marks(quests, participants, now, upto),
    decreases upto,
{
    if upto > 0 {
        let seen_quests = table_prefix(quests, DEADLINE_COLUMN as int + 1);
        let seen = table_prefix(participants, STATUS_COLUMN as int + 1);
        let row = participants[upto - 1];
        assert(seen[upto - 1] == row_prefix(row, STATUS_COLUMN as int + 1));
        assert(in_progress(seen[upto - 1]) == in_progress(row));
        if in_progress(row) {
            assert(seen[upto - 1][0] == row[0]);
            lemma_deadline_prefix(quests, row[0], quests.len() as int);
        }
        lemma_failure_marks_prefix(quests, participants, now, upto - 1);
    }
}

/// Making the failure marks of the first `upto` rows one after another
/// sweeps exactly those rows.
pub proof fn lemma_marks_sweep(ledger: LedgerModel, now: Instant, upto: int)
    requires
        0 <= upto <= ledger.participants.len(),
    ensures
        performed_all(ledger, failure_marks(ledger.quests, ledger.participants, now, upto)) == (
            LedgerModel {
                participants: swept_upto(ledger.quests, ledger.participants, now, upto),
                ..ledger
            }
        ),
    decreases upto,
{
    let quests = ledger.quests;
    let rows = ledger.participants;
    if upto <= 1 {
        assert(swept_upto(quests, rows, now, upto) =~= rows);
    } else {
        lemma_marks_sweep(ledger, now, upto - 1);
        let before = failure_marks(quests, rows, now, upto - 1);
        let middle = LedgerModel { participants: swept_upto(quests, rows, now, upto - 1), ..ledger };
        if is_overdue(quests, rows[upto - 1], now) {
            let marks = before.push(failure_mark(upto));
            assert(marks.drop_last() =~= before);
            assert(marks.last() == failure_mark(upto));
            let after = middle.performed(failure_mark(upto)).0;
            assert(after.participants =~= swept_upto(quests, rows, now, upto));
        } else {
            assert(swept_upto(quests, rows, now, upto - 1) =~= swept_upto(quests, rows, now, upto));
        }
    }
}

/// Sweeps the ledger at `now`: reads the quests and the participations,
/// decides which rows are overdue and marks each as failed. Returns the
/// number of rows marked.
pub fn check_deadlines_job(ledger: &mut Ledger, now: &Instant) -> (marked: usize)
    ensures
        final(ledger).deep_view() == swept(old(ledger).deep_view(), *now),
        marked == failure_marks(
            old(ledger).deep_view().quests,
            old(ledger).deep_view().participants,
            *now,
            old(ledger).deep_view().participants.len() as int,
        ).len(),
{
    let ghost start = ledger.deep_view();
    let quests = match ledger.perform(&quests_for_sweep()) {
        StoreReply::Rows(rows) => rows,
        _ => {
            return 0;
        },
    };
    let participants = match ledger.perform(&participants_for_sweep()) {
        StoreReply::Rows(rows) => rows,
        _ => {
            return 0;
        },
    };
    let requests = plan_sweep(&quests, &participants, now);
    let ghost marks = requests.deep_view();
    proof {
        assert(participants.deep_view().len() == start.participants.len());
        lemma_failure_marks_prefix(
            start.quests,
            start.participants,
            *now,
            start.participants.len() as int,
        );
        lemma_marks_sweep(start, *now, start.participants.len() as int);
        assert(marks.take(0) =~= Seq::<RequestModel>::empty());
    }
    let mut i: usize = 0;
    while i < requests.len()
        invariant
            i <= requests.len(),
            marks == requests.deep_view(),
            ledger.deep_view() == performed_all(start, marks.take(i as int)),
        decreases requests.len() - i,
    {
        proof {
            assert(marks.take(i as int + 1).drop_last() =~= marks.take(i as int));
            assert(marks.take(i as int + 1).last() == requests[i as int].deep_view());
        }
        let _ = ledger.perform(&requests[i]);
        i += 1;
    }
    proof {
        assert(marks.take(i as int) =~= marks);
    }
    requests.len()
}

/// One sweep fails every participation below the header that is in
/// progress on a quest whose deadline has passed, and touches nothing else:
/// such a row keeps every cell but its status, and every other row, the
/// header among them, in every table, stays as it was.
pub proof fn law_sweep_fails_the_overdue(ledger: LedgerModel, now: Instant, at: int)
    requires
        0 <= at < ledger.participants.len(),
    ensures
        ({
            let after = swept(ledger, now);
            let before = ledger.participants[at];
            let row = after.participants[at];
            &&& after.participants.len() == ledger.participants.len()
            &&& at == 0 ==> row == before
            &&& at >= 1 && is_overdue(ledger.quests, before, now) ==> {
                &&& row[STATUS_COLUMN as int] == ParticipationStatus::Failed.text()
                &&& row.len() == before.len()
                &&& forall|j: int|
                    0 <= j < row.len() && j != STATUS_COLUMN ==> row[j] == before[j]
            }
            &&& !is_overdue(ledger.quests, before, now) ==> row == before
            &&& after.quests == ledger.quests
            &&& after.communities == ledger.communities
            &&& after.submissions == ledger.submissions
        }),
{
}

/// A participation whose quest has no deadline that lies before `now`, or
/// that is not in progress, is not overdue.
pub proof fn law_within_deadline_is_not_overdue(
    quests: TableModel,
    row: RowModel,
    now: Instant,
    deadline: Instant,
)
    requires
        deadline_of(quests, row[0], quests.len() as int) == Some(deadline),
        !now.later_than(deadline),
    ensures
        !is_overdue(quests, row, now),
        swept_row(quests, row, now) == row,
{
}

} // verus!
