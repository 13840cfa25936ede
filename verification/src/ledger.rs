//! Events applied to a ledger held in memory.
//!
//! Running the writer against the in-memory store gives each event a
//! meaning of its own: what the four tables hold afterwards. That meaning is
//! stated here directly, and the writer is shown to have it.

use vstd::prelude::*;
use crate::envelope::{
    decode_event, decoded_event, Decoded, DecodedModel, Event, EventMessage, EventModel,
};
use crate::payload::{DeleteModel, DeletePayload};
use crate::rows::{
    first_keyed, first_keyed_from, first_pair, first_pair_from, keyed_by, keyed_by_pair,
    row_prefix, row_written, table_prefix, RowModel, TableModel,
};
use crate::store::{Ledger, LedgerModel, RequestModel, RowDeletion, Table};
use crate::text::Text;
use crate::writer::{
    addressable, begin, cascade_batch, community_row, edited_row, existing_cells, first_step,
    keyed_deletions, next_step, participation_row, quest_row, resume, sheet_titled,
    submission_row, Outcome, ParticipationStatus, Step, StepModel, QUEST_COLUMNS, STATUS_COLUMN,
};

verus! {

/// The ledger and the outcome once the ledger itself has answered every
/// request from `step` on.
pub open spec fn run(ledger: LedgerModel, step: StepModel) -> (LedgerModel, Outcome)
    decreases step.requests_left(),
{
    match step {
        StepModel::Done(outcome) => (ledger, outcome),
        StepModel::Call { request, pending } => {
            let (next, reply) = ledger.performed(request);
            run(next, next_step(pending, reply))
        },
    }
}

/// Applies one event to the ledger by running the writer against it.
///
/// On a ledger whose sheets have identifiers of their own, the tables end up
/// as [`applied`] says.
pub fn apply_event(ledger: &mut Ledger, event: Event, now: &str) -> (outcome: Outcome)
    ensures
        (final(ledger).deep_view(), outcome) == run(
            old(ledger).deep_view(),
            first_step(event.deep_view(), now@),
        ),
        old(ledger).deep_view().wf() ==> (final(ledger).deep_view(), outcome) == applied(
            old(ledger).deep_view(),
            event.deep_view(),
            now@,
        ),
{
    proof {
        if ledger.deep_view().wf() {
            lemma_run_is_applied(ledger.deep_view(), event.deep_view(), now@);
        }
    }
    let mut step = begin(event, now);
    loop
        invariant
            run(ledger.deep_view(), step.deep_view()) == run(
                old(ledger).deep_view(),
                first_step(event.deep_view(), now@),
            ),
            old(ledger).deep_view().wf() ==> run(
                old(ledger).deep_view(),
                first_step(event.deep_view(), now@),
            ) == applied(old(ledger).deep_view(), event.deep_view(), now@),
        decreases step.deep_view().requests_left(),
    {
        match step {
            Step::Done(outcome) => {
                return outcome;
            },
            Step::Call { request, pending } => {
                let reply = ledger.perform(&request);
                step = resume(pending, reply);
            },
        }
    }
}

/// The rows whose first cell is not `key`.
pub open spec fn not_keyed(key: Text) -> spec_fn(RowModel) -> bool {
    |row: RowModel| !keyed_by(row, key)
}

/// The rows whose first cell is `key`.
pub open spec fn is_keyed(key: Text) -> spec_fn(RowModel) -> bool {
    |row: RowModel| keyed_by(row, key)
}

/// The table without the rows below the header whose first cell is `key`;
/// the rows that stay keep their order.
pub open spec fn without_keyed(rows: TableModel, key: Text) -> TableModel {
    if rows.len() <= 1 {
        rows
    } else {
        rows.take(1) + rows.skip(1).filter(not_keyed(key))
    }
}

/// The ledger after the status of the first participation of `user_id` in
/// `quest_id` has been overwritten, if there is such a participation below
/// the header.
pub open spec fn with_status(
    ledger: LedgerModel,
    quest_id: Text,
    user_id: Text,
    status: ParticipationStatus,
) -> (LedgerModel, Outcome) {
    match first_pair(ledger.participants, quest_id, user_id) {
        Some(at) => (
            LedgerModel {
                participants: ledger.participants.update(
                    at,
                    row_written(
                        ledger.participants[at],
                        STATUS_COLUMN as int,
                        seq![status.text()],
                    ),
                ),
                ..ledger
            },
            Outcome::Applied,
        ),
        None => (ledger, Outcome::ParticipationNotFound),
    }
}

/// What an event that arrives at `now` does to the ledger, and how it ends.
pub open spec fn applied(ledger: LedgerModel, event: EventModel, now: Text) -> (
    LedgerModel,
    Outcome,
) {
    match event {
        EventModel::CreateQuest(p) => (
            LedgerModel { quests: ledger.quests.push(quest_row(p, now)), ..ledger },
            Outcome::Applied,
        ),
        EventModel::TakeQuest(p) => (
            LedgerModel {
                participants: ledger.participants.push(participation_row(p, now)),
                ..ledger
            },
            Outcome::Applied,
        ),
        EventModel::RegisterCommunity(p) => (
            LedgerModel { communities: ledger.communities.push(community_row(p, now)), ..ledger },
            Outcome::Applied,
        ),
        EventModel::SubmitProof(p) => with_status(
            LedgerModel { submissions: ledger.submissions.push(submission_row(p, now)), ..ledger },
            p.quest_id,
            p.user_id,
            ParticipationStatus::Completed,
        ),
        EventModel::DropQuest(p) => with_status(
            ledger,
            p.quest_id,
            p.user_id,
            ParticipationStatus::Dropped,
        ),
        EventModel::EditQuest(p) => match first_keyed(ledger.quests, p.quest_id) {
            Some(at) => (
                LedgerModel {
                    quests: ledger.quests.update(
                        at,
                        row_written(
                            ledger.quests[at],
                            0,
                            edited_row(existing_cells(seq![ledger.quests[at]]), p),
                        ),
                    ),
                    ..ledger
                },
                Outcome::Applied,
            ),
            None => (ledger, Outcome::QuestNotFound),
        },
        EventModel::DeleteQuest(p) => match first_keyed(ledger.quests, p.quest_id) {
            Some(at) => if addressable(at, ledger.participants.len() as int) {
                (
                    LedgerModel {
                        quests: ledger.quests.remove(at),
                        participants: without_keyed(ledger.participants, p.quest_id),
                        ..ledger
                    },
                    Outcome::Applied,
                )
            } else {
                (ledger, Outcome::RowOutOfRange)
            },
            None => (ledger, Outcome::QuestNotFound),
        },
    }
}

/// Reading only the first column does not change which row a key finds.
pub proof fn lemma_first_keyed_prefix(rows: TableModel, key: Text, columns: int, from: int)
    requires
        columns >= 1,
        0 <= from,
    ensures
        first_keyed_from(table_prefix(rows, columns), key, from) == first_keyed_from(
            rows,
            key,
            from,
        ),
    decreases rows.len() - from,
{
    if from < rows.len() {
        assert(keyed_by(table_prefix(rows, columns)[from], key) == keyed_by(rows[from], key));
        lemma_first_keyed_prefix(rows, key, columns, from + 1);
    }
}

/// Reading only the first columns does not change which row a pair finds.
pub proof fn lemma_first_pair_prefix(
    rows: TableModel,
    first: Text,
    second: Text,
    columns: int,
    from: int,
)
    requires
        columns >= 2,
        0 <= from,
    ensures
        first_pair_from(table_prefix(rows, columns), first, second, from) == first_pair_from(
            rows,
            first,
            second,
            from,
        ),
    decreases rows.len() - from,
{
    if from < rows.len() {
        assert(keyed_by_pair(table_prefix(rows, columns)[from], first, second) == keyed_by_pair(
            rows[from],
            first,
            second,
        ));
        lemma_first_pair_prefix(rows, first, second, columns, from + 1);
    }
}

/// Reading only the first column does not change which rows a cascade
/// removes.
pub proof fn lemma_keyed_deletions_prefix(
    rows: TableModel,
    key: Text,
    sheet_id: i32,
    columns: int,
    upto: int,
)
    requires
        columns >= 1,
        upto <= rows.len(),
    ensures
        keyed_deletions(table_prefix(rows, columns), key, sheet_id, upto) == keyed_deletions(
            rows,
            key,
            sheet_id,
            upto,
        ),
    decreases upto,
{
    if upto > 1 {
        assert(keyed_by(table_prefix(rows, columns)[upto - 1], key) == keyed_by(
            rows[upto - 1],
            key,
        ));
        lemma_keyed_deletions_prefix(rows, key, sheet_id, columns, upto - 1);
    }
}

/// The writer applies an append, and the events that consist of one, as
/// `applied` says.
pub proof fn lemma_run_append(ledger: LedgerModel, table: Table, row: RowModel)
    ensures
        run(ledger, crate::writer::last_call(RequestModel::Append { table, row })) == (
            ledger.with_table(table, ledger.table(table).push(row)),
            Outcome::Applied,
        ),
{
    reveal_with_fuel(run, 3);
}

/// The writer overwrites a status as `with_status` says.
pub proof fn lemma_run_status(
    ledger: LedgerModel,
    quest_id: Text,
    user_id: Text,
    status: ParticipationStatus,
)
    requires
        ledger.participants.len() <= usize::MAX,
    ensures
        run(ledger, crate::writer::status_lookup(quest_id, user_id, status, false)) == with_status(
            ledger,
            quest_id,
            user_id,
            status,
        ),
{
    reveal_with_fuel(run, 4);
    let columns = STATUS_COLUMN as int + 1;
    lemma_first_pair_prefix(ledger.participants, quest_id, user_id, columns, 1);
    crate::rows::lemma_first_pair_from(ledger.participants, quest_id, user_id, 1);
}

/// The writer applies an edit as `applied` says.
pub proof fn lemma_run_edit(ledger: LedgerModel, event: EventModel, now: Text)
    requires
        ledger.wf(),
        event is EditQuest,
    ensures
        run(ledger, first_step(event, now)) == applied(ledger, event, now),
{
    reveal_with_fuel(run, 5);
    let edit = event->EditQuest_0;
    lemma_first_keyed_prefix(ledger.quests, edit.quest_id, 1, 1);
    crate::rows::lemma_first_keyed_from(ledger.quests, edit.quest_id, 1);
    match first_keyed(ledger.quests, edit.quest_id) {
        Some(at) => {
            let row = ledger.quests[at];
            assert(existing_cells(seq![row_prefix(row, QUEST_COLUMNS as int)]) =~= existing_cells(
                seq![row],
            ));
        },
        None => {},
    }
}

/// The in-memory store names its sheets so that the writer finds the two
/// it removes rows from.
pub proof fn lemma_sheets_resolve(ledger: LedgerModel)
    ensures
        sheet_titled(ledger.sheets(), "Quests"@) == Some(ledger.quests_sheet),
        sheet_titled(ledger.sheets(), "Participants"@) == Some(ledger.participants_sheet),
{
    reveal_strlit("Quests");
    reveal_strlit("Participants");
    reveal_strlit("Communities");
    reveal_strlit("Submissions");
    assert("Quests"@.len() == 6 && "Participants"@.len() == 12 && "Communities"@.len() == 11
        && "Submissions"@.len() == 11);
    let sheets = ledger.sheets();
    let three = sheets.drop_last();
    let two = three.drop_last();
    let one = two.drop_last();
    assert(sheets.last().title == Some("Submissions"@));
    assert(three.last().title == Some("Communities"@));
    assert(two.last().title == Some("Participants"@));
    assert(one.last().title == Some("Quests"@));
    reveal_with_fuel(sheet_titled, 5);
}

/// The rows that are left when the rows below the header and above `upto`
/// whose first cell is `key` are gone.
pub open spec fn survivors(rows: TableModel, key: Text, upto: int) -> TableModel {
    if upto <= 1 {
        rows
    } else {
        rows.take(1) + rows.subrange(1, upto).filter(not_keyed(key)) + rows.skip(upto)
    }
}

/// Removing keyed rows from the bottom up, one instruction at a time,
/// removes exactly the keyed rows: no removal moves a row that a later
/// removal names.
pub proof fn lemma_delete_keyed(
    ledger: LedgerModel,
    rows: TableModel,
    key: Text,
    upto: int,
    rest: Seq<RowDeletion>,
)
    requires
        ledger.wf(),
        0 <= upto <= ledger.participants.len(),
        upto <= rows.len(),
        upto <= i32::MAX,
        rows.take(upto) == ledger.participants.take(upto),
    ensures
        ledger.delete_all(keyed_deletions(rows, key, ledger.participants_sheet, upto) + rest) == (
            LedgerModel { participants: survivors(ledger.participants, key, upto), ..ledger }
        ).delete_all(rest),
    decreases upto,
{
    let sheet = ledger.participants_sheet;
    let cur = ledger.participants;
    let batch = keyed_deletions(rows, key, sheet, upto);
    if upto <= 1 {
        assert(batch + rest =~= rest);
        assert((LedgerModel { participants: cur, ..ledger }) == ledger);
    } else {
        let below = keyed_deletions(rows, key, sheet, upto - 1);
        assert(rows[upto - 1] == cur[upto - 1]) by {
            assert(rows.take(upto)[upto - 1] == cur.take(upto)[upto - 1]);
        }
        assert(rows.take(upto - 1) =~= cur.take(upto - 1)) by {
            assert(rows.take(upto).take(upto - 1) =~= rows.take(upto - 1));
            assert(cur.take(upto).take(upto - 1) =~= cur.take(upto - 1));
        }
        let upper = cur.subrange(1, upto);
        let lower = cur.subrange(1, upto - 1);
        assert(upper.drop_last() =~= lower);
        assert(upper.last() == cur[upto - 1]);
        reveal_with_fuel(Seq::filter, 2);
        assert(not_keyed(key)(cur[upto - 1]) == !keyed_by(cur[upto - 1], key));
        if keyed_by(rows[upto - 1], key) {
            let first = RowDeletion {
                sheet_id: sheet,
                start_index: (upto - 1) as i32,
                end_index: upto as i32,
            };
            assert(batch + rest =~= seq![first] + (below + rest));
            assert((seq![first] + (below + rest)).drop_first() =~= below + rest);
            assert(ledger.table_with_sheet(sheet) == Some(Table::Participants));
            let next = ledger.delete_one(first).unwrap();
            assert(next.participants =~= cur.take(upto - 1) + cur.skip(upto));
            assert(next.participants.take(upto - 1) =~= rows.take(upto - 1));
            lemma_delete_keyed(next, rows, key, upto - 1, rest);
            assert(upper.filter(not_keyed(key)) == lower.filter(not_keyed(key)));
            if upto - 1 > 1 {
                assert(next.participants.take(1) =~= cur.take(1));
                assert(next.participants.subrange(1, upto - 1) =~= lower);
                assert(next.participants.skip(upto - 1) =~= cur.skip(upto));
            } else {
                assert(lower =~= Seq::<RowModel>::empty());
                assert(cur.take(1) + lower.filter(not_keyed(key)) + cur.skip(upto)
                    =~= next.participants);
            }
            assert(survivors(next.participants, key, upto - 1) =~= survivors(cur, key, upto));
            assert((LedgerModel {
                participants: survivors(next.participants, key, upto - 1),
                ..next
            }) == (LedgerModel { participants: survivors(cur, key, upto), ..ledger }));
        } else {
            lemma_delete_keyed(ledger, rows, key, upto - 1, rest);
            assert(upper.filter(not_keyed(key)) == lower.filter(not_keyed(key)).push(
                cur[upto - 1],
            ));
            if upto - 1 > 1 {
                assert(cur.skip(upto - 1) =~= seq![cur[upto - 1]] + cur.skip(upto));
            } else {
                assert(lower =~= Seq::<RowModel>::empty());
                assert(cur.take(1) + lower.filter(not_keyed(key)).push(cur[upto - 1]) + cur.skip(
                    upto,
                ) =~= cur);
            }
            assert(survivors(cur, key, upto - 1) =~= survivors(cur, key, upto));
        }
    }
}

/// The writer applies a cascading delete as `applied` says.
pub proof fn lemma_run_delete(ledger: LedgerModel, event: EventModel, now: Text)
    requires
        ledger.wf(),
        event is DeleteQuest,
    ensures
        run(ledger, first_step(event, now)) == applied(ledger, event, now),
{
    reveal_with_fuel(run, 6);
    let key = event->DeleteQuest_0.quest_id;
    let quests = ledger.quests;
    let participants = ledger.participants;
    lemma_sheets_resolve(ledger);
    lemma_first_keyed_prefix(quests, key, 1, 1);
    crate::rows::lemma_first_keyed_from(quests, key, 1);
    match first_keyed(quests, key) {
        Some(at) => {
            let seen = table_prefix(participants, 1);
            if addressable(at, participants.len() as int) {
                let last = RowDeletion {
                    sheet_id: ledger.quests_sheet,
                    start_index: at as i32,
                    end_index: (at + 1) as i32,
                };
                let keyed = keyed_deletions(
                    participants,
                    key,
                    ledger.participants_sheet,
                    participants.len() as int,
                );
                lemma_keyed_deletions_prefix(
                    participants,
                    key,
                    ledger.participants_sheet,
                    1,
                    participants.len() as int,
                );
                let batch = cascade_batch(
                    seen,
                    key,
                    ledger.quests_sheet,
                    ledger.participants_sheet,
                    at,
                );
                assert(batch =~= keyed + seq![last]);
                assert(participants.take(participants.len() as int) =~= participants);
                lemma_delete_keyed(ledger, participants, key, participants.len() as int, seq![last]);
                let kept = survivors(participants, key, participants.len() as int);
                let middle = LedgerModel { participants: kept, ..ledger };
                assert(kept =~= without_keyed(participants, key)) by {
                    if participants.len() > 1 {
                        assert(participants.subrange(1, participants.len() as int)
                            =~= participants.skip(1));
                    }
                }
                assert(seq![last].drop_first() =~= Seq::<RowDeletion>::empty());
                assert(middle.table_with_sheet(last.sheet_id) == Some(Table::Quests));
                let after = middle.delete_one(last).unwrap();
                assert(after.quests =~= quests.remove(at));
                assert(middle.delete_all(seq![last]) == Some(after)) by {
                    reveal_with_fuel(LedgerModel::delete_all, 2);
                }
                assert(after == applied(ledger, event, now).0);
            }
        },
        None => {},
    }
}

/// Running the writer against the ledger does what `applied` says, for every
/// event.
pub proof fn lemma_run_is_applied(ledger: LedgerModel, event: EventModel, now: Text)
    requires
        ledger.wf(),
    ensures
        run(ledger, first_step(event, now)) == applied(ledger, event, now),
{
    match event {
        EventModel::CreateQuest(p) => {
            lemma_run_append(ledger, Table::Quests, quest_row(p, now));
        },
        EventModel::TakeQuest(p) => {
            lemma_run_append(ledger, Table::Participants, participation_row(p, now));
        },
        EventModel::RegisterCommunity(p) => {
            lemma_run_append(ledger, Table::Communities, community_row(p, now));
        },
        EventModel::SubmitProof(p) => {
            reveal_with_fuel(run, 2);
            let appended = LedgerModel {
                submissions: ledger.submissions.push(submission_row(p, now)),
                ..ledger
            };
            lemma_run_status(appended, p.quest_id, p.user_id, ParticipationStatus::Completed);
        },
        EventModel::DropQuest(p) => {
            lemma_run_status(ledger, p.quest_id, p.user_id, ParticipationStatus::Dropped);
        },
        EventModel::EditQuest(_) => {
            lemma_run_edit(ledger, event, now);
        },
        EventModel::DeleteQuest(_) => {
            lemma_run_delete(ledger, event, now);
        },
    }
}

/// How the processing of a message ended.
#[derive(Debug, Clone, Copy, PartialEq, Eq, Structural)]
pub enum Processed {
    /// The event was read and the writer ran to this outcome.
    Finished(Outcome),
    /// The payload could not be read; the message is dropped.
    Malformed,
    /// The event type is not known; the message is ignored.
    Unknown,
}

/// What processing a message that arrives at `now` does to the ledger, and
/// how it ends: a message that cannot be read changes nothing.
pub open spec fn processed(ledger: LedgerModel, decoded: DecodedModel, now: Text) -> (
    LedgerModel,
    Processed,
) {
    match decoded {
        DecodedModel::Event(event) => {
            let (after, outcome) = run(ledger, first_step(event, now));
            (after, Processed::Finished(outcome))
        },
        DecodedModel::Malformed => (ledger, Processed::Malformed),
        DecodedModel::Unknown => (ledger, Processed::Unknown),
    }
}

/// Processes one message from the bus against the ledger: reads the payload
/// that the event type names and applies the event.
pub fn process_event(ledger: &mut Ledger, message: &EventMessage, now: &str) -> (done: Processed)
    ensures
        (final(ledger).deep_view(), done) == processed(
            old(ledger).deep_view(),
            decoded_event(message.deep_view()),
            now@,
        ),
        old(ledger).deep_view().wf() ==> match decoded_event(message.deep_view()) {
            DecodedModel::Event(event) => (final(ledger).deep_view(), done) == (
                applied(old(ledger).deep_view(), event, now@).0,
                Processed::Finished(applied(old(ledger).deep_view(), event, now@).1),
            ),
            _ => final(ledger).deep_view() == old(ledger).deep_view(),
        },
{
    match decode_event(message) {
        Decoded::Event(event) => Processed::Finished(apply_event(ledger, event, now)),
        Decoded::Malformed => Processed::Malformed,
        Decoded::Unknown => Processed::Unknown,
    }
}

/// Removes a quest and every participation in it from the ledger, in one
/// batch. Fails, and removes nothing, if no row carries the quest id.
pub fn delete_quest_cascade(ledger: &mut Ledger, quest_id: &str) -> (res: Result<(), Outcome>)
    ensures
        ({
            let event = EventModel::DeleteQuest(DeleteModel { quest_id: quest_id@ });
            let (after, outcome) = run(old(ledger).deep_view(), first_step(event, Seq::empty()));
            &&& final(ledger).deep_view() == after
            &&& res is Ok <==> outcome == Outcome::Applied
            &&& res is Err ==> res == Err::<(), Outcome>(outcome)
            &&& old(ledger).deep_view().wf() ==> (after, outcome) == applied(
                old(ledger).deep_view(),
                event,
                Seq::empty(),
            )
        }),
{
    let event = Event::DeleteQuest(DeletePayload { quest_id: quest_id.to_string() });
    proof {
        reveal_strlit("");
        assert(""@ =~= Seq::<char>::empty());
    }
    match apply_event(ledger, event, "") {
        Outcome::Applied => Ok(()),
        other => Err(other),
    }
}

} // verus!
