//! What holds of every event applied to every ledger.

use vstd::prelude::*;
use crate::envelope::EventModel;
use crate::ledger::{applied, is_keyed, not_keyed, with_status, without_keyed};
use crate::payload::{DeleteModel, EditModel, RegistrationModel};
use crate::rows::{
    cell_or_empty, first_keyed, first_pair, first_pair_from, keyed_by, keyed_by_pair, row_written,
    TableModel,
};
use crate::store::LedgerModel;
use crate::text::{decimal_text, Text};
use crate::writer::{addressable, participation_row, Outcome, ParticipationStatus, STATUS_COLUMN};

verus! {

/// Whether `column` holds one of the fields that an edit carries.
pub open spec fn edited_column(column: int) -> bool {
    column == 1 || column == 3 || column == 5 || column == 6 || column == 7 || column == 8
}

/// The number of rows below the header whose first cell is `key`.
pub open spec fn keyed_count(rows: TableModel, key: Text) -> nat {
    if rows.len() <= 1 {
        0
    } else {
        rows.skip(1).filter(is_keyed(key)).len()
    }
}

/// An edit of an existing quest rewrites that quest's row and nothing else.
/// In the row, the title, slots, schedule, platform, description and
/// deadline are those of the edit; every other cell is what it was.
pub proof fn law_edit_keeps_other_cells(ledger: LedgerModel, edit: EditModel, now: Text, at: int)
    requires
        first_keyed(ledger.quests, edit.quest_id) == Some(at),
    ensures
        ({
            let (after, outcome) = applied(ledger, EventModel::EditQuest(edit), now);
            let row = after.quests[at];
            &&& outcome == Outcome::Applied
            &&& after.quests.len() == ledger.quests.len()
            &&& forall|i: int|
                0 <= i < ledger.quests.len() && i != at ==> after.quests[i] == ledger.quests[i]
            &&& forall|j: int|
                !edited_column(j) ==> cell_or_empty(row, j) == cell_or_empty(ledger.quests[at], j)
            &&& row[1] == edit.title
            &&& row[3] == decimal_text(edit.slots as int)
            &&& row[5] == edit.schedule
            &&& row[6] == edit.platform
            &&& row[7] == edit.description
            &&& row[8] == edit.deadline
            &&& after.participants == ledger.participants
            &&& after.communities == ledger.communities
            &&& after.submissions == ledger.submissions
        }),
{
    crate::rows::lemma_first_keyed_from(ledger.quests, edit.quest_id, 1);
}

/// An edit that names no quest changes nothing.
pub proof fn law_edit_of_missing_quest(ledger: LedgerModel, edit: EditModel, now: Text)
    requires
        first_keyed(ledger.quests, edit.quest_id) is None,
    ensures
        applied(ledger, EventModel::EditQuest(edit), now) == (ledger, Outcome::QuestNotFound),
{
}

/// As many rows are kept as are not keyed.
pub proof fn lemma_filter_split(rows: TableModel, key: Text)
    ensures
        rows.filter(not_keyed(key)).len() + rows.filter(is_keyed(key)).len() == rows.len(),
    decreases rows.len(),
{
    reveal_with_fuel(Seq::filter, 2);
    if rows.len() > 0 {
        lemma_filter_split(rows.drop_last(), key);
        assert(not_keyed(key)(rows.last()) == !is_keyed(key)(rows.last()));
    }
}

/// A cascading delete of a quest with N participations removes N + 1 rows:
/// the quest's own row and the N rows of its participations. Every other row
/// stays as it was, in the order it was in.
pub proof fn law_cascade_removes_quest_and_participations(
    ledger: LedgerModel,
    quest_id: Text,
    now: Text,
    at: int,
)
    requires
        first_keyed(ledger.quests, quest_id) == Some(at),
        addressable(at, ledger.participants.len() as int),
    ensures
        ({
            let (after, outcome) = applied(
                ledger,
                EventModel::DeleteQuest(DeleteModel { quest_id }),
                now,
            );
            &&& outcome == Outcome::Applied
            &&& after.quests == ledger.quests.remove(at)
            &&& after.quests.len() + 1 == ledger.quests.len()
            &&& after.participants == without_keyed(ledger.participants, quest_id)
            &&& after.participants.len() + keyed_count(ledger.participants, quest_id)
                == ledger.participants.len()
            &&& forall|i: int|
                1 <= i < after.participants.len() ==> !keyed_by(
                    #[trigger] after.participants[i],
                    quest_id,
                )
            &&& after.communities == ledger.communities
            &&& after.submissions == ledger.submissions
        }),
{
    crate::rows::lemma_first_keyed_from(ledger.quests, quest_id, 1);
    let rows = ledger.participants;
    if rows.len() > 1 {
        lemma_filter_split(rows.skip(1), quest_id);
        let kept = rows.skip(1).filter(not_keyed(quest_id));
        assert forall|i: int| 1 <= i < without_keyed(rows, quest_id).len() implies !keyed_by(
            #[trigger] without_keyed(rows, quest_id)[i],
            quest_id,
        ) by {
            rows.skip(1).lemma_filter_pred(not_keyed(quest_id), i - 1);
            assert(without_keyed(rows, quest_id)[i] == kept[i - 1]);
        }
    }
}

/// A cascading delete whose rows lie beyond what a removal can address
/// changes nothing.
pub proof fn law_cascade_beyond_reach_changes_nothing(
    ledger: LedgerModel,
    quest_id: Text,
    now: Text,
    at: int,
)
    requires
        first_keyed(ledger.quests, quest_id) == Some(at),
        !addressable(at, ledger.participants.len() as int),
    ensures
        applied(ledger, EventModel::DeleteQuest(DeleteModel { quest_id }), now) == (
            ledger,
            Outcome::RowOutOfRange,
        ),
{
}

/// A cascading delete that names no quest changes nothing.
pub proof fn law_cascade_of_missing_quest(ledger: LedgerModel, quest_id: Text, now: Text)
    requires
        first_keyed(ledger.quests, quest_id) is None,
    ensures
        applied(ledger, EventModel::DeleteQuest(DeleteModel { quest_id }), now) == (
            ledger,
            Outcome::QuestNotFound,
        ),
{
}

/// The same take delivered twice adds two participation rows: an append is
/// never checked against what is there.
pub proof fn law_take_twice_adds_two_rows(
    ledger: LedgerModel,
    take: RegistrationModel,
    first: Text,
    second: Text,
)
    ensures
        ({
            let once = applied(ledger, EventModel::TakeQuest(take), first).0;
            let twice = applied(once, EventModel::TakeQuest(take), second).0;
            &&& twice.participants.len() == ledger.participants.len() + 2
            &&& twice.participants == ledger.participants.push(
                participation_row(take, first),
            ).push(participation_row(take, second))
            &&& twice.quests == ledger.quests
            &&& twice.communities == ledger.communities
            &&& twice.submissions == ledger.submissions
        }),
{
}

/// A scan over a table in which one row was replaced by a row with the
/// same first two cells finds what it found before.
pub proof fn lemma_first_pair_after_update(
    rows: TableModel,
    first: Text,
    second: Text,
    at: int,
    row: Seq<Text>,
    from: int,
)
    requires
        0 <= from,
        0 <= at < rows.len(),
        keyed_by_pair(row, first, second) == keyed_by_pair(rows[at], first, second),
    ensures
        first_pair_from(rows.update(at, row), first, second, from) == first_pair_from(
            rows,
            first,
            second,
            from,
        ),
    decreases rows.len() - from,
{
    if from < rows.len() {
        lemma_first_pair_after_update(rows, first, second, at, row, from + 1);
    }
}

/// A status overwrite delivered twice leaves the ledger as one delivery
/// does: the same row is found again and gets the same status again.
pub proof fn law_status_overwrite_is_idempotent(
    ledger: LedgerModel,
    quest_id: Text,
    user_id: Text,
    status: ParticipationStatus,
)
    ensures
        ({
            let once = with_status(ledger, quest_id, user_id, status);
            with_status(once.0, quest_id, user_id, status) == once
        }),
{
    crate::rows::lemma_first_pair_from(ledger.participants, quest_id, user_id, 1);
    match first_pair(ledger.participants, quest_id, user_id) {
        Some(at) => {
            let before = ledger.participants[at];
            let cells = seq![status.text()];
            let row = row_written(before, STATUS_COLUMN as int, cells);
            lemma_first_pair_after_update(ledger.participants, quest_id, user_id, at, row, 1);
            assert(row_written(row, STATUS_COLUMN as int, cells) =~= row);
            let once = ledger.participants.update(at, row);
            assert(once.update(at, row) =~= once);
        },
        None => {},
    }
}

/// A drop delivered twice leaves the ledger as one delivery does.
pub proof fn law_drop_twice_is_drop_once(
    ledger: LedgerModel,
    drop: RegistrationModel,
    first: Text,
    second: Text,
)
    ensures
        ({
            let once = applied(ledger, EventModel::DropQuest(drop), first);
            applied(once.0, EventModel::DropQuest(drop), second) == once
        }),
{
    law_status_overwrite_is_idempotent(
        ledger,
        drop.quest_id,
        drop.user_id,
        ParticipationStatus::Dropped,
    );
}

/// A drop overwrites the status of the first participation of the user in
/// the quest below the header and changes nothing else: every other cell of
/// that row, every other row, the header among them, and every other table
/// stay as they were, and no row is added or removed. Without such a
/// participation, nothing changes at all.
pub proof fn law_drop_overwrites_one_status(ledger: LedgerModel, drop: RegistrationModel, now: Text)
    ensures
        ({
            let (after, outcome) = applied(ledger, EventModel::DropQuest(drop), now);
            let rows = ledger.participants;
            match first_pair(rows, drop.quest_id, drop.user_id) {
                Some(at) => {
                    &&& 1 <= at < rows.len()
                    &&& keyed_by_pair(rows[at], drop.quest_id, drop.user_id)
                    &&& forall|j: int|
                        1 <= j < at ==> !keyed_by_pair(
                            #[trigger] rows[j],
                            drop.quest_id,
                            drop.user_id,
                        )
                    &&& outcome == Outcome::Applied
                    &&& after.participants.len() == rows.len()
                    &&& after.participants[at][STATUS_COLUMN as int]
                        == ParticipationStatus::Dropped.text()
                    &&& forall|j: int|
                        j != STATUS_COLUMN ==> cell_or_empty(after.participants[at], j)
                            == cell_or_empty(rows[at], j)
                    &&& forall|i: int|
                        0 <= i < rows.len() && i != at ==> after.participants[i] == rows[i]
                    &&& after.quests == ledger.quests
                    &&& after.communities == ledger.communities
                    &&& after.submissions == ledger.submissions
                },
                None => {
                    &&& outcome == Outcome::ParticipationNotFound
                    &&& after == ledger
                    &&& forall|j: int|
                        1 <= j < rows.len() ==> !keyed_by_pair(
                            #[trigger] rows[j],
                            drop.quest_id,
                            drop.user_id,
                        )
                },
            }
        }),
{
    crate::rows::lemma_first_pair_from(ledger.participants, drop.quest_id, drop.user_id, 1);
}

} // verus!
