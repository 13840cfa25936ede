//! The ledger writer: one event at a time, applied to the store.
//!
//! The writer never touches the store itself. It says which request to make
//! next and, given the answer, what follows: another request or the end of
//! the event. Whoever runs it performs the requests in the order they come.

use vstd::prelude::*;
use crate::envelope::{Event, EventModel};
use crate::payload::{
    EditModel, EditPayload, NewCommunityModel, NewCommunityPayload, ProofModel, ProofPayload,
    QuestModel, QuestPayload, RegistrationModel, RegistrationPayload,
};
use crate::rows::{
    cell_or_empty, find_keyed, find_pair, find_row_index, first_keyed, first_pair, keyed_by,
    row_keyed_by, RowModel, TableModel,
};
use crate::store::{
    ReplyModel, RequestModel, RowDeletion, SheetInfo, SheetModel, StoreReply, StoreRequest, Table,
};
use crate::text::{decimal_text, i64_to_string, same_text, Text};
use crate::time::now_rfc3339;

verus! {

/// The lifecycle of a participation.
#[derive(Debug, Clone, Copy, PartialEq, Eq, Structural)]
pub enum ParticipationStatus {
    OnProgress,
    Completed,
    Verified,
    Failed,
    Dropped,
}

impl ParticipationStatus {
    /// The text that stands for this status in the status column.
    pub open spec fn text(self) -> Text {
        match self {
            ParticipationStatus::OnProgress => "ON_PROGRESS"@,
            ParticipationStatus::Completed => "COMPLETED"@,
            ParticipationStatus::Verified => "VERIFIED"@,
            ParticipationStatus::Failed => "FAILED"@,
            ParticipationStatus::Dropped => "DROPPED"@,
        }
    }

    /// The text that stands for this status in the status column.
    pub fn as_str(&self) -> (name: &'static str)
        ensures
            name@ == self.text(),
    {
        match self {
            ParticipationStatus::OnProgress => "ON_PROGRESS",
            ParticipationStatus::Completed => "COMPLETED",
            ParticipationStatus::Verified => "VERIFIED",
            ParticipationStatus::Failed => "FAILED",
            ParticipationStatus::Dropped => "DROPPED",
        }
    }
}

/// The number of columns of a quest row.
pub const QUEST_COLUMNS: usize = 10;

/// The column of a participation row that holds its status.
pub const STATUS_COLUMN: usize = 3;

/// How applying one event ended.
#[derive(Debug, Clone, Copy, PartialEq, Eq, Structural)]
pub enum Outcome {
    /// Every request was made and none failed.
    Applied,
    /// No quest row carries the quest id; nothing was written.
    QuestNotFound,
    /// No participation row carries the quest id and user id.
    ParticipationNotFound,
    /// The store names no sheet for the quests or for the participants.
    SheetNotFound,
    /// A row lies beyond what a removal can address; nothing was removed.
    RowOutOfRange,
    /// The store failed a request; the event is dropped where it stood.
    StoreFailed,
}

/// The row that a new quest adds.
pub open spec fn quest_row(p: QuestModel, now: Text) -> RowModel {
    seq![
        p.quest_id,
        p.title,
        p.category,
        decimal_text(p.slots as int),
        p.organizer_name,
        p.schedule,
        p.platform,
        p.description,
        p.deadline,
        now,
    ]
}

/// The row that taking a quest adds.
pub open spec fn participation_row(p: RegistrationModel, now: Text) -> RowModel {
    seq![p.quest_id, p.user_id, p.user_tag, ParticipationStatus::OnProgress.text(), now]
}

/// The row that registering a community adds.
pub open spec fn community_row(p: NewCommunityModel, now: Text) -> RowModel {
    seq![p.community_name, p.leader_id, now]
}

/// The row that submitting a proof adds.
pub open spec fn submission_row(p: ProofModel, now: Text) -> RowModel {
    seq![p.quest_id, p.user_id, p.proof_url, now]
}

/// The ten cells of a quest row as read back: the cells of the first row of
/// the answer, empty where the answer has none.
pub open spec fn existing_cells(read: TableModel) -> RowModel {
    Seq::new(
        QUEST_COLUMNS as nat,
        |j: int|
            if read.len() > 0 {
                cell_or_empty(read[0], j)
            } else {
                Seq::empty()
            },
    )
}

/// The quest row with the edit laid over it: title, slots, schedule,
/// platform, description and deadline come from the edit, every other cell
/// stays.
pub open spec fn edited_row(existing: RowModel, edit: EditModel) -> RowModel {
    existing.update(1, edit.title).update(3, decimal_text(edit.slots as int)).update(
        5,
        edit.schedule,
    ).update(6, edit.platform).update(7, edit.description).update(8, edit.deadline)
}

/// The identifier of the last sheet with the given title, if the store
/// names one.
pub open spec fn sheet_titled(sheets: Seq<SheetModel>, title: Text) -> Option<i32>
    decreases sheets.len(),
{
    if sheets.len() == 0 {
        None
    } else if sheets.last().title == Some(title) {
        sheets.last().sheet_id
    } else {
        sheet_titled(sheets.drop_last(), title)
    }
}

/// The removals of the rows below the header and above `upto` whose first
/// cell is `key`, the lowest row first in the table coming last.
pub open spec fn keyed_deletions(rows: TableModel, key: Text, sheet_id: i32, upto: int) -> Seq<
    RowDeletion,
>
    decreases upto,
{
    if upto <= 1 {
        Seq::empty()
    } else if keyed_by(rows[upto - 1], key) {
        seq![
            RowDeletion {
                sheet_id,
                start_index: (upto - 1) as i32,
                end_index: upto as i32,
            },
        ] + keyed_deletions(rows, key, sheet_id, upto - 1)
    } else {
        keyed_deletions(rows, key, sheet_id, upto - 1)
    }
}

/// The batch that removes a quest and what hangs on it: every participation
/// row of the quest from the bottom up, then the quest row.
pub open spec fn cascade_batch(
    participants: TableModel,
    key: Text,
    quests_sheet: i32,
    participants_sheet: i32,
    quest_index: int,
) -> Seq<RowDeletion> {
    keyed_deletions(participants, key, participants_sheet, participants.len() as int).push(
        RowDeletion {
            sheet_id: quests_sheet,
            start_index: quest_index as i32,
            end_index: (quest_index + 1) as i32,
        },
    )
}

/// Builds the row that a new quest adds.
pub fn build_quest_row(p: QuestPayload, now: &str) -> (row: Vec<String>)
    ensures
        row.deep_view() == quest_row(p.deep_view(), now@),
{
    let slots = i64_to_string(p.slots as i64);
    let row = vec![
        p.quest_id,
        p.title,
        p.category,
        slots,
        p.organizer_name,
        p.schedule,
        p.platform,
        p.description,
        p.deadline,
        now.to_string(),
    ];
    assert(row.deep_view() =~= quest_row(p.deep_view(), now@));
    row
}

/// Builds the row that taking a quest adds.
pub fn build_participation_row(p: RegistrationPayload, now: &str) -> (row: Vec<String>)
    ensures
        row.deep_view() == participation_row(p.deep_view(), now@),
{
    let row = vec![
        p.quest_id,
        p.user_id,
        p.user_tag,
        ParticipationStatus::OnProgress.as_str().to_string(),
        now.to_string(),
    ];
    assert(row.deep_view() =~= participation_row(p.deep_view(), now@));
    row
}

/// Builds the row that registering a community adds.
pub fn build_community_row(p: NewCommunityPayload, now: &str) -> (row: Vec<String>)
    ensures
        row.deep_view() == community_row(p.deep_view(), now@),
{
    let row = vec![p.community_name, p.leader_id, now.to_string()];
    assert(row.deep_view() =~= community_row(p.deep_view(), now@));
    row
}

/// Builds the row that submitting a proof adds.
pub fn build_submission_row(p: &ProofPayload, now: &str) -> (row: Vec<String>)
    ensures
        row.deep_view() == submission_row(p.deep_view(), now@),
{
    let row = vec![p.quest_id.clone(), p.user_id.clone(), p.proof_url.clone(), now.to_string()];
    assert(row.deep_view() =~= submission_row(p.deep_view(), now@));
    row
}

/// Takes the ten cells of a quest row out of the answer to reading it.
pub fn read_existing_cells(read: &Vec<Vec<String>>) -> (cells: Vec<String>)
    ensures
        cells.len() == QUEST_COLUMNS,
        cells.deep_view() == existing_cells(read.deep_view()),
{
    let mut cells: Vec<String> = Vec::new();
    let mut j: usize = 0;
    while j < QUEST_COLUMNS
        invariant
            j <= QUEST_COLUMNS,
            cells.len() == j,
            forall|k: int| 0 <= k < j ==> cells[k]@ == existing_cells(read.deep_view())[k],
        decreases QUEST_COLUMNS - j,
    {
        if read.len() > 0 && j < read[0].len() {
            cells.push(read[0][j].clone());
        } else {
            cells.push(String::new());
        }
        j += 1;
    }
    assert(cells.deep_view() =~= existing_cells(read.deep_view()));
    cells
}

/// Lays an edit over the ten cells of a quest row.
pub fn apply_edit(existing: Vec<String>, edit: EditPayload) -> (row: Vec<String>)
    requires
        existing.len() == QUEST_COLUMNS,
    ensures
        row.deep_view() == edited_row(existing.deep_view(), edit.deep_view()),
{
    let mut row = existing;
    let slots = i64_to_string(edit.slots as i64);
    row.set(1, edit.title);
    row.set(3, slots);
    row.set(5, edit.schedule);
    row.set(6, edit.platform);
    row.set(7, edit.description);
    row.set(8, edit.deadline);
    assert(row.deep_view() =~= edited_row(existing.deep_view(), edit.deep_view()));
    row
}

/// Finds the identifier of the last sheet with the given title.
pub fn find_sheet(sheets: &Vec<SheetInfo>, title: &str) -> (id: Option<i32>)
    ensures
        id == sheet_titled(sheets.deep_view(), title@),
{
    let ghost all = sheets.deep_view();
    let mut i: usize = sheets.len();
    assert(all.take(i as int) =~= all);
    while i > 0
        invariant
            i <= sheets.len(),
            all == sheets.deep_view(),
            sheet_titled(all, title@) == sheet_titled(all.take(i as int), title@),
        decreases i,
    {
        i -= 1;
        proof {
            assert(all.take(i as int + 1).drop_last() =~= all.take(i as int));
            assert(all.take(i as int + 1).last() == all[i as int]);
        }
        let titled = match &sheets[i].title {
            Some(t) => same_text(t.as_str(), title),
            None => false,
        };
        if titled {
            return sheets[i].sheet_id;
        }
    }
    None
}

/// Whether a batch can address the quest row at `quest_index` and every row
/// of a participants table with `participant_rows` rows.
pub open spec fn addressable(quest_index: int, participant_rows: int) -> bool {
    quest_index < i32::MAX && participant_rows <= i32::MAX
}

/// Builds the batch that removes the quest row at `quest_index` and every
/// participation row keyed by `key`; nothing if a row cannot be addressed.
pub fn plan_cascade(
    participants: &Vec<Vec<String>>,
    key: &str,
    quests_sheet: i32,
    participants_sheet: i32,
    quest_index: usize,
) -> (batch: Option<Vec<RowDeletion>>)
    ensures
        match batch {
            Some(deletions) => addressable(quest_index as int, participants.len() as int)
                && deletions@ == cascade_batch(
                participants.deep_view(),
                key@,
                quests_sheet,
                participants_sheet,
                quest_index as int,
            ),
            None => !addressable(quest_index as int, participants.len() as int),
        },
{
    if quest_index >= 2147483647 || participants.len() > 2147483647 {
        return None;
    }
    let ghost rows = participants.deep_view();
    let ghost whole = keyed_deletions(rows, key@, participants_sheet, rows.len() as int);
    let mut deletions: Vec<RowDeletion> = Vec::new();
    let mut upto: usize = participants.len();
    while upto > 1
        invariant
            upto <= participants.len() <= i32::MAX,
            rows == participants.deep_view(),
            whole == deletions@ + keyed_deletions(rows, key@, participants_sheet, upto as int),
        decreases upto,
    {
        if row_keyed_by(&participants[upto - 1], key) {
            deletions.push(
                RowDeletion {
                    sheet_id: participants_sheet,
                    start_index: (upto - 1) as i32,
                    end_index: upto as i32,
                },
            );
        }
        upto -= 1;
        assert(whole =~= deletions@ + keyed_deletions(rows, key@, participants_sheet, upto as int));
    }
    assert(whole =~= deletions@);
    deletions.push(
        RowDeletion {
            sheet_id: quests_sheet,
            start_index: quest_index as i32,
            end_index: (quest_index + 1) as i32,
        },
    );
    Some(deletions)
}

/// What the writer waits for while a request is out.
#[derive(Debug)]
pub enum Pending {
    /// The last request of the event; `failed_before` tells whether an
    /// earlier one failed.
    Last { failed_before: bool },
    /// The quest id column, to find the row that an edit names.
    EditLookup { edit: EditPayload },
    /// The quest row that an edit names.
    EditRead { edit: EditPayload, row_number: usize },
    /// The appending of a submission, after which the participation is
    /// completed whether or not the append went through.
    ProofAppend { quest_id: String, user_id: String },
    /// The participation rows, to find the one whose status changes.
    StatusLookup { quest_id: String, user_id: String, status: ParticipationStatus, failed_before: bool },
    /// The sheets of the store, to address a removal.
    DeleteSheets { quest_id: String },
    /// The quest id column, to find the quest row to remove.
    DeleteQuests { quest_id: String, quests_sheet: i32, participants_sheet: i32 },
    /// The quest id column of the participants, to find what hangs on the
    /// quest.
    DeleteParticipants {
        quest_id: String,
        quests_sheet: i32,
        participants_sheet: i32,
        quest_index: usize,
    },
}

/// A `Pending` as the contracts see it.
pub enum PendingModel {
    Last { failed_before: bool },
    EditLookup { edit: EditModel },
    EditRead { edit: EditModel, row_number: usize },
    ProofAppend { quest_id: Text, user_id: Text },
    StatusLookup { quest_id: Text, user_id: Text, status: ParticipationStatus, failed_before: bool },
    DeleteSheets { quest_id: Text },
    DeleteQuests { quest_id: Text, quests_sheet: i32, participants_sheet: i32 },
    DeleteParticipants {
        quest_id: Text,
        quests_sheet: i32,
        participants_sheet: i32,
        quest_index: usize,
    },
}

impl DeepView for Pending {
    type V = PendingModel;

    open spec fn deep_view(&self) -> PendingModel {
        match self {
            Pending::Last { failed_before } => PendingModel::Last { failed_before: *failed_before },
            Pending::EditLookup { edit } => PendingModel::EditLookup { edit: edit.deep_view() },
            Pending::EditRead { edit, row_number } => PendingModel::EditRead {
                edit: edit.deep_view(),
                row_number: *row_number,
            },
            Pending::ProofAppend { quest_id, user_id } => PendingModel::ProofAppend {
                quest_id: quest_id@,
                user_id: user_id@,
            },
            Pending::StatusLookup {
                quest_id,
                user_id,
                status,
                failed_before,
            } => PendingModel::StatusLookup {
                quest_id: quest_id@,
                user_id: user_id@,
                status: *status,
                failed_before: *failed_before,
            },
            Pending::DeleteSheets { quest_id } => PendingModel::DeleteSheets {
                quest_id: quest_id@,
            },
            Pending::DeleteQuests {
                quest_id,
                quests_sheet,
                participants_sheet,
            } => PendingModel::DeleteQuests {
                quest_id: quest_id@,
                quests_sheet: *quests_sheet,
                participants_sheet: *participants_sheet,
            },
            Pending::DeleteParticipants {
                quest_id,
                quests_sheet,
                participants_sheet,
                quest_index,
            } => PendingModel::DeleteParticipants {
                quest_id: quest_id@,
                quests_sheet: *quests_sheet,
                participants_sheet: *participants_sheet,
                quest_index: *quest_index,
            },
        }
    }
}

/// What the writer does next.
#[derive(Debug)]
pub enum Step {
    /// The event is over.
    Done(Outcome),
    /// Make this request and come back with the answer.
    Call { request: StoreRequest, pending: Pending },
}

/// A `Step` as the contracts see it.
pub enum StepModel {
    Done(Outcome),
    Call { request: RequestModel, pending: PendingModel },
}

impl DeepView for Step {
    type V = StepModel;

    open spec fn deep_view(&self) -> StepModel {
        match self {
            Step::Done(outcome) => StepModel::Done(*outcome),
            Step::Call { request, pending } => StepModel::Call {
                request: request.deep_view(),
                pending: pending.deep_view(),
            },
        }
    }
}

impl PendingModel {
    /// How many requests may still follow the one that is out, that one
    /// included.
    pub open spec fn requests_left(self) -> nat {
        match self {
            PendingModel::Last { .. } => 1,
            PendingModel::EditLookup { .. } => 3,
            PendingModel::EditRead { .. } => 2,
            PendingModel::ProofAppend { .. } => 3,
            PendingModel::StatusLookup { .. } => 2,
            PendingModel::DeleteSheets { .. } => 4,
            PendingModel::DeleteQuests { .. } => 3,
            PendingModel::DeleteParticipants { .. } => 2,
        }
    }
}

impl StepModel {
    /// How many requests may still be made from this step on.
    pub open spec fn requests_left(self) -> nat {
        match self {
            StepModel::Done(_) => 0,
            StepModel::Call { pending, .. } => pending.requests_left(),
        }
    }
}

/// The last request of an event, with nothing failed before it.
pub open spec fn last_call(request: RequestModel) -> StepModel {
    StepModel::Call { request, pending: PendingModel::Last { failed_before: false } }
}

/// The request that reads the participation rows up to the status column.
pub open spec fn status_lookup(
    quest_id: Text,
    user_id: Text,
    status: ParticipationStatus,
    failed_before: bool,
) -> StepModel {
    StepModel::Call {
        request: RequestModel::ReadAll {
            table: Table::Participants,
            columns: STATUS_COLUMN as int + 1,
        },
        pending: PendingModel::StatusLookup { quest_id, user_id, status, failed_before },
    }
}

/// The first step for an event that arrived at `now`.
pub open spec fn first_step(event: EventModel, now: Text) -> StepModel {
    match event {
        EventModel::CreateQuest(p) => last_call(
            RequestModel::Append { table: Table::Quests, row: quest_row(p, now) },
        ),
        EventModel::TakeQuest(p) => last_call(
            RequestModel::Append { table: Table::Participants, row: participation_row(p, now) },
        ),
        EventModel::RegisterCommunity(p) => last_call(
            RequestModel::Append { table: Table::Communities, row: community_row(p, now) },
        ),
        EventModel::SubmitProof(p) => StepModel::Call {
            request: RequestModel::Append { table: Table::Submissions, row: submission_row(p, now) },
            pending: PendingModel::ProofAppend { quest_id: p.quest_id, user_id: p.user_id },
        },
        EventModel::DropQuest(p) => status_lookup(
            p.quest_id,
            p.user_id,
            ParticipationStatus::Dropped,
            false,
        ),
        EventModel::EditQuest(p) => StepModel::Call {
            request: RequestModel::ReadAll { table: Table::Quests, columns: 1 },
            pending: PendingModel::EditLookup { edit: p },
        },
        EventModel::DeleteQuest(p) => StepModel::Call {
            request: RequestModel::SheetIds,
            pending: PendingModel::DeleteSheets { quest_id: p.quest_id },
        },
    }
}

/// The step that follows an answer that is a table of rows.
pub open spec fn step_after_rows(pending: PendingModel, rows: TableModel) -> StepModel {
    match pending {
        PendingModel::EditLookup { edit } => match first_keyed(rows, edit.quest_id) {
            Some(at) => StepModel::Call {
                request: RequestModel::ReadRow {
                    table: Table::Quests,
                    row_number: at + 1,
                    columns: QUEST_COLUMNS as int,
                },
                pending: PendingModel::EditRead { edit, row_number: (at + 1) as usize },
            },
            None => StepModel::Done(Outcome::QuestNotFound),
        },
        PendingModel::EditRead { edit, row_number } => StepModel::Call {
            request: RequestModel::Write {
                table: Table::Quests,
                row_number: row_number as int,
                column: 0,
                cells: edited_row(existing_cells(rows), edit),
            },
            pending: PendingModel::Last { failed_before: false },
        },
        PendingModel::StatusLookup { quest_id, user_id, status, failed_before } => match first_pair(
            rows,
            quest_id,
            user_id,
        ) {
            Some(at) => StepModel::Call {
                request: RequestModel::Write {
                    table: Table::Participants,
                    row_number: at + 1,
                    column: STATUS_COLUMN as int,
                    cells: seq![status.text()],
                },
                pending: PendingModel::Last { failed_before },
            },
            None => StepModel::Done(
                if failed_before {
                    Outcome::StoreFailed
                } else {
                    Outcome::ParticipationNotFound
                },
            ),
        },
        PendingModel::DeleteQuests {
            quest_id,
            quests_sheet,
            participants_sheet,
        } => match first_keyed(rows, quest_id) {
            Some(at) => StepModel::Call {
                request: RequestModel::ReadAll { table: Table::Participants, columns: 1 },
                pending: PendingModel::DeleteParticipants {
                    quest_id,
                    quests_sheet,
                    participants_sheet,
                    quest_index: at as usize,
                },
            },
            None => StepModel::Done(Outcome::QuestNotFound),
        },
        PendingModel::DeleteParticipants {
            quest_id,
            quests_sheet,
            participants_sheet,
            quest_index,
        } => if addressable(quest_index as int, rows.len() as int) {
            last_call(
                RequestModel::DeleteRows {
                    deletions: cascade_batch(
                        rows,
                        quest_id,
                        quests_sheet,
                        participants_sheet,
                        quest_index as int,
                    ),
                },
            )
        } else {
            StepModel::Done(Outcome::RowOutOfRange)
        },
        _ => StepModel::Done(Outcome::StoreFailed),
    }
}

/// The step that follows an answer.
///
/// A failure ends the event, except after the appending of a submission,
/// which is followed by the completion of the participation either way. An
/// answer of a kind that the request does not have counts as a failure.
pub open spec fn next_step(pending: PendingModel, reply: ReplyModel) -> StepModel {
    match pending {
        PendingModel::Last { failed_before } => StepModel::Done(
            if reply is Done && !failed_before {
                Outcome::Applied
            } else {
                Outcome::StoreFailed
            },
        ),
        PendingModel::ProofAppend { quest_id, user_id } => status_lookup(
            quest_id,
            user_id,
            ParticipationStatus::Completed,
            !(reply is Done),
        ),
        PendingModel::DeleteSheets { quest_id } => match reply {
            ReplyModel::Sheets(sheets) => match (
                sheet_titled(sheets, "Quests"@),
                sheet_titled(sheets, "Participants"@),
            ) {
                (Some(quests_sheet), Some(participants_sheet)) => StepModel::Call {
                    request: RequestModel::ReadAll { table: Table::Quests, columns: 1 },
                    pending: PendingModel::DeleteQuests {
                        quest_id,
                        quests_sheet,
                        participants_sheet,
                    },
                },
                _ => StepModel::Done(Outcome::SheetNotFound),
            },
            _ => StepModel::Done(Outcome::StoreFailed),
        },
        _ => match reply {
            ReplyModel::Rows(rows) => step_after_rows(pending, rows),
            _ => StepModel::Done(Outcome::StoreFailed),
        },
    }
}

/// The last request of an event, with nothing failed before it.
fn call_last(request: StoreRequest) -> (step: Step)
    ensures
        step.deep_view() == last_call(request.deep_view()),
{
    Step::Call { request, pending: Pending::Last { failed_before: false } }
}

/// The request that reads the participation rows up to the status column.
fn call_status_lookup(
    quest_id: String,
    user_id: String,
    status: ParticipationStatus,
    failed_before: bool,
) -> (step: Step)
    ensures
        step.deep_view() == status_lookup(quest_id@, user_id@, status, failed_before),
{
    Step::Call {
        request: StoreRequest::ReadAll { table: Table::Participants, columns: STATUS_COLUMN + 1 },
        pending: Pending::StatusLookup { quest_id, user_id, status, failed_before },
    }
}

/// Starts applying an event that arrived at `now`: the first request to
/// make.
pub fn begin(event: Event, now: &str) -> (step: Step)
    ensures
        step.deep_view() == first_step(event.deep_view(), now@),
{
    match event {
        Event::CreateQuest(p) => call_last(
            StoreRequest::Append { table: Table::Quests, row: build_quest_row(p, now) },
        ),
        Event::TakeQuest(p) => call_last(
            StoreRequest::Append { table: Table::Participants, row: build_participation_row(p, now) },
        ),
        Event::RegisterCommunity(p) => call_last(
            StoreRequest::Append { table: Table::Communities, row: build_community_row(p, now) },
        ),
        Event::SubmitProof(p) => {
            let row = build_submission_row(&p, now);
            Step::Call {
                request: StoreRequest::Append { table: Table::Submissions, row },
                pending: Pending::ProofAppend { quest_id: p.quest_id, user_id: p.user_id },
            }
        },
        Event::DropQuest(p) => call_status_lookup(
            p.quest_id,
            p.user_id,
            ParticipationStatus::Dropped,
            false,
        ),
        Event::EditQuest(p) => Step::Call {
            request: StoreRequest::ReadAll { table: Table::Quests, columns: 1 },
            pending: Pending::EditLookup { edit: p },
        },
        Event::DeleteQuest(p) => Step::Call {
            request: StoreRequest::SheetIds,
            pending: Pending::DeleteSheets { quest_id: p.quest_id },
        },
    }
}

/// Starts applying an event that arrives now: the rows it adds are stamped
/// with the time that the clock shows.
pub fn begin_now(event: Event) -> (step: Step)
    ensures
        exists|now: Text| step.deep_view() == #[trigger] first_step(event.deep_view(), now),
{
    let stamp = now_rfc3339();
    begin(event, stamp.as_str())
}

/// Continues after an answer that is a table of rows.
fn resume_with_rows(pending: Pending, rows: Vec<Vec<String>>) -> (step: Step)
    ensures
        step.deep_view() == step_after_rows(pending.deep_view(), rows.deep_view()),
{
    match pending {
        Pending::EditLookup { edit } => match find_row_index(&rows, edit.quest_id.as_str()) {
            Some(row_number) => Step::Call {
                request: StoreRequest::ReadRow {
                    table: Table::Quests,
                    row_number,
                    columns: QUEST_COLUMNS,
                },
                pending: Pending::EditRead { edit, row_number },
            },
            None => Step::Done(Outcome::QuestNotFound),
        },
        Pending::EditRead { edit, row_number } => {
            let existing = read_existing_cells(&rows);
            let cells = apply_edit(existing, edit);
            Step::Call {
                request: StoreRequest::Write { table: Table::Quests, row_number, column: 0, cells },
                pending: Pending::Last { failed_before: false },
            }
        },
        Pending::StatusLookup { quest_id, user_id, status, failed_before } => match find_pair(
            &rows,
            quest_id.as_str(),
            user_id.as_str(),
        ) {
            Some(at) => {
                let cells = vec![status.as_str().to_string()];
                assert(cells.deep_view() =~= seq![status.text()]);
                Step::Call {
                    request: StoreRequest::Write {
                        table: Table::Participants,
                        row_number: at + 1,
                        column: STATUS_COLUMN,
                        cells,
                    },
                    pending: Pending::Last { failed_before },
                }
            },
            None => Step::Done(
                if failed_before {
                    Outcome::StoreFailed
                } else {
                    Outcome::ParticipationNotFound
                },
            ),
        },
        Pending::DeleteQuests { quest_id, quests_sheet, participants_sheet } => match find_keyed(
            &rows,
            quest_id.as_str(),
        ) {
            Some(quest_index) => Step::Call {
                request: StoreRequest::ReadAll { table: Table::Participants, columns: 1 },
                pending: Pending::DeleteParticipants {
                    quest_id,
                    quests_sheet,
                    participants_sheet,
                    quest_index,
                },
            },
            None => Step::Done(Outcome::QuestNotFound),
        },
        Pending::DeleteParticipants {
            quest_id,
            quests_sheet,
            participants_sheet,
            quest_index,
        } => match plan_cascade(
            &rows,
            quest_id.as_str(),
            quests_sheet,
            participants_sheet,
            quest_index,
        ) {
            Some(deletions) => call_last(StoreRequest::DeleteRows { deletions }),
            None => Step::Done(Outcome::RowOutOfRange),
        },
        _ => Step::Done(Outcome::StoreFailed),
    }
}

/// Continues after the store answered the request that was out.
pub fn resume(pending: Pending, reply: StoreReply) -> (step: Step)
    ensures
        step.deep_view() == next_step(pending.deep_view(), reply.deep_view()),
        step.deep_view().requests_left() < pending.deep_view().requests_left(),
{
    match pending {
        Pending::Last { failed_before } => {
            let done = match reply {
                StoreReply::Done => true,
                _ => false,
            };
            Step::Done(
                if done && !failed_before {
                    Outcome::Applied
                } else {
                    Outcome::StoreFailed
                },
            )
        },
        Pending::ProofAppend { quest_id, user_id } => {
            let done = match reply {
                StoreReply::Done => true,
                _ => false,
            };
            call_status_lookup(quest_id, user_id, ParticipationStatus::Completed, !done)
        },
        Pending::DeleteSheets { quest_id } => match reply {
            StoreReply::Sheets(sheets) => {
                let quests = find_sheet(&sheets, "Quests");
                let participants = find_sheet(&sheets, "Participants");
                match (quests, participants) {
                    (Some(quests_sheet), Some(participants_sheet)) => Step::Call {
                        request: StoreRequest::ReadAll { table: Table::Quests, columns: 1 },
                        pending: Pending::DeleteQuests { quest_id, quests_sheet, participants_sheet },
                    },
                    _ => Step::Done(Outcome::SheetNotFound),
                }
            },
            _ => Step::Done(Outcome::StoreFailed),
        },
        other => match reply {
            StoreReply::Rows(rows) => resume_with_rows(other, rows),
            _ => Step::Done(Outcome::StoreFailed),
        },
    }
}

} // verus!
