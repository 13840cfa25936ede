//! The quest board: what a snapshot has to show, page by page, and what it
//! has to offer to someone who is about to take or submit a quest.

use vstd::prelude::*;
use crate::cache::{CachedModel, CachedQuestData};
use crate::producer::{slots_of, QuestCompleteMode};
use crate::rows::{RowModel, TableModel};
use crate::status::{calculate_status, status_at, QuestStatus};
use vstd::string::StringExecFns;
use crate::text::{
    beginning_within, contains_text, decimal_text, has_substring, head_within, i64_to_string,
    lowercased, parse_i32, parse_i8, parsed_i32, same_text, uppercased, Text,
};
use crate::time::{epoch_seconds, timestamp_or_zero};
use crate::writer::ParticipationStatus;

verus! {

/// The number of quests on one page of the board.
pub const PAGE_SIZE: usize = 5;

/// The most that a completion offers at once.
pub const MAX_CHOICES: usize = 25;

/// Whether a status, whatever its case, holds a slot: the participation is
/// in progress, completed or verified.
pub open spec fn holds_slot(status: Text) -> bool {
    let upper = uppercased(status);
    upper == "ON_PROGRESS"@ || upper == "COMPLETED"@ || upper == "VERIFIED"@
}

/// Whether a participation row holds a slot of the quest.
pub open spec fn fills(row: RowModel, quest_id: Text) -> bool {
    row.len() >= 4 && row[0] == quest_id && holds_slot(row[3])
}

/// How many of the rows below the header and above `upto` hold a slot of
/// the quest.
pub open spec fn filled_count(rows: TableModel, quest_id: Text, upto: int) -> int
    decreases upto,
{
    if upto <= 1 {
        0
    } else if fills(rows[upto - 1], quest_id) {
        filled_count(rows, quest_id, upto - 1) + 1
    } else {
        filled_count(rows, quest_id, upto - 1)
    }
}

/// The count never exceeds the number of rows counted.
pub proof fn lemma_filled_count_bounded(rows: TableModel, quest_id: Text, upto: int)
    requires
        0 <= upto,
    ensures
        0 <= filled_count(rows, quest_id, upto) <= upto,
    decreases upto,
{
    if upto > 1 {
        lemma_filled_count_bounded(rows, quest_id, upto - 1);
    }
}

/// Whether a status holds a slot.
pub fn status_holds_slot(status: &str) -> (yes: bool)
    ensures
        yes == holds_slot(status@),
{
    let upper = status.to_uppercase();
    same_text(upper.as_str(), "ON_PROGRESS") || same_text(upper.as_str(), "COMPLETED")
        || same_text(upper.as_str(), "VERIFIED")
}

/// Counts the participations that hold a slot of the quest.
pub fn count_filled(p_rows: &Vec<Vec<String>>, quest_id: &str) -> (count: usize)
    ensures
        count == filled_count(p_rows.deep_view(), quest_id@, p_rows.len() as int),
{
    if p_rows.len() <= 1 {
        return 0;
    }
    let ghost all = p_rows.deep_view();
    let mut count: usize = 0;
    let mut i: usize = 1;
    while i < p_rows.len()
        invariant
            1 <= i <= p_rows.len(),
            all == p_rows.deep_view(),
            count == filled_count(all, quest_id@, i as int),
        decreases p_rows.len() - i,
    {
        proof {
            lemma_filled_count_bounded(all, quest_id@, i as int);
        }
        let row = &p_rows[i];
        if row.len() >= 4 && same_text(row[0].as_str(), quest_id) && status_holds_slot(
            row[3].as_str(),
        ) {
            count += 1;
        }
        i += 1;
    }
    count
}

/// One quest on the board.
#[derive(Debug)]
pub struct BoardEntry {
    pub quest_id: String,
    pub title: String,
    pub organizer: String,
    /// The start in epoch seconds; zero if none is recorded.
    pub schedule_ts: i64,
    /// The end in epoch seconds; zero if none is recorded.
    pub deadline_ts: i64,
    pub max_slots: i8,
    /// How many participations hold a slot of the quest.
    pub filled: usize,
}

/// A `BoardEntry` as the contracts see it.
pub struct BoardEntryModel {
    pub quest_id: Text,
    pub title: Text,
    pub organizer: Text,
    pub schedule_ts: i64,
    pub deadline_ts: i64,
    pub max_slots: i8,
    pub filled: int,
}

impl DeepView for BoardEntry {
    type V = BoardEntryModel;

    open spec fn deep_view(&self) -> BoardEntryModel {
        BoardEntryModel {
            quest_id: self.quest_id@,
            title: self.title@,
            organizer: self.organizer@,
            schedule_ts: self.schedule_ts,
            deadline_ts: self.deadline_ts,
            max_slots: self.max_slots,
            filled: self.filled as int,
        }
    }
}

/// Whether a quest row is shown on the board: it reaches to the deadline
/// and has an id that is not the header's.
pub open spec fn shown(row: RowModel) -> bool {
    row.len() >= 9 && row[0] != "Quest ID"@ && row[0].len() > 0
}

/// The board entry of a quest row.
pub open spec fn entry_of(row: RowModel, p_rows: TableModel) -> BoardEntryModel {
    BoardEntryModel {
        quest_id: row[0],
        title: row[1],
        organizer: row[4],
        schedule_ts: epoch_seconds(row[5]),
        deadline_ts: epoch_seconds(row[8]),
        max_slots: slots_of(row[3]),
        filled: filled_count(p_rows, row[0], p_rows.len() as int),
    }
}

/// The entries of the quest rows below the header and above `upto`, in the
/// order of the rows.
pub open spec fn entries_upto(data: CachedModel, upto: int) -> Seq<BoardEntryModel>
    decreases upto,
{
    if upto <= 1 {
        Seq::empty()
    } else if shown(data.q_rows[upto - 1]) {
        entries_upto(data, upto - 1).push(entry_of(data.q_rows[upto - 1], data.p_rows))
    } else {
        entries_upto(data, upto - 1)
    }
}

/// The board of a snapshot: one entry for every quest row that is shown.
pub open spec fn board_of(data: CachedModel) -> Seq<BoardEntryModel> {
    entries_upto(data, data.q_rows.len() as int)
}

/// Lists the quests of a snapshot for the board.
pub fn list(data: &CachedQuestData) -> (entries: Vec<BoardEntry>)
    ensures
        entries.deep_view() == board_of(data.deep_view()),
{
    let mut entries: Vec<BoardEntry> = Vec::new();
    if data.q_rows.len() <= 1 {
        assert(entries.deep_view() =~= board_of(data.deep_view()));
        return entries;
    }
    let mut i: usize = 1;
    assert(entries.deep_view() =~= entries_upto(data.deep_view(), 1));
    while i < data.q_rows.len()
        invariant
            1 <= i <= data.q_rows.len(),
            entries.deep_view() == entries_upto(data.deep_view(), i as int),
        decreases data.q_rows.len() - i,
    {
        let row = &data.q_rows[i];
        let ghost before = entries.deep_view();
        if row.len() >= 9 && !same_text(row[0].as_str(), "Quest ID") && !row[0].as_str().is_empty() {
            let max_slots = match parse_i8(row[3].as_str()) {
                Some(slots) => slots,
                None => 0,
            };
            entries.push(
                BoardEntry {
                    quest_id: row[0].clone(),
                    title: row[1].clone(),
                    organizer: row[4].clone(),
                    schedule_ts: timestamp_or_zero(row[5].as_str()),
                    deadline_ts: timestamp_or_zero(row[8].as_str()),
                    max_slots,
                    filled: count_filled(&data.p_rows, row[0].as_str()),
                },
            );
            assert(entries.deep_view() =~= before.push(
                entry_of(data.deep_view().q_rows[i as int], data.deep_view().p_rows),
            ));
        }
        i += 1;
    }
    entries
}

/// What the board says about the slots of a quest.
#[derive(Debug, Clone, Copy, PartialEq, Eq, Structural)]
pub enum SlotState {
    /// The quest has ended.
    Closed,
    /// Every slot is taken.
    Full,
    /// A slot is free.
    Open,
}

/// The state of the slots of an entry at `now`.
pub open spec fn slot_state_at(entry: BoardEntryModel, now: i64) -> SlotState {
    if status_at(now as int, entry.schedule_ts as int, entry.deadline_ts as int)
        == QuestStatus::Ended {
        SlotState::Closed
    } else if entry.filled >= entry.max_slots {
        SlotState::Full
    } else {
        SlotState::Open
    }
}

/// Decides what the board says about the slots of an entry.
pub fn slot_state(entry: &BoardEntry, now: i64) -> (state: SlotState)
    ensures
        state == slot_state_at(entry.deep_view(), now),
{
    match calculate_status(now, &entry.schedule_ts, &entry.deadline_ts) {
        QuestStatus::Ended => SlotState::Closed,
        _ => {
            if entry.max_slots < 0 || entry.filled >= entry.max_slots as usize {
                SlotState::Full
            } else {
                SlotState::Open
            }
        },
    }
}

/// The number of pages that `entries` quests take.
pub open spec fn pages_for(entries: int) -> int {
    (entries + PAGE_SIZE - 1) / (PAGE_SIZE as int)
}

/// The number of pages that `entries` quests take.
pub fn page_count(entries: usize) -> (pages: usize)
    ensures
        pages == pages_for(entries as int),
{
    if entries % PAGE_SIZE == 0 {
        entries / PAGE_SIZE
    } else {
        entries / PAGE_SIZE + 1
    }
}

/// The entries on a page, counted from zero: where they start and where
/// they end among `entries` quests.
pub fn page_bounds(entries: usize, page: usize) -> (bounds: (usize, usize))
    requires
        page < pages_for(entries as int),
    ensures
        bounds.0 == page * PAGE_SIZE,
        bounds.1 == if (page + 1) * PAGE_SIZE < entries {
            (page + 1) * PAGE_SIZE
        } else {
            entries as int
        },
        bounds.0 < bounds.1 <= entries,
        bounds.1 - bounds.0 <= PAGE_SIZE,
{
    let start = page * PAGE_SIZE;
    let end = if entries - start > PAGE_SIZE {
        start + PAGE_SIZE
    } else {
        entries
    };
    (start, end)
}

/// The page shown after a button was pressed: `next` and `prev` move one
/// page and wrap around, anything else stays.
pub open spec fn page_after(page: int, pages: int, button: Text) -> int {
    if pages <= 0 {
        page
    } else if button == "next"@ {
        (page + 1) % pages
    } else if button == "prev"@ {
        if page == 0 {
            pages - 1
        } else {
            page - 1
        }
    } else {
        page
    }
}

/// Decides the page to show after a button was pressed.
pub fn turn_page(page: usize, pages: usize, button: &str) -> (next: usize)
    requires
        page < pages || pages == 0,
    ensures
        next == page_after(page as int, pages as int, button@),
        pages > 0 ==> next < pages,
{
    if pages == 0 {
        page
    } else if same_text(button, "next") {
        (page + 1) % pages
    } else if same_text(button, "prev") {
        if page == 0 {
            pages - 1
        } else {
            page - 1
        }
    } else {
        page
    }
}

/// What a completion is for, going by the name of the command that asks:
/// taking a quest, or anything else, which is handled as submitting one.
pub open spec fn mode_of(command: Text) -> QuestCompleteMode {
    if command == "take"@ {
        QuestCompleteMode::Take
    } else {
        QuestCompleteMode::Submit
    }
}

/// Decides what a completion is for.
pub fn completion_mode(command: &str) -> (mode: QuestCompleteMode)
    ensures
        mode == mode_of(command@),
{
    if same_text(command, "take") {
        QuestCompleteMode::Take
    } else {
        QuestCompleteMode::Submit
    }
}

/// Whether a label goes with what was typed so far: the typed text occurs
/// in the label, case aside.
pub open spec fn goes_with(label: Text, partial: Text) -> bool {
    has_substring(lowercased(label), lowercased(partial))
}

/// Whether a label goes with what was typed so far.
pub fn label_matches(label: &str, partial: &str) -> (yes: bool)
    ensures
        yes == goes_with(label@, partial@),
{
    let low_label = label.to_lowercase();
    let low_partial = partial.to_lowercase();
    contains_text(low_label.as_str(), low_partial.as_str())
}

/// A quest that can still be taken.
#[derive(Debug)]
pub struct Offer {
    pub quest_id: String,
    pub title: String,
    /// How many slots are left; at least one.
    pub left: i32,
}

/// An `Offer` as the contracts see it.
pub struct OfferModel {
    pub quest_id: Text,
    pub title: Text,
    pub left: int,
}

impl DeepView for Offer {
    type V = OfferModel;

    open spec fn deep_view(&self) -> OfferModel {
        OfferModel { quest_id: self.quest_id@, title: self.title@, left: self.left as int }
    }
}

/// Whether a participation row names the quest, whatever else it holds.
pub open spec fn names_quest(row: RowModel, quest_id: Text) -> bool {
    row.len() >= 1 && row[0] == quest_id
}

/// How many of the rows below the header and above `upto` name the quest.
pub open spec fn named_count(rows: TableModel, quest_id: Text, upto: int) -> int
    decreases upto,
{
    if upto <= 1 {
        0
    } else if names_quest(rows[upto - 1], quest_id) {
        named_count(rows, quest_id, upto - 1) + 1
    } else {
        named_count(rows, quest_id, upto - 1)
    }
}

/// The count never exceeds the number of rows counted.
pub proof fn lemma_named_count_bounded(rows: TableModel, quest_id: Text, upto: int)
    requires
        0 <= upto,
    ensures
        0 <= named_count(rows, quest_id, upto) <= upto,
    decreases upto,
{
    if upto > 1 {
        lemma_named_count_bounded(rows, quest_id, upto - 1);
    }
}

/// Counts the participation rows that name the quest.
pub fn count_named(p_rows: &Vec<Vec<String>>, quest_id: &str) -> (count: usize)
    ensures
        count == named_count(p_rows.deep_view(), quest_id@, p_rows.len() as int),
{
    if p_rows.len() <= 1 {
        return 0;
    }
    let ghost all = p_rows.deep_view();
    let mut count: usize = 0;
    let mut i: usize = 1;
    while i < p_rows.len()
        invariant
            1 <= i <= p_rows.len(),
            all == p_rows.deep_view(),
            count == named_count(all, quest_id@, i as int),
        decreases p_rows.len() - i,
    {
        proof {
            lemma_named_count_bounded(all, quest_id@, i as int);
        }
        let row = &p_rows[i];
        if row.len() >= 1 && same_text(row[0].as_str(), quest_id) {
            count += 1;
        }
        i += 1;
    }
    count
}

/// The capacity that a slots cell records, read as wide as it goes; a cell
/// that is no number records none.
pub open spec fn wide_slots_of(cell: Text) -> i32 {
    match parsed_i32(cell) {
        Some(slots) => slots,
        None => 0,
    }
}

/// The offer that a quest row makes at `now`: the quest has not started and
/// fewer rows name it than it has slots.
pub open spec fn offer_of(row: RowModel, p_rows: TableModel, now: i64) -> Option<OfferModel> {
    let slots = wide_slots_of(row[3]);
    let taken = named_count(p_rows, row[0], p_rows.len() as int);
    if row.len() >= 9 && status_at(
        now as int,
        epoch_seconds(row[5]) as int,
        epoch_seconds(row[8]) as int,
    ) == QuestStatus::Upcoming && taken < slots {
        Some(OfferModel { quest_id: row[0], title: row[1], left: slots - taken })
    } else {
        None
    }
}

/// The offers of the quest rows below the header and above `upto`.
pub open spec fn offers_upto(data: CachedModel, now: i64, upto: int) -> Seq<OfferModel>
    decreases upto,
{
    if upto <= 1 {
        Seq::empty()
    } else {
        match offer_of(data.q_rows[upto - 1], data.p_rows, now) {
            Some(offer) => offers_upto(data, now, upto - 1).push(offer),
            None => offers_upto(data, now, upto - 1),
        }
    }
}

/// Lists the quests of a snapshot that can still be taken at `now`, in the
/// order of their rows.
pub fn take_offers(data: &CachedQuestData, now: i64) -> (offers: Vec<Offer>)
    ensures
        offers.deep_view() == offers_upto(data.deep_view(), now, data.q_rows.len() as int),
{
    let mut offers: Vec<Offer> = Vec::new();
    if data.q_rows.len() <= 1 {
        assert(offers.deep_view() =~= offers_upto(
            data.deep_view(),
            now,
            data.q_rows.len() as int,
        ));
        return offers;
    }
    let mut i: usize = 1;
    assert(offers.deep_view() =~= offers_upto(data.deep_view(), now, 1));
    while i < data.q_rows.len()
        invariant
            1 <= i <= data.q_rows.len(),
            offers.deep_view() == offers_upto(data.deep_view(), now, i as int),
        decreases data.q_rows.len() - i,
    {
        let row = &data.q_rows[i];
        let ghost before = offers.deep_view();
        if row.len() >= 9 {
            let slots = match parse_i32(row[3].as_str()) {
                Some(slots) => slots,
                None => 0,
            };
            let start = timestamp_or_zero(row[5].as_str());
            let end = timestamp_or_zero(row[8].as_str());
            let upcoming = match calculate_status(now, &start, &end) {
                QuestStatus::Upcoming => true,
                _ => false,
            };
            let taken = count_named(&data.p_rows, row[0].as_str());
            if upcoming && slots > 0 && taken < slots as usize {
                offers.push(
                    Offer {
                        quest_id: row[0].clone(),
                        title: row[1].clone(),
                        left: slots - taken as i32,
                    },
                );
                assert(offers.deep_view() =~= before.push(
                    offer_of(data.deep_view().q_rows[i as int], data.deep_view().p_rows, now)->0,
                ));
            }
        }
        i += 1;
    }
    offers
}

/// A quest that the user can submit a proof for.
#[derive(Debug)]
pub struct Submittable {
    pub quest_id: String,
    pub title: String,
}

/// A `Submittable` as the contracts see it.
pub struct SubmittableModel {
    pub quest_id: Text,
    pub title: Text,
}

impl DeepView for Submittable {
    type V = SubmittableModel;

    open spec fn deep_view(&self) -> SubmittableModel {
        SubmittableModel { quest_id: self.quest_id@, title: self.title@ }
    }
}

/// Whether a quest row gives the quest a title.
pub open spec fn titles(row: RowModel, quest_id: Text) -> bool {
    row.len() >= 2 && row[0] == quest_id
}

/// The title of a quest among the rows below the header and above `upto`:
/// that of the last row that gives one, or a placeholder.
pub open spec fn title_among(q_rows: TableModel, quest_id: Text, upto: int) -> Text
    decreases upto,
{
    if upto <= 1 {
        "Unknown"@
    } else if titles(q_rows[upto - 1], quest_id) {
        q_rows[upto - 1][1]
    } else {
        title_among(q_rows, quest_id, upto - 1)
    }
}

/// Finds the title of a quest.
pub fn find_title(q_rows: &Vec<Vec<String>>, quest_id: &str) -> (title: String)
    ensures
        title@ == title_among(q_rows.deep_view(), quest_id@, q_rows.len() as int),
{
    let ghost all = q_rows.deep_view();
    let mut i: usize = q_rows.len();
    while i > 1
        invariant
            i <= q_rows.len(),
            all == q_rows.deep_view(),
            title_among(all, quest_id@, q_rows.len() as int) == title_among(
                all,
                quest_id@,
                i as int,
            ),
        decreases i,
    {
        i -= 1;
        let row = &q_rows[i];
        if row.len() >= 2 && same_text(row[0].as_str(), quest_id) {
            return row[1].clone();
        }
    }
    "Unknown".to_string()
}

/// Whether a participation row is the user's and in progress.
pub open spec fn awaits_proof(row: RowModel, user_id: Text) -> bool {
    row.len() >= 4 && row[1] == user_id && row[3] == ParticipationStatus::OnProgress.text()
}

/// The quests that the user can submit a proof for, among the participation
/// rows below the header and above `upto`.
pub open spec fn submittable_upto(data: CachedModel, user_id: Text, upto: int) -> Seq<
    SubmittableModel,
>
    decreases upto,
{
    if upto <= 1 {
        Seq::empty()
    } else {
        let row = data.p_rows[upto - 1];
        if awaits_proof(row, user_id) {
            submittable_upto(data, user_id, upto - 1).push(
                SubmittableModel {
                    quest_id: row[0],
                    title: title_among(data.q_rows, row[0], data.q_rows.len() as int),
                },
            )
        } else {
            submittable_upto(data, user_id, upto - 1)
        }
    }
}

/// Lists the quests that the user has in progress, each with its title, in
/// the order of the participations.
pub fn submit_offers(data: &CachedQuestData, user_id: &str) -> (offers: Vec<Submittable>)
    ensures
        offers.deep_view() == submittable_upto(
            data.deep_view(),
            user_id@,
            data.p_rows.len() as int,
        ),
{
    let mut offers: Vec<Submittable> = Vec::new();
    if data.p_rows.len() <= 1 {
        assert(offers.deep_view() =~= submittable_upto(
            data.deep_view(),
            user_id@,
            data.p_rows.len() as int,
        ));
        return offers;
    }
    let mut i: usize = 1;
    assert(offers.deep_view() =~= submittable_upto(data.deep_view(), user_id@, 1));
    while i < data.p_rows.len()
        invariant
            1 <= i <= data.p_rows.len(),
            offers.deep_view() == submittable_upto(data.deep_view(), user_id@, i as int),
        decreases data.p_rows.len() - i,
    {
        let row = &data.p_rows[i];
        let ghost before = offers.deep_view();
        if row.len() >= 4 && same_text(row[1].as_str(), user_id) && same_text(
            row[3].as_str(),
            ParticipationStatus::OnProgress.as_str(),
        ) {
            offers.push(
                Submittable {
                    quest_id: row[0].clone(),
                    title: find_title(&data.q_rows, row[0].as_str()),
                },
            );
            assert(offers.deep_view() =~= before.push(
                SubmittableModel {
                    quest_id: row[0]@,
                    title: title_among(
                        data.deep_view().q_rows,
                        row[0]@,
                        data.q_rows.len() as int,
                    ),
                },
            ));
        }
        i += 1;
    }
    offers
}

/// The longest label, in bytes, that the platform shows.
pub const LABEL_LIMIT: usize = 100;

/// One choice of a completion: what is shown and what is filled in.
#[derive(Debug)]
pub struct Choice {
    pub name: String,
    pub value: String,
}

/// A `Choice` as the contracts see it.
pub struct ChoiceModel {
    pub name: Text,
    pub value: Text,
}

impl DeepView for Choice {
    type V = ChoiceModel;

    open spec fn deep_view(&self) -> ChoiceModel {
        ChoiceModel { name: self.name@, value: self.value@ }
    }
}

/// The choice that stands for an offer: the title, the slots left and the
/// id, cut to what the platform shows.
pub open spec fn offer_choice(offer: OfferModel) -> ChoiceModel {
    ChoiceModel {
        name: beginning_within(
            offer.title + " ("@ + decimal_text(offer.left) + " left) - "@ + offer.quest_id,
            LABEL_LIMIT as int,
        ),
        value: offer.quest_id,
    }
}

/// The choice that stands for a quest in progress: the title and the id.
pub open spec fn submittable_choice(quest: SubmittableModel) -> ChoiceModel {
    ChoiceModel { name: quest.title + " - "@ + quest.quest_id, value: quest.quest_id }
}

/// Those of the first `upto` choices whose label goes with what was typed.
pub open spec fn fitting_upto(choices: Seq<ChoiceModel>, partial: Text, upto: int) -> Seq<
    ChoiceModel,
>
    decreases upto,
{
    if upto <= 0 {
        Seq::empty()
    } else if goes_with(choices[upto - 1].name, partial) {
        fitting_upto(choices, partial, upto - 1).push(choices[upto - 1])
    } else {
        fitting_upto(choices, partial, upto - 1)
    }
}

/// The choices offered: those that go with what was typed, in order, and
/// no more than [`MAX_CHOICES`] of them.
pub open spec fn offered(choices: Seq<ChoiceModel>, partial: Text) -> Seq<ChoiceModel> {
    let fitting = fitting_upto(choices, partial, choices.len() as int);
    if fitting.len() > MAX_CHOICES {
        fitting.take(MAX_CHOICES as int)
    } else {
        fitting
    }
}

/// Picks the choices that go with what was typed so far.
pub fn pick_choices(choices: Vec<Choice>, partial: &str) -> (picked: Vec<Choice>)
    ensures
        picked.deep_view() == offered(choices.deep_view(), partial@),
{
    let ghost all = choices.deep_view();
    let mut picked: Vec<Choice> = Vec::new();
    let mut i: usize = 0;
    assert(picked.deep_view() =~= fitting_upto(all, partial@, 0));
    while i < choices.len()
        invariant
            i <= choices.len(),
            all == choices.deep_view(),
            picked.deep_view() == fitting_upto(all, partial@, i as int),
        decreases choices.len() - i,
    {
        let ghost before = picked.deep_view();
        if label_matches(choices[i].name.as_str(), partial) {
            picked.push(Choice { name: choices[i].name.clone(), value: choices[i].value.clone() });
            assert(picked.deep_view() =~= before.push(all[i as int]));
        }
        i += 1;
    }
    if picked.len() > MAX_CHOICES {
        let ghost fitting = picked.deep_view();
        picked.truncate(MAX_CHOICES);
        assert(picked.deep_view() =~= fitting.take(MAX_CHOICES as int));
    }
    picked
}

/// The choices that stand for the offers, one for one.
pub open spec fn offer_choices(offers: Seq<OfferModel>) -> Seq<ChoiceModel> {
    Seq::new(offers.len(), |i: int| offer_choice(offers[i]))
}

/// The choices that stand for the quests in progress, one for one.
pub open spec fn submittable_choices(quests: Seq<SubmittableModel>) -> Seq<ChoiceModel> {
    Seq::new(quests.len(), |i: int| submittable_choice(quests[i]))
}

/// Writes the choice that stands for an offer.
pub fn label_offer(offer: &Offer) -> (choice: Choice)
    ensures
        choice.deep_view() == offer_choice(offer.deep_view()),
{
    let mut name = offer.title.clone();
    let left = i64_to_string(offer.left as i64);
    name.append(" (");
    name.append(left.as_str());
    name.append(" left) - ");
    name.append(offer.quest_id.as_str());
    Choice { name: head_within(name.as_str(), LABEL_LIMIT).to_string(), value: offer.quest_id.clone() }
}

/// Writes the choice that stands for a quest in progress.
pub fn label_submittable(quest: &Submittable) -> (choice: Choice)
    ensures
        choice.deep_view() == submittable_choice(quest.deep_view()),
{
    let mut name = quest.title.clone();
    name.append(" - ");
    name.append(quest.quest_id.as_str());
    Choice { name, value: quest.quest_id.clone() }
}

/// Completes a quest id for someone about to take a quest: the quests that
/// can still be taken at `now` and go with what was typed.
pub fn take_choices(data: &CachedQuestData, partial: &str, now: i64) -> (choices: Vec<Choice>)
    ensures
        choices.deep_view() == offered(
            offer_choices(offers_upto(data.deep_view(), now, data.q_rows.len() as int)),
            partial@,
        ),
{
    let offers = take_offers(data, now);
    let mut labelled: Vec<Choice> = Vec::new();
    let mut i: usize = 0;
    while i < offers.len()
        invariant
            i <= offers.len(),
            labelled.len() == i,
            forall|k: int|
                0 <= k < i ==> (#[trigger] labelled[k]).deep_view() == offer_choice(
                    offers[k].deep_view(),
                ),
        decreases offers.len() - i,
    {
        labelled.push(label_offer(&offers[i]));
        i += 1;
    }
    assert(labelled.deep_view() =~= offer_choices(offers.deep_view()));
    pick_choices(labelled, partial)
}

/// Completes a quest id for someone about to submit a proof: the quests
/// that the user has in progress and that go with what was typed.
pub fn submit_choices(data: &CachedQuestData, user_id: &str, partial: &str) -> (choices: Vec<
    Choice,
>)
    ensures
        choices.deep_view() == offered(
            submittable_choices(
                submittable_upto(data.deep_view(), user_id@, data.p_rows.len() as int),
            ),
            partial@,
        ),
{
    let quests = submit_offers(data, user_id);
    let mut labelled: Vec<Choice> = Vec::new();
    let mut i: usize = 0;
    while i < quests.len()
        invariant
            i <= quests.len(),
            labelled.len() == i,
            forall|k: int|
                0 <= k < i ==> (#[trigger] labelled[k]).deep_view() == submittable_choice(
                    quests[k].deep_view(),
                ),
        decreases quests.len() - i,
    {
        labelled.push(label_submittable(&quests[i]));
        i += 1;
    }
    assert(labelled.deep_view() =~= submittable_choices(quests.deep_view()));
    pick_choices(labelled, partial)
}

} // verus!
