//! The event producer: a user's intent, checked and turned into an event.
//!
//! Every check here is made against a snapshot that may be up to a minute
//! old. The checks keep most mistakes from reaching the bus; they do not
//! make the ledger refuse anything, and the writer does not repeat them.

use vstd::prelude::*;
use crate::cache::{CachedModel, CachedQuestData};
use crate::envelope::{Event, EventModel};
use crate::payload::{
    DeleteModel, DeletePayload, EditModel, EditPayload, NewCommunityModel, NewCommunityPayload,
    ProofModel, ProofPayload, QuestModel, QuestPayload, RegistrationModel, RegistrationPayload,
};
use crate::rows::{cell_or_empty, find_keyed, first_keyed, RowModel, TableModel};
use crate::status::{calculate_status, status_at, QuestStatus};
use crate::text::{
    decimal_text, lowercased, nfkc_form, parse_i8, parsed_i8, same_text, split_at_first,
    split_once_at, starts_with_text, to_nfkc, trimmed, u64_to_string, Text,
};
use crate::time::{
    epoch_seconds, parse_instant, parse_wib, rfc3339_instant, timestamp_or_zero, wib_rfc3339,
};
use crate::writer::ParticipationStatus;

verus! {

/// The kind of a quest.
#[derive(Debug, Clone, Copy, PartialEq, Eq, Structural)]
pub enum QuestCategory {
    CreativeArts,
    Community,
}

/// The division that organizes a creative-arts quest.
#[derive(Debug, Clone, Copy, PartialEq, Eq, Structural)]
pub enum Division {
    Illust,
    Game,
    Music,
    Taldev,
    Story,
    Cosplay,
    /// No division: the quest is not a creative-arts quest.
    NoDivision,
}

/// What a quest id is being completed for.
#[derive(Debug, Clone, Copy, PartialEq, Eq, Structural)]
pub enum QuestCompleteMode {
    Take,
    Submit,
    View,
}

impl QuestCategory {
    /// The name under which the category is recorded.
    pub open spec fn name(self) -> Text {
        match self {
            QuestCategory::CreativeArts => "CreativeArts"@,
            QuestCategory::Community => "Community"@,
        }
    }

    /// The name under which the category is recorded.
    pub fn as_str(&self) -> (name: &'static str)
        ensures
            name@ == self.name(),
    {
        match self {
            QuestCategory::CreativeArts => "CreativeArts",
            QuestCategory::Community => "Community",
        }
    }
}

impl Division {
    /// The name under which the division is recorded.
    pub open spec fn name(self) -> Text {
        match self {
            Division::Illust => "Illust"@,
            Division::Game => "Game"@,
            Division::Music => "Music"@,
            Division::Taldev => "Taldev"@,
            Division::Story => "Story"@,
            Division::Cosplay => "Cosplay"@,
            Division::NoDivision => "None"@,
        }
    }

    /// The name under which the division is recorded.
    pub fn as_str(&self) -> (name: &'static str)
        ensures
            name@ == self.name(),
    {
        match self {
            Division::Illust => "Illust",
            Division::Game => "Game",
            Division::Music => "Music",
            Division::Taldev => "Taldev",
            Division::Story => "Story",
            Division::Cosplay => "Cosplay",
            Division::NoDivision => "None",
        }
    }
}

/// The message for a creative-arts quest without a division.
pub open spec fn division_expected() -> Text {
    "Error: Expected Division Name."@
}

/// The message for a community quest without a community.
pub open spec fn community_expected() -> Text {
    "Error: Expected Community Name."@
}

/// Who organizes a quest: the division of a creative-arts quest, the named
/// community of a community quest. A name of white space only is no name.
pub open spec fn organizer_of(
    category: QuestCategory,
    division: Division,
    community_name: Option<Text>,
) -> Result<Text, Text> {
    match category {
        QuestCategory::CreativeArts => if division == Division::NoDivision {
            Err(division_expected())
        } else {
            Ok(division.name())
        },
        QuestCategory::Community => match community_name {
            Some(name) => if trimmed(name).len() > 0 {
                Ok(name)
            } else {
                Err(community_expected())
            },
            None => Err(community_expected()),
        },
    }
}

/// The view of a result whose both sides are text.
pub open spec fn text_result(res: Result<String, String>) -> Result<Text, Text> {
    match res {
        Ok(s) => Ok(s@),
        Err(e) => Err(e@),
    }
}

/// Decides who organizes a quest.
pub fn determine_organizer(
    category: QuestCategory,
    division: Division,
    community_name: Option<String>,
) -> (res: Result<String, String>)
    ensures
        text_result(res) == organizer_of(category, division, community_name.deep_view()),
{
    match category {
        QuestCategory::CreativeArts => {
            match division {
                Division::NoDivision => Err("Error: Expected Division Name.".to_string()),
                _ => Ok(division.as_str().to_string()),
            }
        },
        QuestCategory::Community => {
            match community_name {
                Some(name) => {
                    if !name.as_str().trim().is_empty() {
                        Ok(name)
                    } else {
                        Err("Error: Expected Community Name.".to_string())
                    }
                },
                None => Err("Error: Expected Community Name.".to_string()),
            }
        },
    }
}

/// How the leader of a community is recorded: by id, or as unknown.
pub open spec fn leader_id_of(leader: Option<u64>) -> Text {
    match leader {
        Some(id) => decimal_text(id as int),
        None => "Unknown"@,
    }
}

/// Decides how the leader of a community is recorded.
pub fn determine_leader_id(leader: Option<u64>) -> (id: String)
    ensures
        id@ == leader_id_of(leader),
{
    match leader {
        Some(id) => u64_to_string(id),
        None => "Unknown".to_string(),
    }
}

/// The form under which two names count as the same: trimmed, in NFKC, in
/// lower case.
pub open spec fn normalized(s: Text) -> Text {
    lowercased(nfkc_form(trimmed(s)))
}

/// Normalizes a name for comparison: trims it, brings it into NFKC and
/// lowers its case.
pub fn normalize_name(s: &str) -> (name: String)
    ensures
        name@ == normalized(s@),
{
    let inner = s.trim();
    let normal = to_nfkc(inner);
    normal.as_str().to_lowercase()
}

/// Whether a row below the header at or after `from` names a community that
/// normalizes to `target`.
pub open spec fn names_community_from(rows: TableModel, target: Text, from: int) -> bool
    decreases rows.len() - from,
{
    if from < 1 || from >= rows.len() {
        false
    } else if rows[from].len() >= 1 && normalized(rows[from][0]) == target {
        true
    } else {
        names_community_from(rows, target, from + 1)
    }
}

/// Whether a community of that name, up to normalization, is registered.
pub open spec fn is_registered(communities: TableModel, name: Text) -> bool {
    names_community_from(communities, normalized(name), 1)
}

/// Whether a community of that name, up to normalization, is registered.
pub fn community_registered(communities: &Vec<Vec<String>>, name: &str) -> (yes: bool)
    ensures
        yes == is_registered(communities.deep_view(), name@),
{
    let target = normalize_name(name);
    let ghost all = communities.deep_view();
    let mut i: usize = 1;
    while i < communities.len()
        invariant
            1 <= i,
            all == communities.deep_view(),
            target@ == normalized(name@),
            is_registered(all, name@) == names_community_from(all, target@, i as int),
        decreases communities.len() - i,
    {
        let row = &communities[i];
        if row.len() >= 1 {
            let seen = normalize_name(row[0].as_str());
            if same_text(seen.as_str(), target.as_str()) {
                return true;
            }
        }
        i += 1;
    }
    false
}

/// Why a community was not registered.
#[derive(Debug, Clone, Copy, PartialEq, Eq, Structural)]
pub enum RegistrationRefusal {
    /// A community of that name is registered already.
    AlreadyRegistered,
}

/// Registers a community unless one of that name is there: the event to
/// publish, or why there is none.
pub fn register_community(communities: &Vec<Vec<String>>, name: String, leader: Option<u64>) -> (res:
    Result<Event, RegistrationRefusal>)
    ensures
        match res {
            Ok(event) => !is_registered(communities.deep_view(), name@) && event.deep_view() == (
                EventModel::RegisterCommunity(
                    NewCommunityModel { community_name: name@, leader_id: leader_id_of(leader) },
                )
            ),
            Err(_) => is_registered(communities.deep_view(), name@),
        },
{
    if community_registered(communities, name.as_str()) {
        Err(RegistrationRefusal::AlreadyRegistered)
    } else {
        let leader_id = determine_leader_id(leader);
        Ok(Event::RegisterCommunity(NewCommunityPayload { community_name: name, leader_id }))
    }
}

/// What the producer needs to know of a quest before it lets anyone in.
#[derive(Debug)]
pub struct QuestSummary {
    /// The capacity of the quest.
    pub max_slots: i8,
    /// How many participation rows the quest has, whatever their status.
    pub current_participants: usize,
    /// The start of the quest as recorded.
    pub schedule: String,
    /// The end of the quest as recorded.
    pub deadline: String,
    /// The title of the quest.
    pub title: String,
}

/// A `QuestSummary` as the contracts see it.
pub struct SummaryModel {
    pub max_slots: i8,
    pub current_participants: int,
    pub schedule: Text,
    pub deadline: Text,
    pub title: Text,
}

impl DeepView for QuestSummary {
    type V = SummaryModel;

    open spec fn deep_view(&self) -> SummaryModel {
        SummaryModel {
            max_slots: self.max_slots,
            current_participants: self.current_participants as int,
            schedule: self.schedule@,
            deadline: self.deadline@,
            title: self.title@,
        }
    }
}

/// Whether a quest row lists the quest with everything up to its deadline.
pub open spec fn lists_quest(row: RowModel, quest_id: Text) -> bool {
    row.len() >= 9 && row[0] == quest_id
}

/// The index of the first row at or after `from`, below the header, that
/// lists the quest.
pub open spec fn first_listed_from(rows: TableModel, quest_id: Text, from: int) -> Option<int>
    decreases rows.len() - from,
{
    if from < 1 || from >= rows.len() {
        None
    } else if lists_quest(rows[from], quest_id) {
        Some(from)
    } else {
        first_listed_from(rows, quest_id, from + 1)
    }
}

/// Whether a participation row is one of the quest's.
pub open spec fn participates_in(row: RowModel, quest_id: Text) -> bool {
    row.len() >= 2 && row[0] == quest_id
}

/// How many of the rows below the header and above `upto` are
/// participations in the quest.
pub open spec fn taken_count(rows: TableModel, quest_id: Text, upto: int) -> int
    decreases upto,
{
    if upto <= 1 {
        0
    } else if participates_in(rows[upto - 1], quest_id) {
        taken_count(rows, quest_id, upto - 1) + 1
    } else {
        taken_count(rows, quest_id, upto - 1)
    }
}

/// The capacity that a slots cell records; a cell that is no number records
/// none.
pub open spec fn slots_of(cell: Text) -> i8 {
    match parsed_i8(cell) {
        Some(slots) => slots,
        None => 0,
    }
}

/// The summary of a quest in a snapshot, if the snapshot lists the quest.
pub open spec fn summary_of(data: CachedModel, quest_id: Text) -> Option<SummaryModel> {
    match first_listed_from(data.q_rows, quest_id, 1) {
        Some(at) => {
            let row = data.q_rows[at];
            Some(
                SummaryModel {
                    max_slots: slots_of(row[3]),
                    current_participants: taken_count(
                        data.p_rows,
                        quest_id,
                        data.p_rows.len() as int,
                    ),
                    schedule: row[5],
                    deadline: row[8],
                    title: row[1],
                },
            )
        },
        None => None,
    }
}

/// The count never exceeds the number of rows counted.
pub proof fn lemma_taken_count_bounded(rows: TableModel, quest_id: Text, upto: int)
    requires
        0 <= upto,
    ensures
        0 <= taken_count(rows, quest_id, upto) <= upto,
    decreases upto,
{
    if upto > 1 {
        lemma_taken_count_bounded(rows, quest_id, upto - 1);
    }
}

/// Counts the participation rows of a quest.
pub fn count_participants(p_rows: &Vec<Vec<String>>, quest_id: &str) -> (count: usize)
    ensures
        count == taken_count(p_rows.deep_view(), quest_id@, p_rows.len() as int),
{
    let ghost all = p_rows.deep_view();
    let mut count: usize = 0;
    let mut i: usize = 1;
    if p_rows.len() <= 1 {
        return 0;
    }
    while i < p_rows.len()
        invariant
            1 <= i <= p_rows.len(),
            all == p_rows.deep_view(),
            count == taken_count(all, quest_id@, i as int),
        decreases p_rows.len() - i,
    {
        proof {
            lemma_taken_count_bounded(all, quest_id@, i as int);
        }
        let row = &p_rows[i];
        if row.len() >= 2 && same_text(row[0].as_str(), quest_id) {
            count += 1;
        }
        i += 1;
    }
    count
}

/// Looks a quest up in a snapshot and sums up what the producer needs of
/// it; nothing if the snapshot does not list the quest.
pub fn get_quest_and_participant_data(data: &CachedQuestData, quest_id: &str) -> (summary: Option<
    QuestSummary,
>)
    ensures
        summary.deep_view() == summary_of(data.deep_view(), quest_id@),
{
    let ghost all = data.q_rows.deep_view();
    let mut i: usize = 1;
    while i < data.q_rows.len()
        invariant
            1 <= i,
            all == data.q_rows.deep_view(),
            first_listed_from(all, quest_id@, 1) == first_listed_from(all, quest_id@, i as int),
        decreases data.q_rows.len() - i,
    {
        let row = &data.q_rows[i];
        if row.len() >= 9 && same_text(row[0].as_str(), quest_id) {
            let max_slots = match parse_i8(row[3].as_str()) {
                Some(slots) => slots,
                None => 0,
            };
            return Some(
                QuestSummary {
                    max_slots,
                    current_participants: count_participants(&data.p_rows, quest_id),
                    schedule: row[5].clone(),
                    deadline: row[8].clone(),
                    title: row[1].clone(),
                },
            );
        }
        i += 1;
    }
    None
}

/// The time that a recorded schedule or deadline denotes, in epoch seconds;
/// zero where nothing is recorded or what is recorded is no time.
pub open spec fn recorded_time(cell: Text) -> i64 {
    if cell.len() == 0 {
        0
    } else {
        epoch_seconds(cell)
    }
}

/// The time that a recorded schedule or deadline denotes.
pub fn read_recorded_time(cell: &str) -> (secs: i64)
    ensures
        secs == recorded_time(cell@),
{
    if cell.is_empty() {
        0
    } else {
        timestamp_or_zero(cell)
    }
}

/// Whether a participation row is the user's, in the quest, with a status.
pub open spec fn claims(row: RowModel, quest_id: Text, user_id: Text) -> bool {
    row.len() >= 4 && row[0] == quest_id && row[1] == user_id
}

/// The index of the first row at or after `from`, below the header, that is
/// the user's in the quest.
pub open spec fn first_claim_from(rows: TableModel, quest_id: Text, user_id: Text, from: int)
    -> Option<int>
    decreases rows.len() - from,
{
    if from < 1 || from >= rows.len() {
        None
    } else if claims(rows[from], quest_id, user_id) {
        Some(from)
    } else {
        first_claim_from(rows, quest_id, user_id, from + 1)
    }
}

/// Whether a row at or after `from`, below the header, is the user's in the
/// quest and in progress.
pub open spec fn in_progress_from(rows: TableModel, quest_id: Text, user_id: Text, from: int)
    -> bool
    decreases rows.len() - from,
{
    if from < 1 || from >= rows.len() {
        false
    } else if claims(rows[from], quest_id, user_id) && rows[from][3]
        == ParticipationStatus::OnProgress.text() {
        true
    } else {
        in_progress_from(rows, quest_id, user_id, from + 1)
    }
}

/// Whether the user has a participation in progress in the quest.
pub fn has_in_progress(p_rows: &Vec<Vec<String>>, quest_id: &str, user_id: &str) -> (yes: bool)
    ensures
        yes == in_progress_from(p_rows.deep_view(), quest_id@, user_id@, 1),
{
    let ghost all = p_rows.deep_view();
    let mut i: usize = 1;
    while i < p_rows.len()
        invariant
            1 <= i,
            all == p_rows.deep_view(),
            in_progress_from(all, quest_id@, user_id@, 1) == in_progress_from(
                all,
                quest_id@,
                user_id@,
                i as int,
            ),
        decreases p_rows.len() - i,
    {
        let row = &p_rows[i];
        if row.len() >= 4 && same_text(row[0].as_str(), quest_id) && same_text(
            row[1].as_str(),
            user_id,
        ) && same_text(row[3].as_str(), ParticipationStatus::OnProgress.as_str()) {
            return true;
        }
        i += 1;
    }
    false
}

/// Finds the first participation of the user in the quest.
pub fn find_claim(p_rows: &Vec<Vec<String>>, quest_id: &str, user_id: &str) -> (found: Option<
    usize,
>)
    ensures
        match found {
            Some(at) => at < p_rows.len() && p_rows[at as int].len() >= 4 && first_claim_from(
                p_rows.deep_view(),
                quest_id@,
                user_id@,
                1,
            ) == Some(at as int),
            None => first_claim_from(p_rows.deep_view(), quest_id@, user_id@, 1) is None,
        },
{
    let ghost all = p_rows.deep_view();
    let mut i: usize = 1;
    while i < p_rows.len()
        invariant
            1 <= i,
            all == p_rows.deep_view(),
            first_claim_from(all, quest_id@, user_id@, 1) == first_claim_from(
                all,
                quest_id@,
                user_id@,
                i as int,
            ),
        decreases p_rows.len() - i,
    {
        let row = &p_rows[i];
        if row.len() >= 4 && same_text(row[0].as_str(), quest_id) && same_text(
            row[1].as_str(),
            user_id,
        ) {
            return Some(i);
        }
        i += 1;
    }
    None
}

/// Why a quest cannot be taken.
#[derive(Debug, Clone, Copy, PartialEq, Eq, Structural)]
pub enum TakeRefusal {
    /// The snapshot does not list the quest.
    QuestNotFound,
    /// The deadline of the quest has passed.
    Ended,
    /// The quest has started.
    AlreadyStarted,
    /// The user has a participation in progress in the quest.
    AlreadyTaken,
    /// Every slot of the quest is taken.
    Full,
}

/// Why a quest cannot be taken at `now` by the user, going by the
/// snapshot: the first reason that applies, or none.
pub open spec fn take_refusal(data: CachedModel, quest_id: Text, user_id: Text, now: i64)
    -> Option<TakeRefusal> {
    match summary_of(data, quest_id) {
        None => Some(TakeRefusal::QuestNotFound),
        Some(summary) => {
            let start = recorded_time(summary.schedule);
            let end = recorded_time(summary.deadline);
            if status_at(now as int, start as int, end as int) == QuestStatus::Ended {
                Some(TakeRefusal::Ended)
            } else if start > 0 && now >= start {
                Some(TakeRefusal::AlreadyStarted)
            } else if in_progress_from(data.p_rows, quest_id, user_id, 1) {
                Some(TakeRefusal::AlreadyTaken)
            } else if summary.current_participants >= summary.max_slots {
                Some(TakeRefusal::Full)
            } else {
                None
            }
        },
    }
}

/// Admits the user to the quest or refuses: the event to publish, or the
/// first reason against it.
pub fn take(data: &CachedQuestData, quest_id: String, user_id: String, user_tag: String, now: i64)
    -> (res: Result<Event, TakeRefusal>)
    ensures
        match res {
            Ok(event) => take_refusal(data.deep_view(), quest_id@, user_id@, now) is None
                && event.deep_view() == EventModel::TakeQuest(
                RegistrationModel { quest_id: quest_id@, user_id: user_id@, user_tag: user_tag@ },
            ),
            Err(refusal) => take_refusal(data.deep_view(), quest_id@, user_id@, now) == Some(
                refusal,
            ),
        },
{
    let summary = match get_quest_and_participant_data(data, quest_id.as_str()) {
        Some(summary) => summary,
        None => {
            return Err(TakeRefusal::QuestNotFound);
        },
    };
    let start = read_recorded_time(summary.schedule.as_str());
    let end = read_recorded_time(summary.deadline.as_str());
    match calculate_status(now, &start, &end) {
        QuestStatus::Ended => {
            return Err(TakeRefusal::Ended);
        },
        _ => {},
    }
    if start > 0 && now >= start {
        return Err(TakeRefusal::AlreadyStarted);
    }
    if has_in_progress(&data.p_rows, quest_id.as_str(), user_id.as_str()) {
        return Err(TakeRefusal::AlreadyTaken);
    }
    if summary.max_slots < 0 || summary.current_participants >= summary.max_slots as usize {
        return Err(TakeRefusal::Full);
    }
    Ok(Event::TakeQuest(RegistrationPayload { quest_id, user_id, user_tag }))
}

/// Why a quest cannot be dropped.
#[derive(Debug)]
pub enum DropRefusal {
    /// The snapshot does not list the quest.
    QuestNotFound,
    /// The recorded schedule of the quest is no time.
    ScheduleUnreadable,
    /// The quest has started.
    AlreadyStarted,
    /// The user's participation is no longer in progress; its status is
    /// given.
    NotInProgress(String),
    /// The user has no participation in the quest.
    NotTaken,
}

/// A `DropRefusal` as the contracts see it.
pub enum DropRefusalModel {
    QuestNotFound,
    ScheduleUnreadable,
    AlreadyStarted,
    NotInProgress(Text),
    NotTaken,
}

impl DeepView for DropRefusal {
    type V = DropRefusalModel;

    open spec fn deep_view(&self) -> DropRefusalModel {
        match self {
            DropRefusal::QuestNotFound => DropRefusalModel::QuestNotFound,
            DropRefusal::ScheduleUnreadable => DropRefusalModel::ScheduleUnreadable,
            DropRefusal::AlreadyStarted => DropRefusalModel::AlreadyStarted,
            DropRefusal::NotInProgress(status) => DropRefusalModel::NotInProgress(status@),
            DropRefusal::NotTaken => DropRefusalModel::NotTaken,
        }
    }
}

/// Why the user cannot drop the quest at `now`: the first reason that
/// applies, or none. The quest is looked up in the snapshot, the user's
/// participation in the participation rows that were read for the purpose;
/// the first row of the user in the quest decides.
pub open spec fn drop_refusal(
    data: CachedModel,
    participants: TableModel,
    quest_id: Text,
    user_id: Text,
    now: i64,
) -> Option<DropRefusalModel> {
    match summary_of(data, quest_id) {
        None => Some(DropRefusalModel::QuestNotFound),
        Some(summary) => match rfc3339_instant(summary.schedule) {
            None => Some(DropRefusalModel::ScheduleUnreadable),
            Some(start) => if now >= start.secs {
                Some(DropRefusalModel::AlreadyStarted)
            } else {
                match first_claim_from(participants, quest_id, user_id, 1) {
                    None => Some(DropRefusalModel::NotTaken),
                    Some(at) => if participants[at][3] == ParticipationStatus::OnProgress.text() {
                        None
                    } else {
                        Some(DropRefusalModel::NotInProgress(participants[at][3]))
                    },
                }
            },
        },
    }
}

/// Lets the user drop the quest or refuses: the event to publish, or the
/// first reason against it.
pub fn drop(
    data: &CachedQuestData,
    participants: &Vec<Vec<String>>,
    quest_id: String,
    user_id: String,
    user_tag: String,
    now: i64,
) -> (res: Result<Event, DropRefusal>)
    ensures
        match res {
            Ok(event) => drop_refusal(
                data.deep_view(),
                participants.deep_view(),
                quest_id@,
                user_id@,
                now,
            ) is None && event.deep_view() == EventModel::DropQuest(
                RegistrationModel { quest_id: quest_id@, user_id: user_id@, user_tag: user_tag@ },
            ),
            Err(refusal) => drop_refusal(
                data.deep_view(),
                participants.deep_view(),
                quest_id@,
                user_id@,
                now,
            ) == Some(refusal.deep_view()),
        },
{
    let summary = match get_quest_and_participant_data(data, quest_id.as_str()) {
        Some(summary) => summary,
        None => {
            return Err(DropRefusal::QuestNotFound);
        },
    };
    let start = match parse_instant(summary.schedule.as_str()) {
        Some(start) => start,
        None => {
            return Err(DropRefusal::ScheduleUnreadable);
        },
    };
    if now >= start.secs {
        return Err(DropRefusal::AlreadyStarted);
    }
    match find_claim(participants, quest_id.as_str(), user_id.as_str()) {
        None => Err(DropRefusal::NotTaken),
        Some(at) => {
            let status = &participants[at][3];
            if same_text(status.as_str(), ParticipationStatus::OnProgress.as_str()) {
                Ok(Event::DropQuest(RegistrationPayload { quest_id, user_id, user_tag }))
            } else {
                Err(DropRefusal::NotInProgress(status.clone()))
            }
        },
    }
}

/// Why a quest cannot be deleted.
#[derive(Debug, Clone, Copy, PartialEq, Eq, Structural)]
pub enum DeleteRefusal {
    /// The snapshot has no row for the quest.
    QuestNotFound,
}

/// Asks for the deletion of a quest that the snapshot knows: the event to
/// publish, or nothing for a quest that it does not know.
pub fn delete(data: &CachedQuestData, quest_id: String) -> (res: Result<Event, DeleteRefusal>)
    ensures
        match res {
            Ok(event) => first_keyed(data.deep_view().q_rows, quest_id@) is Some
                && event.deep_view() == EventModel::DeleteQuest(DeleteModel { quest_id: quest_id@ }),
            Err(_) => first_keyed(data.deep_view().q_rows, quest_id@) is None,
        },
{
    match find_keyed(&data.q_rows, quest_id.as_str()) {
        Some(_) => Ok(Event::DeleteQuest(DeletePayload { quest_id })),
        None => Err(DeleteRefusal::QuestNotFound),
    }
}

/// Why a proof cannot be submitted.
#[derive(Debug, Clone, Copy, PartialEq, Eq, Structural)]
pub enum SubmitRefusal {
    /// The attachment has a content type, and it is not an image's.
    NotAnImage,
    /// The attachment has no content type.
    InvalidFile,
}

/// Why an attachment of that content type is no proof, if it is none.
pub open spec fn submit_refusal(content_type: Option<Text>) -> Option<SubmitRefusal> {
    match content_type {
        Some(kind) => if "image/"@.is_prefix_of(kind) {
            None
        } else {
            Some(SubmitRefusal::NotAnImage)
        },
        None => Some(SubmitRefusal::InvalidFile),
    }
}

/// Accepts an image as the proof of a quest: the event to publish, or why
/// the attachment is no proof.
pub fn submit(quest_id: String, user_id: String, content_type: Option<&str>, proof_url: String)
    -> (res: Result<Event, SubmitRefusal>)
    ensures
        match res {
            Ok(event) => submit_refusal(content_type.deep_view()) is None && event.deep_view()
                == EventModel::SubmitProof(
                ProofModel { quest_id: quest_id@, user_id: user_id@, proof_url: proof_url@ },
            ),
            Err(refusal) => submit_refusal(content_type.deep_view()) == Some(refusal),
        },
{
    match content_type {
        Some(kind) => {
            if starts_with_text(kind, "image/") {
                Ok(Event::SubmitProof(ProofPayload { quest_id, user_id, proof_url }))
            } else {
                Err(SubmitRefusal::NotAnImage)
            }
        },
        None => Err(SubmitRefusal::InvalidFile),
    }
}

/// The editable fields of a quest as the snapshot has them.
#[derive(Debug)]
pub struct ExistingQuest {
    pub title: String,
    pub slots: String,
    pub platform: String,
    pub schedule: String,
    pub deadline: String,
    pub description: String,
}

/// An `ExistingQuest` as the contracts see it.
pub struct ExistingModel {
    pub title: Text,
    pub slots: Text,
    pub platform: Text,
    pub schedule: Text,
    pub deadline: Text,
    pub description: Text,
}

impl DeepView for ExistingQuest {
    type V = ExistingModel;

    open spec fn deep_view(&self) -> ExistingModel {
        ExistingModel {
            title: self.title@,
            slots: self.slots@,
            platform: self.platform@,
            schedule: self.schedule@,
            deadline: self.deadline@,
            description: self.description@,
        }
    }
}

/// The editable fields of a quest row; a cell that is not there is empty.
pub open spec fn existing_in(row: RowModel) -> ExistingModel {
    ExistingModel {
        title: cell_or_empty(row, 1),
        slots: cell_or_empty(row, 3),
        platform: cell_or_empty(row, 6),
        schedule: cell_or_empty(row, 5),
        deadline: cell_or_empty(row, 8),
        description: cell_or_empty(row, 7),
    }
}

/// The editable fields of the quest in the snapshot, if it has a row.
pub open spec fn existing_of(data: CachedModel, quest_id: Text) -> Option<ExistingModel> {
    match first_keyed(data.q_rows, quest_id) {
        Some(at) => Some(existing_in(data.q_rows[at])),
        None => None,
    }
}

/// Copies the cell of a row at `column`, or gives the empty text.
pub fn cell_text(row: &Vec<String>, column: usize) -> (cell: String)
    ensures
        cell@ == cell_or_empty(row.deep_view(), column as int),
{
    if column < row.len() {
        row[column].clone()
    } else {
        String::new()
    }
}

/// Looks up the editable fields of a quest in the snapshot.
pub fn find_existing(data: &CachedQuestData, quest_id: &str) -> (existing: Option<ExistingQuest>)
    ensures
        existing.deep_view() == existing_of(data.deep_view(), quest_id@),
{
    match find_keyed(&data.q_rows, quest_id) {
        Some(at) => {
            let row = &data.q_rows[at];
            Some(
                ExistingQuest {
                    title: cell_text(row, 1),
                    slots: cell_text(row, 3),
                    platform: cell_text(row, 6),
                    schedule: cell_text(row, 5),
                    deadline: cell_text(row, 8),
                    description: cell_text(row, 7),
                },
            )
        },
        None => None,
    }
}

/// The text if it is not empty.
pub open spec fn non_empty(s: Text) -> Option<Text> {
    if s.len() == 0 {
        None
    } else {
        Some(s)
    }
}

/// What an optional form input says once trimmed; an input of white space
/// only says nothing.
pub open spec fn filled(input: Option<Text>) -> Option<Text> {
    match input {
        Some(s) => non_empty(trimmed(s)),
        None => None,
    }
}

/// The platform given in a combined input: its first line, trimmed.
pub open spec fn platform_line(raw: Text) -> Text {
    trimmed(split_at_first(raw, '\n').0)
}

/// The description given in a combined input: what follows its first line,
/// trimmed.
pub open spec fn description_lines(raw: Text) -> Text {
    match split_at_first(raw, '\n').1 {
        Some(rest) => trimmed(rest),
        None => Seq::empty(),
    }
}

/// The text if it is not empty.
pub fn keep_non_empty(s: &str) -> (kept: Option<String>)
    ensures
        kept.deep_view() == non_empty(s@),
{
    if s.is_empty() {
        None
    } else {
        Some(s.to_string())
    }
}

/// What an optional form input says once trimmed.
pub fn read_filled(input: &Option<String>) -> (said: Option<String>)
    ensures
        said.deep_view() == filled(input.deep_view()),
{
    match input {
        Some(s) => keep_non_empty(s.as_str().trim()),
        None => None,
    }
}

/// Splits a combined input into the platform and the description.
pub fn split_platform_description(raw: &str) -> (parts: (String, String))
    ensures
        parts.0@ == platform_line(raw@),
        parts.1@ == description_lines(raw@),
{
    match split_once_at(raw, '\n') {
        Some((head, tail)) => (head.trim().to_string(), tail.trim().to_string()),
        None => (raw.trim().to_string(), String::new()),
    }
}

/// What the staff typed into the form that edits a quest; every input may
/// be left out.
#[derive(Debug)]
pub struct EditForm {
    pub title: Option<String>,
    pub description_and_platform: Option<String>,
    pub slots: Option<String>,
    pub schedule: Option<String>,
    pub deadline: Option<String>,
}

/// An `EditForm` as the contracts see it.
pub struct EditFormModel {
    pub title: Option<Text>,
    pub description_and_platform: Option<Text>,
    pub slots: Option<Text>,
    pub schedule: Option<Text>,
    pub deadline: Option<Text>,
}

impl DeepView for EditForm {
    type V = EditFormModel;

    open spec fn deep_view(&self) -> EditFormModel {
        EditFormModel {
            title: self.title.deep_view(),
            description_and_platform: self.description_and_platform.deep_view(),
            slots: self.slots.deep_view(),
            schedule: self.schedule.deep_view(),
            deadline: self.deadline.deep_view(),
        }
    }
}

/// Which input of a form cannot be read.
#[derive(Debug, Clone, Copy, PartialEq, Eq, Structural)]
pub enum FormError {
    /// The slots are no number that fits.
    InvalidSlots,
    /// The start time is no local date and time.
    InvalidSchedule,
    /// The deadline is no local date and time.
    InvalidDeadline,
}

/// The value of an input, or of what is there when the input says nothing.
pub open spec fn or_existing(input: Option<Text>, existing: Text) -> Text {
    match input {
        Some(said) => said,
        None => existing,
    }
}

/// The platform that an edit form gives, if it gives one.
pub open spec fn edited_platform(form: EditFormModel) -> Option<Text> {
    match filled(form.description_and_platform) {
        Some(raw) => non_empty(platform_line(raw)),
        None => None,
    }
}

/// The description that an edit form gives, if it gives one.
pub open spec fn edited_description(form: EditFormModel) -> Option<Text> {
    match filled(form.description_and_platform) {
        Some(raw) => non_empty(description_lines(raw)),
        None => None,
    }
}

/// The edit that a form asks for. What the form leaves out stays as it is;
/// a quest without a deadline gets its schedule as deadline. The slots are
/// read first, then the start time, then the deadline, and the first input
/// that cannot be read is the error.
pub open spec fn edit_of(quest_id: Text, existing: ExistingModel, form: EditFormModel) -> Result<
    EditModel,
    FormError,
> {
    let slots = filled(form.slots);
    let schedule = filled(form.schedule);
    let deadline = filled(form.deadline);
    if slots is Some && parsed_i8(slots.unwrap()) is None {
        Err(FormError::InvalidSlots)
    } else if schedule is Some && wib_rfc3339(schedule.unwrap()) is None {
        Err(FormError::InvalidSchedule)
    } else if deadline is Some && wib_rfc3339(deadline.unwrap()) is None {
        Err(FormError::InvalidDeadline)
    } else {
        let final_schedule = match schedule {
            Some(said) => wib_rfc3339(said).unwrap(),
            None => existing.schedule,
        };
        Ok(
            EditModel {
                quest_id,
                title: or_existing(filled(form.title), existing.title),
                description: or_existing(edited_description(form), existing.description),
                slots: match slots {
                    Some(said) => parsed_i8(said).unwrap(),
                    None => slots_of(existing.slots),
                },
                schedule: final_schedule,
                deadline: match deadline {
                    Some(said) => wib_rfc3339(said).unwrap(),
                    None => if existing.deadline.len() == 0 {
                        final_schedule
                    } else {
                        existing.deadline
                    },
                },
                platform: or_existing(edited_platform(form), existing.platform),
            },
        )
    }
}

/// The view of the result of reading a form into an edit.
pub open spec fn edit_result(res: Result<EditPayload, FormError>) -> Result<EditModel, FormError> {
    match res {
        Ok(edit) => Ok(edit.deep_view()),
        Err(e) => Err(e),
    }
}

/// Reads an edit form over the existing fields of a quest.
pub fn build_edit_payload(quest_id: String, existing: ExistingQuest, form: EditForm) -> (res:
    Result<EditPayload, FormError>)
    ensures
        edit_result(res) == edit_of(quest_id@, existing.deep_view(), form.deep_view()),
{
    let title = read_filled(&form.title);
    let (description, platform) = match read_filled(&form.description_and_platform) {
        Some(raw) => {
            let parts = split_platform_description(raw.as_str());
            (keep_non_empty(parts.1.as_str()), keep_non_empty(parts.0.as_str()))
        },
        None => (None, None),
    };
    let slots = match read_filled(&form.slots) {
        Some(said) => match parse_i8(said.as_str()) {
            Some(slots) => Some(slots),
            None => {
                return Err(FormError::InvalidSlots);
            },
        },
        None => None,
    };
    let schedule = match read_filled(&form.schedule) {
        Some(said) => match parse_wib(said.as_str()) {
            Ok(iso) => Some(iso),
            Err(_) => {
                return Err(FormError::InvalidSchedule);
            },
        },
        None => None,
    };
    let deadline = match read_filled(&form.deadline) {
        Some(said) => match parse_wib(said.as_str()) {
            Ok(iso) => Some(iso),
            Err(_) => {
                return Err(FormError::InvalidDeadline);
            },
        },
        None => None,
    };
    let final_slots = match slots {
        Some(slots) => slots,
        None => match parse_i8(existing.slots.as_str()) {
            Some(slots) => slots,
            None => 0,
        },
    };
    let final_schedule = match schedule {
        Some(iso) => iso,
        None => existing.schedule,
    };
    let final_deadline = match deadline {
        Some(iso) => iso,
        None => if existing.deadline.as_str().is_empty() {
            final_schedule.clone()
        } else {
            existing.deadline
        },
    };
    Ok(
        EditPayload {
            quest_id,
            title: match title {
                Some(said) => said,
                None => existing.title,
            },
            description: match description {
                Some(said) => said,
                None => existing.description,
            },
            slots: final_slots,
            schedule: final_schedule,
            deadline: final_deadline,
            platform: match platform {
                Some(said) => said,
                None => existing.platform,
            },
        },
    )
}

/// Turns an edit form into the event to publish, or says which input
/// cannot be read.
pub fn edit(quest_id: String, existing: ExistingQuest, form: EditForm) -> (res: Result<
    Event,
    FormError,
>)
    ensures
        match res {
            Ok(event) => edit_of(quest_id@, existing.deep_view(), form.deep_view()) is Ok
                && event.deep_view() == EventModel::EditQuest(
                edit_of(quest_id@, existing.deep_view(), form.deep_view())->Ok_0,
            ),
            Err(e) => edit_of(quest_id@, existing.deep_view(), form.deep_view()) == Err::<
                EditModel,
                FormError,
            >(e),
        },
{
    match build_edit_payload(quest_id, existing, form) {
        Ok(payload) => Ok(Event::EditQuest(payload)),
        Err(e) => Err(e),
    }
}

/// What the staff typed into the form that creates a quest.
#[derive(Debug)]
pub struct QuestForm {
    pub title: String,
    pub description_and_platform: String,
    pub slots: String,
    pub schedule: String,
    pub deadline: Option<String>,
}

/// A `QuestForm` as the contracts see it.
pub struct QuestFormModel {
    pub title: Text,
    pub description_and_platform: Text,
    pub slots: Text,
    pub schedule: Text,
    pub deadline: Option<Text>,
}

impl DeepView for QuestForm {
    type V = QuestFormModel;

    open spec fn deep_view(&self) -> QuestFormModel {
        QuestFormModel {
            title: self.title@,
            description_and_platform: self.description_and_platform@,
            slots: self.slots@,
            schedule: self.schedule@,
            deadline: self.deadline.deep_view(),
        }
    }
}

/// The deadline input of a quest form, if it says anything: the input as
/// typed, not trimmed.
pub open spec fn deadline_input(form: QuestFormModel) -> Option<Text> {
    match form.deadline {
        Some(typed) => if trimmed(typed).len() == 0 {
            None
        } else {
            Some(typed)
        },
        None => None,
    }
}

/// The quest that a form describes. The start time is read first, then the
/// deadline, then the slots, and the first input that cannot be read is the
/// error. Without a deadline the quest ends when it starts. The first line
/// of the combined input is the platform, the rest the description.
pub open spec fn quest_of(
    quest_id: Text,
    category: QuestCategory,
    organizer: Text,
    creator_id: Text,
    form: QuestFormModel,
) -> Result<QuestModel, FormError> {
    let deadline = deadline_input(form);
    if wib_rfc3339(form.schedule) is None {
        Err(FormError::InvalidSchedule)
    } else if deadline is Some && wib_rfc3339(deadline.unwrap()) is None {
        Err(FormError::InvalidDeadline)
    } else if parsed_i8(form.slots) is None {
        Err(FormError::InvalidSlots)
    } else {
        let schedule = wib_rfc3339(form.schedule).unwrap();
        Ok(
            QuestModel {
                quest_id,
                title: form.title,
                description: description_lines(form.description_and_platform),
                category: category.name(),
                organizer_name: organizer,
                slots: parsed_i8(form.slots).unwrap(),
                schedule,
                platform: platform_line(form.description_and_platform),
                deadline: match deadline {
                    Some(typed) => wib_rfc3339(typed).unwrap(),
                    None => schedule,
                },
                creator_id,
            },
        )
    }
}

/// The view of the result of reading a form into a quest.
pub open spec fn quest_result(res: Result<QuestPayload, FormError>) -> Result<
    QuestModel,
    FormError,
> {
    match res {
        Ok(quest) => Ok(quest.deep_view()),
        Err(e) => Err(e),
    }
}

/// Reads a quest form into the payload of a new quest with the given id.
pub fn build_quest_payload(
    quest_id: String,
    category: QuestCategory,
    organizer: String,
    creator_id: String,
    form: QuestForm,
) -> (res: Result<QuestPayload, FormError>)
    ensures
        quest_result(res) == quest_of(
            quest_id@,
            category,
            organizer@,
            creator_id@,
            form.deep_view(),
        ),
{
    let schedule = match parse_wib(form.schedule.as_str()) {
        Ok(iso) => iso,
        Err(_) => {
            return Err(FormError::InvalidSchedule);
        },
    };
    let typed = match &form.deadline {
        Some(typed) => if typed.as_str().trim().is_empty() {
            None
        } else {
            Some(typed)
        },
        None => None,
    };
    let deadline = match typed {
        Some(typed) => match parse_wib(typed.as_str()) {
            Ok(iso) => iso,
            Err(_) => {
                return Err(FormError::InvalidDeadline);
            },
        },
        None => schedule.clone(),
    };
    let slots = match parse_i8(form.slots.as_str()) {
        Some(slots) => slots,
        None => {
            return Err(FormError::InvalidSlots);
        },
    };
    let parts = split_platform_description(form.description_and_platform.as_str());
    Ok(
        QuestPayload {
            quest_id,
            title: form.title,
            description: parts.1,
            category: category.as_str().to_string(),
            organizer_name: organizer,
            slots,
            schedule,
            platform: parts.0,
            deadline,
            creator_id,
        },
    )
}

/// `Uuid::new_v4` draws a random identifier; `to_string` writes it out.
#[verifier::external_body]
pub(crate) fn fresh_quest_id() -> (id: String) {
    uuid::Uuid::new_v4().to_string()
}

/// Turns a quest form into the event that creates the quest under a fresh
/// id, or says which input cannot be read. Everything but the id is as
/// [`quest_of`] says.
pub fn create(category: QuestCategory, organizer: String, creator_id: String, form: QuestForm) -> (res:
    Result<Event, FormError>)
    ensures
        match res {
            Ok(event) => exists|quest_id: Text|
                quest_of(quest_id, category, organizer@, creator_id@, form.deep_view()) is Ok
                    && event.deep_view() == EventModel::CreateQuest(
                    (#[trigger] quest_of(
                        quest_id,
                        category,
                        organizer@,
                        creator_id@,
                        form.deep_view(),
                    ))->Ok_0,
                ),
            Err(e) => forall|quest_id: Text|
                (#[trigger] quest_of(quest_id, category, organizer@, creator_id@, form.deep_view()))
                    == Err::<QuestModel, FormError>(e),
        },
{
    let quest_id = fresh_quest_id();
    let ghost id = quest_id@;
    match build_quest_payload(quest_id, category, organizer, creator_id, form) {
        Ok(payload) => {
            assert(quest_of(id, category, organizer@, creator_id@, form.deep_view()) is Ok);
            Ok(Event::CreateQuest(payload))
        },
        Err(e) => Err(e),
    }
}

} // verus!
