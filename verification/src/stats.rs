//! A participant's own numbers: how many quests are active, completed and
//! failed, and the list of the active ones.

use vstd::prelude::*;
use vstd::string::StringExecFns;
use crate::rows::{RowModel, TableModel};
use vstd::utf8::encode_utf8;
use crate::text::{
    beginning_within, contains_text, has_substring, head_within, same_text, uppercased, Text,
};

verus! {

/// The counts and the list shown to a participant.
#[derive(Debug, PartialEq)]
pub struct StatsResult {
    pub active: i32,
    pub completed: i32,
    pub failed: i32,
    pub list_str: String,
}

/// A `StatsResult` as the contracts see it.
pub struct StatsModel {
    pub active: int,
    pub completed: int,
    pub failed: int,
    pub list_str: Text,
}

impl DeepView for StatsResult {
    type V = StatsModel;

    open spec fn deep_view(&self) -> StatsModel {
        StatsModel {
            active: self.active as int,
            completed: self.completed as int,
            failed: self.failed as int,
            list_str: self.list_str@,
        }
    }
}

/// Whether a quest row describes the quest `quest_id`: it has a title and an
/// organizer, and its first cell is the id.
pub open spec fn describes(row: RowModel, quest_id: Text) -> bool {
    row.len() >= 5 && row[0] == quest_id
}

/// The index of the last of the first `upto` quest rows that describes the
/// quest, if any does. A later row for the same quest replaces an earlier
/// one.
pub open spec fn described_at(q_rows: TableModel, quest_id: Text, upto: int) -> Option<int>
    decreases upto,
{
    if upto <= 0 {
        None
    } else if describes(q_rows[upto - 1], quest_id) {
        Some(upto - 1)
    } else {
        described_at(q_rows, quest_id, upto - 1)
    }
}

/// The title of a quest, or a placeholder for a quest that no row describes.
pub open spec fn title_of(q_rows: TableModel, quest_id: Text) -> Text {
    match described_at(q_rows, quest_id, q_rows.len() as int) {
        Some(at) => q_rows[at][1],
        None => "Unknown Quest"@,
    }
}

/// The organizer of a quest, or a dash for a quest that no row describes.
pub open spec fn organizer_of(q_rows: TableModel, quest_id: Text) -> Text {
    match described_at(q_rows, quest_id, q_rows.len() as int) {
        Some(at) => q_rows[at][4],
        None => "-"@,
    }
}

/// How a participation counts.
pub enum Standing {
    Completed,
    Failed,
    Active,
    Uncounted,
}

/// How a status counts: completion wins over failure, failure over
/// progress; case does not matter and the word may stand anywhere in the
/// cell.
pub open spec fn standing_of(status: Text) -> Standing {
    let upper = uppercased(status);
    if has_substring(upper, "COMPLETED"@) || has_substring(upper, "VERIFIED"@) {
        Standing::Completed
    } else if has_substring(upper, "FAILED"@) {
        Standing::Failed
    } else if has_substring(upper, "ON_PROGRESS"@) {
        Standing::Active
    } else {
        Standing::Uncounted
    }
}

/// Whether a participation row belongs to the user.
pub open spec fn belongs_to(row: RowModel, user_id: Text) -> bool {
    row.len() >= 4 && row[1] == user_id
}

/// The entry of one active quest in the list.
pub open spec fn list_entry(title: Text, quest_id: Text, organizer: Text) -> Text {
    "**"@ + title + "**\n├ 🆔 ID: `"@ + quest_id + "`\n├ 🛡️ Organizer: "@ + organizer
        + "\n└ 📌 Status: `ON PROGRESS`\n\n"@
}

/// The numbers of the user over the first `upto` participation rows.
pub open spec fn stats_upto(user_id: Text, q_rows: TableModel, p_rows: TableModel, upto: int)
    -> StatsModel
    decreases upto,
{
    if upto <= 0 {
        StatsModel { active: 0, completed: 0, failed: 0, list_str: Seq::empty() }
    } else {
        let before = stats_upto(user_id, q_rows, p_rows, upto - 1);
        let row = p_rows[upto - 1];
        if !belongs_to(row, user_id) {
            before
        } else {
            match standing_of(row[3]) {
                Standing::Completed => StatsModel { completed: before.completed + 1, ..before },
                Standing::Failed => StatsModel { failed: before.failed + 1, ..before },
                Standing::Active => StatsModel {
                    active: before.active + 1,
                    list_str: before.list_str + list_entry(
                        title_of(q_rows, row[0]),
                        row[0],
                        organizer_of(q_rows, row[0]),
                    ),
                    ..before
                },
                Standing::Uncounted => before,
            }
        }
    }
}

/// The numbers of the user over all participation rows.
pub open spec fn stats_of(user_id: Text, q_rows: TableModel, p_rows: TableModel) -> StatsModel {
    stats_upto(user_id, q_rows, p_rows, p_rows.len() as int)
}

/// No count exceeds the number of rows counted.
pub proof fn lemma_stats_bounded(user_id: Text, q_rows: TableModel, p_rows: TableModel, upto: int)
    requires
        0 <= upto,
    ensures
        ({
            let s = stats_upto(user_id, q_rows, p_rows, upto);
            0 <= s.active && 0 <= s.completed && 0 <= s.failed && s.active + s.completed + s.failed
                <= upto
        }),
    decreases upto,
{
    if upto > 0 {
        lemma_stats_bounded(user_id, q_rows, p_rows, upto - 1);
    }
}

/// Finds the last quest row that describes the quest.
pub fn find_description(q_rows: &[Vec<String>], quest_id: &str) -> (found: Option<usize>)
    ensures
        match found {
            Some(at) => at < q_rows.len() && q_rows[at as int].len() >= 5 && described_at(
                q_rows.deep_view(),
                quest_id@,
                q_rows.len() as int,
            ) == Some(at as int),
            None => described_at(q_rows.deep_view(), quest_id@, q_rows.len() as int) is None,
        },
{
    let ghost all = q_rows.deep_view();
    let mut i: usize = q_rows.len();
    while i > 0
        invariant
            i <= q_rows.len(),
            all == q_rows.deep_view(),
            described_at(all, quest_id@, q_rows.len() as int) == described_at(
                all,
                quest_id@,
                i as int,
            ),
        decreases i,
    {
        i -= 1;
        let row = &q_rows[i];
        if row.len() >= 5 && same_text(row[0].as_str(), quest_id) {
            return Some(i);
        }
    }
    None
}

/// How a status counts.
pub fn classify(status: &str) -> (standing: Standing)
    ensures
        standing == standing_of(status@),
{
    let upper = status.to_uppercase();
    if contains_text(upper.as_str(), "COMPLETED") || contains_text(upper.as_str(), "VERIFIED") {
        Standing::Completed
    } else if contains_text(upper.as_str(), "FAILED") {
        Standing::Failed
    } else if contains_text(upper.as_str(), "ON_PROGRESS") {
        Standing::Active
    } else {
        Standing::Uncounted
    }
}

/// Writes the entry of one active quest.
pub fn format_entry(title: &str, quest_id: &str, organizer: &str) -> (entry: String)
    ensures
        entry@ == list_entry(title@, quest_id@, organizer@),
{
    let mut entry = String::from_str("**");
    entry.append(title);
    entry.append("**\n├ 🆔 ID: `");
    entry.append(quest_id);
    entry.append("`\n├ 🛡️ Organizer: ");
    entry.append(organizer);
    entry.append("\n└ 📌 Status: `ON PROGRESS`\n\n");
    entry
}

/// Counts the user's participations by standing and lists the active ones,
/// each with the title and organizer of its quest.
pub fn calculate_stats(user_id: &str, q_rows: &[Vec<String>], p_rows: &[Vec<String>]) -> (res:
    StatsResult)
    requires
        p_rows.len() <= i32::MAX,
    ensures
        res.deep_view() == stats_of(user_id@, q_rows.deep_view(), p_rows.deep_view()),
{
    let ghost quests = q_rows.deep_view();
    let ghost parts = p_rows.deep_view();
    let mut active: i32 = 0;
    let mut completed: i32 = 0;
    let mut failed: i32 = 0;
    let mut list_str = String::new();
    let mut i: usize = 0;
    while i < p_rows.len()
        invariant
            i <= p_rows.len() <= i32::MAX,
            quests == q_rows.deep_view(),
            parts == p_rows.deep_view(),
            stats_upto(user_id@, quests, parts, i as int) == (StatsModel {
                active: active as int,
                completed: completed as int,
                failed: failed as int,
                list_str: list_str@,
            }),
        decreases p_rows.len() - i,
    {
        proof {
            lemma_stats_bounded(user_id@, quests, parts, i as int);
        }
        let row = &p_rows[i];
        if row.len() >= 4 && same_text(row[1].as_str(), user_id) {
            let quest_id = row[0].as_str();
            match classify(row[3].as_str()) {
                Standing::Completed => {
                    completed += 1;
                },
                Standing::Failed => {
                    failed += 1;
                },
                Standing::Active => {
                    let entry = match find_description(q_rows, quest_id) {
                        Some(at) => format_entry(
                            q_rows[at][1].as_str(),
                            quest_id,
                            q_rows[at][4].as_str(),
                        ),
                        None => format_entry("Unknown Quest", quest_id, "-"),
                    };
                    active += 1;
                    list_str.append(entry.as_str());
                },
                Standing::Uncounted => {},
            }
        }
        i += 1;
    }
    StatsResult { active, completed, failed, list_str }
}

/// The longest list, in bytes, that is shown in full.
pub const LIST_LIMIT: usize = 2000;

/// The length, in bytes, to which a longer list is cut.
pub const LIST_CUT: usize = 1900;

/// The list as it is shown: a list of more than [`LIST_LIMIT`] bytes is cut
/// to at most [`LIST_CUT`] bytes, at a character, and marked as cut.
pub open spec fn shown_list(list: Text) -> Text {
    if encode_utf8(list).len() > LIST_LIMIT {
        beginning_within(list, LIST_CUT as int) + "...(etc)"@
    } else {
        list
    }
}

/// What a participant is told about the active quests.
pub open spec fn active_description(list: Text) -> Text {
    if list.len() == 0 {
        "No active quest at the moment."@
    } else {
        "**Active quests list:**\n"@ + shown_list(list)
    }
}

/// Writes what a participant is told about the active quests.
pub fn describe_active(list: &str) -> (description: String)
    ensures
        description@ == active_description(list@),
{
    if list.is_empty() {
        return "No active quest at the moment.".to_string();
    }
    let mut description = String::from_str("**Active quests list:**\n");
    if list.as_bytes().len() > LIST_LIMIT {
        description.append(head_within(list, LIST_CUT));
        description.append("...(etc)");
    } else {
        description.append(list);
    }
    description
}

} // verus!
