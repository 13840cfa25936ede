//! The temporal state of a quest, derived from epoch-second timestamps.

use vstd::prelude::*;

verus! {

/// Where a quest stands relative to its start and end.
#[derive(Debug, Clone, Copy, PartialEq, Eq, Structural)]
pub enum QuestStatus {
    Upcoming,
    Ongoing,
    Ended,
    Tba,
}

/// The status of a quest at `now`; a `start` or `end` of zero or less is unset.
///
/// A passed end wins over everything else; the start boundary is inclusive.
pub open spec fn status_at(now: int, start: int, end: int) -> QuestStatus {
    if end > 0 && now > end {
        QuestStatus::Ended
    } else if start > 0 && now >= start {
        QuestStatus::Ongoing
    } else if start > 0 {
        QuestStatus::Upcoming
    } else {
        QuestStatus::Tba
    }
}

/// Computes the quest status from epoch timestamps in seconds.
pub fn calculate_status(current_time: i64, start: &i64, end: &i64) -> (status: QuestStatus)
    ensures
        status == status_at(current_time as int, *start as int, *end as int),
        status == QuestStatus::Ended <==> (*end > 0 && current_time > *end),
        status == QuestStatus::Ongoing <==> (!(*end > 0 && current_time > *end) && *start > 0
            && current_time >= *start),
        status == QuestStatus::Upcoming <==> (!(*end > 0 && current_time > *end) && *start > 0
            && current_time < *start),
        status == QuestStatus::Tba <==> (!(*end > 0 && current_time > *end) && *start <= 0),
{
    if *end > 0 && current_time > *end {
        QuestStatus::Ended
    } else if *start > 0 && current_time >= *start {
        QuestStatus::Ongoing
    } else if *start > 0 {
        QuestStatus::Upcoming
    } else {
        QuestStatus::Tba
    }
}

} // verus!
