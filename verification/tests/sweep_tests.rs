use quest_ledger::ranges::range_of;
use quest_ledger::store::{Ledger, StoreRequest, Table};
use quest_ledger::sweep::{
    check_deadlines_job, find_deadline, participants_for_sweep, plan_sweep, quests_for_sweep,
    row_is_overdue,
};
use quest_ledger::time::{parse_instant, Instant};

fn row(cells: &[&str]) -> Vec<String> {
    cells.iter().map(|c| c.to_string()).collect()
}

fn quest(id: &str, deadline: &str) -> Vec<String> {
    row(&[id, "Title", "Community", "5", "Org", "2025-01-01T00:00:00Z", "Discord", "Desc", deadline,
        "made"])
}

fn at(text: &str) -> Instant {
    parse_instant(text).unwrap()
}

fn ledger() -> Ledger {
    Ledger {
        quests: vec![
            row(&["Quest ID", "Title", "Category", "Slots", "Organizer", "Schedule", "Platform",
                "Description", "Deadline", "Created"]),
            quest("past", "2025-06-01T12:00:00+07:00"),
            quest("future", "2025-06-03T12:00:00+07:00"),
            quest("undated", "soon"),
        ],
        participants: vec![
            row(&["Quest ID", "User ID", "Tag", "Status", "Taken"]),
            row(&["past", "u1", "a", "ON_PROGRESS", "t"]),
            row(&["future", "u1", "a", "ON_PROGRESS", "t"]),
            row(&["past", "u2", "b", "COMPLETED", "t"]),
            row(&["undated", "u3", "c", "ON_PROGRESS", "t"]),
            row(&["gone", "u3", "c", "ON_PROGRESS", "t"]),
            row(&["past", "u4", "d", "ON_PROGRESS", "t", "note"]),
            row(&["past", "u5", "e"]),
        ],
        communities: vec![],
        submissions: vec![],
        quests_sheet: 1,
        participants_sheet: 2,
        communities_sheet: 3,
        submissions_sheet: 4,
    }
}

#[test]
fn sweep_fails_the_overdue_and_leaves_the_rest() {
    let mut l = ledger();
    let before = ledger();
    let marked = check_deadlines_job(&mut l, &at("2025-06-02T00:00:00Z"));
    assert_eq!(marked, 2);
    assert_eq!(l.participants[1], row(&["past", "u1", "a", "FAILED", "t"]));
    assert_eq!(l.participants[6], row(&["past", "u4", "d", "FAILED", "t", "note"]));
    for i in [0, 2, 3, 4, 5, 7] {
        assert_eq!(l.participants[i], before.participants[i]);
    }
    assert_eq!(l.quests, before.quests);
}

#[test]
fn a_second_sweep_finds_nothing_more() {
    let mut l = ledger();
    let now = at("2025-06-02T00:00:00Z");
    assert_eq!(check_deadlines_job(&mut l, &now), 2);
    let after_one = l.copy();
    assert_eq!(check_deadlines_job(&mut l, &now), 0);
    assert_eq!(l.participants, after_one.participants);
}

#[test]
fn the_deadline_itself_is_not_yet_past() {
    let quests = ledger().quests;
    let taken = row(&["past", "u", "t", "ON_PROGRESS"]);
    assert!(!row_is_overdue(&quests, &taken, &at("2025-06-01T05:00:00Z")));
    assert!(!row_is_overdue(&quests, &taken, &at("2025-06-01T04:59:59.999999999Z")));
    assert!(row_is_overdue(&quests, &taken, &at("2025-06-01T05:00:00.000000001Z")));
    assert!(row_is_overdue(&quests, &taken, &at("2025-06-01T05:00:01Z")));
    let exact = Instant { secs: 1748754000, nanos: 0 };
    assert_eq!(at("2025-06-01T12:00:00+07:00"), exact);
    assert!(!exact.is_after(&exact));
    assert!(Instant { secs: 1748754000, nanos: 1 }.is_after(&exact));
    assert!(!Instant { secs: 1748753999, nanos: 999 }.is_after(&exact));
}

#[test]
fn status_has_to_be_exactly_in_progress() {
    let quests = ledger().quests;
    let now = at("2030-01-01T00:00:00Z");
    assert!(!row_is_overdue(&quests, &row(&["past", "u", "t", "on_progress"]), &now));
    assert!(!row_is_overdue(&quests, &row(&["past", "u", "t", "ON_PROGRESS "]), &now));
    assert!(!row_is_overdue(&quests, &row(&["past", "u", "t"]), &now));
    assert!(!row_is_overdue(&quests, &row(&["past", "u", "t", "FAILED"]), &now));
    assert!(row_is_overdue(&quests, &row(&["past", "u", "t", "ON_PROGRESS"]), &now));
    assert!(!row_is_overdue(&quests, &row(&["undated", "u", "t", "ON_PROGRESS"]), &now));
    assert!(!row_is_overdue(&quests, &row(&["gone", "u", "t", "ON_PROGRESS"]), &now));
}

#[test]
fn the_last_row_that_sets_a_deadline_counts() {
    let mut quests = ledger().quests;
    quests.push(quest("past", "2026-01-01T00:00:00Z"));
    quests.push(quest("past", "not a time"));
    quests.push(row(&["past", "short row"]));
    assert_eq!(find_deadline(&quests, "past"), Some(at("2026-01-01T00:00:00Z")));
    assert_eq!(find_deadline(&quests, "undated"), None);
    assert_eq!(find_deadline(&quests, "Quest ID"), None);
    assert_eq!(find_deadline(&vec![], "past"), None);
}

#[test]
fn the_plan_marks_rows_by_number_from_the_top() {
    let l = ledger();
    let plan = plan_sweep(&l.quests, &l.participants, &at("2025-06-02T00:00:00Z"));
    assert_eq!(plan.len(), 2);
    assert_eq!(range_of(&plan[0]).as_deref(), Some("Participants!D2"));
    assert_eq!(range_of(&plan[1]).as_deref(), Some("Participants!D7"));
    match &plan[0] {
        StoreRequest::Write { table, cells, .. } => {
            assert_eq!(*table, Table::Participants);
            assert_eq!(cells, &row(&["FAILED"]));
        }
        other => panic!("not a write: {:?}", other),
    }
    assert!(plan_sweep(&l.quests, &l.participants, &at("2025-05-01T00:00:00Z")).is_empty());
    assert_eq!(plan_sweep(&l.quests, &l.participants, &at("2025-07-01T00:00:00Z")).len(), 3);
}

#[test]
fn the_sweep_reads_the_quests_up_to_the_deadline() {
    assert_eq!(range_of(&quests_for_sweep()).as_deref(), Some("Quests!A:I"));
    assert_eq!(range_of(&participants_for_sweep()).as_deref(), Some("Participants!A:D"));
}

#[test]
fn a_sweep_by_the_clock_fails_what_is_overdue_today() {
    let mut quests = ledger().quests;
    quests.push(quest("far", "2999-01-01T00:00:00Z"));
    let participants = vec![
        row(&["Quest ID", "User ID", "Tag", "Status"]),
        row(&["past", "u1", "a", "ON_PROGRESS"]),
        row(&["far", "u1", "a", "ON_PROGRESS"]),
    ];
    let plan = quest_ledger::sweep::plan_sweep_now(&quests, &participants);
    assert_eq!(plan.len(), 1);
    assert_eq!(range_of(&plan[0]).as_deref(), Some("Participants!D2"));
}

#[test]
fn the_sweep_ignores_both_headers() {
    let mut l = ledger();
    l.participants[0] = row(&["past", "u0", "t", "ON_PROGRESS"]);
    l.quests[0] = quest("only-in-header", "2000-01-01T00:00:00Z");
    l.participants.push(row(&["only-in-header", "u9", "t", "ON_PROGRESS"]));
    let before = l.copy();
    let now = at("2025-06-02T00:00:00Z");
    assert_eq!(find_deadline(&l.quests, "only-in-header"), None);
    let plan = plan_sweep(&l.quests, &l.participants, &now);
    assert_eq!(plan.len(), 2);
    assert_eq!(range_of(&plan[0]).as_deref(), Some("Participants!D2"));
    assert_eq!(check_deadlines_job(&mut l, &now), 2);
    assert_eq!(l.participants[0], before.participants[0]);
    assert_eq!(l.participants[8], before.participants[8]);
    assert_eq!(l.participants[1][3], "FAILED");
    assert!(plan_sweep(&l.quests, &vec![row(&["past", "u", "t", "ON_PROGRESS"])], &now).is_empty());
    assert!(plan_sweep(&l.quests, &vec![], &now).is_empty());
}
