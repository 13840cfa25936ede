use quest_ledger::envelope::Event;
use quest_ledger::payload::{DeletePayload, EditPayload, ProofPayload, RegistrationPayload};
use quest_ledger::ranges::{input_mode_of, range_of};
use quest_ledger::store::{RowDeletion, SheetInfo, StoreReply, StoreRequest, Table};
use quest_ledger::writer::{
    apply_edit, begin, find_sheet, plan_cascade, read_existing_cells, resume, Outcome,
    ParticipationStatus, Pending, Step,
};

fn row(cells: &[&str]) -> Vec<String> {
    cells.iter().map(|c| c.to_string()).collect()
}

fn call(step: Step) -> (StoreRequest, Pending) {
    match step {
        Step::Call { request, pending } => (request, pending),
        Step::Done(outcome) => panic!("ended with {:?}", outcome),
    }
}

fn done(step: Step) -> Outcome {
    match step {
        Step::Done(outcome) => outcome,
        Step::Call { request, .. } => panic!("asked for {:?}", request),
    }
}

fn sheet(title: Option<&str>, id: Option<i32>) -> SheetInfo {
    SheetInfo { title: title.map(|t| t.to_string()), sheet_id: id }
}

fn edit_event() -> Event {
    Event::EditQuest(EditPayload {
        quest_id: "q2".to_string(),
        title: "T".to_string(),
        description: "D".to_string(),
        slots: 4,
        schedule: "S".to_string(),
        deadline: "E".to_string(),
        platform: "P".to_string(),
    })
}

#[test]
fn take_is_one_append() {
    let event = Event::TakeQuest(RegistrationPayload {
        quest_id: "q".to_string(),
        user_id: "u".to_string(),
        user_tag: "t".to_string(),
    });
    let (request, pending) = call(begin(event, "NOW"));
    assert_eq!(range_of(&request).as_deref(), Some("Participants!A1"));
    assert_eq!(input_mode_of(&request), Some("USER_ENTERED"));
    match &request {
        StoreRequest::Append { table, row: cells } => {
            assert_eq!(*table, Table::Participants);
            assert_eq!(cells, &row(&["q", "u", "t", "ON_PROGRESS", "NOW"]));
        }
        other => panic!("not an append: {:?}", other),
    }
    assert_eq!(done(resume(pending, StoreReply::Done)), Outcome::Applied);
}

#[test]
fn a_failed_append_drops_the_event() {
    let event = Event::TakeQuest(RegistrationPayload {
        quest_id: "q".to_string(),
        user_id: "u".to_string(),
        user_tag: "t".to_string(),
    });
    let (_, pending) = call(begin(event, "NOW"));
    assert_eq!(done(resume(pending, StoreReply::Failed)), Outcome::StoreFailed);
}

#[test]
fn edit_reads_the_column_then_the_row_then_writes_it_back() {
    let (request, pending) = call(begin(edit_event(), "NOW"));
    assert_eq!(range_of(&request).as_deref(), Some("Quests!A:A"));
    assert_eq!(input_mode_of(&request), None);
    let column = vec![row(&["Quest ID"]), row(&["q1"]), row(&["q2"]), row(&["q2"])];
    let (request, pending) = call(resume(pending, StoreReply::Rows(column)));
    assert_eq!(range_of(&request).as_deref(), Some("Quests!A3:J3"));
    let read = vec![row(&["q2", "Old", "Cat", "1", "Org", "s", "p", "d", "e", "made"])];
    let (request, pending) = call(resume(pending, StoreReply::Rows(read)));
    assert_eq!(range_of(&request).as_deref(), Some("Quests!A3:J3"));
    assert_eq!(input_mode_of(&request), Some("RAW"));
    match &request {
        StoreRequest::Write { table, row_number, column, cells } => {
            assert_eq!(*table, Table::Quests);
            assert_eq!(*row_number, 3);
            assert_eq!(*column, 0);
            assert_eq!(cells, &row(&["q2", "T", "Cat", "4", "Org", "S", "P", "D", "E", "made"]));
        }
        other => panic!("not a write: {:?}", other),
    }
    assert_eq!(done(resume(pending, StoreReply::Done)), Outcome::Applied);
}

#[test]
fn edit_of_a_missing_quest_writes_nothing() {
    let (_, pending) = call(begin(edit_event(), "NOW"));
    let column = vec![row(&["q2"]), row(&["q1"]), vec![]];
    assert_eq!(done(resume(pending, StoreReply::Rows(column))), Outcome::QuestNotFound);
}

#[test]
fn edit_stops_at_the_first_failure() {
    let (_, pending) = call(begin(edit_event(), "NOW"));
    assert_eq!(done(resume(pending, StoreReply::Failed)), Outcome::StoreFailed);

    let (_, pending) = call(begin(edit_event(), "NOW"));
    let (_, pending) = call(resume(pending, StoreReply::Rows(vec![row(&["h"]), row(&["q2"])])));
    assert_eq!(done(resume(pending, StoreReply::Failed)), Outcome::StoreFailed);

    let (_, pending) = call(begin(edit_event(), "NOW"));
    let (_, pending) = call(resume(pending, StoreReply::Rows(vec![row(&["h"]), row(&["q2"])])));
    let (_, pending) = call(resume(pending, StoreReply::Rows(vec![row(&["q2"])])));
    assert_eq!(done(resume(pending, StoreReply::Failed)), Outcome::StoreFailed);

    let (_, pending) = call(begin(edit_event(), "NOW"));
    assert_eq!(done(resume(pending, StoreReply::Done)), Outcome::StoreFailed);
}

#[test]
fn edit_over_an_empty_answer_writes_an_otherwise_empty_row() {
    let (_, pending) = call(begin(edit_event(), "NOW"));
    let (_, pending) = call(resume(pending, StoreReply::Rows(vec![row(&["h"]), row(&["q2"])])));
    let (request, _) = call(resume(pending, StoreReply::Rows(vec![])));
    match &request {
        StoreRequest::Write { cells, .. } => {
            assert_eq!(cells, &row(&["", "T", "", "4", "", "S", "P", "D", "E", ""]));
        }
        other => panic!("not a write: {:?}", other),
    }
}

#[test]
fn submit_proof_completes_even_if_the_log_fails() {
    let event = || {
        Event::SubmitProof(ProofPayload {
            quest_id: "q".to_string(),
            user_id: "u".to_string(),
            proof_url: "url".to_string(),
        })
    };
    let participants = || vec![row(&["h", "h"]), row(&["q", "x"]), row(&["q", "u", "t", "ON_PROGRESS"])];

    let (request, pending) = call(begin(event(), "NOW"));
    assert_eq!(range_of(&request).as_deref(), Some("Submissions!A1"));
    match &request {
        StoreRequest::Append { row: cells, .. } => assert_eq!(cells, &row(&["q", "u", "url", "NOW"])),
        other => panic!("not an append: {:?}", other),
    }
    let (request, pending) = call(resume(pending, StoreReply::Done));
    assert_eq!(range_of(&request).as_deref(), Some("Participants!A:D"));
    let (request, pending) = call(resume(pending, StoreReply::Rows(participants())));
    assert_eq!(range_of(&request).as_deref(), Some("Participants!D3"));
    assert_eq!(input_mode_of(&request), Some("RAW"));
    match &request {
        StoreRequest::Write { cells, column, row_number, .. } => {
            assert_eq!(cells, &row(&["COMPLETED"]));
            assert_eq!(*column, 3);
            assert_eq!(*row_number, 3);
        }
        other => panic!("not a write: {:?}", other),
    }
    assert_eq!(done(resume(pending, StoreReply::Done)), Outcome::Applied);

    let (_, pending) = call(begin(event(), "NOW"));
    let (request, pending) = call(resume(pending, StoreReply::Failed));
    assert_eq!(range_of(&request).as_deref(), Some("Participants!A:D"));
    let (request, pending) = call(resume(pending, StoreReply::Rows(participants())));
    assert_eq!(range_of(&request).as_deref(), Some("Participants!D3"));
    assert_eq!(done(resume(pending, StoreReply::Done)), Outcome::StoreFailed);

    let (_, pending) = call(begin(event(), "NOW"));
    let (_, pending) = call(resume(pending, StoreReply::Failed));
    assert_eq!(done(resume(pending, StoreReply::Rows(vec![]))), Outcome::StoreFailed);
}

#[test]
fn drop_looks_the_participation_up_below_the_header() {
    let event = || {
        Event::DropQuest(RegistrationPayload {
            quest_id: "q".to_string(),
            user_id: "u".to_string(),
            user_tag: "t".to_string(),
        })
    };
    let (request, pending) = call(begin(event(), "NOW"));
    assert_eq!(range_of(&request).as_deref(), Some("Participants!A:D"));
    let rows = vec![row(&["q", "u"]), row(&["q", "u", "t", "ON_PROGRESS"])];
    let (request, _) = call(resume(pending, StoreReply::Rows(rows)));
    assert_eq!(range_of(&request).as_deref(), Some("Participants!D2"));
    match &request {
        StoreRequest::Write { cells, .. } => assert_eq!(cells, &row(&["DROPPED"])),
        other => panic!("not a write: {:?}", other),
    }
    let (_, pending) = call(begin(event(), "NOW"));
    let header_only = vec![row(&["q", "u", "t", "ON_PROGRESS"])];
    assert_eq!(
        done(resume(pending, StoreReply::Rows(header_only))),
        Outcome::ParticipationNotFound
    );
}

#[test]
fn drop_without_a_row_or_without_an_answer() {
    let event = || {
        Event::DropQuest(RegistrationPayload {
            quest_id: "q".to_string(),
            user_id: "u".to_string(),
            user_tag: "t".to_string(),
        })
    };
    let (_, pending) = call(begin(event(), "NOW"));
    let rows = vec![row(&["q"]), row(&["q", "x"]), row(&["x", "u"])];
    assert_eq!(done(resume(pending, StoreReply::Rows(rows))), Outcome::ParticipationNotFound);
    let (_, pending) = call(begin(event(), "NOW"));
    assert_eq!(done(resume(pending, StoreReply::Failed)), Outcome::StoreFailed);
}

#[test]
fn delete_resolves_the_sheets_then_scans_then_sends_one_batch() {
    let event = Event::DeleteQuest(DeletePayload { quest_id: "q2".to_string() });
    let (request, pending) = call(begin(event, "NOW"));
    assert!(matches!(request, StoreRequest::SheetIds));
    assert_eq!(range_of(&request), None);
    let sheets = vec![
        sheet(Some("Quests"), Some(7)),
        sheet(None, Some(1)),
        sheet(Some("Participants"), Some(8)),
        sheet(Some("Submissions"), Some(9)),
    ];
    let (request, pending) = call(resume(pending, StoreReply::Sheets(sheets)));
    assert_eq!(range_of(&request).as_deref(), Some("Quests!A:A"));
    let quests = vec![row(&["q2"]), row(&["q1"]), row(&["q2"]), row(&["q2"])];
    let (request, pending) = call(resume(pending, StoreReply::Rows(quests)));
    assert_eq!(range_of(&request).as_deref(), Some("Participants!A:A"));
    let participants =
        vec![row(&["q2"]), row(&["q2"]), row(&["q1"]), vec![], row(&["q2"]), row(&["q2"])];
    let (request, pending) = call(resume(pending, StoreReply::Rows(participants)));
    match &request {
        StoreRequest::DeleteRows { deletions } => {
            assert_eq!(
                deletions,
                &vec![
                    RowDeletion { sheet_id: 8, start_index: 5, end_index: 6 },
                    RowDeletion { sheet_id: 8, start_index: 4, end_index: 5 },
                    RowDeletion { sheet_id: 8, start_index: 1, end_index: 2 },
                    RowDeletion { sheet_id: 7, start_index: 2, end_index: 3 },
                ]
            );
        }
        other => panic!("not a batch: {:?}", other),
    }
    assert_eq!(done(resume(pending, StoreReply::Done)), Outcome::Applied);
}

#[test]
fn delete_fails_cleanly_at_every_stage() {
    let event = || Event::DeleteQuest(DeletePayload { quest_id: "q".to_string() });
    let sheets = || vec![sheet(Some("Quests"), Some(7)), sheet(Some("Participants"), Some(8))];

    let (_, pending) = call(begin(event(), "NOW"));
    assert_eq!(done(resume(pending, StoreReply::Failed)), Outcome::StoreFailed);

    let (_, pending) = call(begin(event(), "NOW"));
    let only_quests = vec![sheet(Some("Quests"), Some(7))];
    assert_eq!(done(resume(pending, StoreReply::Sheets(only_quests))), Outcome::SheetNotFound);

    let (_, pending) = call(begin(event(), "NOW"));
    let no_id = vec![sheet(Some("Quests"), None), sheet(Some("Participants"), Some(8))];
    assert_eq!(done(resume(pending, StoreReply::Sheets(no_id))), Outcome::SheetNotFound);

    let (_, pending) = call(begin(event(), "NOW"));
    let (_, pending) = call(resume(pending, StoreReply::Sheets(sheets())));
    assert_eq!(done(resume(pending, StoreReply::Failed)), Outcome::StoreFailed);

    let (_, pending) = call(begin(event(), "NOW"));
    let (_, pending) = call(resume(pending, StoreReply::Sheets(sheets())));
    let quests = vec![row(&["q"]), row(&["other"])];
    assert_eq!(done(resume(pending, StoreReply::Rows(quests))), Outcome::QuestNotFound);

    let (_, pending) = call(begin(event(), "NOW"));
    let (_, pending) = call(resume(pending, StoreReply::Sheets(sheets())));
    let (_, pending) = call(resume(pending, StoreReply::Rows(vec![row(&["h"]), row(&["q"])])));
    assert_eq!(done(resume(pending, StoreReply::Failed)), Outcome::StoreFailed);

    let (_, pending) = call(begin(event(), "NOW"));
    let (_, pending) = call(resume(pending, StoreReply::Sheets(sheets())));
    let (_, pending) = call(resume(pending, StoreReply::Rows(vec![row(&["h"]), row(&["q"])])));
    let (_, pending) = call(resume(pending, StoreReply::Rows(vec![])));
    assert_eq!(done(resume(pending, StoreReply::Failed)), Outcome::StoreFailed);
}

#[test]
fn the_last_sheet_of_a_title_counts() {
    let sheets = vec![
        sheet(Some("Quests"), Some(1)),
        sheet(Some("Quests"), Some(2)),
        sheet(Some("quests"), Some(3)),
        sheet(None, Some(4)),
    ];
    assert_eq!(find_sheet(&sheets, "Quests"), Some(2));
    assert_eq!(find_sheet(&sheets, "Participants"), None);
    let reset = vec![sheet(Some("Quests"), Some(1)), sheet(Some("Quests"), None)];
    assert_eq!(find_sheet(&reset, "Quests"), None);
    assert_eq!(find_sheet(&vec![], "Quests"), None);
}

#[test]
fn cascade_plan_is_descending_and_ends_with_the_quest() {
    let participants = vec![row(&["q"]), row(&["x"]), row(&["q"]), row(&["q", "u"])];
    let plan = plan_cascade(&participants, "q", 1, 2, 9).unwrap();
    assert_eq!(
        plan,
        vec![
            RowDeletion { sheet_id: 2, start_index: 3, end_index: 4 },
            RowDeletion { sheet_id: 2, start_index: 2, end_index: 3 },
            RowDeletion { sheet_id: 1, start_index: 9, end_index: 10 },
        ]
    );
    let none = plan_cascade(&vec![], "q", 1, 2, 1).unwrap();
    assert_eq!(none, vec![RowDeletion { sheet_id: 1, start_index: 1, end_index: 2 }]);
    assert!(plan_cascade(&participants, "q", 1, 2, i32::MAX as usize).is_none());
    assert!(plan_cascade(&participants, "q", 1, 2, i32::MAX as usize - 1).is_some());
}

#[test]
fn existing_cells_are_ten_and_the_edit_lies_over_them() {
    let read = vec![row(&["a", "b", "c"]), row(&["ignored"])];
    let cells = read_existing_cells(&read);
    assert_eq!(cells, row(&["a", "b", "c", "", "", "", "", "", "", ""]));
    let long = vec![row(&["0", "1", "2", "3", "4", "5", "6", "7", "8", "9", "10", "11"])];
    assert_eq!(read_existing_cells(&long).len(), 10);
    let edited = apply_edit(
        cells,
        EditPayload {
            quest_id: "ignored".to_string(),
            title: "T".to_string(),
            description: "D".to_string(),
            slots: -1,
            schedule: "S".to_string(),
            deadline: "E".to_string(),
            platform: "P".to_string(),
        },
    );
    assert_eq!(edited, row(&["a", "T", "c", "-1", "", "S", "P", "D", "E", ""]));
}

#[test]
fn status_texts() {
    assert_eq!(ParticipationStatus::OnProgress.as_str(), "ON_PROGRESS");
    assert_eq!(ParticipationStatus::Completed.as_str(), "COMPLETED");
    assert_eq!(ParticipationStatus::Verified.as_str(), "VERIFIED");
    assert_eq!(ParticipationStatus::Failed.as_str(), "FAILED");
    assert_eq!(ParticipationStatus::Dropped.as_str(), "DROPPED");
}

#[test]
fn ranges_of_requests() {
    let read = |columns| StoreRequest::ReadAll { table: Table::Communities, columns };
    assert_eq!(range_of(&read(2)).as_deref(), Some("Communities!A:B"));
    assert_eq!(range_of(&read(9)).as_deref(), Some("Communities!A:I"));
    assert_eq!(range_of(&read(26)).as_deref(), Some("Communities!A:Z"));
    assert_eq!(range_of(&read(27)), None);
    assert_eq!(range_of(&read(0)), None);
    let write = |column, n: usize| StoreRequest::Write {
        table: Table::Quests,
        row_number: 12,
        column,
        cells: vec![String::new(); n],
    };
    assert_eq!(range_of(&write(0, 10)).as_deref(), Some("Quests!A12:J12"));
    assert_eq!(range_of(&write(3, 1)).as_deref(), Some("Quests!D12"));
    assert_eq!(range_of(&write(3, 0)), None);
    assert_eq!(range_of(&write(25, 2)), None);
    assert_eq!(range_of(&StoreRequest::DeleteRows { deletions: vec![] }), None);
    assert_eq!(input_mode_of(&read(1)), None);
}

#[test]
fn an_event_that_arrives_now_is_stamped_by_the_clock() {
    let event = Event::TakeQuest(RegistrationPayload {
        quest_id: "q".to_string(),
        user_id: "u".to_string(),
        user_tag: "t".to_string(),
    });
    let before = quest_ledger::time::now();
    let (request, _) = call(quest_ledger::writer::begin_now(event));
    let after = quest_ledger::time::now();
    match &request {
        StoreRequest::Append { row: cells, .. } => {
            assert_eq!(cells[..4], row(&["q", "u", "t", "ON_PROGRESS"])[..]);
            let stamp = quest_ledger::time::parse_instant(&cells[4]).unwrap();
            assert!(!before.is_after(&stamp));
            assert!(!stamp.is_after(&after));
            assert_eq!(quest_ledger::time::parse_instant(&quest_ledger::time::now_rfc3339()).is_some(), true);
        }
        other => panic!("not an append: {:?}", other),
    }
}
