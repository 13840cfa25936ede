use quest_ledger::envelope::{Event, EventMessage};
use quest_ledger::ledger::{apply_event, delete_quest_cascade, process_event, Processed};
use quest_ledger::payload::{
    DeletePayload, EditPayload, NewCommunityPayload, ProofPayload, QuestPayload,
    RegistrationPayload,
};
use quest_ledger::rows::{find_keyed, find_pair, find_row_index};
use quest_ledger::store::{Ledger, RowDeletion, StoreReply, StoreRequest, Table};
use quest_ledger::writer::Outcome;

fn row(cells: &[&str]) -> Vec<String> {
    cells.iter().map(|c| c.to_string()).collect()
}

fn quest(id: &str, title: &str) -> Vec<String> {
    row(&[id, title, "Community", "5", "Org", "2030-01-01T10:00:00+07:00", "Discord", "Desc",
        "2030-01-02T10:00:00+07:00", "2024-12-01T00:00:00+00:00"])
}

fn ledger() -> Ledger {
    Ledger {
        quests: vec![
            row(&["Quest ID", "Title", "Category", "Slots", "Organizer", "Schedule", "Platform",
                "Description", "Deadline", "Created"]),
            quest("q1", "First"),
            quest("q2", "Second"),
            quest("q3", "Third"),
        ],
        participants: vec![
            row(&["Quest ID", "User ID", "Tag", "Status", "Taken"]),
            row(&["q1", "u1", "a#1", "ON_PROGRESS", "t1"]),
            row(&["q2", "u1", "a#1", "ON_PROGRESS", "t2"]),
            row(&["q2", "u2", "b#2", "COMPLETED", "t3"]),
            row(&["q1", "u3", "c#3", "DROPPED", "t4"]),
            row(&["q2", "u4", "d#4", "ON_PROGRESS", "t5"]),
            row(&["q3", "u1", "a#1", "ON_PROGRESS", "t6"]),
        ],
        communities: vec![row(&["Name", "Leader", "Registered"])],
        submissions: vec![row(&["Quest ID", "User ID", "Proof", "Submitted"])],
        quests_sheet: 0,
        participants_sheet: 11,
        communities_sheet: 22,
        submissions_sheet: 33,
    }
}

fn take(quest: &str, user: &str) -> Event {
    Event::TakeQuest(RegistrationPayload {
        quest_id: quest.to_string(),
        user_id: user.to_string(),
        user_tag: format!("{}#0", user),
    })
}

#[test]
fn create_quest_appends_a_row_with_the_arrival_time() {
    let mut l = ledger();
    let event = Event::CreateQuest(QuestPayload {
        quest_id: "q4".to_string(),
        title: "Fourth".to_string(),
        description: "About".to_string(),
        category: "CreativeArts".to_string(),
        organizer_name: "Illust".to_string(),
        slots: -7,
        schedule: "S".to_string(),
        platform: "P".to_string(),
        deadline: "E".to_string(),
        creator_id: "999".to_string(),
    });
    assert_eq!(apply_event(&mut l, event, "NOW"), Outcome::Applied);
    assert_eq!(l.quests.len(), 5);
    assert_eq!(
        l.quests[4],
        row(&["q4", "Fourth", "CreativeArts", "-7", "Illust", "S", "P", "About", "E", "NOW"])
    );
    assert_eq!(l.participants, ledger().participants);
}

#[test]
fn create_quest_does_not_check_for_an_existing_id() {
    let mut l = ledger();
    let event = Event::CreateQuest(QuestPayload {
        quest_id: "q1".to_string(),
        title: "Again".to_string(),
        description: "".to_string(),
        category: "Community".to_string(),
        organizer_name: "Org".to_string(),
        slots: 127,
        schedule: "".to_string(),
        platform: "".to_string(),
        deadline: "".to_string(),
        creator_id: "".to_string(),
    });
    assert_eq!(apply_event(&mut l, event, "NOW"), Outcome::Applied);
    assert_eq!(l.quests.len(), 5);
    assert_eq!(l.quests[4][0], "q1");
    assert_eq!(l.quests[4][3], "127");
    assert_eq!(find_row_index(&l.quests, "q1"), Some(2));
}

#[test]
fn take_twice_adds_two_rows() {
    let mut l = ledger();
    assert_eq!(apply_event(&mut l, take("q3", "u9"), "T1"), Outcome::Applied);
    assert_eq!(apply_event(&mut l, take("q3", "u9"), "T2"), Outcome::Applied);
    assert_eq!(l.participants.len(), 9);
    assert_eq!(l.participants[7], row(&["q3", "u9", "u9#0", "ON_PROGRESS", "T1"]));
    assert_eq!(l.participants[8], row(&["q3", "u9", "u9#0", "ON_PROGRESS", "T2"]));
    assert_eq!(l.quests, ledger().quests);
}

#[test]
fn take_beyond_capacity_is_not_refused_by_the_writer() {
    let mut l = ledger();
    for n in 0..10 {
        assert_eq!(apply_event(&mut l, take("q1", &format!("x{}", n)), "T"), Outcome::Applied);
    }
    assert_eq!(l.participants.len(), 17);
}

#[test]
fn register_community_appends_without_a_name_check() {
    let mut l = ledger();
    for _ in 0..2 {
        let event = Event::RegisterCommunity(NewCommunityPayload {
            community_name: "GenBalok".to_string(),
            leader_id: "Unknown".to_string(),
        });
        assert_eq!(apply_event(&mut l, event, "NOW"), Outcome::Applied);
    }
    assert_eq!(l.communities.len(), 3);
    assert_eq!(l.communities[1], row(&["GenBalok", "Unknown", "NOW"]));
    assert_eq!(l.communities[2], row(&["GenBalok", "Unknown", "NOW"]));
}

#[test]
fn edit_changes_only_the_edited_cells() {
    let mut l = ledger();
    let before = ledger();
    let event = Event::EditQuest(EditPayload {
        quest_id: "q2".to_string(),
        title: "New title".to_string(),
        description: "New desc".to_string(),
        slots: 9,
        schedule: "NS".to_string(),
        deadline: "ND".to_string(),
        platform: "NP".to_string(),
    });
    assert_eq!(apply_event(&mut l, event, "NOW"), Outcome::Applied);
    assert_eq!(
        l.quests[2],
        row(&["q2", "New title", "Community", "9", "Org", "NS", "NP", "New desc", "ND",
            "2024-12-01T00:00:00+00:00"])
    );
    assert_eq!(l.quests.len(), 4);
    assert_eq!(l.quests[0], before.quests[0]);
    assert_eq!(l.quests[1], before.quests[1]);
    assert_eq!(l.quests[3], before.quests[3]);
    assert_eq!(l.participants, before.participants);
    assert_eq!(l.communities, before.communities);
    assert_eq!(l.submissions, before.submissions);
}

#[test]
fn edit_of_a_short_or_long_row_keeps_what_lies_outside() {
    let mut l = ledger();
    l.quests[1] = row(&["q1", "Old"]);
    l.quests[3].push("extra K".to_string());
    l.quests[3].push("extra L".to_string());
    let edit = |id: &str| {
        Event::EditQuest(EditPayload {
            quest_id: id.to_string(),
            title: "T".to_string(),
            description: "D".to_string(),
            slots: 1,
            schedule: "S".to_string(),
            deadline: "E".to_string(),
            platform: "P".to_string(),
        })
    };
    assert_eq!(apply_event(&mut l, edit("q1"), "NOW"), Outcome::Applied);
    assert_eq!(l.quests[1], row(&["q1", "T", "", "1", "", "S", "P", "D", "E", ""]));
    assert_eq!(apply_event(&mut l, edit("q3"), "NOW"), Outcome::Applied);
    assert_eq!(
        l.quests[3],
        row(&["q3", "T", "Community", "1", "Org", "S", "P", "D", "E",
            "2024-12-01T00:00:00+00:00", "extra K", "extra L"])
    );
}

#[test]
fn edit_finds_the_first_row_and_never_the_header() {
    let mut l = ledger();
    l.quests.push(quest("q1", "Twin"));
    l.quests[0][0] = "q9".to_string();
    let edit = |id: &str| {
        Event::EditQuest(EditPayload {
            quest_id: id.to_string(),
            title: "T".to_string(),
            description: "D".to_string(),
            slots: 1,
            schedule: "S".to_string(),
            deadline: "E".to_string(),
            platform: "P".to_string(),
        })
    };
    assert_eq!(apply_event(&mut l, edit("q1"), "NOW"), Outcome::Applied);
    assert_eq!(l.quests[1][1], "T");
    assert_eq!(l.quests[4][1], "Twin");
    let before = l.copy();
    assert_eq!(apply_event(&mut l, edit("q9"), "NOW"), Outcome::QuestNotFound);
    assert_eq!(l.quests, before.quests);
    assert_eq!(apply_event(&mut l, edit("nope"), "NOW"), Outcome::QuestNotFound);
    assert_eq!(l.quests, before.quests);
}

#[test]
fn cascade_removes_the_quest_and_its_participations_only() {
    let mut l = ledger();
    let before = ledger();
    let event = Event::DeleteQuest(DeletePayload { quest_id: "q2".to_string() });
    assert_eq!(apply_event(&mut l, event, "NOW"), Outcome::Applied);
    assert_eq!(l.quests.len(), before.quests.len() - 1);
    assert_eq!(l.participants.len(), before.participants.len() - 3);
    assert_eq!(l.quests, vec![
        before.quests[0].clone(),
        before.quests[1].clone(),
        before.quests[3].clone(),
    ]);
    assert_eq!(l.participants, vec![
        before.participants[0].clone(),
        before.participants[1].clone(),
        before.participants[4].clone(),
        before.participants[6].clone(),
    ]);
    assert_eq!(l.communities, before.communities);
    assert_eq!(l.submissions, before.submissions);
}

#[test]
fn cascade_of_a_quest_without_participations_removes_one_row() {
    let mut l = ledger();
    l.quests.push(quest("lonely", "No takers"));
    let before = l.copy();
    assert!(delete_quest_cascade(&mut l, "lonely").is_ok());
    assert_eq!(l.quests.len(), before.quests.len() - 1);
    assert_eq!(l.quests, ledger().quests);
    assert_eq!(l.participants, before.participants);
}

#[test]
fn cascade_of_a_missing_quest_changes_nothing() {
    let mut l = ledger();
    assert_eq!(delete_quest_cascade(&mut l, "nope"), Err(Outcome::QuestNotFound));
    assert_eq!(l.quests, ledger().quests);
    assert_eq!(l.participants, ledger().participants);
    assert_eq!(delete_quest_cascade(&mut l, "Quest ID"), Err(Outcome::QuestNotFound));
    assert_eq!(l.quests, ledger().quests);
}

#[test]
fn cascade_leaves_a_participation_header_that_looks_like_the_quest() {
    let mut l = ledger();
    l.participants[0][0] = "q1".to_string();
    assert!(delete_quest_cascade(&mut l, "q1").is_ok());
    assert_eq!(l.participants.len(), 5);
    assert_eq!(l.participants[0][0], "q1");
    assert_eq!(l.participants[0][1], "User ID");
    assert!(l.participants[1..].iter().all(|r| r[0] != "q1"));
}

#[test]
fn cascade_removes_only_the_first_of_two_quest_rows() {
    let mut l = ledger();
    l.quests.push(quest("q1", "Twin"));
    assert!(delete_quest_cascade(&mut l, "q1").is_ok());
    assert_eq!(l.quests.len(), 4);
    assert_eq!(l.quests[1][0], "q2");
    assert_eq!(l.quests[3][1], "Twin");
}

#[test]
fn drop_overwrites_the_status_of_the_first_matching_row() {
    let mut l = ledger();
    l.participants.push(row(&["q2", "u1", "a#1", "ON_PROGRESS", "later"]));
    let event = Event::DropQuest(RegistrationPayload {
        quest_id: "q2".to_string(),
        user_id: "u1".to_string(),
        user_tag: "a#1".to_string(),
    });
    assert_eq!(apply_event(&mut l, event, "NOW"), Outcome::Applied);
    assert_eq!(l.participants[2], row(&["q2", "u1", "a#1", "DROPPED", "t2"]));
    assert_eq!(l.participants[7], row(&["q2", "u1", "a#1", "ON_PROGRESS", "later"]));
    assert_eq!(l.participants[1], ledger().participants[1]);
}

#[test]
fn drop_twice_is_the_same_as_once() {
    let mut once = ledger();
    let mut twice = ledger();
    let event = || {
        Event::DropQuest(RegistrationPayload {
            quest_id: "q1".to_string(),
            user_id: "u1".to_string(),
            user_tag: "a#1".to_string(),
        })
    };
    assert_eq!(apply_event(&mut once, event(), "NOW"), Outcome::Applied);
    assert_eq!(apply_event(&mut twice, event(), "NOW"), Outcome::Applied);
    assert_eq!(apply_event(&mut twice, event(), "LATER"), Outcome::Applied);
    assert_eq!(once.participants, twice.participants);
}

#[test]
fn drop_without_a_participation_changes_nothing() {
    let mut l = ledger();
    let event = Event::DropQuest(RegistrationPayload {
        quest_id: "q3".to_string(),
        user_id: "u2".to_string(),
        user_tag: "b#2".to_string(),
    });
    assert_eq!(apply_event(&mut l, event, "NOW"), Outcome::ParticipationNotFound);
    assert_eq!(l.participants, ledger().participants);
}

#[test]
fn drop_pads_a_row_that_is_too_short_for_a_status() {
    let mut l = ledger();
    l.participants.push(row(&["q8", "u8"]));
    let event = Event::DropQuest(RegistrationPayload {
        quest_id: "q8".to_string(),
        user_id: "u8".to_string(),
        user_tag: "".to_string(),
    });
    assert_eq!(apply_event(&mut l, event, "NOW"), Outcome::Applied);
    assert_eq!(l.participants[7], row(&["q8", "u8", "", "DROPPED"]));
}

#[test]
fn submit_proof_logs_the_submission_and_completes_the_participation() {
    let mut l = ledger();
    let event = Event::SubmitProof(ProofPayload {
        quest_id: "q2".to_string(),
        user_id: "u4".to_string(),
        proof_url: "https://cdn/p.png".to_string(),
    });
    assert_eq!(apply_event(&mut l, event, "NOW"), Outcome::Applied);
    assert_eq!(l.submissions.len(), 2);
    assert_eq!(l.submissions[1], row(&["q2", "u4", "https://cdn/p.png", "NOW"]));
    assert_eq!(l.participants[5], row(&["q2", "u4", "d#4", "COMPLETED", "t5"]));
}

#[test]
fn submit_proof_without_a_participation_still_logs_the_submission() {
    let mut l = ledger();
    let event = Event::SubmitProof(ProofPayload {
        quest_id: "q1".to_string(),
        user_id: "nobody".to_string(),
        proof_url: "url".to_string(),
    });
    assert_eq!(apply_event(&mut l, event, "NOW"), Outcome::ParticipationNotFound);
    assert_eq!(l.submissions.len(), 2);
    assert_eq!(l.participants, ledger().participants);
}

#[test]
fn process_event_reads_then_applies() {
    let mut l = ledger();
    let payload =
        RegistrationPayload { quest_id: "q1".into(), user_id: "u7".into(), user_tag: "g#7".into() };
    let message =
        EventMessage { event_type: "TAKE_QUEST".to_string(), payload: payload.encode() };
    assert_eq!(process_event(&mut l, &message, "NOW"), Processed::Finished(Outcome::Applied));
    assert_eq!(l.participants[7], row(&["q1", "u7", "g#7", "ON_PROGRESS", "NOW"]));

    let before = l.copy();
    let bad = EventMessage { event_type: "TAKE_QUEST".to_string(), payload: "{".to_string() };
    assert_eq!(process_event(&mut l, &bad, "NOW"), Processed::Malformed);
    let unknown = EventMessage { event_type: "NOPE".to_string(), payload: "{}".to_string() };
    assert_eq!(process_event(&mut l, &unknown, "NOW"), Processed::Unknown);
    assert_eq!(l.participants, before.participants);
    assert_eq!(l.quests, before.quests);
}

#[test]
fn scans_find_the_first_match() {
    let l = ledger();
    assert_eq!(find_keyed(&l.quests, "q2"), Some(2));
    assert_eq!(find_keyed(&l.quests, "Quest ID"), None);
    assert_eq!(find_row_index(&l.quests, "q3"), Some(4));
    assert_eq!(find_row_index(&l.quests, "zz"), None);
    assert_eq!(find_pair(&l.participants, "q2", "u2"), Some(3));
    assert_eq!(find_pair(&l.participants, "Quest ID", "User ID"), None);
    assert_eq!(find_pair(&l.participants, "q3", "u2"), None);
    let empty: Vec<Vec<String>> = vec![];
    assert_eq!(find_keyed(&empty, "q"), None);
    assert_eq!(find_pair(&empty, "q", "u"), None);
}

#[test]
fn store_reads_give_the_leading_columns() {
    let mut l = ledger();
    match l.perform(&StoreRequest::ReadAll { table: Table::Participants, columns: 2 }) {
        StoreReply::Rows(rows) => {
            assert_eq!(rows.len(), 7);
            assert_eq!(rows[1], row(&["q1", "u1"]));
        }
        other => panic!("no rows: {:?}", other),
    }
    match l.perform(&StoreRequest::ReadRow { table: Table::Quests, row_number: 2, columns: 3 }) {
        StoreReply::Rows(rows) => assert_eq!(rows, vec![row(&["q1", "First", "Community"])]),
        other => panic!("no rows: {:?}", other),
    }
    match l.perform(&StoreRequest::ReadRow { table: Table::Quests, row_number: 9, columns: 3 }) {
        StoreReply::Rows(rows) => assert!(rows.is_empty()),
        other => panic!("no rows: {:?}", other),
    }
    match l.perform(&StoreRequest::ReadRow { table: Table::Quests, row_number: 0, columns: 3 }) {
        StoreReply::Rows(rows) => assert!(rows.is_empty()),
        other => panic!("no rows: {:?}", other),
    }
}

#[test]
fn store_batch_is_all_or_nothing() {
    let mut l = ledger();
    let batch = vec![
        RowDeletion { sheet_id: 11, start_index: 5, end_index: 6 },
        RowDeletion { sheet_id: 11, start_index: 50, end_index: 51 },
    ];
    assert!(matches!(l.perform(&StoreRequest::DeleteRows { deletions: batch }), StoreReply::Failed));
    assert_eq!(l.participants, ledger().participants);
    let batch = vec![
        RowDeletion { sheet_id: 11, start_index: 5, end_index: 6 },
        RowDeletion { sheet_id: 99, start_index: 0, end_index: 1 },
    ];
    assert!(matches!(l.perform(&StoreRequest::DeleteRows { deletions: batch }), StoreReply::Failed));
    assert_eq!(l.participants, ledger().participants);
    let batch = vec![
        RowDeletion { sheet_id: 11, start_index: 5, end_index: 6 },
        RowDeletion { sheet_id: 0, start_index: 1, end_index: 3 },
    ];
    assert!(matches!(l.perform(&StoreRequest::DeleteRows { deletions: batch }), StoreReply::Done));
    assert_eq!(l.participants.len(), 6);
    assert_eq!(l.quests.len(), 2);
    assert_eq!(l.quests[1][0], "q3");
}

#[test]
fn ascending_removals_would_hit_the_wrong_rows() {
    let mut l = ledger();
    let ascending = vec![
        RowDeletion { sheet_id: 11, start_index: 2, end_index: 3 },
        RowDeletion { sheet_id: 11, start_index: 3, end_index: 4 },
        RowDeletion { sheet_id: 11, start_index: 5, end_index: 6 },
    ];
    assert!(matches!(
        l.perform(&StoreRequest::DeleteRows { deletions: ascending }),
        StoreReply::Failed
    ));
    let mut l = ledger();
    let ascending = vec![
        RowDeletion { sheet_id: 11, start_index: 2, end_index: 3 },
        RowDeletion { sheet_id: 11, start_index: 3, end_index: 4 },
    ];
    assert!(matches!(
        l.perform(&StoreRequest::DeleteRows { deletions: ascending }),
        StoreReply::Done
    ));
    assert!(l.participants.iter().any(|r| r[0] == "q2" && r[1] == "u2"));
}

#[test]
fn store_write_needs_the_row() {
    let mut l = ledger();
    let write = StoreRequest::Write {
        table: Table::Communities,
        row_number: 2,
        column: 0,
        cells: row(&["x"]),
    };
    assert!(matches!(l.perform(&write), StoreReply::Failed));
    assert_eq!(l.communities, ledger().communities);
    assert!(l.is_well_formed());
    l.submissions_sheet = 0;
    assert!(!l.is_well_formed());
}

#[test]
fn new_ledger_holds_the_headers() {
    let l = Ledger::new(
        [row(&["Quest ID"]), row(&["Quest ID", "User ID"]), row(&["Name"]), row(&["Quest ID"])],
        [1, 2, 3, 4],
    );
    assert_eq!(l.quests, vec![row(&["Quest ID"])]);
    assert_eq!(l.participants, vec![row(&["Quest ID", "User ID"])]);
    assert_eq!(l.rows(Table::Communities), &vec![row(&["Name"])]);
    assert_eq!(l.table_with_sheet(4), Some(Table::Submissions));
    assert_eq!(l.table_with_sheet(5), None);
    assert_eq!(l.sheets().len(), 4);
    assert_eq!(l.sheets()[1].title.as_deref(), Some("Participants"));
    assert_eq!(l.sheets()[1].sheet_id, Some(2));
}

#[test]
fn a_header_that_carries_the_pair_is_never_overwritten() {
    let mut l = ledger();
    l.participants[0] = row(&["q9", "u9", "Tag", "Status", "Taken"]);
    let before = l.copy();
    let drop = Event::DropQuest(RegistrationPayload {
        quest_id: "q9".to_string(),
        user_id: "u9".to_string(),
        user_tag: "t".to_string(),
    });
    assert_eq!(apply_event(&mut l, drop, "NOW"), Outcome::ParticipationNotFound);
    assert_eq!(l.participants, before.participants);
    let proof = Event::SubmitProof(ProofPayload {
        quest_id: "q9".to_string(),
        user_id: "u9".to_string(),
        proof_url: "url".to_string(),
    });
    assert_eq!(apply_event(&mut l, proof, "NOW"), Outcome::ParticipationNotFound);
    assert_eq!(l.participants, before.participants);

    l.participants.push(row(&["q9", "u9", "t", "ON_PROGRESS", "later"]));
    let drop = Event::DropQuest(RegistrationPayload {
        quest_id: "q9".to_string(),
        user_id: "u9".to_string(),
        user_tag: "t".to_string(),
    });
    assert_eq!(apply_event(&mut l, drop, "NOW"), Outcome::Applied);
    assert_eq!(l.participants[0], before.participants[0]);
    assert_eq!(l.participants[7], row(&["q9", "u9", "t", "DROPPED", "later"]));
}
