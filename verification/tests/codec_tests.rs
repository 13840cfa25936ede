use quest_ledger::api::{
    propose_quest, submit_handler, web_submission_record, WebsiteQuestSubmission,
};
use quest_ledger::cache::{CachedQuestData, GuildConfig};
use quest_ledger::envelope::{
    decode_event, decode_message, produce_event, Decoded, Event, EventMessage,
    PUBLISH_TIMEOUT_SECS,
};
use quest_ledger::json::{find_field, parse_fields, render_fields, JsonValue};
use quest_ledger::payload::{
    DeletePayload, EditPayload, NewCommunityPayload, ProofPayload, QuestPayload,
    RegistrationPayload,
};

fn sample_quest() -> QuestPayload {
    QuestPayload {
        quest_id: "123".to_string(),
        title: "Test Quest".to_string(),
        description: "Desc".to_string(),
        category: "CreativeArts".to_string(),
        organizer_name: "Illust".to_string(),
        schedule: "2025-01-01T10:00:00+07:00".to_string(),
        platform: "Discord".to_string(),
        deadline: "2025-01-02T10:00:00+07:00".to_string(),
        creator_id: "999".to_string(),
        slots: 5,
    }
}

#[test]
fn test_quest_payload_serialization() {
    let payload = sample_quest();

    let json = payload.encode();
    assert!(json.contains("\"quest_id\":\"123\""));
    assert!(json.contains("\"slots\":5"));
}

#[test]
fn test_event_message_wrapper() {
    let inner_payload = RegistrationPayload {
        quest_id: "q1".to_string(),
        user_id: "u1".to_string(),
        user_tag: "tag#1".to_string(),
    };
    let inner_json = inner_payload.encode();

    let event = EventMessage { event_type: "TAKE_QUEST".to_string(), payload: inner_json.clone() };

    let event_json = event.encode();
    assert!(event_json.contains("TAKE_QUEST"));
    assert!(event_json.contains(&inner_json.replace("\"", "\\\"")));
}

#[test]
fn test_deserialize_quest_payload() {
    let json = r#"{
            "quest_id": "uuid-1",
            "title": "Mabar",
            "category": "Community",
            "organizer_name": "GenBalok",
            "description": "Main bareng",
            "schedule": "2025-11-20T19:00:00+07:00",
            "platform": "Discord",
            "deadline": "2025-11-20T21:00:00+07:00",
            "creator_id": "12345",
            "slots": 10
        }"#;

    let payload: QuestPayload = QuestPayload::decode(json).expect("Should deserialize");
    assert_eq!(payload.quest_id, "uuid-1");
    assert_eq!(payload.slots, 10);
}

#[test]
fn test_deserialize_event_message() {
    let json = r#"{
            "event_type": "CREATE_QUEST",
            "payload": "{\"some\":\"inner_json\"}"
        }"#;

    let event: EventMessage = EventMessage::decode(json).expect("Should deserialize wrapper");
    assert_eq!(event.event_type, "CREATE_QUEST");
    assert_eq!(event.payload, "{\"some\":\"inner_json\"}");
}

#[test]
fn quest_payload_text_is_exact_and_in_declaration_order() {
    let json = sample_quest().encode();
    assert_eq!(
        json,
        "{\"quest_id\":\"123\",\"title\":\"Test Quest\",\"description\":\"Desc\",\
         \"category\":\"CreativeArts\",\"organizer_name\":\"Illust\",\"slots\":5,\
         \"schedule\":\"2025-01-01T10:00:00+07:00\",\"platform\":\"Discord\",\
         \"deadline\":\"2025-01-02T10:00:00+07:00\",\"creator_id\":\"999\"}"
    );
}

#[test]
fn quest_payload_round_trip() {
    let json = sample_quest().encode();
    let back = QuestPayload::decode(&json).unwrap();
    let want = sample_quest();
    assert_eq!(back.quest_id, want.quest_id);
    assert_eq!(back.title, want.title);
    assert_eq!(back.description, want.description);
    assert_eq!(back.category, want.category);
    assert_eq!(back.organizer_name, want.organizer_name);
    assert_eq!(back.slots, want.slots);
    assert_eq!(back.schedule, want.schedule);
    assert_eq!(back.platform, want.platform);
    assert_eq!(back.deadline, want.deadline);
    assert_eq!(back.creator_id, want.creator_id);
}

#[test]
fn quest_payload_without_creator_reads_with_empty_creator() {
    let json = r#"{"quest_id":"q","title":"t","description":"d","category":"c",
        "organizer_name":"o","slots":-3,"schedule":"s","platform":"p","deadline":"e"}"#;
    let payload = QuestPayload::decode(json).unwrap();
    assert_eq!(payload.creator_id, "");
    assert_eq!(payload.slots, -3);
}

#[test]
fn quest_payload_with_bad_fields_is_refused() {
    let missing = r#"{"quest_id":"q","title":"t","description":"d","category":"c",
        "organizer_name":"o","schedule":"s","platform":"p","deadline":"e"}"#;
    assert!(QuestPayload::decode(missing).is_none());
    let too_big = r#"{"quest_id":"q","title":"t","description":"d","category":"c",
        "organizer_name":"o","slots":128,"schedule":"s","platform":"p","deadline":"e"}"#;
    assert!(QuestPayload::decode(too_big).is_none());
    let wrong_kind = r#"{"quest_id":7,"title":"t","description":"d","category":"c",
        "organizer_name":"o","slots":1,"schedule":"s","platform":"p","deadline":"e"}"#;
    assert!(QuestPayload::decode(wrong_kind).is_none());
    let fraction = r#"{"quest_id":"q","title":"t","description":"d","category":"c",
        "organizer_name":"o","slots":1.5,"schedule":"s","platform":"p","deadline":"e"}"#;
    assert!(QuestPayload::decode(fraction).is_none());
    assert!(QuestPayload::decode("not json").is_none());
    assert!(QuestPayload::decode("[1,2]").is_none());
}

#[test]
fn registration_round_trip_with_text_that_needs_escaping() {
    let payload = RegistrationPayload {
        quest_id: "q\"1\\".to_string(),
        user_id: "line\nbreak\ttab".to_string(),
        user_tag: "名前#1 🛡️".to_string(),
    };
    let json = payload.encode();
    let back = RegistrationPayload::decode(&json).unwrap();
    assert_eq!(back.quest_id, payload.quest_id);
    assert_eq!(back.user_id, payload.user_id);
    assert_eq!(back.user_tag, payload.user_tag);
}

#[test]
fn edit_round_trip() {
    let payload = EditPayload {
        quest_id: "q1".to_string(),
        title: "T".to_string(),
        description: "D".to_string(),
        slots: -128,
        schedule: "S".to_string(),
        deadline: "E".to_string(),
        platform: "P".to_string(),
    };
    let json = payload.encode();
    assert_eq!(
        json,
        "{\"quest_id\":\"q1\",\"title\":\"T\",\"description\":\"D\",\"slots\":-128,\
         \"schedule\":\"S\",\"deadline\":\"E\",\"platform\":\"P\"}"
    );
    let back = EditPayload::decode(&json).unwrap();
    assert_eq!(back.quest_id, "q1");
    assert_eq!(back.title, "T");
    assert_eq!(back.description, "D");
    assert_eq!(back.slots, -128);
    assert_eq!(back.schedule, "S");
    assert_eq!(back.deadline, "E");
    assert_eq!(back.platform, "P");
}

#[test]
fn small_payloads_round_trip() {
    let delete = DeletePayload { quest_id: "q9".to_string() };
    assert_eq!(delete.encode(), "{\"quest_id\":\"q9\"}");
    assert_eq!(DeletePayload::decode(&delete.encode()).unwrap().quest_id, "q9");

    let community =
        NewCommunityPayload { community_name: "GenBalok".to_string(), leader_id: "42".to_string() };
    let back = NewCommunityPayload::decode(&community.encode()).unwrap();
    assert_eq!(back.community_name, "GenBalok");
    assert_eq!(back.leader_id, "42");

    let proof = ProofPayload {
        quest_id: "q".to_string(),
        user_id: "u".to_string(),
        proof_url: "https://cdn.example/p.png?x=1&y=2".to_string(),
    };
    let back = ProofPayload::decode(&proof.encode()).unwrap();
    assert_eq!(back.quest_id, "q");
    assert_eq!(back.user_id, "u");
    assert_eq!(back.proof_url, "https://cdn.example/p.png?x=1&y=2");
}

#[test]
fn unknown_fields_are_ignored() {
    let json = r#"{"extra":{"a":[1,2,{"b":null}]},"quest_id":"q","flag":true,"n":1e3}"#;
    assert_eq!(DeletePayload::decode(json).unwrap().quest_id, "q");
}

#[test]
fn snapshot_round_trip() {
    let data = CachedQuestData {
        q_rows: vec![vec!["Quest ID".to_string(), "Title".to_string()], vec!["q1".to_string()]],
        p_rows: vec![],
        c_rows: vec![vec![], vec!["a\"b".to_string()]],
    };
    let json = data.encode();
    assert_eq!(
        json,
        "{\"q_rows\":[[\"Quest ID\",\"Title\"],[\"q1\"]],\"p_rows\":[],\"c_rows\":[[],[\"a\\\"b\"]]}"
    );
    let back = CachedQuestData::decode(&json).unwrap();
    assert_eq!(back.q_rows, data.q_rows);
    assert_eq!(back.p_rows, data.p_rows);
    assert_eq!(back.c_rows, data.c_rows);
}

#[test]
fn snapshot_with_a_cell_that_is_no_string_is_refused() {
    assert!(CachedQuestData::decode(r#"{"q_rows":[["a",1]],"p_rows":[],"c_rows":[]}"#).is_none());
    assert!(CachedQuestData::decode(r#"{"q_rows":[],"p_rows":[]}"#).is_none());
    assert!(CachedQuestData::decode(r#"{"q_rows":"x","p_rows":[],"c_rows":[]}"#).is_none());
}

#[test]
fn guild_config_round_trip() {
    let config = GuildConfig { announcement_channel_id: Some(u64::MAX), ping_role_id: None };
    let json = config.encode();
    assert_eq!(json, "{\"announcement_channel_id\":18446744073709551615,\"ping_role_id\":null}");
    let back = GuildConfig::decode(&json).unwrap();
    assert_eq!(back.announcement_channel_id, Some(u64::MAX));
    assert_eq!(back.ping_role_id, None);
}

#[test]
fn guild_config_reads_missing_fields_as_unset_and_refuses_other_kinds() {
    let back = GuildConfig::decode("{}").unwrap();
    assert_eq!(back.announcement_channel_id, None);
    assert_eq!(back.ping_role_id, None);
    let back = GuildConfig::decode(r#"{"ping_role_id":7}"#).unwrap();
    assert_eq!(back.ping_role_id, Some(7));
    assert!(GuildConfig::decode(r#"{"ping_role_id":-1}"#).is_none());
    assert!(GuildConfig::decode(r#"{"ping_role_id":"7"}"#).is_none());
    assert!(GuildConfig::decode(r#"{"ping_role_id":1.5}"#).is_none());
}

#[test]
fn produce_event_addresses_the_record() {
    let event = Event::TakeQuest(RegistrationPayload {
        quest_id: "q1".to_string(),
        user_id: "u1".to_string(),
        user_tag: "tag#1".to_string(),
    });
    let out = produce_event(&event);
    assert_eq!(out.topic, "quest.events");
    assert_eq!(out.key, "TAKE_QUEST");
    assert_eq!(out.timeout_secs, 5);
    assert_eq!(out.timeout_secs, PUBLISH_TIMEOUT_SECS);
    assert_eq!(
        out.body,
        "{\"event_type\":\"TAKE_QUEST\",\"payload\":\"{\\\"quest_id\\\":\\\"q1\\\",\
         \\\"user_id\\\":\\\"u1\\\",\\\"user_tag\\\":\\\"tag#1\\\"}\"}"
    );
}

#[test]
fn every_event_type_round_trips_through_the_bus_record() {
    let events = vec![
        Event::CreateQuest(sample_quest()),
        Event::EditQuest(EditPayload {
            quest_id: "q".to_string(),
            title: "t".to_string(),
            description: "d".to_string(),
            slots: 3,
            schedule: "s".to_string(),
            deadline: "e".to_string(),
            platform: "p".to_string(),
        }),
        Event::DeleteQuest(DeletePayload { quest_id: "q".to_string() }),
        Event::TakeQuest(RegistrationPayload {
            quest_id: "q".to_string(),
            user_id: "u".to_string(),
            user_tag: "t".to_string(),
        }),
        Event::DropQuest(RegistrationPayload {
            quest_id: "q".to_string(),
            user_id: "u".to_string(),
            user_tag: "t".to_string(),
        }),
        Event::SubmitProof(ProofPayload {
            quest_id: "q".to_string(),
            user_id: "u".to_string(),
            proof_url: "url".to_string(),
        }),
        Event::RegisterCommunity(NewCommunityPayload {
            community_name: "c".to_string(),
            leader_id: "l".to_string(),
        }),
    ];
    let names = [
        "CREATE_QUEST",
        "EDIT_QUEST",
        "DELETE_QUEST",
        "TAKE_QUEST",
        "DROP_QUEST",
        "SUBMIT_PROOF",
        "REGISTER_COMMUNITY",
    ];
    for (event, name) in events.iter().zip(names.iter()) {
        assert_eq!(event.event_type(), *name);
        let out = produce_event(event);
        assert_eq!(out.key, *name);
        match decode_message(&out.body) {
            Decoded::Event(back) => {
                assert_eq!(back.event_type(), *name);
                assert_eq!(format!("{:?}", back), format!("{:?}", event));
            }
            other => panic!("not read back: {:?}", other),
        }
    }
}

#[test]
fn malformed_and_unknown_messages() {
    assert!(matches!(decode_message("garbage"), Decoded::Malformed));
    assert!(matches!(decode_message("{\"event_type\":\"TAKE_QUEST\"}"), Decoded::Malformed));
    let unknown = EventMessage { event_type: "RENAME_QUEST".to_string(), payload: "{}".to_string() };
    assert!(matches!(decode_event(&unknown), Decoded::Unknown));
    let lower = EventMessage { event_type: "take_quest".to_string(), payload: "{}".to_string() };
    assert!(matches!(decode_event(&lower), Decoded::Unknown));
    let bad = EventMessage { event_type: "TAKE_QUEST".to_string(), payload: "{}".to_string() };
    assert!(matches!(decode_event(&bad), Decoded::Malformed));
    let bad = EventMessage { event_type: "EDIT_QUEST".to_string(), payload: "nope".to_string() };
    assert!(matches!(decode_event(&bad), Decoded::Malformed));
}

#[test]
fn web_submission_proposes_a_quest_under_its_own_key() {
    let submission = WebsiteQuestSubmission {
        title: "Pitch".to_string(),
        description: "From the site".to_string(),
    };
    let out = web_submission_record("id-1".to_string(), &submission);
    assert_eq!(out.topic, "quest.events");
    assert_eq!(out.key, "WEB_SUBMISSION");
    assert_eq!(out.timeout_secs, 5);
    match decode_message(&out.body) {
        Decoded::Event(Event::CreateQuest(quest)) => {
            assert_eq!(quest.quest_id, "id-1");
            assert_eq!(quest.title, "Pitch");
            assert_eq!(quest.description, "From the site");
            assert_eq!(quest.category, "Community");
            assert_eq!(quest.organizer_name, "Website");
            assert_eq!(quest.slots, 0);
            assert_eq!(quest.schedule, "");
            assert_eq!(quest.platform, "");
            assert_eq!(quest.deadline, "");
            assert_eq!(quest.creator_id, "WEB_SUBMISSION");
        }
        other => panic!("not a quest: {:?}", other),
    }
    assert!(out.body.starts_with("{\"event_type\":\"CREATE_QUEST\",\"payload\":\"{"));
    match propose_quest("id-2".to_string(), &submission) {
        Event::CreateQuest(quest) => assert_eq!(quest.quest_id, "id-2"),
        other => panic!("not a quest: {:?}", other),
    }
}

#[test]
fn web_submissions_get_ids_of_their_own() {
    let submission =
        WebsiteQuestSubmission { title: "Pitch".to_string(), description: "D".to_string() };
    let one = submit_handler(&submission);
    let two = submit_handler(&submission);
    assert_eq!(one.key, "WEB_SUBMISSION");
    assert_eq!(one.topic, "quest.events");
    let id = |body: &str| match decode_message(body) {
        Decoded::Event(Event::CreateQuest(quest)) => {
            assert_eq!(quest.title, "Pitch");
            assert_eq!(quest.description, "D");
            quest.quest_id
        }
        other => panic!("not a quest: {:?}", other),
    };
    assert_ne!(id(&one.body), id(&two.body));
    assert_eq!(id(&one.body).len(), 36);
}

#[test]
fn a_web_form_is_read_from_its_json() {
    let form = WebsiteQuestSubmission::decode("{\"title\":\"Pitch\",\"description\":\"D\"}").unwrap();
    assert_eq!(form.title, "Pitch");
    assert_eq!(form.description, "D");
    assert_eq!(form.encode(), "{\"title\":\"Pitch\",\"description\":\"D\"}");
    assert!(WebsiteQuestSubmission::decode("{\"title\":\"Pitch\"}").is_none());
}

#[test]
fn fields_are_read_in_order_and_numbers_out_of_range_are_refused() {
    let fields = parse_fields(r#"{"b":1,"a":"x","c":null,"d":[["y"]],"e":true}"#).unwrap();
    let names: Vec<&str> = fields.iter().map(|(k, _)| k.as_str()).collect();
    assert_eq!(names, vec!["b", "a", "c", "d", "e"]);
    assert!(matches!(find_field(&fields, "b"), Some(JsonValue::Number(1))));
    assert!(matches!(find_field(&fields, "a"), Some(JsonValue::Text(_))));
    assert!(matches!(find_field(&fields, "c"), Some(JsonValue::Null)));
    assert!(matches!(find_field(&fields, "d"), Some(JsonValue::Table(_))));
    assert!(matches!(find_field(&fields, "e"), Some(JsonValue::Other)));
    assert!(find_field(&fields, "z").is_none());

    let too_big = vec![("n".to_string(), JsonValue::Number(u64::MAX as i128 + 1))];
    assert!(render_fields(&too_big).is_none());
    let too_small = vec![("n".to_string(), JsonValue::Number(i64::MIN as i128 - 1))];
    assert!(render_fields(&too_small).is_none());
    let edge = vec![
        ("lo".to_string(), JsonValue::Number(i64::MIN as i128)),
        ("hi".to_string(), JsonValue::Number(u64::MAX as i128)),
        ("other".to_string(), JsonValue::Other),
    ];
    assert_eq!(
        render_fields(&edge).unwrap(),
        "{\"lo\":-9223372036854775808,\"hi\":18446744073709551615,\"other\":null}"
    );
}
