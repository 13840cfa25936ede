use quest_ledger::cache::{
    assemble_snapshot, extract_rows, fill_snapshot, get_cached_sheet_data, get_guild_config,
    guild_config_key, lookup_snapshot, set_guild_config, snapshot_cache_key, snapshot_requests,
    CachedQuestData,
    GuildConfig, Lookup, SnapshotCache, SNAPSHOT_TTL_SECS,
};
use quest_ledger::config::{clear_channel, clear_role, set_channel, set_role, view};
use quest_ledger::envelope::Event;
use quest_ledger::ledger::apply_event;
use quest_ledger::payload::RegistrationPayload;
use quest_ledger::ranges::range_of;
use quest_ledger::store::Ledger;

fn row(cells: &[&str]) -> Vec<String> {
    cells.iter().map(|c| c.to_string()).collect()
}

fn ledger() -> Ledger {
    Ledger {
        quests: vec![
            row(&["Quest ID", "Title", "Category", "Slots", "Organizer", "Schedule", "Platform",
                "Description", "Deadline", "Created"]),
            row(&["q1", "T", "C", "5", "O", "s", "p", "d", "e", "made"]),
        ],
        participants: vec![
            row(&["Quest ID", "User ID", "Tag", "Status", "Taken"]),
            row(&["q1", "u1", "a#1", "ON_PROGRESS", "t1"]),
        ],
        communities: vec![row(&["Name", "Leader", "Registered"]), row(&["GenBalok", "7", "r"])],
        submissions: vec![],
        quests_sheet: 1,
        participants_sheet: 2,
        communities_sheet: 3,
        submissions_sheet: 4,
    }
}

fn take() -> Event {
    Event::TakeQuest(RegistrationPayload {
        quest_id: "q1".to_string(),
        user_id: "u2".to_string(),
        user_tag: "b#2".to_string(),
    })
}

#[test]
fn a_miss_reads_the_store_and_fills_the_cache() {
    let mut cache = SnapshotCache::new();
    let mut l = ledger();
    let read = get_cached_sheet_data(&mut cache, &mut l, 1000);
    assert!(read.store_read);
    let data = read.data;
    assert_eq!(data.q_rows[1], row(&["q1", "T", "C", "5", "O", "s", "p", "d", "e"]));
    assert_eq!(data.p_rows[1], row(&["q1", "u1", "a#1", "ON_PROGRESS"]));
    assert_eq!(data.c_rows[1], row(&["GenBalok", "7"]));
    assert_eq!(cache.stored_at, 1000);
    assert_eq!(cache.ttl_secs, 60);
    assert_eq!(cache.text.as_deref(), Some(data.encode().as_str()));
    assert_eq!(l.quests, ledger().quests);
}

#[test]
fn a_read_within_the_ttl_is_served_from_the_cache() {
    let mut cache = SnapshotCache::new();
    let mut l = ledger();
    let first = get_cached_sheet_data(&mut cache, &mut l, 1000);
    assert!(first.store_read);
    apply_event(&mut l, take(), "NOW");
    for now in [1000, 1001, 1059] {
        let again = get_cached_sheet_data(&mut cache, &mut l, now);
        assert!(!again.store_read);
        let data = again.data;
        assert_eq!(data.p_rows.len(), 2);
        assert_eq!(data.p_rows, first.data.p_rows);
        assert_eq!(data.q_rows, first.data.q_rows);
        assert_eq!(data.c_rows, first.data.c_rows);
    }
    assert_eq!(cache.stored_at, 1000);
}

#[test]
fn a_read_after_the_ttl_reads_the_store_again() {
    let mut cache = SnapshotCache::new();
    let mut l = ledger();
    get_cached_sheet_data(&mut cache, &mut l, 1000);
    apply_event(&mut l, take(), "NOW");
    let late = get_cached_sheet_data(&mut cache, &mut l, 1060);
    assert!(late.store_read);
    assert_eq!(late.data.p_rows.len(), 3);
    assert_eq!(cache.stored_at, 1060);
}

#[test]
fn a_read_after_invalidation_reads_the_store() {
    let mut cache = SnapshotCache::new();
    let mut l = ledger();
    get_cached_sheet_data(&mut cache, &mut l, 1000);
    apply_event(&mut l, take(), "NOW");
    cache.invalidate();
    assert_eq!(cache.get(1000), None);
    let read = get_cached_sheet_data(&mut cache, &mut l, 1001);
    assert!(read.store_read);
    assert_eq!(read.data.p_rows.len(), 3);
    assert!(!get_cached_sheet_data(&mut cache, &mut l, 1002).store_read);
}

#[test]
fn text_that_is_no_snapshot_counts_as_a_miss() {
    let mut cache = SnapshotCache::new();
    cache.set_ex("{\"q_rows\":[]}".to_string(), 60, 1000);
    let mut l = ledger();
    let read = get_cached_sheet_data(&mut cache, &mut l, 1001);
    assert!(read.store_read);
    assert_eq!(read.data.q_rows.len(), 2);
    assert!(matches!(lookup_snapshot(Some("nonsense")), Lookup::Miss));
    assert!(matches!(lookup_snapshot(None), Lookup::Miss));
    let text = "{\"q_rows\":[[\"a\"]],\"p_rows\":[],\"c_rows\":[]}";
    match lookup_snapshot(Some(text)) {
        Lookup::Hit(data) => assert_eq!(data.q_rows, vec![row(&["a"])]),
        Lookup::Miss => panic!("a snapshot was missed"),
    }
}

#[test]
fn the_cache_keeps_text_for_its_time_to_live() {
    let mut cache = SnapshotCache::new();
    assert_eq!(cache.get(0), None);
    cache.set_ex("x".to_string(), 60, 100);
    assert_eq!(cache.get(100), Some("x"));
    assert_eq!(cache.get(159), Some("x"));
    assert_eq!(cache.get(160), None);
    assert_eq!(cache.get(50), Some("x"));
    cache.set_ex("y".to_string(), 0, 100);
    assert_eq!(cache.get(100), None);
    cache.set_ex("z".to_string(), u64::MAX, i64::MIN);
    assert_eq!(cache.get(i64::MAX - 1), Some("z"));
    assert_eq!(cache.get(i64::MAX), None);
    cache.invalidate();
    assert_eq!(cache.get(i64::MIN), None);
}

#[test]
fn the_batched_read_has_three_ranges() {
    let requests = snapshot_requests();
    let ranges: Vec<Option<String>> = requests.iter().map(range_of).collect();
    assert_eq!(
        ranges,
        vec![
            Some("Quests!A:I".to_string()),
            Some("Participants!A:D".to_string()),
            Some("Communities!A:B".to_string()),
        ]
    );
    assert_eq!(SNAPSHOT_TTL_SECS, 60);
}

#[test]
fn a_snapshot_is_assembled_from_what_the_answer_has() {
    let ranges = vec![Some(vec![row(&["a"])]), None];
    assert_eq!(extract_rows(&ranges, 0), vec![row(&["a"])]);
    assert!(extract_rows(&ranges, 1).is_empty());
    assert!(extract_rows(&ranges, 2).is_empty());
    let data: CachedQuestData = assemble_snapshot(&ranges);
    assert_eq!(data.q_rows, vec![row(&["a"])]);
    assert!(data.p_rows.is_empty());
    assert!(data.c_rows.is_empty());
    let fill = fill_snapshot(&ranges);
    assert_eq!(fill.key, "sheet_data_cache");
    assert_eq!(snapshot_cache_key(), "sheet_data_cache");
    assert_eq!(fill.ttl_secs, 60);
    assert_eq!(fill.text, "{\"q_rows\":[[\"a\"]],\"p_rows\":[],\"c_rows\":[]}");
    assert_eq!(fill.data.q_rows, vec![row(&["a"])]);
}

#[test]
fn guild_settings_have_a_key_of_their_own() {
    assert_eq!(guild_config_key(0), "guild_config:0");
    assert_eq!(guild_config_key(1234567890123456789), "guild_config:1234567890123456789");
    assert_eq!(guild_config_key(u64::MAX), "guild_config:18446744073709551615");
    let config = GuildConfig { announcement_channel_id: Some(5), ping_role_id: Some(6) };
    let (key, text) = set_guild_config(42, &config);
    assert_eq!(key, "guild_config:42");
    assert_eq!(text, "{\"announcement_channel_id\":5,\"ping_role_id\":6}");
    let back = get_guild_config(Some(&text));
    assert_eq!(back.announcement_channel_id, Some(5));
    assert_eq!(back.ping_role_id, Some(6));
}

#[test]
fn guild_settings_fall_back_to_the_defaults() {
    for cached in [None, Some("broken"), Some("{\"ping_role_id\":\"x\"}")] {
        let config = get_guild_config(cached);
        assert_eq!(config.announcement_channel_id, None);
        assert_eq!(config.ping_role_id, None);
    }
    let config = GuildConfig::default();
    assert_eq!(config.announcement_channel_id, None);
    assert_eq!(config.ping_role_id, None);
}

#[test]
fn guild_settings_change_one_at_a_time() {
    let config = GuildConfig::default();
    let config = set_channel(config, 10);
    assert_eq!((config.announcement_channel_id, config.ping_role_id), (Some(10), None));
    let config = set_role(config, 20);
    assert_eq!((config.announcement_channel_id, config.ping_role_id), (Some(10), Some(20)));
    let config = clear_channel(config);
    assert_eq!((config.announcement_channel_id, config.ping_role_id), (None, Some(20)));
    let config = clear_role(set_channel(config, 11));
    assert_eq!((config.announcement_channel_id, config.ping_role_id), (Some(11), None));
}

#[test]
fn guild_settings_are_shown_as_mentions() {
    let unset = GuildConfig::default();
    assert_eq!(
        view(&unset),
        "**⚙️ Current Configuration**\n\n**Channels**\n📢 Announcement: Not set (command channel)\n\n**Roles**\n🔔 Ping Role: Not set (default participant)"
    );
    let set = GuildConfig { announcement_channel_id: Some(12), ping_role_id: Some(u64::MAX) };
    assert_eq!(
        view(&set),
        "**⚙️ Current Configuration**\n\n**Channels**\n📢 Announcement: <#12>\n\n**Roles**\n🔔 Ping Role: <@&18446744073709551615>"
    );
}
