//! The read-through cache: a snapshot of the tables kept under one key for
//! a fixed time, and the settings of a guild kept under a key of its own.
//!
//! A read looks into the cache first. What it finds is JSON text; text that
//! is there and reads as a snapshot is a hit, anything else is a miss. A miss
//! is followed by one batched read of the store, and the snapshot assembled
//! from it is written back with its time to live. Nothing but an explicit
//! invalidation or the passing of that time takes a snapshot out.

use vstd::prelude::*;
use vstd::string::StringExecFns;
use crate::json::{
    lemma_lookup_first, numbers_fit, optional_number, optional_number_value, optional_u64_at,
    optional_u64_field, parse_fields, parsed_object, render_fields, rendered_object, table_at,
    table_field, FieldsModel, JsonModel, JsonValue,
};
use crate::rows::{copy_table, table_prefix, TableModel};
use crate::store::{Ledger, LedgerModel, RequestModel, StoreReply, StoreRequest, Table};
use crate::text::{decimal_text, u64_to_string, Text};

verus! {

/// A snapshot of the three tables that reads are served from.
#[derive(Debug)]
pub struct CachedQuestData {
    pub q_rows: Vec<Vec<String>>,
    pub p_rows: Vec<Vec<String>>,
    pub c_rows: Vec<Vec<String>>,
}

/// A `CachedQuestData` as the contracts see it.
pub struct CachedModel {
    pub q_rows: Seq<Seq<Text>>,
    pub p_rows: Seq<Seq<Text>>,
    pub c_rows: Seq<Seq<Text>>,
}

impl DeepView for CachedQuestData {
    type V = CachedModel;

    open spec fn deep_view(&self) -> CachedModel {
        CachedModel {
            q_rows: self.q_rows.deep_view(),
            p_rows: self.p_rows.deep_view(),
            c_rows: self.c_rows.deep_view(),
        }
    }
}

impl CachedModel {
    /// The document of this value: its fields, in order.
    pub open spec fn fields(self) -> FieldsModel {
        seq![
            ("q_rows"@, JsonModel::Table(self.q_rows)),
            ("p_rows"@, JsonModel::Table(self.p_rows)),
            ("c_rows"@, JsonModel::Table(self.c_rows)),
        ]
    }

    /// Whether a document holds every field that reading needs, each of
    /// the right kind.
    pub open spec fn readable(fields: FieldsModel) -> bool {
        &&& table_at(fields, "q_rows"@) is Some
        &&& table_at(fields, "p_rows"@) is Some
        &&& table_at(fields, "c_rows"@) is Some
    }

    /// The value that a document holds, if it is readable.
    pub open spec fn from_fields(fields: FieldsModel) -> Option<CachedModel> {
        if Self::readable(fields) {
            Some(
                CachedModel {
                    q_rows: table_at(fields, "q_rows"@).unwrap(),
                    p_rows: table_at(fields, "p_rows"@).unwrap(),
                    c_rows: table_at(fields, "c_rows"@).unwrap(),
                },
            )
        } else {
            None
        }
    }

    /// The JSON text of this value.
    pub open spec fn encoded(self) -> Text {
        rendered_object(self.fields())
    }

    /// The value that a JSON text holds, if the text is a readable document.
    pub open spec fn decoded(text: Text) -> Option<CachedModel> {
        match parsed_object(text) {
            Some(fields) => Self::from_fields(fields),
            None => None,
        }
    }

    /// Reading back the document of a value gives the value.
    pub proof fn law_fields_round_trip(self)
        ensures
            Self::from_fields(self.fields()) == Some(self),
    {
        reveal_strlit("q_rows");
        reveal_strlit("p_rows");
        reveal_strlit("c_rows");
        let f = self.fields();
        assert("q_rows"@.len() == 6 && "q_rows"@[0] == 'q');
        assert("p_rows"@.len() == 6 && "p_rows"@[0] == 'p');
        assert("c_rows"@.len() == 6 && "c_rows"@[0] == 'c');
        lemma_lookup_first(f, "q_rows"@, 0);
        lemma_lookup_first(f, "p_rows"@, 1);
        lemma_lookup_first(f, "c_rows"@, 2);
    }
}

impl CachedQuestData {
    /// The fields of this value's document, in order.
    pub fn to_fields(&self) -> (fields: Vec<(String, JsonValue)>)
        ensures
            fields.deep_view() == self.deep_view().fields(),
            numbers_fit(fields.deep_view()),
    {
        let mut fields: Vec<(String, JsonValue)> = Vec::new();
        fields.push(("q_rows".to_string(), JsonValue::Table(copy_table(&self.q_rows))));
        fields.push(("p_rows".to_string(), JsonValue::Table(copy_table(&self.p_rows))));
        fields.push(("c_rows".to_string(), JsonValue::Table(copy_table(&self.c_rows))));
        assert(fields.deep_view() =~= self.deep_view().fields());
        fields
    }

    /// Reads a value out of a document's fields.
    pub fn from_fields(fields: &Vec<(String, JsonValue)>) -> (value: Option<CachedQuestData>)
        ensures
            value.deep_view() == CachedModel::from_fields(fields.deep_view()),
    {
        let q_rows = match table_field(fields, "q_rows") {
            Some(v) => v,
            None => return None,
        };
        let p_rows = match table_field(fields, "p_rows") {
            Some(v) => v,
            None => return None,
        };
        let c_rows = match table_field(fields, "c_rows") {
            Some(v) => v,
            None => return None,
        };
        Some(CachedQuestData { q_rows, p_rows, c_rows })
    }

    /// The JSON text of this value.
    pub fn encode(&self) -> (text: String)
        ensures
            text@ == self.deep_view().encoded(),
    {
        let fields = self.to_fields();
        render_fields(&fields).unwrap()
    }

    /// Reads a value from JSON text; nothing if the text is not a
    /// readable document.
    pub fn decode(text: &str) -> (value: Option<CachedQuestData>)
        ensures
            value.deep_view() == CachedModel::decoded(text@),
    {
        match parse_fields(text) {
            Some(fields) => Self::from_fields(&fields),
            None => None,
        }
    }
}

/// The settings of one guild.
#[derive(Debug, Clone, Copy)]
pub struct GuildConfig {
    pub announcement_channel_id: Option<u64>,
    pub ping_role_id: Option<u64>,
}

/// A `GuildConfig` as the contracts see it.
pub struct GuildConfigModel {
    pub announcement_channel_id: Option<u64>,
    pub ping_role_id: Option<u64>,
}

impl DeepView for GuildConfig {
    type V = GuildConfigModel;

    open spec fn deep_view(&self) -> GuildConfigModel {
        GuildConfigModel {
            announcement_channel_id: self.announcement_channel_id,
            ping_role_id: self.ping_role_id,
        }
    }
}

impl GuildConfigModel {
    /// The document of this value: its fields, in order.
    pub open spec fn fields(self) -> FieldsModel {
        seq![
            ("announcement_channel_id"@, optional_number(self.announcement_channel_id)),
            ("ping_role_id"@, optional_number(self.ping_role_id)),
        ]
    }

    /// Whether a document holds every field that reading needs, each of
    /// the right kind.
    pub open spec fn readable(fields: FieldsModel) -> bool {
        &&& optional_u64_at(fields, "announcement_channel_id"@) is Some
        &&& optional_u64_at(fields, "ping_role_id"@) is Some
    }

    /// The value that a document holds, if it is readable.
    pub open spec fn from_fields(fields: FieldsModel) -> Option<GuildConfigModel> {
        if Self::readable(fields) {
            Some(
                GuildConfigModel {
                    announcement_channel_id: optional_u64_at(fields, "announcement_channel_id"@).unwrap(),
                    ping_role_id: optional_u64_at(fields, "ping_role_id"@).unwrap(),
                },
            )
        } else {
            None
        }
    }

    /// The JSON text of this value.
    pub open spec fn encoded(self) -> Text {
        rendered_object(self.fields())
    }

    /// The value that a JSON text holds, if the text is a readable document.
    pub open spec fn decoded(text: Text) -> Option<GuildConfigModel> {
        match parsed_object(text) {
            Some(fields) => Self::from_fields(fields),
            None => None,
        }
    }

    /// Reading back the document of a value gives the value.
    pub proof fn law_fields_round_trip(self)
        ensures
            Self::from_fields(self.fields()) == Some(self),
    {
        reveal_strlit("announcement_channel_id");
        reveal_strlit("ping_role_id");
        let f = self.fields();
        assert("announcement_channel_id"@.len() == 23 && "announcement_channel_id"@[0] == 'a');
        assert("ping_role_id"@.len() == 12 && "ping_role_id"@[0] == 'p');
        lemma_lookup_first(f, "announcement_channel_id"@, 0);
        lemma_lookup_first(f, "ping_role_id"@, 1);
    }
}

impl GuildConfig {
    /// The fields of this value's document, in order.
    pub fn to_fields(&self) -> (fields: Vec<(String, JsonValue)>)
        ensures
            fields.deep_view() == self.deep_view().fields(),
            numbers_fit(fields.deep_view()),
    {
        let mut fields: Vec<(String, JsonValue)> = Vec::new();
        fields.push(("announcement_channel_id".to_string(), optional_number_value(self.announcement_channel_id)));
        fields.push(("ping_role_id".to_string(), optional_number_value(self.ping_role_id)));
        assert(fields.deep_view() =~= self.deep_view().fields());
        fields
    }

    /// Reads a value out of a document's fields.
    pub fn from_fields(fields: &Vec<(String, JsonValue)>) -> (value: Option<GuildConfig>)
        ensures
            value.deep_view() == GuildConfigModel::from_fields(fields.deep_view()),
    {
        let announcement_channel_id = match optional_u64_field(fields, "announcement_channel_id") {
            Some(v) => v,
            None => return None,
        };
        let ping_role_id = match optional_u64_field(fields, "ping_role_id") {
            Some(v) => v,
            None => return None,
        };
        Some(GuildConfig { announcement_channel_id, ping_role_id })
    }

    /// The JSON text of this value.
    pub fn encode(&self) -> (text: String)
        ensures
            text@ == self.deep_view().encoded(),
    {
        let fields = self.to_fields();
        render_fields(&fields).unwrap()
    }

    /// Reads a value from JSON text; nothing if the text is not a
    /// readable document.
    pub fn decode(text: &str) -> (value: Option<GuildConfig>)
        ensures
            value.deep_view() == GuildConfigModel::decoded(text@),
    {
        match parse_fields(text) {
            Some(fields) => Self::from_fields(&fields),
            None => None,
        }
    }
}

/// The key under which the snapshot is kept.
pub open spec fn snapshot_key() -> Text {
    "sheet_data_cache"@
}

/// How long a snapshot stays in the cache, in seconds.
pub const SNAPSHOT_TTL_SECS: u64 = 60;

/// The number of quest columns in a snapshot.
pub const SNAPSHOT_QUEST_COLUMNS: usize = 9;

/// The number of participation columns in a snapshot.
pub const SNAPSHOT_PARTICIPANT_COLUMNS: usize = 4;

/// The number of community columns in a snapshot.
pub const SNAPSHOT_COMMUNITY_COLUMNS: usize = 2;

/// The key under which the settings of a guild are kept.
pub open spec fn guild_key(guild_id: u64) -> Text {
    "guild_config:"@ + decimal_text(guild_id as int)
}

/// The rows of the range at `index` of a batched read; no rows where the
/// answer has no such range or the range has no values.
pub open spec fn range_rows(ranges: Seq<Option<TableModel>>, index: int) -> TableModel {
    if 0 <= index < ranges.len() {
        match ranges[index] {
            Some(rows) => rows,
            None => Seq::empty(),
        }
    } else {
        Seq::empty()
    }
}

/// The snapshot that a batched read gives: quests, participations and
/// communities, in that order.
pub open spec fn snapshot_of(ranges: Seq<Option<TableModel>>) -> CachedModel {
    CachedModel {
        q_rows: range_rows(ranges, 0),
        p_rows: range_rows(ranges, 1),
        c_rows: range_rows(ranges, 2),
    }
}

/// What a look into the cache leads to.
#[derive(Debug)]
pub enum Lookup {
    /// The cache held a snapshot.
    Hit(CachedQuestData),
    /// The cache held nothing that reads as a snapshot: ask the store.
    Miss,
}

/// A `Lookup` as the contracts see it.
pub enum LookupModel {
    Hit(CachedModel),
    Miss,
}

impl DeepView for Lookup {
    type V = LookupModel;

    open spec fn deep_view(&self) -> LookupModel {
        match self {
            Lookup::Hit(data) => LookupModel::Hit(data.deep_view()),
            Lookup::Miss => LookupModel::Miss,
        }
    }
}

/// What a look into the cache leads to, given what the cache held.
pub open spec fn looked_up(cached: Option<Text>) -> LookupModel {
    match cached {
        Some(text) => match CachedModel::decoded(text) {
            Some(data) => LookupModel::Hit(data),
            None => LookupModel::Miss,
        },
        None => LookupModel::Miss,
    }
}

/// A snapshot fresh from the store, with what to write into the cache.
#[derive(Debug)]
pub struct Fill {
    /// The snapshot to hand to the reader.
    pub data: CachedQuestData,
    /// The key to write under.
    pub key: String,
    /// The text to write.
    pub text: String,
    /// How long the entry is to live, in seconds.
    pub ttl_secs: u64,
}

/// A `Fill` as the contracts see it.
pub struct FillModel {
    pub data: CachedModel,
    pub key: Text,
    pub text: Text,
    pub ttl_secs: u64,
}

impl DeepView for Fill {
    type V = FillModel;

    open spec fn deep_view(&self) -> FillModel {
        FillModel {
            data: self.data.deep_view(),
            key: self.key@,
            text: self.text@,
            ttl_secs: self.ttl_secs,
        }
    }
}

/// The fill that a batched read leads to.
pub open spec fn filled(ranges: Seq<Option<TableModel>>) -> FillModel {
    let data = snapshot_of(ranges);
    FillModel { data, key: snapshot_key(), text: data.encoded(), ttl_secs: SNAPSHOT_TTL_SECS }
}

/// The key under which the snapshot is kept.
pub fn snapshot_cache_key() -> (key: String)
    ensures
        key@ == snapshot_key(),
{
    "sheet_data_cache".to_string()
}

/// Decides a read from what the cache held under the snapshot key.
pub fn lookup_snapshot(cached: Option<&str>) -> (found: Lookup)
    ensures
        found.deep_view() == looked_up(cached.deep_view()),
{
    match cached {
        Some(text) => match CachedQuestData::decode(text) {
            Some(data) => Lookup::Hit(data),
            None => Lookup::Miss,
        },
        None => Lookup::Miss,
    }
}

/// The three ranges of the batched read that follows a miss.
pub fn snapshot_requests() -> (requests: Vec<StoreRequest>)
    ensures
        requests.deep_view() == seq![
            RequestModel::ReadAll { table: Table::Quests, columns: SNAPSHOT_QUEST_COLUMNS as int },
            RequestModel::ReadAll {
                table: Table::Participants,
                columns: SNAPSHOT_PARTICIPANT_COLUMNS as int,
            },
            RequestModel::ReadAll {
                table: Table::Communities,
                columns: SNAPSHOT_COMMUNITY_COLUMNS as int,
            },
        ],
{
    let requests = vec![
        StoreRequest::ReadAll { table: Table::Quests, columns: SNAPSHOT_QUEST_COLUMNS },
        StoreRequest::ReadAll { table: Table::Participants, columns: SNAPSHOT_PARTICIPANT_COLUMNS },
        StoreRequest::ReadAll { table: Table::Communities, columns: SNAPSHOT_COMMUNITY_COLUMNS },
    ];
    assert(requests.deep_view() =~= seq![
        RequestModel::ReadAll { table: Table::Quests, columns: SNAPSHOT_QUEST_COLUMNS as int },
        RequestModel::ReadAll {
            table: Table::Participants,
            columns: SNAPSHOT_PARTICIPANT_COLUMNS as int,
        },
        RequestModel::ReadAll {
            table: Table::Communities,
            columns: SNAPSHOT_COMMUNITY_COLUMNS as int,
        },
    ]);
    requests
}

/// Takes the rows of one range out of the answer to a batched read.
pub fn extract_rows(ranges: &Vec<Option<Vec<Vec<String>>>>, index: usize) -> (rows: Vec<
    Vec<String>,
>)
    ensures
        rows.deep_view() == range_rows(ranges.deep_view(), index as int),
{
    if index < ranges.len() {
        match &ranges[index] {
            Some(rows) => copy_table(rows),
            None => Vec::new(),
        }
    } else {
        Vec::new()
    }
}

/// Assembles the snapshot from the answer to a batched read.
pub fn assemble_snapshot(ranges: &Vec<Option<Vec<Vec<String>>>>) -> (data: CachedQuestData)
    ensures
        data.deep_view() == snapshot_of(ranges.deep_view()),
{
    CachedQuestData {
        q_rows: extract_rows(ranges, 0),
        p_rows: extract_rows(ranges, 1),
        c_rows: extract_rows(ranges, 2),
    }
}

/// Turns the answer to a batched read into the snapshot for the reader and
/// the entry for the cache.
pub fn fill_snapshot(ranges: &Vec<Option<Vec<Vec<String>>>>) -> (fill: Fill)
    ensures
        fill.deep_view() == filled(ranges.deep_view()),
{
    let data = assemble_snapshot(ranges);
    let text = data.encode();
    Fill { data, key: snapshot_cache_key(), text, ttl_secs: SNAPSHOT_TTL_SECS }
}

impl Default for GuildConfig {
    fn default() -> (config: GuildConfig)
        ensures
            config == (GuildConfig { announcement_channel_id: None, ping_role_id: None }),
    {
        GuildConfig { announcement_channel_id: None, ping_role_id: None }
    }
}

/// The settings that a look into the cache gives: what the cache held if it
/// reads as settings, the defaults otherwise.
pub open spec fn guild_config_of(cached: Option<Text>) -> GuildConfigModel {
    let defaults = GuildConfigModel { announcement_channel_id: None, ping_role_id: None };
    match cached {
        Some(text) => match GuildConfigModel::decoded(text) {
            Some(config) => config,
            None => defaults,
        },
        None => defaults,
    }
}

/// The key under which the settings of a guild are kept.
pub fn guild_config_key(guild_id: u64) -> (key: String)
    ensures
        key@ == guild_key(guild_id),
{
    let mut key = String::from_str("guild_config:");
    let digits = u64_to_string(guild_id);
    key.append(digits.as_str());
    key
}

/// The settings of a guild, given what the cache held under its key.
pub fn get_guild_config(cached: Option<&str>) -> (config: GuildConfig)
    ensures
        config.deep_view() == guild_config_of(cached.deep_view()),
{
    match cached {
        Some(text) => match GuildConfig::decode(text) {
            Some(config) => config,
            None => GuildConfig::default(),
        },
        None => GuildConfig::default(),
    }
}

/// The entry that keeps the settings of a guild: the key and the text to
/// write under it, to stay until overwritten.
pub fn set_guild_config(guild_id: u64, config: &GuildConfig) -> (entry: (String, String))
    ensures
        entry.0@ == guild_key(guild_id),
        entry.1@ == config.deep_view().encoded(),
{
    (guild_config_key(guild_id), config.encode())
}

/// The snapshot key of a cache held in memory: the text under it, when it
/// was written and for how long it lives.
#[derive(Debug)]
pub struct SnapshotCache {
    pub text: Option<String>,
    pub stored_at: i64,
    pub ttl_secs: u64,
}

/// A `SnapshotCache` as the contracts see it.
pub struct CacheModel {
    pub text: Option<Text>,
    pub stored_at: i64,
    pub ttl_secs: u64,
}

impl DeepView for SnapshotCache {
    type V = CacheModel;

    open spec fn deep_view(&self) -> CacheModel {
        CacheModel {
            text: self.text.deep_view(),
            stored_at: self.stored_at,
            ttl_secs: self.ttl_secs,
        }
    }
}

impl CacheModel {
    /// What a read at `now` finds under the key: the text, until its time
    /// to live has passed.
    pub open spec fn live(self, now: i64) -> Option<Text> {
        if now - self.stored_at < self.ttl_secs {
            self.text
        } else {
            None
        }
    }

    /// The cache after `text` was written at `now` to live for `ttl_secs`.
    pub open spec fn stored(self, text: Text, ttl_secs: u64, now: i64) -> CacheModel {
        CacheModel { text: Some(text), stored_at: now, ttl_secs }
    }

    /// The cache after the key was deleted.
    pub open spec fn invalidated(self) -> CacheModel {
        CacheModel { text: None, ..self }
    }
}

impl SnapshotCache {
    /// A cache that holds nothing.
    pub fn new() -> (cache: SnapshotCache)
        ensures
            cache.deep_view().text is None,
    {
        SnapshotCache { text: None, stored_at: 0, ttl_secs: 0 }
    }

    /// What a read at `now` finds under the key.
    pub fn get(&self, now: i64) -> (found: Option<&str>)
        ensures
            found.deep_view() == self.deep_view().live(now),
    {
        if (now as i128) - (self.stored_at as i128) < self.ttl_secs as i128 {
            match &self.text {
                Some(text) => Some(text.as_str()),
                None => None,
            }
        } else {
            None
        }
    }

    /// Writes `text` under the key at `now`, to live for `ttl_secs`.
    pub fn set_ex(&mut self, text: String, ttl_secs: u64, now: i64)
        ensures
            final(self).deep_view() == old(self).deep_view().stored(text@, ttl_secs, now),
    {
        self.text = Some(text);
        self.stored_at = now;
        self.ttl_secs = ttl_secs;
    }

    /// Deletes the key: the next read has to ask the store.
    pub fn invalidate(&mut self)
        ensures
            final(self).deep_view() == old(self).deep_view().invalidated(),
    {
        self.text = None;
    }
}

/// What a read gave, and whether it had to ask the store.
#[derive(Debug)]
pub struct Read {
    /// The snapshot.
    pub data: CachedQuestData,
    /// Whether the store was read.
    pub store_read: bool,
}

/// A `Read` as the contracts see it.
pub struct ReadModel {
    pub data: CachedModel,
    pub store_read: bool,
}

impl DeepView for Read {
    type V = ReadModel;

    open spec fn deep_view(&self) -> ReadModel {
        ReadModel { data: self.data.deep_view(), store_read: self.store_read }
    }
}

/// The snapshot of a ledger: the columns of each table that reads need.
pub open spec fn ledger_snapshot(ledger: LedgerModel) -> CachedModel {
    CachedModel {
        q_rows: table_prefix(ledger.quests, SNAPSHOT_QUEST_COLUMNS as int),
        p_rows: table_prefix(ledger.participants, SNAPSHOT_PARTICIPANT_COLUMNS as int),
        c_rows: table_prefix(ledger.communities, SNAPSHOT_COMMUNITY_COLUMNS as int),
    }
}

/// A read at `now` through the cache in front of the ledger: the cache
/// afterwards and what the read gave.
pub open spec fn read_at(cache: CacheModel, ledger: LedgerModel, now: i64) -> (
    CacheModel,
    ReadModel,
) {
    match looked_up(cache.live(now)) {
        LookupModel::Hit(data) => (cache, ReadModel { data, store_read: false }),
        LookupModel::Miss => {
            let data = ledger_snapshot(ledger);
            (
                cache.stored(data.encoded(), SNAPSHOT_TTL_SECS, now),
                ReadModel { data, store_read: true },
            )
        },
    }
}

/// Reads the three ranges of a snapshot from the ledger in one batch.
pub fn batch_read(ledger: &mut Ledger) -> (ranges: Vec<Option<Vec<Vec<String>>>>)
    ensures
        final(ledger).deep_view() == old(ledger).deep_view(),
        snapshot_of(ranges.deep_view()) == ledger_snapshot(old(ledger).deep_view()),
{
    let requests = snapshot_requests();
    assert(requests.len() == requests.deep_view().len());
    let quests = match ledger.perform(&requests[0]) {
        StoreReply::Rows(rows) => Some(rows),
        _ => None,
    };
    let participants = match ledger.perform(&requests[1]) {
        StoreReply::Rows(rows) => Some(rows),
        _ => None,
    };
    let communities = match ledger.perform(&requests[2]) {
        StoreReply::Rows(rows) => Some(rows),
        _ => None,
    };
    let ranges = vec![quests, participants, communities];
    proof {
        let r = ranges.deep_view();
        let start = old(ledger).deep_view();
        assert(r[0] == Some(table_prefix(start.quests, SNAPSHOT_QUEST_COLUMNS as int)));
        assert(r[1] == Some(
            table_prefix(start.participants, SNAPSHOT_PARTICIPANT_COLUMNS as int),
        ));
        assert(r[2] == Some(table_prefix(start.communities, SNAPSHOT_COMMUNITY_COLUMNS as int)));
    }
    ranges
}

/// Reads the snapshot at `now` through the cache: from the cache when it
/// holds one, from the ledger otherwise, in which case the cache is filled.
pub fn get_cached_sheet_data(cache: &mut SnapshotCache, ledger: &mut Ledger, now: i64) -> (read:
    Read)
    ensures
        (final(cache).deep_view(), read.deep_view()) == read_at(
            old(cache).deep_view(),
            old(ledger).deep_view(),
            now,
        ),
        final(ledger).deep_view() == old(ledger).deep_view(),
{
    match lookup_snapshot(cache.get(now)) {
        Lookup::Hit(data) => Read { data, store_read: false },
        Lookup::Miss => {
            let ranges = batch_read(ledger);
            let fill = fill_snapshot(&ranges);
            cache.set_ex(fill.text, fill.ttl_secs, now);
            Read { data: fill.data, store_read: true }
        },
    }
}

/// A read right after an invalidation asks the store, whatever the cache
/// held before and whenever the read comes, and gives what the store holds.
pub proof fn law_read_after_invalidation_asks_the_store(
    cache: CacheModel,
    ledger: LedgerModel,
    now: i64,
)
    ensures
        read_at(cache.invalidated(), ledger, now).1.store_read,
        read_at(cache.invalidated(), ledger, now).1.data == ledger_snapshot(ledger),
{
}

/// A read that fills the cache at `filled_at` leaves the text of the
/// store's snapshot in it. While that text lives, a later read gives what
/// the text holds and does not ask the store, whatever has become of the
/// store in between; text that does not read as a snapshot counts as a miss.
pub proof fn law_read_within_ttl_is_served_from_the_cache(
    cache: CacheModel,
    ledger: LedgerModel,
    filled_at: i64,
    later: LedgerModel,
    now: i64,
)
    requires
        read_at(cache, ledger, filled_at).1.store_read,
        filled_at <= now < filled_at + SNAPSHOT_TTL_SECS,
    ensures
        ({
            let filled = read_at(cache, ledger, filled_at).0;
            let text = ledger_snapshot(ledger).encoded();
            let again = read_at(filled, later, now);
            &&& filled.text == Some(text)
            &&& filled.live(now) == Some(text)
            &&& CachedModel::decoded(text) is Some ==> again == (
                filled,
                ReadModel { data: CachedModel::decoded(text).unwrap(), store_read: false },
            )
            &&& CachedModel::decoded(text) is None ==> again.1.store_read
        }),
{
}

/// Once its time to live has passed, a snapshot is no longer served: the
/// read asks the store.
pub proof fn law_read_after_ttl_asks_the_store(cache: CacheModel, ledger: LedgerModel, now: i64)
    requires
        now - cache.stored_at >= cache.ttl_secs,
    ensures
        read_at(cache, ledger, now).1.store_read,
{
}

} // verus!
