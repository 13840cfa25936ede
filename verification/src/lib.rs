//! A community quest ledger.
//!
//! Users browse, take, complete and drop time-boxed quests; staff create,
//! edit and delete them. Every change travels as an event over one bus and is
//! applied by a single writer to a store that knows only rows and ranges.
//! Reads are served from a snapshot that is kept for a minute.
//!
//! The crate holds what is decided along the way and leaves the carrying out
//! to its caller: it prepares the record for the bus but does not send it, it
//! says which request the store is to get next but does not make it.
//!
//! - [`status`]: the state of a quest in time.
//! - [`text`], [`time`], [`json`], [`rows`]: text, timestamps, documents and
//!   rows of cells.
//! - [`payload`], [`envelope`]: the events and how they are written.
//! - [`store`], [`ranges`]: the requests that the store understands, how they
//!   are addressed, and a store held in memory.
//! - [`writer`]: one event, request by request.
//! - [`ledger`], [`laws`]: what an event does to the store, and what holds of
//!   that for every event.
//! - [`sweep`]: participations past their quest's deadline.
//! - [`cache`], [`config`]: the snapshot, a guild's settings, and their keys.
//! - [`producer`]: the checks before an event is published.
//! - [`board`], [`stats`]: what is shown to the users.
//! - [`access`], [`api`]: who may give a command, and the web form.

pub mod status;
pub mod text;
pub mod time;
pub mod json;
pub mod rows;
pub mod payload;
pub mod envelope;
pub mod store;
pub mod ranges;
pub mod writer;
pub mod ledger;
pub mod laws;
pub mod sweep;
pub mod cache;
pub mod config;
pub mod producer;
pub mod board;
pub mod stats;
pub mod access;
pub mod api;
