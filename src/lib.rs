//! Playback queueing and track resolution for a voice-channel media bot.
//!
//! The library holds the per-guild queues, the registry that maps a guild to
//! its session, the idle-timeout bookkeeping, the continuation protocol that
//! decides what plays next, and the resolver that turns a query into tracks
//! by driving an outside search and fetch service one request at a time.
pub mod client;
pub mod idle;
pub mod links;
pub mod queue;
pub mod resolver;
pub mod session;
pub mod suggest;
pub mod track;

use vstd::prelude::*;

verus! {

/// Shown by a queue whose display has not been rendered yet.
pub const EMPTY_QUEUE: &'static str = "Queue is empty or display not built.";

/// Title given to a track whose metadata carries none.
pub const UNKNOWN_TITLE: &'static str = "Unknown title";

/// Number of playlist entries fetched when no other cap is given.
pub const DEFAULT_PLAYLIST_LIMIT: u64 = 50;

} // verus!
