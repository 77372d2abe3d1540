//! Core of a reactive feed watcher: a deduplicated, insertion-ordered cache
//! of feed items, the reconciliation step that merges freshly fetched pages
//! into it, a two-stage visibility filter (moderation verdicts plus per-user
//! display preferences), and the decision table of the dispatch loop that
//! schedules recomputes.
//!
//! Network fetching, moderation-engine construction and channel plumbing are
//! left to the surrounding program; this crate holds the logic that decides
//! what the cache and the published feed contain.

pub mod cache;
pub mod filter;
pub mod item;
pub mod merge;
pub mod prefs;
pub mod watch;
