//! Core logic of a permission-enforcing directory watcher: prefix-based
//! policy resolution, watch-table bookkeeping, recursive crawl planning,
//! and the event-dispatch decisions that tie them together.

pub mod crawl;
pub mod dispatch;
pub mod enforce;
pub mod mapping;
pub mod paths;
pub mod watch;
