//! The event dispatcher's per-event decision.
//!
//! Each kernel notification is reduced to a closed set of variants once, and
//! dispatched by that tag: a created or moved-in entry is resolved against
//! the mapping table and either watched and crawled (a directory), enforced
//! (a file), or skipped (unmapped); an invalidated watch leaves the table; a
//! deletion and anything unrecognized change nothing.

use vstd::prelude::*;

use crate::mapping::PermMapping;
use crate::mapping::is_first_match;
use crate::mapping::resolve;
use crate::mapping::unmapped;
use crate::paths::clone_bytes;
use crate::paths::join_path;
use crate::paths::join_rel;
use crate::watch::WatchTable;

verus! {

/// The closed set of notification variants the dispatcher acts on, derived
/// once from the kernel's raw flag bits.
#[derive(Clone, Copy, PartialEq, Eq, Structural, Debug)]
pub enum EventKind {
    CreatedOrMovedIn,
    Deleted,
    Invalidated,
    Other,
}

/// One kernel notification: the watch handle it arrived on, the affected
/// entry's name relative to the watched directory (absent for the watched
/// directory itself), its variant, and whether it concerns a directory.
pub struct Event {
    pub wd: i32,
    pub name: Option<Vec<u8>>,
    pub kind: EventKind,
    pub is_dir: bool,
}

/// What the dispatcher decided for one event. The caller performs the
/// outside work: registering the watch and crawling, or enforcing the rule
/// the index names.
pub enum DispatchAction {
    /// A mapped directory appeared: register a watch on `path`, enforce rule
    /// `rule`'s directory mode on it, then crawl it.
    WatchAndCrawl { path: Vec<u8>, rule: usize },
    /// A mapped non-directory appeared: enforce rule `rule`'s file mode on
    /// `path`.
    EnforceFile { path: Vec<u8>, rule: usize },
    /// An entry was deleted; purely informational.
    NoteDeleted { path: Vec<u8>, is_dir: bool },
    /// The kernel invalidated the watch; its table entry is already gone.
    DropWatch { path: Vec<u8> },
    /// The affected path matches no rule: no enforcement, no new watch.
    SkipUnmapped { path: Vec<u8> },
    /// An unrecognized notification; nothing to do.
    Ignore,
}

/// The path an event affects: the watched directory joined with the event's
/// name, or the directory itself when the name is absent.
pub open spec fn event_path(dir: Seq<u8>, name: Option<Vec<u8>>) -> Seq<u8> {
    match name {
        Some(n) => join_rel(dir, n@),
        None => dir,
    }
}

/// Decides one event against the mapping table and the watch table, and
/// applies the one table mutation the event calls for: an invalidated
/// handle's entry is removed, nothing else touches the table.
pub fn dispatch_event(
    watches: &mut WatchTable,
    perm_mappings: &Vec<PermMapping>,
    ev: &Event,
) -> (act: DispatchAction)
    requires
        old(watches)@.contains_key(ev.wd),
    ensures
        ({
            let p = event_path(old(watches)@[ev.wd]@, ev.name);
            match ev.kind {
                EventKind::CreatedOrMovedIn => {
                    &&& final(watches)@ == old(watches)@
                    &&& if unmapped(perm_mappings@, p) {
                        act matches DispatchAction::SkipUnmapped { path } && path@ == p
                    } else if ev.is_dir {
                        act matches DispatchAction::WatchAndCrawl { path, rule } && path@ == p
                            && is_first_match(perm_mappings@, p, rule as int)
                    } else {
                        act matches DispatchAction::EnforceFile { path, rule } && path@ == p
                            && is_first_match(perm_mappings@, p, rule as int)
                    }
                },
                EventKind::Deleted => {
                    &&& final(watches)@ == old(watches)@
                    &&& act matches DispatchAction::NoteDeleted { path, is_dir } && path@ == p
                        && is_dir == ev.is_dir
                },
                EventKind::Invalidated => {
                    &&& final(watches)@ == old(watches)@.remove(ev.wd)
                    &&& !final(watches)@.contains_key(ev.wd)
                    &&& final(watches)@.len() == old(watches)@.len() - 1
                    &&& act matches DispatchAction::DropWatch { path } && path@ == p
                },
                EventKind::Other => {
                    &&& final(watches)@ == old(watches)@
                    &&& act matches DispatchAction::Ignore
                },
            }
        }),
{
    let path: Vec<u8> = match watches.get(ev.wd) {
        Some(dir) => match &ev.name {
            Some(n) => join_path(dir, n),
            None => clone_bytes(dir),
        },
        None => vstd::pervasive::unreached(),
    };
    match ev.kind {
        EventKind::CreatedOrMovedIn => match resolve(perm_mappings, &path) {
            Some(rule) => {
                if ev.is_dir {
                    DispatchAction::WatchAndCrawl { path, rule }
                } else {
                    DispatchAction::EnforceFile { path, rule }
                }
            },
            None => DispatchAction::SkipUnmapped { path },
        },
        EventKind::Deleted => DispatchAction::NoteDeleted { path, is_dir: ev.is_dir },
        EventKind::Invalidated => {
            watches.remove(ev.wd);
            DispatchAction::DropWatch { path }
        },
        EventKind::Other => DispatchAction::Ignore,
    }
}

} // verus!
