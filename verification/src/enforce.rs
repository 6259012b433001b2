//! The enforcement action on a path's metadata: set the owner, then the
//! permission bits.
//!
//! The order matters on POSIX systems: changing the owner can silently clear
//! the setuid/setgid bits, so the mode is applied second and the declared
//! mode is the one that lands. The model keeps that behaviour: `chown_meta`
//! clears the setid bits, `chmod_meta` overwrites the permission bits.

use vstd::prelude::*;

use crate::mapping::PermMapping;

verus! {

/// The setuid and setgid bits, which an ownership change can clear.
pub const SETID_BITS: u32 = 0o6000;

/// The bits a mode change can set: permission, setuid/setgid and sticky.
pub const MODE_BITS: u32 = 0o7777;

/// The owner/group/mode triad of one on-disk entry.
#[derive(PartialEq, Eq, Structural, Clone, Copy, Debug)]
pub struct FileMeta {
    pub uid: u32,
    pub gid: u32,
    pub mode: u32,
}

/// What an ownership change leaves on disk: the new owner, and the mode with
/// the setuid/setgid bits cleared.
pub open spec fn chown_spec(m: FileMeta, uid: u32, gid: u32) -> FileMeta {
    FileMeta { uid, gid, mode: m.mode & !SETID_BITS }
}

/// What a mode change leaves on disk: the owner untouched, the mode replaced
/// by the given bits (only the mode bits can land).
pub open spec fn chmod_spec(m: FileMeta, mode: u32) -> FileMeta {
    FileMeta { uid: m.uid, gid: m.gid, mode: mode & MODE_BITS }
}

/// The mode a rule declares for an entry: `dmode` for a directory, `fmode`
/// for anything else.
pub open spec fn select_mode(perm: PermMapping, is_dir: bool) -> u32 {
    if is_dir {
        perm.dmode
    } else {
        perm.fmode
    }
}

/// What enforcing `perm` on an entry leaves on disk: ownership first, mode
/// second.
pub open spec fn enforce_spec(m: FileMeta, perm: PermMapping, is_dir: bool) -> FileMeta {
    chmod_spec(chown_spec(m, perm.uid, perm.gid), select_mode(perm, is_dir))
}

/// The metadata after an ownership change to `uid:gid`.
pub fn chown_meta(m: FileMeta, uid: u32, gid: u32) -> (r: FileMeta)
    ensures
        r == chown_spec(m, uid, gid),
{
    FileMeta { uid, gid, mode: m.mode & !SETID_BITS }
}

/// The metadata after a mode change to `mode`.
pub fn chmod_meta(m: FileMeta, mode: u32) -> (r: FileMeta)
    ensures
        r == chmod_spec(m, mode),
{
    FileMeta { uid: m.uid, gid: m.gid, mode: mode & MODE_BITS }
}

/// The metadata after enforcing `perm` on an entry that had metadata `m`:
/// owner set to the rule's `uid:gid`, mode set to the rule's declared mode.
pub fn chown_and_chmod(perm: &PermMapping, m: FileMeta, is_dir: bool) -> (r: FileMeta)
    ensures
        r == enforce_spec(m, *perm, is_dir),
        r.uid == perm.uid && r.gid == perm.gid,
        r.mode == select_mode(*perm, is_dir) & MODE_BITS,
        select_mode(*perm, is_dir) <= MODE_BITS ==> r.mode == select_mode(*perm, is_dir),
{
    let owned = chown_meta(m, perm.uid, perm.gid);
    let done = chmod_meta(owned, if is_dir { perm.dmode } else { perm.fmode });
    proof {
        let sel = select_mode(*perm, is_dir);
        assert(sel <= MODE_BITS ==> sel & MODE_BITS == sel) by (bit_vector);
    }
    done
}

/// Enforcement is idempotent: enforcing the same rule twice in succession on
/// an unchanged entry leaves exactly the metadata a single enforcement does.
pub proof fn lemma_enforce_idempotent(m: FileMeta, perm: PermMapping, is_dir: bool)
    ensures
        enforce_spec(enforce_spec(m, perm, is_dir), perm, is_dir) == enforce_spec(m, perm, is_dir),
{
    let once = enforce_spec(m, perm, is_dir);
    let twice = enforce_spec(once, perm, is_dir);
    assert(twice.mode == once.mode);
}

} // verus!
