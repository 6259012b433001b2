//! Byte-string paths and path-boundary prefix matching.
//!
//! A path is a sequence of bytes as the kernel reports it; `/` separates
//! components. A prefix matches a path only at a component boundary: `/etc`
//! is a prefix of `/etc/hosts` but not of `/etcetera`.

use vstd::prelude::*;

verus! {

/// The path separator byte, `/`.
pub const SEP: u8 = 47;

/// `prefix` is a path-boundary prefix of `p`: `p` starts with the bytes of
/// `prefix`, and the match ends exactly at the end of `p`, at a separator in
/// `p`, or at a separator that ends `prefix` itself.
pub open spec fn is_path_prefix(prefix: Seq<u8>, p: Seq<u8>) -> bool {
    &&& prefix.len() <= p.len()
    &&& p.subrange(0, prefix.len() as int) == prefix
    &&& {
        ||| p.len() == prefix.len()
        ||| p[prefix.len() as int] == SEP
        ||| (prefix.len() > 0 && prefix[prefix.len() - 1] == SEP)
    }
}

/// `dir` joined with the relative name `name`; an empty name denotes the
/// directory itself.
pub open spec fn join_rel(dir: Seq<u8>, name: Seq<u8>) -> Seq<u8> {
    if name.len() == 0 {
        dir
    } else {
        dir + seq![SEP] + name
    }
}

/// A copy of a byte vector, with its contents pinned down.
pub fn clone_bytes(v: &Vec<u8>) -> (r: Vec<u8>)
    ensures
        r@ == v@,
{
    let mut r: Vec<u8> = Vec::new();
    let mut i: usize = 0;
    while i < v.len()
        invariant
            i <= v.len(),
            r@ == v@.subrange(0, i as int),
        decreases v.len() - i,
    {
        r.push(v[i]);
        i += 1;
        proof {
            assert(r@ =~= v@.subrange(0, i as int));
        }
    }
    proof {
        assert(v@.subrange(0, v.len() as int) =~= v@);
    }
    r
}

/// Whether `path` has `prefix` as a path-boundary prefix, as
/// `is_path_prefix` defines it.
pub fn path_starts_with(path: &Vec<u8>, prefix: &Vec<u8>) -> (r: bool)
    ensures
        r == is_path_prefix(prefix@, path@),
{
    if prefix.len() > path.len() {
        return false;
    }
    let mut i: usize = 0;
    while i < prefix.len()
        invariant
            i <= prefix.len() <= path.len(),
            forall|j: int| 0 <= j < i ==> path@[j] == prefix@[j],
        decreases prefix.len() - i,
    {
        if path[i] != prefix[i] {
            return false;
        }
        i += 1;
    }
    proof {
        assert(path@.subrange(0, prefix.len() as int) =~= prefix@);
    }
    if path.len() == prefix.len() {
        true
    } else if path[prefix.len()] == SEP {
        true
    } else if prefix.len() > 0 && prefix[prefix.len() - 1] == SEP {
        true
    } else {
        false
    }
}

/// `dir` joined with the relative name `name`, as `join_rel` defines it.
pub fn join_path(dir: &Vec<u8>, name: &Vec<u8>) -> (r: Vec<u8>)
    ensures
        r@ == join_rel(dir@, name@),
{
    if name.len() == 0 {
        return clone_bytes(dir);
    }
    let mut r = clone_bytes(dir);
    r.push(SEP);
    let mut i: usize = 0;
    while i < name.len()
        invariant
            i <= name.len(),
            r@ == dir@ + seq![SEP] + name@.subrange(0, i as int),
        decreases name.len() - i,
    {
        r.push(name[i]);
        i += 1;
        proof {
            assert(r@ =~= dir@ + seq![SEP] + name@.subrange(0, i as int));
        }
    }
    proof {
        assert(name@.subrange(0, name.len() as int) =~= name@);
    }
    r
}

} // verus!
