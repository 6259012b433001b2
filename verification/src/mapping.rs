//! Prefix-to-policy mapping rules and the permission resolver.
//!
//! Rules are kept in declaration order; when several prefixes match a path,
//! the first declared rule wins.

use vstd::prelude::*;

use crate::paths::is_path_prefix;
use crate::paths::path_starts_with;

verus! {

/// One policy rule: every path under `path` is owned by `uid:gid`, with
/// `fmode` on files and `dmode` on directories.
pub struct PermMapping {
    pub path: Vec<u8>,
    pub uid: u32,
    pub gid: u32,
    pub fmode: u32,
    pub dmode: u32,
}

/// Rule `i` of `rules` governs `p`: its prefix matches `p` at a path
/// boundary.
pub open spec fn rule_matches(rules: Seq<PermMapping>, p: Seq<u8>, i: int) -> bool {
    is_path_prefix(rules[i].path@, p)
}

/// `i` indexes the first rule of `rules` whose prefix matches `p`.
pub open spec fn is_first_match(rules: Seq<PermMapping>, p: Seq<u8>, i: int) -> bool {
    &&& 0 <= i < rules.len()
    &&& rule_matches(rules, p, i)
    &&& forall|j: int| 0 <= j < i ==> !#[trigger] rule_matches(rules, p, j)
}

/// No rule of `rules` matches `p`: the path is unmapped.
pub open spec fn unmapped(rules: Seq<PermMapping>, p: Seq<u8>) -> bool {
    forall|i: int| 0 <= i < rules.len() ==> !#[trigger] rule_matches(rules, p, i)
}

/// The index of the first rule, in declaration order, whose prefix is a
/// path-boundary prefix of `path`; `None` when the path is unmapped.
pub fn resolve(perm_mappings: &Vec<PermMapping>, path: &Vec<u8>) -> (r: Option<usize>)
    ensures
        match r {
            Some(i) => is_first_match(perm_mappings@, path@, i as int),
            None => unmapped(perm_mappings@, path@),
        },
{
    let mut i: usize = 0;
    while i < perm_mappings.len()
        invariant
            i <= perm_mappings.len(),
            forall|j: int| 0 <= j < i ==> !#[trigger] rule_matches(perm_mappings@, path@, j),
        decreases perm_mappings.len() - i,
    {
        if path_starts_with(path, &perm_mappings[i].path) {
            return Some(i);
        }
        i += 1;
    }
    None
}

/// The first rule, in declaration order, whose prefix is a path-boundary
/// prefix of `path`; `None` when the path is unmapped.
pub fn map_permission<'a>(perm_mappings: &'a Vec<PermMapping>, path: &Vec<u8>) -> (r: Option<
    &'a PermMapping,
>)
    ensures
        match r {
            Some(m) => exists|i: int|
                #[trigger] is_first_match(perm_mappings@, path@, i) && m == &perm_mappings@[i],
            None => unmapped(perm_mappings@, path@),
        },
{
    match resolve(perm_mappings, path) {
        Some(i) => Some(&perm_mappings[i]),
        None => None,
    }
}

} // verus!
