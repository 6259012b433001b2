//! The recursive crawler.
//!
//! A crawl of a directory tree registers a watch on every subdirectory and
//! enforces policy on every entry found. The crawler here turns a tree of
//! entries into the exact sequence of actions to perform: the caller walks
//! the real directory into an `FsTree`, and then executes the plan — watch
//! registrations against the kernel, enforcement against the disk.

use vstd::prelude::*;

use crate::paths::clone_bytes;
use crate::paths::join_path;
use crate::paths::join_rel;

verus! {

/// One entry of a directory tree: a subdirectory with its own entries, or a
/// non-directory entry.
pub enum FsEntry {
    Dir { name: Vec<u8>, sub: FsTree },
    File { name: Vec<u8> },
}

/// A directory's contents. Sibling order is the enumeration order; the crawl
/// follows it.
pub struct FsTree {
    pub entries: Vec<FsEntry>,
}

/// One step of a crawl plan, at the specification level.
pub enum PlanStep {
    Watch(Seq<u8>),
    Enforce(Seq<u8>, bool),
}

/// One action of a crawl plan: register a watch on a directory, or enforce
/// the governing rule on an entry.
pub enum CrawlAction {
    Watch { path: Vec<u8> },
    Enforce { path: Vec<u8>, is_dir: bool },
}

impl View for CrawlAction {
    type V = PlanStep;

    open spec fn view(&self) -> PlanStep {
        match self {
            CrawlAction::Watch { path } => PlanStep::Watch(path@),
            CrawlAction::Enforce { path, is_dir } => PlanStep::Enforce(path@, *is_dir),
        }
    }
}

/// The steps that a sequence of actions performs.
pub open spec fn steps_of(s: Seq<CrawlAction>) -> Seq<PlanStep> {
    s.map_values(|a: CrawlAction| a@)
}

/// The plan for crawling the entries of a directory at `base`: for each
/// subdirectory a watch, directory-mode enforcement, then its own plan; for
/// each non-directory entry file-mode enforcement.
pub open spec fn plan_of_entries(entries: Seq<FsEntry>, base: Seq<u8>) -> Seq<PlanStep>
    decreases entries,
{
    if entries.len() == 0 {
        Seq::empty()
    } else {
        plan_of_entry(entries[0], base) + plan_of_entries(entries.drop_first(), base)
    }
}

/// The plan for one entry of a directory at `base`.
pub open spec fn plan_of_entry(e: FsEntry, base: Seq<u8>) -> Seq<PlanStep>
    decreases e,
{
    match e {
        FsEntry::Dir { name, sub } => seq![
            PlanStep::Watch(join_rel(base, name@)),
            PlanStep::Enforce(join_rel(base, name@), true),
        ] + plan_of_entries(sub.entries@, join_rel(base, name@)),
        FsEntry::File { name } => seq![PlanStep::Enforce(join_rel(base, name@), false)],
    }
}

/// How many subdirectories a directory's entries hold, recursively.
pub open spec fn dir_count(entries: Seq<FsEntry>) -> nat
    decreases entries,
{
    if entries.len() == 0 {
        0
    } else {
        dir_count_entry(entries[0]) + dir_count(entries.drop_first())
    }
}

/// How many subdirectories one entry holds, itself included if it is one.
pub open spec fn dir_count_entry(e: FsEntry) -> nat
    decreases e,
{
    match e {
        FsEntry::Dir { name: _, sub } => 1 + dir_count(sub.entries@),
        FsEntry::File { .. } => 0,
    }
}

/// How many non-directory entries a directory's entries hold, recursively.
pub open spec fn file_count(entries: Seq<FsEntry>) -> nat
    decreases entries,
{
    if entries.len() == 0 {
        0
    } else {
        file_count_entry(entries[0]) + file_count(entries.drop_first())
    }
}

/// How many non-directory entries one entry holds.
pub open spec fn file_count_entry(e: FsEntry) -> nat
    decreases e,
{
    match e {
        FsEntry::Dir { name: _, sub } => file_count(sub.entries@),
        FsEntry::File { .. } => 1,
    }
}

/// How many watch registrations a plan performs.
pub open spec fn watch_count(s: Seq<PlanStep>) -> nat
    decreases s.len(),
{
    if s.len() == 0 {
        0
    } else {
        (if s[0] is Watch {
            1nat
        } else {
            0nat
        }) + watch_count(s.drop_first())
    }
}

/// How many enforcement actions a plan performs.
pub open spec fn enforce_count(s: Seq<PlanStep>) -> nat
    decreases s.len(),
{
    if s.len() == 0 {
        0
    } else {
        (if s[0] is Enforce {
            1nat
        } else {
            0nat
        }) + enforce_count(s.drop_first())
    }
}

proof fn lemma_counts_add(a: Seq<PlanStep>, b: Seq<PlanStep>)
    ensures
        watch_count(a + b) == watch_count(a) + watch_count(b),
        enforce_count(a + b) == enforce_count(a) + enforce_count(b),
    decreases a.len(),
{
    if a.len() == 0 {
        assert(a + b =~= b);
    } else {
        assert((a + b).drop_first() =~= a.drop_first() + b);
        lemma_counts_add(a.drop_first(), b);
    }
}

/// Crawl completeness: the plan for a tree with `dir_count` subdirectories
/// and `file_count` non-directory entries registers exactly `dir_count`
/// watches and performs exactly `dir_count + file_count` enforcement
/// actions.
pub proof fn lemma_crawl_completeness(entries: Seq<FsEntry>, base: Seq<u8>)
    ensures
        watch_count(plan_of_entries(entries, base)) == dir_count(entries),
        enforce_count(plan_of_entries(entries, base)) == dir_count(entries) + file_count(entries),
    decreases entries,
{
    if entries.len() == 0 {
    } else {
        lemma_crawl_entry_completeness(entries[0], base);
        lemma_crawl_completeness(entries.drop_first(), base);
        lemma_counts_add(plan_of_entry(entries[0], base), plan_of_entries(entries.drop_first(), base));
    }
}

proof fn lemma_crawl_entry_completeness(e: FsEntry, base: Seq<u8>)
    ensures
        watch_count(plan_of_entry(e, base)) == dir_count_entry(e),
        enforce_count(plan_of_entry(e, base)) == dir_count_entry(e) + file_count_entry(e),
    decreases e,
{
    match e {
        FsEntry::Dir { name, sub } => {
            let child = join_rel(base, name@);
            let head = seq![PlanStep::Watch(child), PlanStep::Enforce(child, true)];
            lemma_crawl_completeness(sub.entries@, child);
            lemma_counts_add(head, plan_of_entries(sub.entries@, child));
            assert(watch_count(head) == 1) by {
                reveal_with_fuel(watch_count, 3);
            }
            assert(enforce_count(head) == 1) by {
                reveal_with_fuel(enforce_count, 3);
            }
        },
        FsEntry::File { name } => {
            let step = seq![PlanStep::Enforce(join_rel(base, name@), false)];
            assert(watch_count(step) == 0) by {
                reveal_with_fuel(watch_count, 2);
            }
            assert(enforce_count(step) == 1) by {
                reveal_with_fuel(enforce_count, 2);
            }
        },
    }
}

proof fn lemma_plan_snoc(entries: Seq<FsEntry>, e: FsEntry, base: Seq<u8>)
    ensures
        plan_of_entries(entries.push(e), base) == plan_of_entries(entries, base) + plan_of_entry(
            e,
            base,
        ),
    decreases entries.len(),
{
    let p = entries.push(e);
    if entries.len() == 0 {
        assert(p[0] == e);
        assert(p.drop_first() =~= Seq::<FsEntry>::empty());
        assert(plan_of_entries(p.drop_first(), base) == Seq::<PlanStep>::empty());
        assert(plan_of_entries(p, base) =~= plan_of_entry(e, base));
        assert(plan_of_entries(entries, base) + plan_of_entry(e, base) =~= plan_of_entry(e, base));
    } else {
        assert(p[0] == entries[0]);
        assert(p.drop_first() =~= entries.drop_first().push(e));
        lemma_plan_snoc(entries.drop_first(), e, base);
        assert(plan_of_entries(p, base) == plan_of_entry(entries[0], base) + (plan_of_entries(
            entries.drop_first(),
            base,
        ) + plan_of_entry(e, base)));
        assert(plan_of_entries(p, base) =~= plan_of_entries(entries, base) + plan_of_entry(
            e,
            base,
        ));
    }
}

/// The full crawl of a directory tree rooted at `path`: the exact sequence
/// of watch registrations and enforcement actions the crawl performs, in
/// traversal order.
pub fn crawl_path(tree: &FsTree, path: &Vec<u8>) -> (plan: Vec<CrawlAction>)
    ensures
        steps_of(plan@) == plan_of_entries(tree.entries@, path@),
        watch_count(steps_of(plan@)) == dir_count(tree.entries@),
        enforce_count(steps_of(plan@)) == dir_count(tree.entries@) + file_count(tree.entries@),
{
    proof {
        lemma_crawl_completeness(tree.entries@, path@);
    }
    let mut out: Vec<CrawlAction> = Vec::new();
    proof {
        assert(steps_of(out@) =~= Seq::<PlanStep>::empty());
    }
    crawl_entries(tree, path, &mut out);
    proof {
        assert(Seq::<PlanStep>::empty() + plan_of_entries(tree.entries@, path@)
            =~= plan_of_entries(tree.entries@, path@));
    }
    out
}

fn crawl_entries(tree: &FsTree, base: &Vec<u8>, out: &mut Vec<CrawlAction>)
    ensures
        steps_of(final(out)@) == steps_of(old(out)@) + plan_of_entries(tree.entries@, base@),
    decreases *tree,
{
    let ghost entry_seq = tree.entries@;
    let n = tree.entries.len();
    let mut i: usize = 0;
    while i < n
        invariant
            i <= n,
            n == entry_seq.len(),
            tree.entries@ == entry_seq,
            steps_of(out@) == steps_of(old(out)@) + plan_of_entries(
                entry_seq.subrange(0, i as int),
                base@,
            ),
        decreases n - i,
    {
        proof {
            assert(entry_seq.subrange(0, i as int + 1) =~= entry_seq.subrange(0, i as int).push(
                entry_seq[i as int],
            ));
            lemma_plan_snoc(entry_seq.subrange(0, i as int), entry_seq[i as int], base@);
        }
        let ghost done = steps_of(old(out)@) + plan_of_entries(
            entry_seq.subrange(0, i as int),
            base@,
        );
        match &tree.entries[i] {
            FsEntry::Dir { name, sub } => {
                proof {
                    assert(entry_seq[i as int] == FsEntry::Dir { name: *name, sub: *sub });
                }
                let child = join_path(base, name);
                out.push(CrawlAction::Watch { path: clone_bytes(&child) });
                out.push(CrawlAction::Enforce { path: clone_bytes(&child), is_dir: true });
                proof {
                    assert(steps_of(out@) =~= done + seq![
                        PlanStep::Watch(child@),
                        PlanStep::Enforce(child@, true),
                    ]);
                    assert(decreases_to!(*tree => tree.entries));
                    assert(decreases_to!(tree.entries => tree.entries@));
                    assert(decreases_to!(tree.entries@ => tree.entries@[i as int]));
                    assert(decreases_to!(tree.entries@[i as int] => *sub));
                }
                crawl_entries(sub, &child, out);
                proof {
                    assert(plan_of_entry(entry_seq[i as int], base@) == seq![
                        PlanStep::Watch(child@),
                        PlanStep::Enforce(child@, true),
                    ] + plan_of_entries(sub.entries@, child@));
                    assert(steps_of(out@) =~= done + plan_of_entry(entry_seq[i as int], base@));
                    assert(steps_of(out@) =~= steps_of(old(out)@) + plan_of_entries(
                        entry_seq.subrange(0, i as int + 1),
                        base@,
                    ));
                }
            },
            FsEntry::File { name } => {
                proof {
                    assert(entry_seq[i as int] == FsEntry::File { name: *name });
                }
                let child = join_path(base, name);
                out.push(CrawlAction::Enforce { path: child, is_dir: false });
                proof {
                    assert(plan_of_entry(entry_seq[i as int], base@) == seq![
                        PlanStep::Enforce(join_rel(base@, name@), false),
                    ]);
                    assert(steps_of(out@) =~= done + plan_of_entry(entry_seq[i as int], base@));
                    assert(steps_of(out@) =~= steps_of(old(out)@) + plan_of_entries(
                        entry_seq.subrange(0, i as int + 1),
                        base@,
                    ));
                }
            },
        }
        i += 1;
    }
    proof {
        assert(entry_seq.subrange(0, n as int) =~= entry_seq);
    }
}

} // verus!
