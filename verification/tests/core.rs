use permwatch::crawl::{crawl_path, CrawlAction, FsEntry, FsTree};
use permwatch::dispatch::{dispatch_event, DispatchAction, Event, EventKind};
use permwatch::enforce::{chown_and_chmod, chown_meta, FileMeta};
use permwatch::mapping::{map_permission, resolve, PermMapping};
use permwatch::paths::{join_path, path_starts_with};
use permwatch::watch::{add_watch, WatchTable};

fn rule(path: &str, uid: u32, gid: u32, fmode: u32, dmode: u32) -> PermMapping {
    PermMapping { path: path.as_bytes().to_vec(), uid, gid, fmode, dmode }
}

#[test]
fn map_permission_test() {
    let perm_mappings = vec![rule("/etc", 0, 0, 0o644, 0o755), rule("/var", 0, 0, 0o644, 0o755)];

    let path = "/etc/hosts".as_bytes().to_vec();
    let mapping = map_permission(&perm_mappings, &path).unwrap();
    assert_eq!(mapping.path, "/etc".as_bytes().to_vec());
    assert_eq!(mapping.uid, 0);
    assert_eq!(mapping.gid, 0);
    assert_eq!(mapping.fmode, 0o644);
    assert_eq!(mapping.dmode, 0o755);
}

#[test]
fn add_watch_test() {
    let mut watches = WatchTable::new();
    let path = "/tmp".as_bytes().to_vec();

    add_watch(1, path, &mut watches);
    assert_eq!(watches.len(), 1);
}

#[test]
fn chown_and_chmod_test() {
    let perm = rule("/tmp", 1000, 1000, 0o644, 0o755);

    let file_meta = chown_and_chmod(&perm, FileMeta { uid: 0, gid: 0, mode: 0o600 }, false);
    assert_eq!(file_meta.mode & 0o777, 0o644);
    assert_eq!(file_meta.uid, 1000);
    assert_eq!(file_meta.gid, 1000);

    let dir_meta = chown_and_chmod(&perm, FileMeta { uid: 0, gid: 0, mode: 0o700 }, true);
    assert_eq!(dir_meta.mode & 0o777, 0o755);
    assert_eq!(dir_meta.uid, 1000);
    assert_eq!(dir_meta.gid, 1000);
}

#[test]
fn crawl_path_test() {
    let mut watches = WatchTable::new();

    // /tmp/foo holds one subdirectory bar, which holds one file file.txt.
    let tree = FsTree {
        entries: vec![FsEntry::Dir {
            name: "bar".as_bytes().to_vec(),
            sub: FsTree {
                entries: vec![FsEntry::File { name: "file.txt".as_bytes().to_vec() }],
            },
        }],
    };

    let path = "/tmp/foo".as_bytes().to_vec();
    add_watch(1, path.clone(), &mut watches);
    let plan = crawl_path(&tree, &path);
    let mut next_wd = 2;
    for action in &plan {
        if let CrawlAction::Watch { path } = action {
            add_watch(next_wd, path.clone(), &mut watches);
            next_wd += 1;
        }
    }

    assert_eq!(watches.len(), 2);
}

#[test]
fn resolver_first_match_wins() {
    let perm_mappings = vec![
        rule("/srv", 1, 1, 0o600, 0o700),
        rule("/srv/app", 2, 2, 0o644, 0o755),
    ];

    // Both prefixes match; the first declared rule governs.
    let path = "/srv/app/data".as_bytes().to_vec();
    assert_eq!(resolve(&perm_mappings, &path), Some(0));
    let mapping = map_permission(&perm_mappings, &path).unwrap();
    assert_eq!(mapping.uid, 1);
}

#[test]
fn resolver_path_boundary() {
    let etc = "/etc".as_bytes().to_vec();
    assert!(path_starts_with(&"/etc/hosts".as_bytes().to_vec(), &etc));
    assert!(path_starts_with(&"/etc".as_bytes().to_vec(), &etc));
    // A substring match that does not end at a path boundary is no match.
    assert!(!path_starts_with(&"/etcetera".as_bytes().to_vec(), &etc));
    // A prefix that ends in a separator matches at its own boundary.
    let root = "/".as_bytes().to_vec();
    assert!(path_starts_with(&"/anything".as_bytes().to_vec(), &root));
}

#[test]
fn resolver_unmapped() {
    let perm_mappings = vec![rule("/srv/app", 1000, 1000, 0o644, 0o755)];
    let path = "/home/user/file".as_bytes().to_vec();
    assert_eq!(resolve(&perm_mappings, &path), None);
    assert!(map_permission(&perm_mappings, &path).is_none());
}

#[test]
fn enforce_is_idempotent() {
    let perm = rule("/srv", 7, 8, 0o640, 0o750);
    let start = FileMeta { uid: 0, gid: 0, mode: 0o4777 };
    let once = chown_and_chmod(&perm, start, true);
    let twice = chown_and_chmod(&perm, once, true);
    assert_eq!(once, twice);
}

#[test]
fn chown_clears_setid_and_chmod_restores() {
    // An ownership change clears the setuid/setgid bits...
    let owned = chown_meta(FileMeta { uid: 0, gid: 0, mode: 0o4755 }, 1000, 1000);
    assert_eq!(owned.mode, 0o0755);
    // ...which is why enforcement applies the mode second: the declared
    // mode, setid bits included, is what lands.
    let perm = rule("/srv", 1000, 1000, 0o644, 0o2755);
    let meta = chown_and_chmod(&perm, FileMeta { uid: 0, gid: 0, mode: 0o4755 }, true);
    assert_eq!(meta.mode, 0o2755);
}

#[test]
fn crawl_counts_watches_and_enforcements() {
    // Two subdirectories and three non-directory entries.
    let tree = FsTree {
        entries: vec![
            FsEntry::File { name: "a".as_bytes().to_vec() },
            FsEntry::Dir {
                name: "d1".as_bytes().to_vec(),
                sub: FsTree {
                    entries: vec![
                        FsEntry::File { name: "b".as_bytes().to_vec() },
                        FsEntry::Dir {
                            name: "d2".as_bytes().to_vec(),
                            sub: FsTree { entries: vec![] },
                        },
                    ],
                },
            },
            FsEntry::File { name: "c".as_bytes().to_vec() },
        ],
    };
    let base = "/srv".as_bytes().to_vec();
    let plan = crawl_path(&tree, &base);
    let watches = plan.iter().filter(|a| matches!(a, CrawlAction::Watch { .. })).count();
    let enforcements = plan.iter().filter(|a| matches!(a, CrawlAction::Enforce { .. })).count();
    assert_eq!(watches, 2);
    assert_eq!(enforcements, 5);
}

#[test]
fn crawl_plan_order_and_paths() {
    let tree = FsTree {
        entries: vec![FsEntry::Dir {
            name: "sub".as_bytes().to_vec(),
            sub: FsTree {
                entries: vec![FsEntry::File { name: "a.txt".as_bytes().to_vec() }],
            },
        }],
    };
    let base = "/srv/app".as_bytes().to_vec();
    let plan = crawl_path(&tree, &base);
    assert_eq!(plan.len(), 3);
    match &plan[0] {
        CrawlAction::Watch { path } => assert_eq!(path, &"/srv/app/sub".as_bytes().to_vec()),
        _ => panic!("expected a watch first"),
    }
    match &plan[1] {
        CrawlAction::Enforce { path, is_dir } => {
            assert_eq!(path, &"/srv/app/sub".as_bytes().to_vec());
            assert!(*is_dir);
        },
        _ => panic!("expected directory enforcement second"),
    }
    match &plan[2] {
        CrawlAction::Enforce { path, is_dir } => {
            assert_eq!(path, &"/srv/app/sub/a.txt".as_bytes().to_vec());
            assert!(!*is_dir);
        },
        _ => panic!("expected file enforcement third"),
    }
}

#[test]
fn join_path_handles_empty_name() {
    let dir = "/srv/app".as_bytes().to_vec();
    assert_eq!(join_path(&dir, &Vec::new()), dir);
    assert_eq!(
        join_path(&dir, &"sub".as_bytes().to_vec()),
        "/srv/app/sub".as_bytes().to_vec()
    );
}

#[test]
fn dispatcher_scenario_create_enforce_remove() {
    // One rule: /srv/app -> 1000:1000, file mode 0644, directory mode 0755.
    let perm_mappings = vec![rule("/srv/app", 1000, 1000, 0o644, 0o755)];
    let mut watches = WatchTable::new();
    add_watch(1, "/srv/app".as_bytes().to_vec(), &mut watches);
    assert_eq!(watches.len(), 1);

    // Creating /srv/app/sub: a watch is registered, sub gets 1000:1000 and
    // mode 0755, and the table grows to 2.
    let ev = Event {
        wd: 1,
        name: Some("sub".as_bytes().to_vec()),
        kind: EventKind::CreatedOrMovedIn,
        is_dir: true,
    };
    match dispatch_event(&mut watches, &perm_mappings, &ev) {
        DispatchAction::WatchAndCrawl { path, rule } => {
            assert_eq!(path, "/srv/app/sub".as_bytes().to_vec());
            let meta = chown_and_chmod(
                &perm_mappings[rule],
                FileMeta { uid: 0, gid: 0, mode: 0o700 },
                true,
            );
            assert_eq!((meta.uid, meta.gid), (1000, 1000));
            assert_eq!(meta.mode, 0o755);
            add_watch(2, path, &mut watches);
        },
        _ => panic!("expected a watch-and-crawl decision"),
    }
    assert_eq!(watches.len(), 2);

    // Creating /srv/app/sub/a.txt: the file gets 1000:1000 and mode 0644.
    let ev = Event {
        wd: 2,
        name: Some("a.txt".as_bytes().to_vec()),
        kind: EventKind::CreatedOrMovedIn,
        is_dir: false,
    };
    match dispatch_event(&mut watches, &perm_mappings, &ev) {
        DispatchAction::EnforceFile { path, rule } => {
            assert_eq!(path, "/srv/app/sub/a.txt".as_bytes().to_vec());
            let meta = chown_and_chmod(
                &perm_mappings[rule],
                FileMeta { uid: 0, gid: 0, mode: 0o600 },
                false,
            );
            assert_eq!((meta.uid, meta.gid), (1000, 1000));
            assert_eq!(meta.mode, 0o644);
        },
        _ => panic!("expected a file enforcement decision"),
    }
    assert_eq!(watches.len(), 2);

    // Removing /srv/app/sub invalidates its watch: the table returns to 1.
    let ev = Event { wd: 2, name: None, kind: EventKind::Invalidated, is_dir: false };
    match dispatch_event(&mut watches, &perm_mappings, &ev) {
        DispatchAction::DropWatch { path } => {
            assert_eq!(path, "/srv/app/sub".as_bytes().to_vec());
        },
        _ => panic!("expected the watch to be dropped"),
    }
    assert_eq!(watches.len(), 1);
}

#[test]
fn dispatcher_skips_unmapped_and_continues() {
    let perm_mappings = vec![rule("/srv/app", 1000, 1000, 0o644, 0o755)];
    let mut watches = WatchTable::new();
    add_watch(1, "/data".as_bytes().to_vec(), &mut watches);

    // An event path outside every configured prefix: no enforcement, no new
    // watch, the table is untouched.
    let ev = Event {
        wd: 1,
        name: Some("stray".as_bytes().to_vec()),
        kind: EventKind::CreatedOrMovedIn,
        is_dir: true,
    };
    match dispatch_event(&mut watches, &perm_mappings, &ev) {
        DispatchAction::SkipUnmapped { path } => {
            assert_eq!(path, "/data/stray".as_bytes().to_vec());
        },
        _ => panic!("expected the unmapped path to be skipped"),
    }
    assert_eq!(watches.len(), 1);

    // Subsequent events are still processed.
    let ev = Event { wd: 1, name: None, kind: EventKind::Invalidated, is_dir: true };
    match dispatch_event(&mut watches, &perm_mappings, &ev) {
        DispatchAction::DropWatch { .. } => {},
        _ => panic!("expected the watch to be dropped"),
    }
    assert!(watches.is_empty());
}

#[test]
fn watch_table_shrinks_by_two_for_nested_removal() {
    let perm_mappings = vec![rule("/srv", 0, 0, 0o644, 0o755)];
    let mut watches = WatchTable::new();
    add_watch(1, "/srv".as_bytes().to_vec(), &mut watches);
    add_watch(2, "/srv/outer".as_bytes().to_vec(), &mut watches);
    add_watch(3, "/srv/outer/inner".as_bytes().to_vec(), &mut watches);
    assert_eq!(watches.len(), 3);

    // Removing /srv/outer, which held exactly one nested watched
    // subdirectory, delivers two invalidations; the table shrinks by 2.
    let ev = Event { wd: 3, name: None, kind: EventKind::Invalidated, is_dir: true };
    dispatch_event(&mut watches, &perm_mappings, &ev);
    let ev = Event { wd: 2, name: None, kind: EventKind::Invalidated, is_dir: true };
    dispatch_event(&mut watches, &perm_mappings, &ev);
    assert_eq!(watches.len(), 1);
}

#[test]
fn dispatcher_deleted_and_other_are_informational() {
    let perm_mappings = vec![rule("/srv", 0, 0, 0o644, 0o755)];
    let mut watches = WatchTable::new();
    add_watch(1, "/srv".as_bytes().to_vec(), &mut watches);

    let ev = Event {
        wd: 1,
        name: Some("gone.txt".as_bytes().to_vec()),
        kind: EventKind::Deleted,
        is_dir: false,
    };
    match dispatch_event(&mut watches, &perm_mappings, &ev) {
        DispatchAction::NoteDeleted { path, is_dir } => {
            assert_eq!(path, "/srv/gone.txt".as_bytes().to_vec());
            assert!(!is_dir);
        },
        _ => panic!("expected a deletion note"),
    }
    assert_eq!(watches.len(), 1);

    let ev = Event { wd: 1, name: None, kind: EventKind::Other, is_dir: false };
    assert!(matches!(
        dispatch_event(&mut watches, &perm_mappings, &ev),
        DispatchAction::Ignore
    ));
    assert_eq!(watches.len(), 1);
}

#[test]
fn watch_table_lookup_and_removal() {
    let mut watches = WatchTable::new();
    assert!(watches.is_empty());
    add_watch(5, "/a".as_bytes().to_vec(), &mut watches);
    add_watch(9, "/b".as_bytes().to_vec(), &mut watches);
    assert!(watches.contains(5));
    assert_eq!(watches.get(5), Some(&"/a".as_bytes().to_vec()));
    assert_eq!(watches.get(7), None);
    watches.remove(5);
    assert!(!watches.contains(5));
    assert_eq!(watches.len(), 1);
    watches.remove(9);
    assert!(watches.is_empty());
}
