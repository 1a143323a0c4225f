use ez_fs::ChildKind;
use ez_fs::EzDir;
use ez_fs::EzEntry;
use ez_fs::EzError;
use ez_fs::EzFile;
use ez_fs::EzMetadata;
use ez_fs::EzPermissions;
use ez_fs::FileMode;
use ez_fs::FsProvider;
use ez_fs::RawChild;

/// An in-memory filesystem standing in for the platform collaborator:
/// directories with configurable child listings, files with byte contents,
/// and handle tokens for open files.
struct MockFs {
    dirs: Vec<(String, Vec<(String, Option<ChildKind>)>)>,
    unlistable: Vec<String>,
    files: Vec<(String, Vec<u8>)>,
    handles: Vec<(u64, String, bool)>,
    next_handle: u64,
    meta: EzMetadata,
}

impl MockFs {
    fn new() -> MockFs {
        MockFs {
            dirs: Vec::new(),
            unlistable: Vec::new(),
            files: Vec::new(),
            handles: Vec::new(),
            next_handle: 1,
            meta: EzMetadata {
                accessed: Some(11),
                created: Some(22),
                modified: Some(33),
                permissions: EzPermissions { readonly: false },
            },
        }
    }

    fn set_dir(&mut self, path: &str, children: Vec<(&str, Option<ChildKind>)>) {
        let owned: Vec<(String, Option<ChildKind>)> =
            children.into_iter().map(|(p, k)| (p.to_string(), k)).collect();
        if let Some(slot) = self.dirs.iter_mut().find(|(p, _)| p == path) {
            slot.1 = owned;
        } else {
            self.dirs.push((path.to_string(), owned));
        }
    }

    fn set_file(&mut self, path: &str, content: &[u8]) {
        if let Some(slot) = self.files.iter_mut().find(|(p, _)| p == path) {
            slot.1 = content.to_vec();
        } else {
            self.files.push((path.to_string(), content.to_vec()));
        }
    }

    fn handle_path(&self, handle: u64) -> Option<String> {
        self.handles.iter().find(|(h, _, _)| *h == handle).map(|(_, p, _)| p.clone())
    }
}

impl FsProvider for MockFs {
    fn is_directory(&mut self, path: &str) -> bool {
        self.dirs.iter().any(|(p, _)| p == path) || self.unlistable.iter().any(|p| p == path)
    }

    fn list_children(&mut self, path: &str) -> Result<Vec<RawChild>, EzError> {
        if self.unlistable.iter().any(|p| p == path) {
            return Err(EzError::new("Cannot list children"));
        }
        match self.dirs.iter().find(|(p, _)| p == path) {
            Some((_, children)) => Ok(children
                .iter()
                .map(|(p, k)| RawChild { path: p.clone(), kind: *k })
                .collect()),
            None => Err(EzError::new("Cannot list children")),
        }
    }

    fn open_read(&mut self, path: &str) -> Result<u64, EzError> {
        if self.files.iter().any(|(p, _)| p == path) {
            let h = self.next_handle;
            self.next_handle += 1;
            self.handles.push((h, path.to_string(), false));
            Ok(h)
        } else {
            Err(EzError::new("No such file"))
        }
    }

    fn create_write(&mut self, path: &str) -> Result<u64, EzError> {
        self.set_file(path, b"");
        let h = self.next_handle;
        self.next_handle += 1;
        self.handles.push((h, path.to_string(), true));
        Ok(h)
    }

    fn stat(&mut self, handle: u64) -> Result<EzMetadata, EzError> {
        match self.handle_path(handle) {
            Some(_) => Ok(self.meta),
            None => Err(EzError::new("Bad handle")),
        }
    }

    fn read_handle(&mut self, handle: u64) -> Result<Vec<u8>, EzError> {
        let path = self.handle_path(handle).ok_or(EzError::new("Bad handle"))?;
        match self.files.iter().find(|(p, _)| *p == path) {
            Some((_, data)) => Ok(data.clone()),
            None => Err(EzError::new("No such file")),
        }
    }

    fn write_handle(&mut self, handle: u64, data: &[u8]) -> Result<usize, EzError> {
        let path = self.handle_path(handle).ok_or(EzError::new("Bad handle"))?;
        match self.files.iter_mut().find(|(p, _)| *p == path) {
            Some((_, stored)) => {
                stored.extend_from_slice(data);
                Ok(data.len())
            },
            None => Err(EzError::new("No such file")),
        }
    }

    fn flush_handle(&mut self, _handle: u64) -> Result<(), EzError> {
        Ok(())
    }
}

/// A three-level tree: "." holds two files and a directory "a"; "a" holds a
/// file and a directory "a/b"; "a/b" holds a file and a directory "a/b/c";
/// "a/b/c" holds one file.
fn deep_tree() -> MockFs {
    let mut fs = MockFs::new();
    fs.set_dir(
        ".",
        vec![
            ("f1", Some(ChildKind::File)),
            ("a", Some(ChildKind::Dir)),
            ("f2", Some(ChildKind::File)),
        ],
    );
    fs.set_dir(
        "a",
        vec![("a/f3", Some(ChildKind::File)), ("a/b", Some(ChildKind::Dir))],
    );
    fs.set_dir(
        "a/b",
        vec![("a/b/f4", Some(ChildKind::File)), ("a/b/c", Some(ChildKind::Dir))],
    );
    fs.set_dir("a/b/c", vec![("a/b/c/f5", Some(ChildKind::File))]);
    fs.set_file("f1", b"one");
    fs.set_file("f2", b"two");
    fs.set_file("a/f3", b"three");
    fs.set_file("a/b/f4", b"four");
    fs.set_file("a/b/c/f5", b"five");
    fs
}

fn entry_at<'e>(dir: &'e EzDir, idx: usize) -> &'e EzEntry {
    dir.get(idx).expect("entry expected")
}

fn dir_at<'e>(dir: &'e EzDir, idx: usize) -> &'e EzDir {
    match entry_at(dir, idx) {
        EzEntry::Dir(d) => d,
        EzEntry::File(_) => panic!("directory expected"),
    }
}

fn flat_paths(files: &[EzFile]) -> Vec<String> {
    files.iter().map(|f| f.path().to_string()).collect()
}

#[test]
fn rw_test() {
    let mut fs = MockFs::new();
    let mut file = EzFile::create("foo.txt", &mut fs).unwrap();
    file.write(&mut fs, b"bar").unwrap();

    file.to_read(&mut fs).unwrap();

    let buf = file.read(&mut fs).unwrap();
    assert_eq!(buf, b"bar".to_vec());
    assert_eq!(String::from_utf8(buf).unwrap(), "bar");
}

#[test]
fn dir_test() {
    let mut fs = deep_tree();
    let dir = EzDir::new(".", true, &mut fs).unwrap();
    println!("{dir:?}");
}

#[test]
fn walk_dirs() {
    let mut fs = deep_tree();
    let mut dir = EzDir::new(".", true, &mut fs).unwrap();
    dir.walk(0, &mut fs).unwrap();
    for line in dir.render_lines() {
        println!("{line}");
    }
}

#[test]
fn display_test() {
    let mut fs = deep_tree();
    let dir = EzDir::new(".", true, &mut fs).unwrap();
    let mut idx = 0;
    while let Some(entry) = dir.get(idx) {
        let elem = entry.render_line();
        println!("{elem}");
        idx += 1;
    }
}

#[test]
fn flatten() {
    let mut fs = deep_tree();
    let dir = EzDir::new(".", true, &mut fs).unwrap();
    let files = dir.flatten();
    for file in files {
        println!("{file:?}");
    }
}

#[test]
fn new_on_non_directory_fails() {
    let mut fs = deep_tree();
    assert!(EzDir::new("f1", false, &mut fs).is_err());
    assert!(EzDir::new("f1", true, &mut fs).is_err());
    assert!(EzDir::new("missing", false, &mut fs).is_err());
}

#[test]
fn new_on_directory_succeeds_with_requested_cache_state() {
    let mut fs = deep_tree();
    let lazy = EzDir::new(".", false, &mut fs).unwrap();
    assert!(!lazy.is_cached());
    let eager = EzDir::new(".", true, &mut fs).unwrap();
    assert!(eager.is_cached());
    // eager construction scans one level only
    assert!(!dir_at(&eager, 1).is_cached());
}

#[test]
fn unscanned_node_reports_absence() {
    let mut fs = deep_tree();
    let dir = EzDir::new(".", false, &mut fs).unwrap();
    assert_eq!(dir.len(), None);
    assert_eq!(dir.is_empty(), None);
    for i in 0..5 {
        assert!(dir.get(i).is_none());
    }
    assert_eq!(dir.render_lines().len(), 0);
    assert_eq!(dir.flatten().len(), 0);
}

#[test]
fn cache_counts_classifiable_children_only() {
    let mut fs = MockFs::new();
    fs.set_dir(
        ".",
        vec![
            ("r1", Some(ChildKind::File)),
            ("r2", Some(ChildKind::File)),
            ("r3", Some(ChildKind::File)),
            ("sub", Some(ChildKind::Dir)),
            ("link", Some(ChildKind::Other)),
        ],
    );
    fs.set_dir("sub", vec![]);
    fs.set_file("r1", b"");
    fs.set_file("r2", b"");
    fs.set_file("r3", b"");
    let mut dir = EzDir::new(".", false, &mut fs).unwrap();
    dir.cache(&mut fs).unwrap();
    assert!(dir.is_cached());
    assert_eq!(dir.len(), Some(4));
}

#[test]
fn cache_drops_unopenable_and_unclassifiable_children() {
    let mut fs = MockFs::new();
    fs.set_dir(
        ".",
        vec![
            ("present", Some(ChildKind::File)),
            ("ghostly", Some(ChildKind::File)), // no contents: open fails
            ("untyped", None),                  // type query failed
            ("vanished", Some(ChildKind::Dir)), // probe fails: no such dir
        ],
    );
    fs.set_file("present", b"x");
    let mut dir = EzDir::new(".", false, &mut fs).unwrap();
    dir.cache(&mut fs).unwrap();
    assert_eq!(dir.len(), Some(1));
    assert!(entry_at(&dir, 0).is_file());
}

#[test]
fn cache_fails_when_listing_fails() {
    let mut fs = deep_tree();
    let mut dir = EzDir::new(".", false, &mut fs).unwrap();
    fs.dirs.clear(); // the directory disappears from under the node
    assert!(dir.cache(&mut fs).is_err());
    assert!(!dir.is_cached()); // untouched
}

#[test]
fn walk_one_level_leaves_level_two_unscanned() {
    let mut fs = deep_tree();
    let mut dir = EzDir::new(".", false, &mut fs).unwrap();
    dir.walk(1, &mut fs).unwrap();
    let a = dir_at(&dir, 1);
    assert!(a.is_cached());
    let b = dir_at(a, 1);
    assert!(!b.is_cached());
}

#[test]
fn walk_two_levels_scans_through_level_two() {
    let mut fs = deep_tree();
    let mut dir = EzDir::new(".", false, &mut fs).unwrap();
    dir.walk(2, &mut fs).unwrap();
    let a = dir_at(&dir, 1);
    assert!(a.is_cached());
    let b = dir_at(a, 1);
    assert!(b.is_cached());
    let c = dir_at(b, 1);
    assert!(!c.is_cached());
}

#[test]
fn walk_zero_scans_every_level() {
    let mut fs = deep_tree();
    let mut dir = EzDir::new(".", false, &mut fs).unwrap();
    dir.walk(0, &mut fs).unwrap();
    let a = dir_at(&dir, 1);
    let b = dir_at(a, 1);
    let c = dir_at(b, 1);
    assert!(a.is_cached() && b.is_cached() && c.is_cached());
    assert_eq!(c.len(), Some(1));
}

#[test]
fn walk_absorbs_failures_below() {
    let mut fs = deep_tree();
    let mut dir = EzDir::new(".", false, &mut fs).unwrap();
    // "a/b" still answers the directory probe but can no longer be listed
    fs.dirs.retain(|(p, _)| p != "a/b");
    fs.unlistable.push("a/b".to_string());
    assert!(dir.walk(0, &mut fs).is_ok());
    let a = dir_at(&dir, 1);
    assert!(a.is_cached());
    // the unlistable subdirectory is kept, merely unscanned
    let b = dir_at(a, 1);
    assert!(!b.is_cached());
}

#[test]
fn flatten_top_level_only() {
    let mut fs = deep_tree();
    let dir = EzDir::new(".", true, &mut fs).unwrap();
    let files = dir.flatten();
    assert_eq!(flat_paths(&files), vec!["f1".to_string(), "f2".to_string()]);
}

#[test]
fn flatten_respects_cache_state_of_each_subtree() {
    let mut fs = deep_tree();
    let mut dir = EzDir::new(".", false, &mut fs).unwrap();
    dir.walk(1, &mut fs).unwrap();
    // level 1 is scanned, so "a"'s own file shows up; "a/b" is unscanned
    let files = dir.flatten();
    assert_eq!(
        flat_paths(&files),
        vec!["f1".to_string(), "a/f3".to_string(), "f2".to_string()]
    );
}

#[test]
fn flatten_all_collects_every_reachable_file() {
    let mut fs = deep_tree();
    let dir = EzDir::new(".", false, &mut fs).unwrap();
    let files = dir.flatten_all(&mut fs).unwrap();
    assert_eq!(
        flat_paths(&files),
        vec![
            "f1".to_string(),
            "a/f3".to_string(),
            "a/b/f4".to_string(),
            "a/b/c/f5".to_string(),
            "f2".to_string(),
        ]
    );
}

#[test]
fn rescan_reflects_second_state_only() {
    let mut fs = MockFs::new();
    fs.set_dir(
        ".",
        vec![("old1", Some(ChildKind::File)), ("old2", Some(ChildKind::File))],
    );
    fs.set_file("old1", b"");
    fs.set_file("old2", b"");
    let mut dir = EzDir::new(".", false, &mut fs).unwrap();
    dir.cache(&mut fs).unwrap();
    assert_eq!(dir.len(), Some(2));

    // the directory changes on disk: one new child, the old ones gone
    fs.set_dir(".", vec![("fresh", Some(ChildKind::File))]);
    fs.set_file("fresh", b"");
    dir.cache(&mut fs).unwrap();
    assert_eq!(dir.len(), Some(1));
    match entry_at(&dir, 0) {
        EzEntry::File(f) => assert_eq!(f.path(), "fresh"),
        EzEntry::Dir(_) => panic!("file expected"),
    }
}

#[test]
fn render_lists_paths_in_scan_order_without_indentation() {
    let mut fs = deep_tree();
    let mut dir = EzDir::new(".", false, &mut fs).unwrap();
    dir.walk(1, &mut fs).unwrap();
    assert_eq!(
        dir.render_lines(),
        vec![
            "f1".to_string(),
            "a".to_string(),
            "a/f3".to_string(),
            "a/b".to_string(),
            "f2".to_string(),
        ]
    );
}

#[test]
fn entry_kind_predicates() {
    let mut fs = deep_tree();
    let dir = EzDir::new(".", true, &mut fs).unwrap();
    assert!(entry_at(&dir, 0).is_file());
    assert!(!entry_at(&dir, 0).is_dir());
    assert!(entry_at(&dir, 1).is_dir());
    assert!(!entry_at(&dir, 1).is_file());
    assert_eq!(entry_at(&dir, 1).render_line(), "a");
}

#[test]
fn accessors_and_bounds() {
    let mut fs = deep_tree();
    let dir = EzDir::new(".", true, &mut fs).unwrap();
    assert_eq!(dir.path(), ".");
    assert_eq!(dir.len(), Some(3));
    assert_eq!(dir.is_empty(), Some(false));
    assert!(dir.get(2).is_some());
    assert!(dir.get(3).is_none());

    let mut empty_fs = MockFs::new();
    empty_fs.set_dir("void", vec![]);
    let empty = EzDir::new("void", true, &mut empty_fs).unwrap();
    assert_eq!(empty.len(), Some(0));
    assert_eq!(empty.is_empty(), Some(true));
}

#[test]
fn file_metadata_snapshot() {
    let mut fs = MockFs::new();
    fs.set_file("foo.txt", b"abc");
    let file = EzFile::open("foo.txt", &mut fs).unwrap();
    assert_eq!(file.path(), "foo.txt");
    assert_eq!(file.mode(), FileMode::Read);
    assert_eq!(file.accessed().unwrap(), 11);
    assert_eq!(file.created().unwrap(), 22);
    assert_eq!(file.modified().unwrap(), 33);
    assert!(!file.permissions().readonly);
    let (path, _handle, meta) = file.into_raw();
    assert_eq!(path, "foo.txt");
    assert_eq!(meta.created, Some(22));
}

#[test]
fn file_metadata_absent_times_error() {
    let mut fs = MockFs::new();
    fs.meta = EzMetadata {
        accessed: None,
        created: None,
        modified: Some(7),
        permissions: EzPermissions { readonly: true },
    };
    fs.set_file("foo.txt", b"");
    let file = EzFile::open("foo.txt", &mut fs).unwrap();
    assert!(file.accessed().is_err());
    assert!(file.created().is_err());
    assert_eq!(file.modified().unwrap(), 7);
    assert!(file.permissions().readonly);
}

#[test]
fn open_missing_file_fails() {
    let mut fs = MockFs::new();
    let r = EzFile::open("nowhere", &mut fs);
    assert!(r.is_err());
    assert_eq!(r.unwrap_err().message(), "No such file");
}

#[test]
fn mode_switches_reopen_unconditionally() {
    let mut fs = MockFs::new();
    let mut file = EzFile::create("foo.txt", &mut fs).unwrap();
    assert_eq!(file.mode(), FileMode::Write);
    file.write(&mut fs, b"bar").unwrap();
    // switching to write mode again reopens and therefore truncates
    file.to_write(&mut fs).unwrap();
    assert_eq!(file.mode(), FileMode::Write);
    file.to_read(&mut fs).unwrap();
    assert_eq!(file.mode(), FileMode::Read);
    assert_eq!(file.read(&mut fs).unwrap(), b"".to_vec());
}

#[test]
fn outcome_classification_shapes_entries() {
    let meta = EzMetadata {
        accessed: Some(1),
        created: Some(2),
        modified: Some(3),
        permissions: EzPermissions { readonly: false },
    };
    let outcomes = vec![
        ez_fs::ScanOutcome::FileOpened { path: "x".to_string(), handle: 9, meta },
        ez_fs::ScanOutcome::Skipped,
        ez_fs::ScanOutcome::DirFound { path: "y".to_string() },
        ez_fs::ScanOutcome::Skipped,
    ];
    let entries = ez_fs::entries_from_outcomes(outcomes);
    assert_eq!(entries.len(), 2);
    match &entries[0] {
        EzEntry::File(f) => {
            assert_eq!(f.path(), "x");
            assert_eq!(f.mode(), FileMode::Read);
            assert_eq!(f.handle, 9);
        },
        EzEntry::Dir(_) => panic!("file expected"),
    }
    match &entries[1] {
        EzEntry::Dir(d) => {
            assert_eq!(d.path(), "y");
            assert!(!d.is_cached());
        },
        EzEntry::File(_) => panic!("directory expected"),
    }
}

#[test]
fn classify_skips_what_cannot_be_kept() {
    let mut fs = MockFs::new();
    fs.set_file("kept", b"");
    let file_child = RawChild { path: "kept".to_string(), kind: Some(ChildKind::File) };
    let other_child = RawChild { path: "dev".to_string(), kind: Some(ChildKind::Other) };
    let unknown_child = RawChild { path: "odd".to_string(), kind: None };
    assert!(matches!(
        ez_fs::classify_child(file_child, &mut fs),
        ez_fs::ScanOutcome::FileOpened { .. }
    ));
    assert!(matches!(
        ez_fs::classify_child(other_child, &mut fs),
        ez_fs::ScanOutcome::Skipped
    ));
    assert!(matches!(
        ez_fs::classify_child(unknown_child, &mut fs),
        ez_fs::ScanOutcome::Skipped
    ));
}
