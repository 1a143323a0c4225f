use crate::error::EzError;
use crate::file::EzFile;
use crate::file::FileMode;
use crate::provider::ChildKind;
use crate::provider::EzMetadata;
use crate::provider::FsProvider;
use crate::provider::RawChild;
use vstd::prelude::*;

verus! {

/// One slot of a scanned directory: a file wrapper or a nested directory.
#[derive(Debug)]
pub enum EzEntry {
    File(Box<EzFile>),
    Dir(EzDir),
}

/// A directory that is scanned lazily. `entries == None` means the directory
/// has not been scanned; `Some(v)` (also when `v` is empty) means it was
/// scanned, and `v` holds, in enumeration order, one entry per child that
/// the last scan could classify as a regular file or a directory. Children
/// of any other or of undeterminable type, and children whose open or
/// construction failed, were silently dropped.
///
/// The fields are public so that contracts can speak of them directly; any
/// combination of values is a valid tree.
#[derive(Debug)]
pub struct EzDir {
    pub path: String,
    pub entries: Option<Vec<EzEntry>>,
}

/// How one listed child fared during a shallow scan: a regular file that was
/// opened (with the handle and metadata the provider gave), a directory that
/// was confirmed, or a child that is dropped from the scan.
#[derive(Debug)]
pub enum ScanOutcome {
    FileOpened { path: String, handle: u64, meta: EzMetadata },
    DirFound { path: String },
    Skipped,
}

/// The entries one per-child outcome contributes to a scanned list: an
/// opened file becomes a file entry in read mode, a found directory becomes
/// an unscanned directory node, a skipped child leaves no trace.
pub open spec fn entries_of_one(o: ScanOutcome) -> Seq<EzEntry> {
    match o {
        ScanOutcome::FileOpened { path, handle, meta } => seq![
            EzEntry::File(Box::new(EzFile { path, handle, mode: FileMode::Read, meta })),
        ],
        ScanOutcome::DirFound { path } => seq![EzEntry::Dir(EzDir { path, entries: None })],
        ScanOutcome::Skipped => Seq::empty(),
    }
}

/// The sequence of entries a scan stores for a sequence of per-child
/// outcomes, in order.
pub open spec fn entries_of_outcomes(s: Seq<ScanOutcome>) -> Seq<EzEntry>
    decreases s.len(),
{
    if s.len() == 0 {
        Seq::empty()
    } else {
        entries_of_outcomes(s.drop_last()) + entries_of_one(s.last())
    }
}

/// How many outcomes of `s` are kept by a scan (files opened or directories
/// found, as opposed to skipped children).
pub open spec fn kept_count(s: Seq<ScanOutcome>) -> nat
    decreases s.len(),
{
    if s.len() == 0 {
        0
    } else {
        kept_count(s.drop_last()) + (if s.last() is Skipped {
            0nat
        } else {
            1nat
        })
    }
}

/// A scan stores exactly one entry per kept child: dropped children shrink
/// the list, they never surface as errors.
pub proof fn lemma_entries_of_outcomes_len(s: Seq<ScanOutcome>)
    ensures
        entries_of_outcomes(s).len() == kept_count(s),
    decreases s.len(),
{
    if s.len() > 0 {
        lemma_entries_of_outcomes_len(s.drop_last());
    }
}

/// Entries fresh from a shallow scan: every file is in read mode and every
/// directory is unscanned.
pub open spec fn fresh_entries(s: Seq<EzEntry>) -> bool {
    forall|i: int|
        0 <= i < s.len() ==> match #[trigger] s[i] {
            EzEntry::File(f) => f.mode == FileMode::Read,
            EzEntry::Dir(d) => d.entries is None,
        }
}

/// What a scan stores is always fresh.
pub proof fn lemma_entries_of_outcomes_fresh(s: Seq<ScanOutcome>)
    ensures
        fresh_entries(entries_of_outcomes(s)),
    decreases s.len(),
{
    if s.len() > 0 {
        lemma_entries_of_outcomes_fresh(s.drop_last());
    }
}

/// The files a depth-first traversal of a sequence of entries yields, in
/// order: files as they stand, directories by whatever their current
/// entries hold.
pub open spec fn flat_files_of_entries(s: Seq<EzEntry>) -> Seq<EzFile>
    decreases s,
{
    if s.len() == 0 {
        Seq::empty()
    } else {
        flat_files_of_entries(s.drop_last()) + flat_files_of_entry(s.last())
    }
}

/// The files one entry yields: a file yields itself; a directory yields the
/// files of its currently held entries, and an unscanned directory yields
/// none.
pub open spec fn flat_files_of_entry(e: EzEntry) -> Seq<EzFile>
    decreases e,
{
    match e {
        EzEntry::File(f) => seq![*f],
        EzEntry::Dir(d) => flat_files_of_dir(d),
    }
}

/// The files a directory tree yields, in depth-first order, respecting the
/// scan state of every subtree: unscanned parts contribute nothing.
pub open spec fn flat_files_of_dir(d: EzDir) -> Seq<EzFile>
    decreases d,
{
    match d.entries {
        None => Seq::empty(),
        Some(v) => flat_files_of_entries(v@),
    }
}

/// An unscanned directory flattens to nothing.
pub proof fn lemma_flatten_unscanned(d: EzDir)
    requires
        d.entries is None,
    ensures
        flat_files_of_dir(d) == Seq::<EzFile>::empty(),
{
}

/// The files stored directly in an entry list, in order, ignoring
/// subdirectories altogether.
pub open spec fn top_level_files(s: Seq<EzEntry>) -> Seq<EzFile>
    decreases s.len(),
{
    if s.len() == 0 {
        Seq::empty()
    } else {
        top_level_files(s.drop_last()) + (match s.last() {
            EzEntry::File(f) => seq![*f],
            EzEntry::Dir(_) => Seq::empty(),
        })
    }
}

/// In an entry list whose subdirectories are all unscanned, a depth-first
/// flattening yields exactly the files of the list itself: an unscanned
/// subdirectory contributes zero files.
pub proof fn lemma_flatten_entries_shallow(s: Seq<EzEntry>)
    requires
        forall|i: int|
            0 <= i < s.len() ==> ((#[trigger] s[i]) matches EzEntry::Dir(c)
                ==> c.entries is None),
    ensures
        flat_files_of_entries(s) == top_level_files(s),
    decreases s.len(),
{
    if s.len() > 0 {
        assert(s.drop_last() =~= s.subrange(0, s.len() - 1));
        assert(forall|i: int| 0 <= i < s.len() - 1 ==> s.drop_last()[i] == s[i]);
        lemma_flatten_entries_shallow(s.drop_last());
        assert(s.last() == s[s.len() - 1]);
        match s[s.len() - 1] {
            EzEntry::File(f) => {
                assert(flat_files_of_entry(s.last()) == seq![*f]);
            },
            EzEntry::Dir(c) => {
                assert(c.entries is None);
                assert(flat_files_of_dir(c) == Seq::<EzFile>::empty());
                assert(flat_files_of_entry(s.last()) == Seq::<EzFile>::empty());
            },
        }
        assert(flat_files_of_entries(s) =~= top_level_files(s));
    }
}

/// A node of which only the top level was scanned flattens to exactly its
/// own file entries, in order: subdirectories, all unscanned, contribute
/// nothing.
pub proof fn lemma_flatten_shallow(d: EzDir)
    requires
        d.entries is Some,
        forall|i: int|
            0 <= i < d.entries->Some_0@.len() ==> ((#[trigger] d.entries->Some_0@[i]) matches
            EzEntry::Dir(c) ==> c.entries is None),
    ensures
        flat_files_of_dir(d) == top_level_files(d.entries->Some_0@),
{
    lemma_flatten_entries_shallow(d.entries->Some_0@);
}

/// What a scan leaves behind: the node after (`new_d`) keeps the path of
/// the node before (`old_d`), and its entries are wholly the classification
/// of this scan's per-child outcomes `oc` — the state before does not enter.
pub open spec fn scan_result(old_d: EzDir, new_d: EzDir, oc: Seq<ScanOutcome>) -> bool {
    &&& new_d.path == old_d.path
    &&& new_d.entries matches Some(v) && v@ == entries_of_outcomes(oc)
}

/// Rescanning replaces, it never merges: two nodes with arbitrarily
/// different prior contents — one may hold an earlier scan, the other
/// nothing — end with the same entries after scans with the same outcomes.
/// What a node held before a scan leaves no trace in what it holds after.
pub proof fn lemma_rescan_replaces(
    a: EzDir,
    b: EzDir,
    n1: EzDir,
    n2: EzDir,
    oc: Seq<ScanOutcome>,
)
    requires
        scan_result(a, n1, oc),
        scan_result(b, n2, oc),
    ensures
        n1.entries->Some_0@ == n2.entries->Some_0@,
{
}

/// The lines the textual rendering of an entry list produces, in entry
/// order: a file contributes its path; a directory contributes its path
/// followed by the rendering of whatever it currently holds — a flat
/// concatenation, with no indentation by depth. An unscanned directory
/// contributes just its path line.
pub open spec fn render_of_entries(s: Seq<EzEntry>) -> Seq<Seq<char>>
    decreases s,
{
    if s.len() == 0 {
        Seq::empty()
    } else {
        render_of_entries(s.drop_last()) + render_of_entry(s.last())
    }
}

/// The lines one entry renders to.
pub open spec fn render_of_entry(e: EzEntry) -> Seq<Seq<char>>
    decreases e,
{
    match e {
        EzEntry::File(f) => seq![f.path@],
        EzEntry::Dir(d) => seq![d.path@] + render_of_dir(d),
    }
}

/// The lines a directory renders to: those of its currently scanned
/// entries, and none when unscanned. Rendering never scans.
pub open spec fn render_of_dir(d: EzDir) -> Seq<Seq<char>>
    decreases d,
{
    match d.entries {
        None => Seq::empty(),
        Some(v) => render_of_entries(v@),
    }
}

/// An unscanned directory renders, as an entry, to just its path line: no
/// children, no error, and no scan as a side effect.
pub proof fn lemma_render_unscanned(d: EzDir)
    requires
        d.entries is None,
    ensures
        render_of_entry(EzEntry::Dir(d)) == seq![d.path@],
{
    assert(render_of_entry(EzEntry::Dir(d)) =~= seq![d.path@]);
}

/// Appends the rendered lines of one entry to `out`.
fn render_entry_into(e: &EzEntry, out: &mut Vec<String>)
    ensures
        final(out).deep_view() == old(out).deep_view() + render_of_entry(*e),
    decreases *e,
{
    let ghost base = out.deep_view();
    match e {
        EzEntry::File(f) => {
            out.push(f.path.clone());
            assert(out.deep_view() =~~= base + render_of_entry(*e));
        },
        EzEntry::Dir(d) => {
            out.push(d.path.clone());
            assert(out.deep_view() =~~= base + seq![d.path@]);
            render_dir_into(d, out);
            assert(out.deep_view() =~~= base + render_of_entry(*e));
        },
    }
}

/// Appends the rendered lines of a directory's current entries to `out`.
#[verifier::loop_isolation(false)]
fn render_dir_into(d: &EzDir, out: &mut Vec<String>)
    ensures
        final(out).deep_view() == old(out).deep_view() + render_of_dir(*d),
    decreases *d,
{
    let ghost base = out.deep_view();
    match &d.entries {
        None => {},
        Some(v) => {
            let ghost v0 = v@;
            let mut i: usize = 0;
            while i < v.len()
                invariant
                    i <= v0.len(),
                    out.deep_view() == base + render_of_entries(v0.take(i as int)),
                decreases v0.len() - i,
            {
                proof {
                    assert(v0.take(i + 1).drop_last() =~= v0.take(i as int));
                    assert(v0.take(i + 1).last() == v0[i as int]);
                    assert(decreases_to!(*d => d.entries));
                    assert(decreases_to!(d.entries => d.entries->Some_0));
                    assert(decreases_to!(d.entries->Some_0 => d.entries->Some_0@));
                    assert(decreases_to!(d.entries->Some_0@ => d.entries->Some_0@[i as int]));
                }
                render_entry_into(&v[i], out);
                i = i + 1;
                assert(out.deep_view() =~~= base + render_of_entries(v0.take(i as int)));
            }
            proof {
                assert(v0.take(v0.len() as int) =~= v0);
            }
        },
    }
}

/// Classifies one listed child, as a shallow scan does: a regular file is
/// opened read-only and its metadata snapshotted; a directory is confirmed
/// by a probe (the same probe a fresh unscanned node is built from); any
/// other or undeterminable kind, and any child whose open, stat or probe
/// fails, is skipped. Skipping is the only effect a per-child failure has.
pub fn classify_child<F: FsProvider>(child: RawChild, fs: &mut F) -> (r: ScanOutcome)
    ensures
        child.kind != Some(ChildKind::File) && child.kind != Some(ChildKind::Dir) ==> r
            is Skipped,
        r matches ScanOutcome::FileOpened { path, handle, meta } ==> child.kind == Some(
            ChildKind::File,
        ) && path == child.path,
        r matches ScanOutcome::DirFound { path } ==> child.kind == Some(ChildKind::Dir) && path
            == child.path,
{
    match child.kind {
        Some(ChildKind::File) => {
            match fs.open_read(child.path.as_str()) {
                Ok(handle) => {
                    match fs.stat(handle) {
                        Ok(meta) => ScanOutcome::FileOpened { path: child.path, handle, meta },
                        Err(_) => ScanOutcome::Skipped,
                    }
                },
                Err(_) => ScanOutcome::Skipped,
            }
        },
        Some(ChildKind::Dir) => {
            if fs.is_directory(child.path.as_str()) {
                ScanOutcome::DirFound { path: child.path }
            } else {
                ScanOutcome::Skipped
            }
        },
        _ => ScanOutcome::Skipped,
    }
}

/// Turns a sequence of per-child outcomes into the entry list a scan stores:
/// exactly `entries_of_outcomes`, computed. This part of a scan depends on
/// nothing but its argument.
pub fn entries_from_outcomes(outcomes: Vec<ScanOutcome>) -> (r: Vec<EzEntry>)
    ensures
        r@ == entries_of_outcomes(outcomes@),
{
    let ghost s0 = outcomes@;
    let mut rest = outcomes;
    let mut out: Vec<EzEntry> = Vec::new();
    let mut i: usize = 0;
    let total: usize = rest.len();
    assert(s0.len() == total);
    while rest.len() > 0
        invariant
            s0.len() <= usize::MAX,
            i + rest@.len() == s0.len(),
            rest@ == s0.subrange(i as int, s0.len() as int),
            out@ == entries_of_outcomes(s0.take(i as int)),
        decreases rest@.len(),
    {
        let o = rest.remove(0);
        proof {
            assert(o == s0[i as int]);
            assert(s0.take(i + 1).drop_last() =~= s0.take(i as int));
            assert(s0.take(i + 1).last() == s0[i as int]);
            assert(rest@ =~= s0.subrange(i + 1, s0.len() as int));
        }
        match o {
            ScanOutcome::FileOpened { path, handle, meta } => {
                out.push(EzEntry::File(Box::new(EzFile { path, handle, mode: FileMode::Read, meta })));
            },
            ScanOutcome::DirFound { path } => {
                out.push(EzEntry::Dir(EzDir { path, entries: None }));
            },
            ScanOutcome::Skipped => {},
        }
        i = i + 1;
        assert(out@ =~= entries_of_outcomes(s0.take(i as int)));
    }
    proof {
        assert(s0.take(s0.len() as int) =~= s0);
    }
    out
}

/// Depth-first collection of one entry: a file moves into `out`; a
/// directory hands over whatever it currently yields.
fn flatten_entry_into(e: EzEntry, out: &mut Vec<EzFile>)
    ensures
        final(out)@ == old(out)@ + flat_files_of_entry(e),
    decreases e,
{
    let ghost e0 = e;
    match e {
        EzEntry::File(f) => {
            proof {
                assert(e0 == EzEntry::File(f));
            }
            out.push(*f);
            assert(out@ =~= old(out)@ + flat_files_of_entry(e0));
        },
        EzEntry::Dir(d) => {
            proof {
                assert(e0 == EzEntry::Dir(d));
                assert(decreases_to!(e0 => e0->Dir_0));
            }
            flatten_dir_into(d, out);
        },
    }
}

/// Depth-first collection: moves every file that `d` currently yields into
/// `out`, consuming the tree.
#[verifier::loop_isolation(false)]
fn flatten_dir_into(d: EzDir, out: &mut Vec<EzFile>)
    ensures
        final(out)@ == old(out)@ + flat_files_of_dir(d),
    decreases d,
{
    let ghost d0 = d;
    let EzDir { path: _, entries } = d;
    match entries {
        None => {},
        Some(mut v) => {
            let ghost vv = d0.entries->Some_0;
            let ghost v0 = v@;
            let ghost base = out@;
            let total: usize = v.len();
            assert(v0.len() == total);
            let mut i: usize = 0;
            while v.len() > 0
                invariant
                    v0.len() <= usize::MAX,
                    i + v@.len() == v0.len(),
                    v@ == v0.subrange(i as int, v0.len() as int),
                    out@ == base + flat_files_of_entries(v0.take(i as int)),
                    v0 == vv@,
                    d0.entries == Some(vv),
                decreases v@.len(),
            {
                let e = v.remove(0);
                proof {
                    assert(e == v0[i as int]);
                    assert(v0.take(i + 1).drop_last() =~= v0.take(i as int));
                    assert(v0.take(i + 1).last() == v0[i as int]);
                    assert(v@ =~= v0.subrange(i + 1, v0.len() as int));
                    assert(decreases_to!(d0 => d0.entries));
                    assert(decreases_to!(d0.entries => d0.entries->Some_0));
                    assert(decreases_to!(vv => vv@));
                    assert(decreases_to!(vv@ => vv@[i as int]));
                    assert(decreases_to!(d0 => e));
                }
                flatten_entry_into(e, out);
                i = i + 1;
                assert(out@ =~= base + flat_files_of_entries(v0.take(i as int)));
            }
            proof {
                assert(v0.take(v0.len() as int) =~= v0);
            }
        },
    }
}

/// The level budget a `walk(depth)` call works with: `depth == 0` means
/// unbounded, which the walk realises as the largest representable bound —
/// no real tree is deep enough to tell the difference, the more so as
/// symbolic links are never followed.
pub open spec fn spec_budget(depth: usize) -> nat {
    if depth == 0 {
        usize::MAX as nat
    } else {
        depth as nat
    }
}

/// The shape a tree has right after `walk` filled it `levels` deep: wherever
/// this node is scanned, a subdirectory `levels + 1` below it is unscanned,
/// and every scanned subdirectory above that bound satisfies the same shape
/// for the levels that remain. (A subdirectory may be unscanned earlier,
/// when its own listing failed: walk absorbs per-entry failures.)
pub open spec fn walk_shape(d: EzDir, levels: nat) -> bool
    decreases levels,
{
    match d.entries {
        None => true,
        Some(v) => forall|i: int|
            0 <= i < v@.len() ==> match #[trigger] v@[i] {
                EzEntry::File(_) => true,
                EzEntry::Dir(c) => if levels == 0 {
                    c.entries is None
                } else {
                    c.entries is Some ==> walk_shape(c, (levels - 1) as nat)
                },
            },
    }
}

/// How one entry before a walk step relates to the entry after it, with
/// `b` levels of budget left below it: files pass through unchanged; a
/// directory keeps its path, stays exactly as it was when its scan failed,
/// and otherwise is scanned with the walked shape for `b` levels.
pub open spec fn walked_entry(e: EzEntry, r: EzEntry, b: nat) -> bool {
    &&& (e is File ==> r == e)
    &&& (e is Dir ==> r is Dir && r->Dir_0.path == e->Dir_0.path)
    &&& (r is Dir ==> (r->Dir_0.entries is None ==> r == e) && (r->Dir_0.entries is Some
        ==> walk_shape(r->Dir_0, b)))
}

/// One walk step on one entry: a directory is rescanned, and with budget
/// left its subdirectories are walked in turn. A failing scan leaves the
/// directory as it was; files are untouched.
fn walk_entry<F: FsProvider>(e: EzEntry, fs: &mut F, budget: usize) -> (r: EzEntry)
    requires
        e matches EzEntry::Dir(d) ==> d.entries is None,
    ensures
        walked_entry(e, r, budget as nat),
    decreases budget, 0int,
{
    let ghost e0 = e;
    match e {
        EzEntry::File(f) => EzEntry::File(f),
        EzEntry::Dir(d) => {
            let ghost d0 = d;
            let EzDir { path, entries } = d;
            match scan_path(path.as_str(), fs) {
                Err(_) => {
                    let kept = EzEntry::Dir(EzDir { path, entries });
                    proof {
                        assert(kept == e0);
                    }
                    kept
                },
                Ok(scanned) => {
                    if budget == 0 {
                        let ghost sc = scanned@;
                        let node = EzDir { path, entries: Some(scanned) };
                        proof {
                            assert forall|i: int| 0 <= i < sc.len() implies match #[trigger] sc[i] {
                                EzEntry::File(_) => true,
                                EzEntry::Dir(c) => c.entries is None,
                            } by {
                                assert(fresh_entries(sc));
                            }
                            assert(walk_shape(node, 0));
                        }
                        EzEntry::Dir(node)
                    } else {
                        let ghost sc = scanned@;
                        let filled = walk_list(scanned, fs, budget - 1);
                        let node = EzDir { path, entries: Some(filled) };
                        proof {
                            assert forall|i: int|
                                0 <= i < filled@.len() implies match #[trigger] filled@[i] {
                                EzEntry::File(_) => true,
                                EzEntry::Dir(c) => c.entries is Some ==> walk_shape(
                                    c,
                                    (budget - 1) as nat,
                                ),
                            } by {
                                assert(walked_entry(sc[i], filled@[i], (budget - 1) as nat));
                            }
                            assert(walk_shape(node, budget as nat));
                        }
                        EzEntry::Dir(node)
                    }
                },
            }
        },
    }
}

/// How a whole entry list before a walk step relates to the list after it:
/// pointwise `walked_entry`, with order and length kept.
pub open spec fn walked_list(before: Seq<EzEntry>, after: Seq<EzEntry>, b: nat) -> bool {
    &&& after.len() == before.len()
    &&& forall|i: int| 0 <= i < before.len() ==> walked_entry(before[i], #[trigger] after[i], b)
}

/// One walk step on a freshly scanned entry list: every directory in it is
/// walked with the given budget; order and files are kept.
#[verifier::loop_isolation(false)]
fn walk_list<F: FsProvider>(v: Vec<EzEntry>, fs: &mut F, budget: usize) -> (r: Vec<EzEntry>)
    requires
        fresh_entries(v@),
    ensures
        walked_list(v@, r@, budget as nat),
    decreases budget, 1int,
{
    let ghost v0 = v@;
    let mut rest = v;
    let mut out: Vec<EzEntry> = Vec::new();
    let total: usize = rest.len();
    assert(v0.len() == total);
    let mut i: usize = 0;
    while rest.len() > 0
        invariant
            i + rest@.len() == v0.len(),
            rest@ == v0.subrange(i as int, v0.len() as int),
            out@.len() == i,
            forall|j: int| 0 <= j < i ==> walked_entry(v0[j], #[trigger] out@[j], budget as nat),
        decreases rest@.len(),
    {
        let e = rest.remove(0);
        proof {
            assert(e == v0[i as int]);
            assert(rest@ =~= v0.subrange(i + 1, v0.len() as int));
        }
        let w = walk_entry(e, fs, budget);
        out.push(w);
        i = i + 1;
    }
    out
}

/// One shallow scan: lists the immediate children of `path` and classifies
/// each, in enumeration order. Fails exactly when the listing itself fails;
/// a per-child failure only drops that child. Every entry of a successful
/// scan is fresh: files in read mode, directories unscanned.
fn scan_path<F: FsProvider>(path: &str, fs: &mut F) -> (r: Result<Vec<EzEntry>, EzError>)
    ensures
        r matches Ok(v) ==> fresh_entries(v@),
        r matches Ok(v) ==> exists|oc: Seq<ScanOutcome>| v@ == entries_of_outcomes(oc),
{
    let mut children = match fs.list_children(path) {
        Ok(c) => c,
        Err(e) => {
            return Err(e);
        },
    };
    let mut outcomes: Vec<ScanOutcome> = Vec::new();
    while children.len() > 0
        decreases children@.len(),
    {
        let child = children.remove(0);
        let outcome = classify_child(child, fs);
        outcomes.push(outcome);
    }
    let entries = entries_from_outcomes(outcomes);
    proof {
        lemma_entries_of_outcomes_fresh(outcomes@);
        assert(entries@ == entries_of_outcomes(outcomes@));
    }
    Ok(entries)
}

impl EzEntry {
    /// Whether this entry is a file.
    pub fn is_file(&self) -> (r: bool)
        ensures
            r == (self is File),
    {
        match self {
            EzEntry::File(_) => true,
            EzEntry::Dir(_) => false,
        }
    }

    /// The line this entry renders to on its own: its path.
    pub fn render_line(&self) -> (r: String)
        ensures
            r@ == (match *self {
                EzEntry::File(f) => f.path@,
                EzEntry::Dir(d) => d.path@,
            }),
    {
        match self {
            EzEntry::File(f) => f.path.clone(),
            EzEntry::Dir(d) => d.path.clone(),
        }
    }

    /// Whether this entry is a directory.
    pub fn is_dir(&self) -> (r: bool)
        ensures
            r == (self is Dir),
    {
        match self {
            EzEntry::File(_) => false,
            EzEntry::Dir(_) => true,
        }
    }
}

impl EzDir {
    /// Applies the outcome of a directory probe: what `new` does once the
    /// provider has answered whether `path` is a directory. A negative
    /// probe always fails with a "not a directory" error. A positive probe
    /// without eager caching always succeeds, with an unscanned node. A
    /// positive probe with eager caching performs one shallow scan and
    /// succeeds exactly when that scan's listing succeeds; the node is then
    /// scanned, one level deep only.
    pub fn from_probe<F: FsProvider>(path: &str, cache: bool, is_dir: bool, fs: &mut F) -> (r:
        Result<EzDir, EzError>)
        ensures
            !is_dir ==> r is Err,
            is_dir && !cache ==> r is Ok,
            r matches Ok(d) ==> d.path@ == path@ && (d.entries is Some <==> cache),
            r matches Ok(d) ==> (cache ==> fresh_entries(d.entries->Some_0@)),
            r matches Ok(d) ==> (cache ==> exists|oc: Seq<ScanOutcome>|
                d.entries->Some_0@ == entries_of_outcomes(oc)),
    {
        if !is_dir {
            return Err(EzError::new("Path is not a directory"));
        }
        if cache {
            match scan_path(path, fs) {
                Ok(v) => {
                    let ghost oc = choose|oc: Seq<ScanOutcome>| v@ == entries_of_outcomes(oc);
                    let node = EzDir { path: path.to_owned(), entries: Some(v) };
                    proof {
                        assert(node.entries->Some_0@ == entries_of_outcomes(oc));
                    }
                    Ok(node)
                },
                Err(e) => Err(e),
            }
        } else {
            Ok(EzDir { path: path.to_owned(), entries: None })
        }
    }

    /// Constructs a directory node for `path`. Fails when the provider says
    /// `path` is not a directory. With `cache` false the node is returned
    /// unscanned; with `cache` true one shallow scan fills it — never more
    /// than one level, whatever the flag.
    pub fn new<F: FsProvider>(path: &str, cache: bool, fs: &mut F) -> (r: Result<EzDir, EzError>)
        ensures
            r matches Ok(d) ==> d.path@ == path@ && (d.entries is Some <==> cache),
            r matches Ok(d) ==> (cache ==> fresh_entries(d.entries->Some_0@)),
            r matches Ok(d) ==> (cache ==> exists|oc: Seq<ScanOutcome>|
                d.entries->Some_0@ == entries_of_outcomes(oc)),
    {
        let is_dir = fs.is_directory(path);
        Self::from_probe(path, cache, is_dir, fs)
    }

    /// Scans this directory now and stores the result, replacing wholesale
    /// whatever was stored before: no merging, no diffing — after a
    /// successful call the entries are exactly what this scan classified.
    /// Fails, leaving the node untouched, exactly when the listing itself
    /// fails; per-child failures only drop children.
    pub fn cache<F: FsProvider>(&mut self, fs: &mut F) -> (r: Result<(), EzError>)
        ensures
            final(self).path == old(self).path,
            r is Ok ==> final(self).entries is Some && fresh_entries(
                final(self).entries->Some_0@,
            ),
            r is Ok ==> exists|oc: Seq<ScanOutcome>| scan_result(*old(self), *final(self), oc),
            r is Err ==> *final(self) == *old(self),
    {
        match scan_path(self.path.as_str(), fs) {
            Ok(v) => {
                let ghost oc = choose|oc: Seq<ScanOutcome>| v@ == entries_of_outcomes(oc);
                self.entries = Some(v);
                proof {
                    assert(scan_result(*old(self), *self, oc));
                }
                Ok(())
            },
            Err(e) => Err(e),
        }
    }

    /// Recursively fills subdirectories down to `depth` levels below this
    /// node; `depth == 0` walks all levels. The node itself is always
    /// rescanned first, also when already cached, and every directory the
    /// walk visits is rescanned wholesale, discarding what it held before.
    /// Fails, leaving the node untouched, only when the node's own listing
    /// fails; a failure below only leaves that subdirectory unscanned.
    pub fn walk<F: FsProvider>(&mut self, depth: usize, fs: &mut F) -> (r: Result<(), EzError>)
        ensures
            final(self).path == old(self).path,
            r is Err ==> *final(self) == *old(self),
            r is Ok ==> final(self).entries is Some && walk_shape(*final(self), spec_budget(depth)),
            r is Ok ==> exists|oc: Seq<ScanOutcome>|
                walked_list(
                    entries_of_outcomes(oc),
                    final(self).entries->Some_0@,
                    (spec_budget(depth) - 1) as nat,
                ),
    {
        let budget: usize = if depth == 0 {
            usize::MAX
        } else {
            depth
        };
        match scan_path(self.path.as_str(), fs) {
            Err(e) => Err(e),
            Ok(v) => {
                let ghost oc = choose|oc: Seq<ScanOutcome>| v@ == entries_of_outcomes(oc);
                let filled = walk_list(v, fs, budget - 1);
                self.entries = Some(filled);
                proof {
                    assert(walk_shape(*self, spec_budget(depth)));
                    assert(walked_list(
                        entries_of_outcomes(oc),
                        self.entries->Some_0@,
                        (spec_budget(depth) - 1) as nat,
                    ));
                }
                Ok(())
            },
        }
    }

    /// Walks every reachable level (`walk(0)`), then flattens: the result
    /// holds every file transitively reachable at walk time, whatever was or
    /// was not cached before — subject only to per-entry failures being
    /// dropped. Fails only when the node's own listing fails.
    pub fn flatten_all<F: FsProvider>(self, fs: &mut F) -> (r: Result<Vec<EzFile>, EzError>)
        ensures
            r matches Ok(files) ==> exists|walked: EzDir|
                walked.path == self.path && walked.entries is Some && walk_shape(
                    walked,
                    spec_budget(0),
                ) && files@ == flat_files_of_dir(walked),
    {
        let mut dir = self;
        match dir.walk(0, fs) {
            Ok(_) => {
                let ghost walked = dir;
                let files = dir.flatten();
                proof {
                    assert(walked.path == self.path && walked.entries is Some && walk_shape(
                        walked,
                        spec_budget(0),
                    ) && files@ == flat_files_of_dir(walked));
                }
                Ok(files)
            },
            Err(e) => Err(e),
        }
    }

    /// Flattens the tree into the ordered list of the files it currently
    /// yields, by a depth-first, entry-order traversal that consumes the
    /// tree. Each subtree contributes exactly what it had cached at call
    /// time; unscanned subtrees contribute nothing.
    pub fn flatten(self) -> (r: Vec<EzFile>)
        ensures
            r@ == flat_files_of_dir(self),
    {
        let mut out: Vec<EzFile> = Vec::new();
        flatten_dir_into(self, &mut out);
        out
    }

    /// The textual rendering of this directory, one line per element:
    /// exactly `render_of_dir`, computed. Rendering never fails and never
    /// scans anything.
    pub fn render_lines(&self) -> (r: Vec<String>)
        ensures
            r.deep_view() == render_of_dir(*self),
    {
        let mut out: Vec<String> = Vec::new();
        render_dir_into(self, &mut out);
        proof {
            assert(out.deep_view() =~~= render_of_dir(*self));
        }
        out
    }

    /// The path this directory stands for.
    pub fn path(&self) -> (r: &str)
        ensures
            r@ == self.path@,
    {
        self.path.as_str()
    }

    /// Whether this directory has been scanned.
    pub fn is_cached(&self) -> (r: bool)
        ensures
            r == (self.entries is Some),
    {
        match self.entries {
            Some(_) => true,
            None => false,
        }
    }

    /// The entry at position `idx` of the scanned list, or `None` when the
    /// directory is unscanned or `idx` is out of range.
    pub fn get(&self, idx: usize) -> (r: Option<&EzEntry>)
        ensures
            match r {
                Some(e) => {
                    &&& self.entries matches Some(v) && idx < v@.len()
                    &&& *e == self.entries->Some_0@[idx as int]
                },
                None => self.entries is None || idx >= self.entries->Some_0@.len(),
            },
    {
        match &self.entries {
            Some(v) => {
                if idx < v.len() {
                    Some(&v[idx])
                } else {
                    None
                }
            },
            None => None,
        }
    }

    /// How many entries the last scan stored, or `None` when unscanned.
    pub fn len(&self) -> (r: Option<usize>)
        ensures
            match r {
                Some(n) => self.entries matches Some(v) && n == v@.len(),
                None => self.entries is None,
            },
    {
        match &self.entries {
            Some(v) => Some(v.len()),
            None => None,
        }
    }

    /// Whether the scanned list is empty, or `None` when unscanned.
    pub fn is_empty(&self) -> (r: Option<bool>)
        ensures
            match r {
                Some(b) => self.entries matches Some(v) && b == (v@.len() == 0),
                None => self.entries is None,
            },
    {
        match &self.entries {
            Some(v) => Some(v.len() == 0),
            None => None,
        }
    }
}

} // verus!

