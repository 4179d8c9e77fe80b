//! Staging of the runner artifacts into the host project.
//!
//! The destination is never merged into: when it exists it is removed whole,
//! then the source tree is copied into a fresh directory and the header is
//! copied over its destination. The caller lists the source tree, performs
//! the planned steps in order and stops at the first one that fails.

use vstd::prelude::*;

use crate::failure::SyncFailure;
use crate::paths::{join, joined, HEADER_SRC, HOST_FRAMEWORK_DST, HOST_HEADER_DST, XCFRAMEWORK_SRC};

verus! {

/// One entry of the source tree, by its path relative to the tree's root.
/// A listing names each directory before anything inside it.
#[derive(Debug, Clone, PartialEq, Eq)]
pub struct TreeEntry {
    pub rel: String,
    pub is_dir: bool,
}

/// One step of staging, with paths relative to the library directories.
#[derive(Debug, Clone, PartialEq, Eq)]
pub enum MirrorStep {
    /// Remove the destination directory and everything under it.
    ClearDest,
    /// Create every missing directory above the destination directory.
    MakeDestParent,
    /// Create the destination directory itself.
    MakeDestRoot,
    /// Create the directory at this path inside the destination.
    MakeDir(String),
    /// Copy the file at this path from the source tree to the destination.
    CopyFile(String),
    /// Create every missing directory above the destination header.
    MakeHeaderParent,
    /// Copy the source header over the destination header.
    CopyHeader,
}

/// The four locations that staging reads and writes.
#[derive(Debug, Clone, PartialEq, Eq)]
pub struct SyncPaths {
    pub src_dir: String,
    pub src_header: String,
    pub dest_dir: String,
    pub dest_header: String,
}

/// What a filesystem operation does.
#[derive(Debug, Clone, Copy, PartialEq, Eq, Structural)]
pub enum FsKind {
    /// Remove `target` and everything under it.
    RemoveTree,
    /// Create every missing directory above `target`.
    CreateParents,
    /// Create the directory `target`, with any missing parents.
    CreateDir,
    /// Copy the file `from` to `target`, replacing it.
    CopyFile,
}

/// A staging step on concrete paths. `from` is empty unless the step copies.
#[derive(Debug, Clone, PartialEq, Eq)]
pub struct FsOp {
    pub kind: FsKind,
    pub from: String,
    pub target: String,
}

/// The step that reproduces one listed entry.
pub open spec fn entry_step(e: TreeEntry) -> MirrorStep {
    if e.is_dir {
        MirrorStep::MakeDir(e.rel)
    } else {
        MirrorStep::CopyFile(e.rel)
    }
}

/// The steps that reproduce a listed tree inside an existing directory.
pub open spec fn copy_steps(listing: Seq<TreeEntry>) -> Seq<MirrorStep> {
    listing.map_values(|e: TreeEntry| entry_step(e))
}

/// The full staging plan: clear a present destination, recreate it from the
/// listing, then place the header.
pub open spec fn sync_steps(dest_present: bool, listing: Seq<TreeEntry>) -> Seq<MirrorStep> {
    (if dest_present {
        seq![MirrorStep::ClearDest]
    } else {
        Seq::empty()
    }) + seq![MirrorStep::MakeDestParent, MirrorStep::MakeDestRoot] + copy_steps(listing) + seq![
        MirrorStep::MakeHeaderParent,
        MirrorStep::CopyHeader,
    ]
}

/// The steps that copy the listed tree, in the listing's order.
pub fn copy_dir(listing: &Vec<TreeEntry>) -> (r: Vec<MirrorStep>)
    ensures
        r@ == copy_steps(listing@),
{
    let mut out: Vec<MirrorStep> = Vec::new();
    let mut i: usize = 0;
    while i < listing.len()
        invariant
            i <= listing@.len(),
            out@ == copy_steps(listing@.subrange(0, i as int)),
        decreases listing@.len() - i,
    {
        let e = &listing[i];
        let step = if e.is_dir {
            MirrorStep::MakeDir(e.rel.clone())
        } else {
            MirrorStep::CopyFile(e.rel.clone())
        };
        out.push(step);
        assert(copy_steps(listing@.subrange(0, i + 1)) =~= copy_steps(
            listing@.subrange(0, i as int),
        ).push(entry_step(listing@[i as int])));
        i = i + 1;
    }
    assert(listing@.subrange(0, listing@.len() as int) =~= listing@);
    out
}

/// Plans staging from what the caller found on disk: whether the source
/// library directory, the source header and the destination directory exist,
/// and the listing of the source directory. Nothing is planned, so nothing
/// at the destination is touched, when a source is missing.
pub fn sync_runner_artifacts(
    lib_present: bool,
    header_present: bool,
    dest_present: bool,
    listing: &Vec<TreeEntry>,
) -> (r: Result<Vec<MirrorStep>, SyncFailure>)
    ensures
        !(lib_present && header_present) ==> r == Err::<Vec<MirrorStep>, SyncFailure>(
            SyncFailure::MissingSource,
        ),
        lib_present && header_present ==> r is Ok && r->Ok_0@ == sync_steps(dest_present, listing@),
{
    if !lib_present || !header_present {
        return Err(SyncFailure::MissingSource);
    }
    let mut steps: Vec<MirrorStep> = Vec::new();
    if dest_present {
        steps.push(MirrorStep::ClearDest);
    }
    steps.push(MirrorStep::MakeDestParent);
    steps.push(MirrorStep::MakeDestRoot);
    let mut copies = copy_dir(listing);
    steps.append(&mut copies);
    steps.push(MirrorStep::MakeHeaderParent);
    steps.push(MirrorStep::CopyHeader);
    assert(steps@ =~= sync_steps(dest_present, listing@));
    Ok(steps)
}

/// The staging locations under the workspace root `root`.
pub fn sync_paths(root: &String) -> (r: SyncPaths)
    ensures
        r.src_dir@ == joined(root@, XCFRAMEWORK_SRC@),
        r.src_header@ == joined(root@, HEADER_SRC@),
        r.dest_dir@ == joined(root@, HOST_FRAMEWORK_DST@),
        r.dest_header@ == joined(root@, HOST_HEADER_DST@),
{
    SyncPaths {
        src_dir: join(root, XCFRAMEWORK_SRC),
        src_header: join(root, HEADER_SRC),
        dest_dir: join(root, HOST_FRAMEWORK_DST),
        dest_header: join(root, HOST_HEADER_DST),
    }
}

/// The kind of operation a step performs.
pub open spec fn kind_of(step: MirrorStep) -> FsKind {
    match step {
        MirrorStep::ClearDest => FsKind::RemoveTree,
        MirrorStep::MakeDestParent => FsKind::CreateParents,
        MirrorStep::MakeDestRoot => FsKind::CreateDir,
        MirrorStep::MakeDir(_) => FsKind::CreateDir,
        MirrorStep::CopyFile(_) => FsKind::CopyFile,
        MirrorStep::MakeHeaderParent => FsKind::CreateParents,
        MirrorStep::CopyHeader => FsKind::CopyFile,
    }
}

/// The path a step writes.
pub open spec fn target_of(p: SyncPaths, step: MirrorStep) -> Seq<char> {
    match step {
        MirrorStep::MakeDir(rel) => joined(p.dest_dir@, rel@),
        MirrorStep::CopyFile(rel) => joined(p.dest_dir@, rel@),
        MirrorStep::MakeHeaderParent => p.dest_header@,
        MirrorStep::CopyHeader => p.dest_header@,
        _ => p.dest_dir@,
    }
}

/// The path a step reads; empty for steps that only write.
pub open spec fn source_of(p: SyncPaths, step: MirrorStep) -> Seq<char> {
    match step {
        MirrorStep::CopyFile(rel) => joined(p.src_dir@, rel@),
        MirrorStep::CopyHeader => p.src_header@,
        _ => Seq::empty(),
    }
}

/// The concrete filesystem operation for one staging step.
pub fn resolve(paths: &SyncPaths, step: &MirrorStep) -> (r: FsOp)
    ensures
        r.kind == kind_of(*step),
        r.target@ == target_of(*paths, *step),
        r.from@ == source_of(*paths, *step),
{
    match step {
        MirrorStep::ClearDest => FsOp {
            kind: FsKind::RemoveTree,
            from: String::new(),
            target: paths.dest_dir.clone(),
        },
        MirrorStep::MakeDestParent => FsOp {
            kind: FsKind::CreateParents,
            from: String::new(),
            target: paths.dest_dir.clone(),
        },
        MirrorStep::MakeDestRoot => FsOp {
            kind: FsKind::CreateDir,
            from: String::new(),
            target: paths.dest_dir.clone(),
        },
        MirrorStep::MakeDir(rel) => FsOp {
            kind: FsKind::CreateDir,
            from: String::new(),
            target: join(&paths.dest_dir, rel.as_str()),
        },
        MirrorStep::CopyFile(rel) => FsOp {
            kind: FsKind::CopyFile,
            from: join(&paths.src_dir, rel.as_str()),
            target: join(&paths.dest_dir, rel.as_str()),
        },
        MirrorStep::MakeHeaderParent => FsOp {
            kind: FsKind::CreateParents,
            from: String::new(),
            target: paths.dest_header.clone(),
        },
        MirrorStep::CopyHeader => FsOp {
            kind: FsKind::CopyFile,
            from: paths.src_header.clone(),
            target: paths.dest_header.clone(),
        },
    }
}

/// The failure reported when performing `op` fails: the path it writes.
pub fn op_failure(op: &FsOp) -> (e: SyncFailure)
    ensures
        e == SyncFailure::Io(op.target),
{
    SyncFailure::Io(op.target.clone())
}

/// The files under the destination directory, by relative path, after one
/// step, reading copies from the source files `src`.
pub open spec fn step_files(
    files: Map<Seq<char>, Seq<u8>>,
    src: Map<Seq<char>, Seq<u8>>,
    step: MirrorStep,
) -> Map<Seq<char>, Seq<u8>> {
    match step {
        MirrorStep::ClearDest => Map::empty(),
        MirrorStep::CopyFile(rel) => files.insert(rel@, src[rel@]),
        _ => files,
    }
}

/// The files under the destination directory after performing `steps`.
pub open spec fn staged_files(
    files: Map<Seq<char>, Seq<u8>>,
    src: Map<Seq<char>, Seq<u8>>,
    steps: Seq<MirrorStep>,
) -> Map<Seq<char>, Seq<u8>>
    decreases steps.len(),
{
    if steps.len() == 0 {
        files
    } else {
        step_files(staged_files(files, src, steps.drop_last()), src, steps.last())
    }
}

/// The content of the destination header after performing `steps`
/// (`None`: it does not exist).
pub open spec fn staged_header(
    header: Option<Seq<u8>>,
    src_header: Seq<u8>,
    steps: Seq<MirrorStep>,
) -> Option<Seq<u8>>
    decreases steps.len(),
{
    if steps.len() == 0 {
        header
    } else if steps.last() is CopyHeader {
        Some(src_header)
    } else {
        staged_header(header, src_header, steps.drop_last())
    }
}

/// Whether the file `rel` is named by the listing.
pub open spec fn lists_file(listing: Seq<TreeEntry>, rel: Seq<char>) -> bool {
    exists|i: int| 0 <= i < listing.len() && !listing[i].is_dir && #[trigger] listing[i].rel@ == rel
}

/// The listing names exactly the files of the tree `src`.
pub open spec fn lists(listing: Seq<TreeEntry>, src: Map<Seq<char>, Seq<u8>>) -> bool {
    forall|rel: Seq<char>| #[trigger] src.contains_key(rel) <==> lists_file(listing, rel)
}

/// The listed files of `src`, with their contents.
pub open spec fn listed_files(
    listing: Seq<TreeEntry>,
    src: Map<Seq<char>, Seq<u8>>,
) -> Map<Seq<char>, Seq<u8>> {
    Map::new(|rel: Seq<char>| lists_file(listing, rel), |rel: Seq<char>| src[rel])
}

proof fn lemma_staged_concat(
    files: Map<Seq<char>, Seq<u8>>,
    src: Map<Seq<char>, Seq<u8>>,
    a: Seq<MirrorStep>,
    b: Seq<MirrorStep>,
)
    ensures
        staged_files(files, src, a + b) == staged_files(staged_files(files, src, a), src, b),
    decreases b.len(),
{
    if b.len() == 0 {
        assert(a + b =~= a);
    } else {
        assert((a + b).drop_last() =~= a + b.drop_last());
        lemma_staged_concat(files, src, a, b.drop_last());
    }
}

proof fn lemma_copies_fill_empty(listing: Seq<TreeEntry>, src: Map<Seq<char>, Seq<u8>>)
    ensures
        staged_files(Map::empty(), src, copy_steps(listing)) == listed_files(listing, src),
    decreases listing.len(),
{
    if listing.len() == 0 {
        assert(listed_files(listing, src) =~= Map::empty());
    } else {
        let prev = listing.drop_last();
        let e = listing.last();
        assert(copy_steps(listing).drop_last() =~= copy_steps(prev));
        lemma_copies_fill_empty(prev, src);
        let got = staged_files(Map::empty(), src, copy_steps(listing));
        assert forall|rel: Seq<char>| lists_file(listing, rel) <==> (lists_file(prev, rel) || (
        !e.is_dir && e.rel@ == rel)) by {
            if lists_file(listing, rel) {
                let i = choose|i: int|
                    0 <= i < listing.len() && !listing[i].is_dir && #[trigger] listing[i].rel@
                        == rel;
                if i < prev.len() {
                    assert(prev[i] == listing[i]);
                }
            }
            if lists_file(prev, rel) {
                let i = choose|i: int|
                    0 <= i < prev.len() && !prev[i].is_dir && #[trigger] prev[i].rel@ == rel;
                assert(listing[i] == prev[i]);
            }
            if !e.is_dir && e.rel@ == rel {
                assert(listing[listing.len() - 1] == e);
            }
        }
        assert(got =~= listed_files(listing, src));
    }
}

proof fn lemma_tail_keeps_files(
    files: Map<Seq<char>, Seq<u8>>,
    src: Map<Seq<char>, Seq<u8>>,
)
    ensures
        staged_files(
            files,
            src,
            seq![MirrorStep::MakeHeaderParent, MirrorStep::CopyHeader],
        ) == files,
{
    reveal_with_fuel(staged_files, 3);
    let t = seq![MirrorStep::MakeHeaderParent, MirrorStep::CopyHeader];
    assert(t.drop_last() =~= seq![MirrorStep::MakeHeaderParent]);
    assert(t.drop_last().drop_last() =~= Seq::<MirrorStep>::empty());
}

proof fn lemma_head_clears(
    dest_present: bool,
    files: Map<Seq<char>, Seq<u8>>,
    src: Map<Seq<char>, Seq<u8>>,
)
    requires
        dest_present || files == Map::<Seq<char>, Seq<u8>>::empty(),
    ensures
        staged_files(
            files,
            src,
            (if dest_present {
                seq![MirrorStep::ClearDest]
            } else {
                Seq::empty()
            }) + seq![MirrorStep::MakeDestParent, MirrorStep::MakeDestRoot],
        ) == Map::<Seq<char>, Seq<u8>>::empty(),
{
    let h: Seq<MirrorStep> = if dest_present {
        seq![MirrorStep::ClearDest]
    } else {
        Seq::empty()
    };
    let t = seq![MirrorStep::MakeDestParent, MirrorStep::MakeDestRoot];
    reveal_with_fuel(staged_files, 3);
    lemma_staged_concat(files, src, h, t);
    assert(t.drop_last() =~= seq![MirrorStep::MakeDestParent]);
    assert(t.drop_last().drop_last() =~= Seq::<MirrorStep>::empty());
    if dest_present {
        assert(h.drop_last() =~= Seq::<MirrorStep>::empty());
    }
}

proof fn lemma_plan_files(
    dest_present: bool,
    listing: Seq<TreeEntry>,
    src: Map<Seq<char>, Seq<u8>>,
    files: Map<Seq<char>, Seq<u8>>,
)
    requires
        dest_present || files == Map::<Seq<char>, Seq<u8>>::empty(),
    ensures
        staged_files(files, src, sync_steps(dest_present, listing)) == listed_files(listing, src),
{
    let h: Seq<MirrorStep> = (if dest_present {
        seq![MirrorStep::ClearDest]
    } else {
        Seq::empty()
    }) + seq![MirrorStep::MakeDestParent, MirrorStep::MakeDestRoot];
    let c = copy_steps(listing);
    let t = seq![MirrorStep::MakeHeaderParent, MirrorStep::CopyHeader];
    assert(sync_steps(dest_present, listing) =~= (h + c) + t);
    lemma_staged_concat(files, src, h + c, t);
    lemma_staged_concat(files, src, h, c);
    lemma_head_clears(dest_present, files, src);
    lemma_copies_fill_empty(listing, src);
    lemma_tail_keeps_files(staged_files(files, src, h + c), src);
}

proof fn lemma_plan_header(
    dest_present: bool,
    listing: Seq<TreeEntry>,
    header: Option<Seq<u8>>,
    src_header: Seq<u8>,
)
    ensures
        staged_header(header, src_header, sync_steps(dest_present, listing)) == Some(src_header),
{
    let steps = sync_steps(dest_present, listing);
    assert(steps.last() == MirrorStep::CopyHeader);
}

/// After staging, whatever the destination held before, its files are
/// exactly the files of the source tree with their contents, and the
/// destination header holds the source header. A destination that is absent
/// beforehand holds no files.
pub proof fn lemma_staging_mirrors_source(
    dest_present: bool,
    listing: Seq<TreeEntry>,
    src: Map<Seq<char>, Seq<u8>>,
    src_header: Seq<u8>,
    before: Map<Seq<char>, Seq<u8>>,
    before_header: Option<Seq<u8>>,
)
    requires
        lists(listing, src),
        dest_present || before == Map::<Seq<char>, Seq<u8>>::empty(),
    ensures
        staged_files(before, src, sync_steps(dest_present, listing)) == src,
        staged_header(before_header, src_header, sync_steps(dest_present, listing)) == Some(
            src_header,
        ),
{
    lemma_plan_files(dest_present, listing, src, before);
    assert(listed_files(listing, src) =~= src);
    lemma_plan_header(dest_present, listing, before_header, src_header);
}

/// Staging into an absent destination gives the same files and header as
/// staging over any stale destination.
pub proof fn lemma_staging_ignores_stale(
    listing: Seq<TreeEntry>,
    src: Map<Seq<char>, Seq<u8>>,
    src_header: Seq<u8>,
    stale: Map<Seq<char>, Seq<u8>>,
    stale_header: Option<Seq<u8>>,
)
    ensures
        staged_files(Map::empty(), src, sync_steps(false, listing)) == staged_files(
            stale,
            src,
            sync_steps(true, listing),
        ),
        staged_header(None, src_header, sync_steps(false, listing)) == staged_header(
            stale_header,
            src_header,
            sync_steps(true, listing),
        ),
{
    lemma_plan_files(false, listing, src, Map::empty());
    lemma_plan_files(true, listing, src, stale);
    lemma_plan_header(false, listing, None, src_header);
    lemma_plan_header(true, listing, stale_header, src_header);
}

} // verus!
