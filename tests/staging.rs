use std::collections::BTreeMap;

use ios_xtask::failure::SyncFailure;
use ios_xtask::mirror::{
    copy_dir, op_failure, resolve, sync_paths, sync_runner_artifacts, FsKind, MirrorStep,
    TreeEntry,
};

fn entry(rel: &str, is_dir: bool) -> TreeEntry {
    TreeEntry { rel: rel.to_string(), is_dir }
}

fn listing() -> Vec<TreeEntry> {
    vec![
        entry("A", true),
        entry("A/a.txt", false),
        entry("B", true),
        entry("B/b.txt", false),
    ]
}

fn source() -> BTreeMap<String, String> {
    let mut src = BTreeMap::new();
    src.insert("A/a.txt".to_string(), "alpha".to_string());
    src.insert("B/b.txt".to_string(), "beta".to_string());
    src
}

/// Performs the steps on an in-memory destination: its files and its header.
fn apply(
    steps: &[MirrorStep],
    src: &BTreeMap<String, String>,
    src_header: &str,
    mut files: BTreeMap<String, String>,
    mut header: Option<String>,
) -> (BTreeMap<String, String>, Option<String>) {
    for step in steps {
        match step {
            MirrorStep::ClearDest => files.clear(),
            MirrorStep::CopyFile(rel) => {
                files.insert(rel.clone(), src[rel].clone());
            }
            MirrorStep::CopyHeader => header = Some(src_header.to_string()),
            _ => {}
        }
    }
    (files, header)
}

#[test]
fn stale_destination_is_replaced_by_source_tree() {
    let steps = sync_runner_artifacts(true, true, true, &listing()).unwrap();
    assert_eq!(
        steps,
        vec![
            MirrorStep::ClearDest,
            MirrorStep::MakeDestParent,
            MirrorStep::MakeDestRoot,
            MirrorStep::MakeDir("A".to_string()),
            MirrorStep::CopyFile("A/a.txt".to_string()),
            MirrorStep::MakeDir("B".to_string()),
            MirrorStep::CopyFile("B/b.txt".to_string()),
            MirrorStep::MakeHeaderParent,
            MirrorStep::CopyHeader,
        ]
    );
    let mut stale = BTreeMap::new();
    stale.insert("C/c.txt".to_string(), "stale".to_string());
    let (files, header) = apply(&steps, &source(), "h.h", stale, None);
    assert_eq!(files, source());
    assert!(!files.contains_key("C/c.txt"));
    assert_eq!(header, Some("h.h".to_string()));
}

#[test]
fn absent_destination_gets_no_clear_step() {
    let steps = sync_runner_artifacts(true, true, false, &listing()).unwrap();
    assert_eq!(steps.len(), 8);
    assert_eq!(steps[0], MirrorStep::MakeDestParent);
    assert!(!steps.contains(&MirrorStep::ClearDest));
}

#[test]
fn fresh_and_stale_destinations_end_alike() {
    let fresh = sync_runner_artifacts(true, true, false, &listing()).unwrap();
    let stale_steps = sync_runner_artifacts(true, true, true, &listing()).unwrap();
    let mut stale = BTreeMap::new();
    stale.insert("A/a.txt".to_string(), "old".to_string());
    stale.insert("Z/z.txt".to_string(), "old".to_string());
    let a = apply(&fresh, &source(), "h", BTreeMap::new(), None);
    let b = apply(&stale_steps, &source(), "h", stale, Some("old".to_string()));
    assert_eq!(a, b);
}

#[test]
fn missing_library_or_header_plans_nothing() {
    assert_eq!(
        sync_runner_artifacts(false, true, true, &listing()),
        Err(SyncFailure::MissingSource)
    );
    assert_eq!(
        sync_runner_artifacts(true, false, true, &listing()),
        Err(SyncFailure::MissingSource)
    );
    assert_eq!(
        sync_runner_artifacts(false, false, false, &Vec::new()),
        Err(SyncFailure::MissingSource)
    );
}

#[test]
fn empty_source_tree_still_creates_destination_and_header() {
    let steps = sync_runner_artifacts(true, true, true, &Vec::new()).unwrap();
    assert_eq!(
        steps,
        vec![
            MirrorStep::ClearDest,
            MirrorStep::MakeDestParent,
            MirrorStep::MakeDestRoot,
            MirrorStep::MakeHeaderParent,
            MirrorStep::CopyHeader,
        ]
    );
}

#[test]
fn copy_dir_keeps_listing_order() {
    let steps = copy_dir(&vec![entry("x", false), entry("d", true), entry("d/y", false)]);
    assert_eq!(
        steps,
        vec![
            MirrorStep::CopyFile("x".to_string()),
            MirrorStep::MakeDir("d".to_string()),
            MirrorStep::CopyFile("d/y".to_string()),
        ]
    );
}

#[test]
fn steps_resolve_to_workspace_paths() {
    let paths = sync_paths(&"/w".to_string());
    assert_eq!(paths.src_dir, "/w/target/ios/EframeIos.xcframework");
    assert_eq!(paths.src_header, "/w/target/ios/eframe_ios_runner.h");
    assert_eq!(paths.dest_dir, "/w/ios/runner-smoke/Frameworks/EframeIos.xcframework");
    assert_eq!(paths.dest_header, "/w/ios/runner-smoke/Generated/eframe_ios_runner.h");

    let copy = resolve(&paths, &MirrorStep::CopyFile("A/a.txt".to_string()));
    assert_eq!(copy.kind, FsKind::CopyFile);
    assert_eq!(copy.from, "/w/target/ios/EframeIos.xcframework/A/a.txt");
    assert_eq!(copy.target, "/w/ios/runner-smoke/Frameworks/EframeIos.xcframework/A/a.txt");

    let clear = resolve(&paths, &MirrorStep::ClearDest);
    assert_eq!(clear.kind, FsKind::RemoveTree);
    assert_eq!(clear.target, paths.dest_dir);
    assert_eq!(clear.from, "");

    let header = resolve(&paths, &MirrorStep::CopyHeader);
    assert_eq!(header.kind, FsKind::CopyFile);
    assert_eq!(header.from, paths.src_header);
    assert_eq!(header.target, paths.dest_header);

    let parent = resolve(&paths, &MirrorStep::MakeHeaderParent);
    assert_eq!(parent.kind, FsKind::CreateParents);
    assert_eq!(parent.target, paths.dest_header);

    let dir = resolve(&paths, &MirrorStep::MakeDir("B".to_string()));
    assert_eq!(dir.kind, FsKind::CreateDir);
    assert_eq!(dir.target, "/w/ios/runner-smoke/Frameworks/EframeIos.xcframework/B");
}

#[test]
fn failed_operation_names_its_target() {
    let paths = sync_paths(&"/w".to_string());
    let op = resolve(&paths, &MirrorStep::MakeDestRoot);
    assert_eq!(
        op_failure(&op),
        SyncFailure::Io("/w/ios/runner-smoke/Frameworks/EframeIos.xcframework".to_string())
    );
}
