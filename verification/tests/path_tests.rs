use yoink::errors::{ParseFault, SyncError};
use yoink::parse::parse_descriptor;
use yoink::paths::resolve;
use yoink::sync::{
    batch_outcome, classify_entry, dispatch_target, plan_sync, EntryAction, EntryKind, SyncMode,
    TargetKind,
};

fn v(s: &str) -> Vec<u8> {
    s.as_bytes().to_vec()
}

#[test]
fn plan_names_associated_file_and_base_dir() {
    let p = plan_sync(&v("dir/sub/data.txt.yoink")).unwrap();
    assert_eq!(p.associated, v("dir/sub/data.txt"));
    assert_eq!(p.base_dir, v("dir/sub"));
}

#[test]
fn plan_rejects_wrong_extension() {
    assert!(matches!(plan_sync(&v("dir/data.txt")), Err(SyncError::InvalidDescriptorKind)));
    assert!(matches!(plan_sync(&v("dir/yoink")), Err(SyncError::InvalidDescriptorKind)));
    // a bare ".yoink" is a hidden file, not an extension
    assert!(matches!(plan_sync(&v("dir/.yoink")), Err(SyncError::InvalidDescriptorKind)));
}

#[test]
fn plan_rejects_bare_file_name() {
    assert!(matches!(plan_sync(&v("data.yoink")), Err(SyncError::NoParentDirectory)));
}

#[test]
fn plan_at_root_uses_root_as_base() {
    let p = plan_sync(&v("/data.yoink")).unwrap();
    assert_eq!(p.base_dir, v("/"));
    assert_eq!(p.associated, v("/data"));
}

#[test]
fn resolve_is_relative_to_descriptor_directory() {
    // a descriptor at dir/a.yoink referencing ./blob.bin names dir/blob.bin,
    // independent of whoever calls and of any working directory
    let p = plan_sync(&v("dir/a.yoink")).unwrap();
    assert_eq!(resolve(&p.base_dir, &v("./blob.bin")), v("dir/blob.bin"));
}

#[test]
fn resolve_keeps_absolute_paths() {
    assert_eq!(resolve(&v("dir"), &v("/etc/data")), v("/etc/data"));
}

#[test]
fn resolve_collapses_leading_dot_slash_chains() {
    // a doubled separator after ./ does not turn the path absolute
    assert_eq!(resolve(&v("dir"), &v(".//x")), v("dir/x"));
    assert_eq!(resolve(&v("dir"), &v("././x")), v("dir/x"));
    assert_eq!(resolve(&v("dir"), &v(".///x")), v("dir/x"));
}

#[test]
fn resolve_joins_plain_relative_paths() {
    assert_eq!(resolve(&v("a/b"), &v("c/d")), v("a/b/c/d"));
    assert_eq!(resolve(&v("/"), &v("x")), v("/x"));
    assert_eq!(resolve(&v("a/"), &v("x")), v("a/x"));
}

#[test]
fn subdirectories_are_skipped_without_recursive_flag() {
    assert_eq!(classify_entry(&v("dir/sub"), EntryKind::Directory, false), EntryAction::Skip);
    assert_eq!(classify_entry(&v("dir/sub"), EntryKind::Directory, true), EntryAction::Recurse);
}

#[test]
fn only_descriptor_files_are_synced() {
    assert_eq!(classify_entry(&v("dir/a.yoink"), EntryKind::File, false), EntryAction::Sync);
    assert_eq!(classify_entry(&v("dir/a.txt"), EntryKind::File, false), EntryAction::Skip);
    assert_eq!(classify_entry(&v("dir/a.yoink"), EntryKind::Other, true), EntryAction::Skip);
}

#[test]
fn dispatch_follows_target_kind() {
    assert!(matches!(dispatch_target(TargetKind::File), Ok(SyncMode::Single)));
    assert!(matches!(dispatch_target(TargetKind::Directory), Ok(SyncMode::Batch)));
    assert!(matches!(dispatch_target(TargetKind::Missing), Err(SyncError::NotFound)));
    assert!(matches!(dispatch_target(TargetKind::Other), Err(SyncError::NotFileOrDirectory)));
}

#[test]
fn batch_succeeds_only_without_failures() {
    assert!(batch_outcome(&vec![]).is_ok());
    assert!(batch_outcome(&vec![true, true, true]).is_ok());
    assert!(matches!(batch_outcome(&vec![false]), Err(SyncError::BatchFailed)));
    assert!(matches!(batch_outcome(&vec![true, false, true]), Err(SyncError::BatchFailed)));
}

#[test]
fn one_malformed_descriptor_does_not_stop_the_batch() {
    // three descriptors, the second malformed: each is still attempted, the
    // two good ones parse, the batch as a whole reports failure
    let texts = [
        "[target]\nstyle = \"bytes\"\npath = \"a\"\n",
        "[target]\nstyle = \"nonsense\"\npath = \"b\"\n",
        "[target]\nstyle = \"bytes\"\npath = \"c\"\n",
    ];
    let mut recorded = Vec::new();
    let mut outcomes = Vec::new();
    for t in texts {
        let r = parse_descriptor(&v(t));
        recorded.push(r.is_ok());
        outcomes.push(r);
    }
    assert!(outcomes[0].is_ok());
    assert!(matches!(outcomes[1], Err(ParseFault::UnknownStyle)));
    assert!(outcomes[2].is_ok());
    assert!(matches!(batch_outcome(&recorded), Err(SyncError::BatchFailed)));
}
