//! The sync engine's decisions: the per-descriptor pull and push entry
//! points, the executor's plan, and the directory-walk rules.

use vstd::prelude::*;

use crate::config::Config;
use crate::errors::SyncError;
use crate::runner::render;
use crate::store::store_readable;

verus! {

/// Pull one descriptor's resource, given the resource file's current bytes:
/// the serialized content for the associated data file, with the byte count
/// the file is to be truncated to. Raw bytes always pull; the settings
/// store pulls exactly when its file is readable.
pub fn pull(config: &Config, resource: &Vec<u8>) -> (r: Result<(Vec<u8>, usize), SyncError>)
    ensures
        config.is_bytes() ==> (r matches Ok(p) && p.0@ == resource@ && p.1 == resource@.len()),
        !config.is_bytes() ==> (r is Ok <==> store_readable(resource@)),
        !config.is_bytes() ==> match r {
            Ok(p) => p.0@ == render(resource@, config.exclude_spec()) && p.1 == p.0@.len(),
            Err(e) => e is StoreReadFailure,
        },
{
    config.target.style.pull(resource)
}

/// Push the associated data file's bytes into the resource: the resource's
/// exact new content. The settings-store backend is pull-only, and rejects
/// the push direction outright rather than silently succeeding.
pub fn push(config: &Config, source: &Vec<u8>) -> (r: Result<Vec<u8>, SyncError>)
    ensures
        r is Ok <==> config.is_bytes(),
        config.is_bytes() ==> (r matches Ok(out) && out@ == source@),
        !config.is_bytes() ==> (r matches Err(e) && e is PushUnsupported),
{
    config.target.style.push(source)
}

/// The executor's decisions that precede any resource work on one
/// descriptor path.
pub struct SyncPlan {
    /// The associated data file: the descriptor path, extension stripped.
    pub associated: Vec<u8>,
    /// The descriptor's directory, the base for resource resolution.
    pub base_dir: Vec<u8>,
}

/// Plan one descriptor's sync: enforce the naming convention, name the
/// associated data file, and name the directory resource paths resolve
/// against.
pub fn plan_sync(path: &Vec<u8>) -> (r: Result<SyncPlan, SyncError>)
    ensures
        match r {
            Ok(p) => crate::paths::has_descriptor_ext(path@) && crate::paths::parent_of(path@)
                == Some(p.base_dir@) && p.associated@ == crate::paths::associated_of(path@),
            Err(e) => match e {
                SyncError::InvalidDescriptorKind => !crate::paths::has_descriptor_ext(path@),
                SyncError::NoParentDirectory => crate::paths::has_descriptor_ext(path@)
                    && crate::paths::parent_of(path@) is None,
                _ => false,
            },
        },
{
    if !crate::paths::check_descriptor_ext(path) {
        return Err(SyncError::InvalidDescriptorKind);
    }
    let base_dir = match crate::paths::parent_dir(path) {
        Some(d) => d,
        None => return Err(SyncError::NoParentDirectory),
    };
    let associated = crate::paths::associated_path(path);
    Ok(SyncPlan { associated, base_dir })
}

/// What a directory entry is, as the walker sees it.
#[derive(Clone, Copy, Debug, PartialEq, Eq, Structural)]
pub enum EntryKind {
    Directory,
    File,
    Other,
}

/// What the walker does with one entry.
#[derive(Clone, Copy, Debug, PartialEq, Eq, Structural)]
pub enum EntryAction {
    Recurse,
    Sync,
    Skip,
}

/// The walk rule for one directory entry: recurse into a subdirectory only
/// when asked to, sync exactly the plain files carrying the descriptor
/// extension, and silently skip everything else.
pub fn classify_entry(name: &Vec<u8>, kind: EntryKind, recursive: bool) -> (r: EntryAction)
    ensures
        r == EntryAction::Recurse <==> (kind == EntryKind::Directory && recursive),
        r == EntryAction::Sync <==> (kind == EntryKind::File && crate::paths::has_descriptor_ext(
            name@,
        )),
{
    match kind {
        EntryKind::Directory => if recursive {
            EntryAction::Recurse
        } else {
            EntryAction::Skip
        },
        EntryKind::File => if crate::paths::check_descriptor_ext(name) {
            EntryAction::Sync
        } else {
            EntryAction::Skip
        },
        EntryKind::Other => EntryAction::Skip,
    }
}

/// A directory batch's aggregate outcome, over the recorded result of
/// every attempted entry: success exactly when each attempt succeeded, the
/// empty batch included. A single recorded failure makes the whole walk
/// fail — distinctly from empty success — while the attempts themselves
/// were never cut short: the walker records and moves on, and only this
/// final decision looks back at the whole batch.
pub fn batch_outcome(outcomes: &Vec<bool>) -> (r: Result<(), SyncError>)
    ensures
        r is Ok <==> (forall|i: int| 0 <= i < outcomes@.len() ==> outcomes@[i]),
        (exists|i: int| 0 <= i < outcomes@.len() && !outcomes@[i]) ==> (r matches Err(e)
            && e is BatchFailed),
{
    let mut i: usize = 0;
    while i < outcomes.len()
        invariant
            i <= outcomes@.len(),
            forall|j: int| 0 <= j < i ==> outcomes@[j],
        decreases outcomes@.len() - i,
    {
        if !outcomes[i] {
            return Err(SyncError::BatchFailed);
        }
        i = i + 1;
    }
    Ok(())
}

/// What the target path names on disk, as the caller found it.
#[derive(Clone, Copy, Debug, PartialEq, Eq, Structural)]
pub enum TargetKind {
    File,
    Directory,
    Missing,
    Other,
}

/// How a sync run proceeds on the target.
#[derive(Clone, Copy, Debug, PartialEq, Eq, Structural)]
pub enum SyncMode {
    Single,
    Batch,
}

/// Decide how the target path is handled: one descriptor, a directory
/// batch, or a refusal naming what is wrong.
pub fn dispatch_target(kind: TargetKind) -> (r: Result<SyncMode, SyncError>)
    ensures
        kind == TargetKind::File <==> (r matches Ok(m) && m == SyncMode::Single),
        kind == TargetKind::Directory <==> (r matches Ok(m) && m == SyncMode::Batch),
        kind == TargetKind::Missing <==> (r matches Err(e) && e is NotFound),
        kind == TargetKind::Other <==> (r matches Err(e) && e is NotFileOrDirectory),
{
    match kind {
        TargetKind::File => Ok(SyncMode::Single),
        TargetKind::Directory => Ok(SyncMode::Batch),
        TargetKind::Missing => Err(SyncError::NotFound),
        TargetKind::Other => Err(SyncError::NotFileOrDirectory),
    }
}

} // verus!
