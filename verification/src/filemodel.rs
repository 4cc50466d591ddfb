//! The byte-level model of how a sync writes a file.
//!
//! Pull and push both replace a file's content the same way: the new bytes
//! are written from the start over whatever the file held, and the file is
//! then truncated to the reported byte count. The functions here state that
//! discipline over byte sequences, and the lemmas prove the properties the
//! engine owes: replacement is exact, stale trailing bytes never survive,
//! and a pull followed by a push restores the resource.

use vstd::prelude::*;

verus! {

/// Content of a file that held `old_content` after `data` is written over it
/// from the start (without truncation).
pub open spec fn write_over(old_content: Seq<u8>, data: Seq<u8>) -> Seq<u8> {
    if data.len() >= old_content.len() {
        data
    } else {
        data + old_content.skip(data.len() as int)
    }
}

/// Content after truncating `content` to `n` bytes (no effect when `content`
/// is already no longer than `n`).
pub open spec fn shrink_to(content: Seq<u8>, n: nat) -> Seq<u8> {
    if n <= content.len() {
        content.take(n as int)
    } else {
        content
    }
}

/// Content of a file that held `old_content` after a sync writes `data` over
/// it and truncates it to `n` bytes: the whole write-back discipline.
pub open spec fn overwritten(old_content: Seq<u8>, data: Seq<u8>, n: nat) -> Seq<u8> {
    shrink_to(write_over(old_content, data), n)
}

/// A sync that writes `data` and truncates to `data`'s own length replaces
/// the previous content exactly, whatever it was: in particular a previous
/// longer content leaves no trailing stale bytes.
pub proof fn lemma_overwrite_replaces(old_content: Seq<u8>, data: Seq<u8>)
    ensures
        overwritten(old_content, data, data.len()) == data,
{
    if data.len() >= old_content.len() {
        assert(overwritten(old_content, data, data.len()) =~= data);
    } else {
        assert((data + old_content.skip(data.len() as int)).take(data.len() as int) =~= data);
    }
}

/// Pulling the same resource content onto any two previous associated-file
/// contents gives byte-identical results: a second pull of an unchanged
/// resource changes nothing.
pub proof fn lemma_pull_idempotent(previous_a: Seq<u8>, previous_b: Seq<u8>, content: Seq<u8>)
    ensures
        overwritten(previous_a, content, content.len()) == overwritten(
            previous_b,
            content,
            content.len(),
        ),
{
    lemma_overwrite_replaces(previous_a, content);
    lemma_overwrite_replaces(previous_b, content);
}

/// Round trip: pulling a resource of content `content` into the associated
/// file and pushing that file back into a resource of any other previous
/// content leaves the resource holding exactly `content`.
pub proof fn lemma_round_trip(
    content: Seq<u8>,
    previous_associated: Seq<u8>,
    previous_resource: Seq<u8>,
)
    ensures
        ({
            let associated = overwritten(previous_associated, content, content.len());
            overwritten(previous_resource, associated, associated.len()) == content
        }),
{
    lemma_overwrite_replaces(previous_associated, content);
    let associated = overwritten(previous_associated, content, content.len());
    lemma_overwrite_replaces(previous_resource, associated);
}

/// Executable form of the write-back discipline: the content a file of
/// `old_content` holds after `data` is written over it and it is truncated
/// to `n` bytes. Callers applying a sync result to a real file must leave
/// the file with exactly this content.
pub fn apply_write(old_content: &Vec<u8>, data: &Vec<u8>, n: usize) -> (r: Vec<u8>)
    ensures
        r@ == overwritten(old_content@, data@, n as nat),
{
    let mut full: Vec<u8> = Vec::new();
    crate::bytesq::append_all(&mut full, data);
    if data.len() < old_content.len() {
        let tail = crate::bytesq::copy_range(old_content, data.len(), old_content.len());
        crate::bytesq::append_all(&mut full, &tail);
        proof {
            assert(full@ =~= write_over(old_content@, data@));
        }
    }
    assert(full@ == write_over(old_content@, data@));
    if n <= full.len() {
        full.truncate(n);
        proof {
            assert(full@ =~= shrink_to(write_over(old_content@, data@), n as nat));
        }
    }
    full
}

} // verus!
