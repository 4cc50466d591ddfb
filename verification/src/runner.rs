//! The backend capability: pulling a resource's serialized form out and
//! pushing bytes back in. Each resource kind implements the capability
//! against its own configuration; the tagged selection dispatches to the
//! one present variant, so orchestration never branches on backend details.

use vstd::prelude::*;

use crate::config::{BytesConfig, DconfConfig, RunnerConfig};
use crate::errors::SyncError;
use crate::store::{
    file_data, open_store, store_keys, store_keys_of, store_readable, store_value,
    store_value_text,
};

verus! {

/// Whether one of the configured exclusion prefixes matches `key`.
pub open spec fn excluded(key: Seq<u8>, excl: Seq<Seq<u8>>) -> bool {
    exists|i: int| 0 <= i < excl.len() && #[trigger] excl[i].is_prefix_of(key)
}

/// The serialized line for one retained key: the key, ` = `, the value's
/// text, a newline.
pub open spec fn line_for(key: Seq<u8>, value: Seq<u8>) -> Seq<u8> {
    key + seq![32u8, 61u8, 32u8] + value + seq![10u8]
}

/// Serialization of the store's keys from index `i` on: one line per key
/// that no exclusion prefix matches and whose value lookup succeeds; a key
/// without a retrievable value is skipped on purpose.
pub open spec fn render_from(data: Seq<u8>, keys: Seq<Seq<u8>>, i: int, excl: Seq<Seq<u8>>) -> Seq<
    u8,
>
    decreases keys.len() - i,
{
    if i < 0 || i >= keys.len() {
        Seq::empty()
    } else {
        let head = if !excluded(keys[i], excl) && store_value(data, keys[i]) is Some {
            line_for(keys[i], store_value(data, keys[i]).unwrap())
        } else {
            Seq::empty()
        };
        head + render_from(data, keys, i + 1, excl)
    }
}

/// The full serialized form of a pulled settings store.
pub open spec fn render(data: Seq<u8>, excl: Seq<Seq<u8>>) -> Seq<u8> {
    render_from(data, store_keys(data), 0, excl)
}

proof fn lemma_render_from_all_excluded(
    data: Seq<u8>,
    keys: Seq<Seq<u8>>,
    i: int,
    excl: Seq<Seq<u8>>,
)
    requires
        forall|j: int| 0 <= j < keys.len() ==> excluded(#[trigger] keys[j], excl),
    ensures
        render_from(data, keys, i, excl) == Seq::<u8>::empty(),
    decreases keys.len() - i,
{
    if 0 <= i < keys.len() {
        lemma_render_from_all_excluded(data, keys, i + 1, excl);
        assert(render_from(data, keys, i, excl) =~= Seq::<u8>::empty());
    }
}

/// The exclusion filter's general force: when every key of the store
/// carries an excluded prefix, the pulled serialization is empty — no
/// excluded key ever reaches the output.
pub proof fn lemma_all_keys_excluded_renders_nothing(data: Seq<u8>, excl: Seq<Seq<u8>>)
    requires
        forall|j: int| 0 <= j < store_keys(data).len() ==> excluded(
            #[trigger] store_keys(data)[j],
            excl,
        ),
    ensures
        render(data, excl) == Seq::<u8>::empty(),
{
    lemma_render_from_all_excluded(data, store_keys(data), 0, excl);
}

/// Executable exclusion check.
pub fn is_excluded(key: &Vec<u8>, exclude: &Vec<Vec<u8>>) -> (r: bool)
    ensures
        r == excluded(key@, exclude@.map_values(|e: Vec<u8>| e@)),
{
    let ghost excl = exclude@.map_values(|e: Vec<u8>| e@);
    let mut i: usize = 0;
    while i < exclude.len()
        invariant
            i <= exclude@.len(),
            excl == exclude@.map_values(|e: Vec<u8>| e@),
            forall|j: int| 0 <= j < i ==> !(#[trigger] excl[j].is_prefix_of(key@)),
        decreases exclude@.len() - i,
    {
        if crate::bytesq::starts_with(key, &exclude[i]) {
            proof {
                assert(excl[i as int].is_prefix_of(key@));
            }
            return true;
        }
        i = i + 1;
    }
    false
}

impl BytesConfig {
    /// Pull the raw-bytes resource, given its file's bytes: the content
    /// verbatim, with the byte count to truncate the destination to.
    pub fn pull(&self, resource: &Vec<u8>) -> (r: (Vec<u8>, usize))
        ensures
            r.0@ == resource@,
            r.1 == resource@.len(),
    {
        let mut out: Vec<u8> = Vec::new();
        crate::bytesq::append_all(&mut out, resource);
        let n = out.len();
        (out, n)
    }

    /// Push into the raw-bytes resource: afterwards it holds exactly the
    /// source's bytes, nothing trailing.
    pub fn push(&self, source: &Vec<u8>) -> (r: Vec<u8>)
        ensures
            r@ == source@,
    {
        let mut out: Vec<u8> = Vec::new();
        crate::bytesq::append_all(&mut out, source);
        out
    }
}

impl DconfConfig {
    /// Pull the settings store, given the store file's bytes: one
    /// `key = value` line per retained key, in the store's own order, with
    /// the byte count. Succeeds exactly on a readable store; a failed value
    /// lookup for one key never fails the pull, it only skips that key.
    pub fn pull(&self, resource: &Vec<u8>) -> (r: Result<(Vec<u8>, usize), SyncError>)
        ensures
            r is Ok <==> store_readable(resource@),
            r matches Ok(p) ==> p.0@ == render(
                resource@,
                self.exclude@.map_values(|e: Vec<u8>| e@),
            ) && p.1 == p.0@.len(),
            r matches Err(e) ==> e is StoreReadFailure,
    {
        let store = match open_store(resource) {
            Ok(s) => s,
            Err(cause) => return Err(SyncError::StoreReadFailure(cause)),
        };
        let keys = match store_keys_of(&store) {
            Ok(k) => k,
            Err(cause) => return Err(SyncError::StoreReadFailure(cause)),
        };
        let ghost kview = keys@.map_values(|k: Vec<u8>| k@);
        let ghost excl = self.exclude@.map_values(|e: Vec<u8>| e@);
        let mut out: Vec<u8> = Vec::new();
        let mut i: usize = 0;
        while i < keys.len()
            invariant
                i <= keys@.len(),
                file_data(store) == resource@,
                store_readable(resource@),
                kview == keys@.map_values(|k: Vec<u8>| k@),
                kview == store_keys(resource@),
                excl == self.exclude@.map_values(|e: Vec<u8>| e@),
                out@ + render_from(resource@, kview, i as int, excl) == render_from(
                    resource@,
                    kview,
                    0,
                    excl,
                ),
            decreases keys@.len() - i,
        {
            let ghost out0 = out@;
            let key = &keys[i];
            proof {
                assert(key@ == kview[i as int]);
            }
            if !is_excluded(key, &self.exclude) {
                match store_value_text(&store, key) {
                    Some(v) => {
                        crate::bytesq::append_all(&mut out, key);
                        out.push(32);
                        out.push(61);
                        out.push(32);
                        crate::bytesq::append_all(&mut out, &v);
                        out.push(10);
                        proof {
                            assert(out@ =~= out0 + line_for(kview[i as int], v@));
                            assert(render_from(resource@, kview, i as int, excl) == line_for(
                                kview[i as int],
                                v@,
                            ) + render_from(resource@, kview, i as int + 1, excl));
                            assert(out@ + render_from(resource@, kview, i as int + 1, excl) =~= out0
                                + render_from(resource@, kview, i as int, excl));
                        }
                    },
                    None => {
                        proof {
                            assert(render_from(resource@, kview, i as int, excl) == Seq::<
                                u8,
                            >::empty() + render_from(resource@, kview, i as int + 1, excl));
                            assert(out@ + render_from(resource@, kview, i as int + 1, excl) =~= out0
                                + render_from(resource@, kview, i as int, excl));
                        }
                    },
                }
            } else {
                proof {
                    assert(render_from(resource@, kview, i as int, excl) == Seq::<u8>::empty()
                        + render_from(resource@, kview, i as int + 1, excl));
                    assert(out@ + render_from(resource@, kview, i as int + 1, excl) =~= out0
                        + render_from(resource@, kview, i as int, excl));
                }
            }
            i = i + 1;
        }
        proof {
            assert(out@ + render_from(resource@, kview, i as int, excl) =~= out@);
        }
        let n = out.len();
        Ok((out, n))
    }
}

impl RunnerConfig {
    /// The shared capability, pull direction: serialize the selected
    /// resource's current content. Raw bytes always pull; the settings
    /// store pulls exactly when it is readable.
    pub fn pull(&self, resource: &Vec<u8>) -> (r: Result<(Vec<u8>, usize), SyncError>)
        ensures
            self is Bytes ==> (r matches Ok(p) && p.0@ == resource@ && p.1 == resource@.len()),
            self is Dconf ==> (r is Ok <==> store_readable(resource@)),
            self matches RunnerConfig::Dconf(d) ==> match r {
                Ok(p) => p.0@ == render(resource@, d.exclude@.map_values(|e: Vec<u8>| e@)) && p.1
                    == p.0@.len(),
                Err(e) => e is StoreReadFailure,
            },
    {
        match self {
            RunnerConfig::Bytes(b) => Ok(b.pull(resource)),
            RunnerConfig::Dconf(d) => d.pull(resource),
        }
    }

    /// The shared capability, push direction. The settings store is
    /// pull-only and rejects this direction with a distinct error.
    pub fn push(&self, source: &Vec<u8>) -> (r: Result<Vec<u8>, SyncError>)
        ensures
            r is Ok <==> self is Bytes,
            self is Bytes ==> (r matches Ok(out) && out@ == source@),
            !(self is Bytes) ==> (r matches Err(e) && e is PushUnsupported),
    {
        match self {
            RunnerConfig::Bytes(b) => Ok(b.push(source)),
            RunnerConfig::Dconf(_) => Err(SyncError::PushUnsupported),
        }
    }
}

} // verus!
