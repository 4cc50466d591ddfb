//! Path discipline: the descriptor naming convention, the associated data
//! file, the descriptor's directory, and resolution of resource paths
//! against an explicit base directory.
//!
//! Paths are byte strings with `/` as the separator. Resolution takes an
//! explicit base, so the engine never reads or changes any process-wide
//! working directory; a caller's own context is untouched by construction.

use vstd::prelude::*;

verus! {

/// The recognized descriptor extension, dot included: `.yoink`.
pub open spec fn ext_mark() -> Seq<u8> {
    seq![46u8, 121u8, 111u8, 105u8, 110u8, 107u8]
}

/// Position where the file-name component of `p` begins: just after the last
/// `/`, or `0` when `p` has no separator.
pub open spec fn file_name_start(p: Seq<u8>) -> int
    decreases p.len(),
{
    if p.len() == 0 {
        0
    } else if p[p.len() - 1] == 47 {
        p.len() as int
    } else {
        file_name_start(p.drop_last())
    }
}

/// What `file_name_start` returns: a position at or before the end, right
/// after a separator (or the start), with no separator after it.
pub proof fn lemma_file_name_start(p: Seq<u8>)
    ensures
        0 <= file_name_start(p) <= p.len(),
        file_name_start(p) > 0 ==> p[file_name_start(p) - 1] == 47,
        forall|j: int| file_name_start(p) <= j < p.len() ==> p[j] != 47,
    decreases p.len(),
{
    if p.len() == 0 {
    } else if p[p.len() - 1] == 47 {
    } else {
        lemma_file_name_start(p.drop_last());
        assert(forall|j: int|
            0 <= j < p.len() - 1 ==> p.drop_last()[j] == p[j]);
    }
}

/// Whether `p` carries the descriptor extension: its file name ends in
/// `.yoink` and has at least one character before that dot.
pub open spec fn has_descriptor_ext(p: Seq<u8>) -> bool {
    &&& p.len() >= 6
    &&& p.len() - 6 > file_name_start(p)
    &&& p.subrange(p.len() - 6, p.len() as int) == ext_mark()
}

/// The associated data file of a descriptor path: the path with the
/// extension stripped.
pub open spec fn associated_of(p: Seq<u8>) -> Seq<u8>
    recommends
        has_descriptor_ext(p),
{
    p.take(p.len() - 6)
}

/// The directory component of `p`: the bytes before the last separator
/// (`/` itself when the separator is leading), or nothing when `p` is a bare
/// file name.
pub open spec fn parent_of(p: Seq<u8>) -> Option<Seq<u8>> {
    let n = file_name_start(p);
    if n == 0 {
        Option::None
    } else if n == 1 {
        Option::Some(seq![47u8])
    } else {
        Option::Some(p.take(n - 1))
    }
}

/// A relative `rel` with every leading `./`, and every separator such a
/// `./` leaves exposed, removed: `.//x` names the same entry as `x` does.
pub open spec fn strip_dot_slash(rel: Seq<u8>) -> Seq<u8>
    decreases rel.len(),
{
    if rel.len() >= 2 && rel[0] == 46 && rel[1] == 47 {
        strip_dot_slash(rel.skip(2))
    } else if rel.len() >= 1 && rel[0] == 47 {
        strip_dot_slash(rel.skip(1))
    } else {
        rel
    }
}

/// A configured resource path resolved against the descriptor's directory:
/// a path that itself begins with a separator is absolute and stands as it
/// is; a relative one loses its leading `./` chain and is joined to the
/// base.
pub open spec fn resolved(base: Seq<u8>, rel: Seq<u8>) -> Seq<u8> {
    if rel.len() > 0 && rel[0] == 47 {
        rel
    } else {
        let r = strip_dot_slash(rel);
        if base.len() > 0 && base[base.len() - 1] == 47 {
            base + r
        } else {
            base + seq![47u8] + r
        }
    }
}

/// Executable `file_name_start`.
pub fn find_file_name_start(p: &Vec<u8>) -> (r: usize)
    ensures
        r == file_name_start(p@),
{
    let mut i: usize = p.len();
    while i > 0
        invariant
            i <= p@.len(),
            forall|j: int| i <= j < p@.len() ==> p@[j] != 47,
        decreases i,
    {
        if p[i - 1] == 47 {
            proof {
                lemma_file_name_start(p@);
                let k = file_name_start(p@);
                // both i and k sit right after a separator with none beyond
                if k < i {
                    assert(p@[i - 1] == 47);
                    assert(k <= i - 1 < p@.len());
                    assert(false);
                }
                if k > i {
                    assert(p@[k - 1] == 47);
                    assert(false);
                }
            }
            return i;
        }
        i = i - 1;
    }
    proof {
        lemma_file_name_start(p@);
        let k = file_name_start(p@);
        if k > 0 {
            assert(p@[k - 1] == 47);
            assert(false);
        }
    }
    0
}

/// Executable check of the descriptor naming convention.
pub fn check_descriptor_ext(p: &Vec<u8>) -> (r: bool)
    ensures
        r == has_descriptor_ext(p@),
{
    let n = find_file_name_start(p);
    if p.len() < 6 || p.len() - 6 <= n {
        return false;
    }
    let lo = p.len() - 6;
    let hi = p.len();
    let r = p[lo] == 46 && p[lo + 1] == 121 && p[lo + 2] == 111 && p[lo + 3] == 105 && p[lo + 4]
        == 110 && p[lo + 5] == 107;
    proof {
        if r {
            assert(p@.subrange(lo as int, hi as int) =~= ext_mark());
        } else {
            assert(p@.subrange(lo as int, hi as int) != ext_mark());
        }
    }
    r
}

/// Executable `associated_of`.
pub fn associated_path(p: &Vec<u8>) -> (r: Vec<u8>)
    requires
        has_descriptor_ext(p@),
    ensures
        r@ == associated_of(p@),
{
    crate::bytesq::copy_range(p, 0, p.len() - 6)
}

/// Executable `parent_of`.
pub fn parent_dir(p: &Vec<u8>) -> (r: Option<Vec<u8>>)
    ensures
        match r {
            Option::Some(d) => parent_of(p@) == Option::Some(d@),
            Option::None => parent_of(p@) is None,
        },
{
    let n = find_file_name_start(p);
    if n == 0 {
        Option::None
    } else if n == 1 {
        let mut root: Vec<u8> = Vec::new();
        root.push(47);
        proof {
            assert(root@ =~= seq![47u8]);
        }
        Option::Some(root)
    } else {
        proof {
            lemma_file_name_start(p@);
        }
        Option::Some(crate::bytesq::copy_range(p, 0, n - 1))
    }
}

/// Executable `resolved`.
pub fn resolve(base: &Vec<u8>, rel: &Vec<u8>) -> (r: Vec<u8>)
    ensures
        r@ == resolved(base@, rel@),
{
    if rel.len() > 0 && rel[0] == 47 {
        let out = crate::bytesq::copy_range(rel, 0, rel.len());
        proof {
            assert(out@ =~= rel@);
        }
        return out;
    }
    let mut i: usize = 0;
    proof {
        assert(rel@.skip(0) =~= rel@);
    }
    while (rel.len() - i >= 2 && rel[i] == 46 && rel[i + 1] == 47) || (rel.len() - i >= 1 && rel[i]
        == 47)
        invariant
            i <= rel@.len(),
            strip_dot_slash(rel@) == strip_dot_slash(rel@.skip(i as int)),
        decreases rel@.len() - i,
    {
        if rel[i] == 46 {
            proof {
                assert(rel@.skip(i as int).skip(2) =~= rel@.skip(i as int + 2));
            }
            i = i + 2;
        } else {
            proof {
                assert(rel@.skip(i as int).skip(1) =~= rel@.skip(i as int + 1));
            }
            i = i + 1;
        }
    }
    proof {
        // the loop stopped: the remaining suffix opens with neither "./"
        // nor a separator
        let s = rel@.skip(i as int);
        assert(s.len() >= 1 ==> s[0] == rel@[i as int]);
        assert(s.len() >= 2 ==> s[1] == rel@[i as int + 1]);
        assert(strip_dot_slash(rel@) == s);
    }
    let stripped = crate::bytesq::copy_range(rel, i, rel.len());
    let mut out: Vec<u8> = Vec::new();
    crate::bytesq::append_all(&mut out, base);
    if !(base.len() > 0 && base[base.len() - 1] == 47) {
        out.push(47);
    }
    crate::bytesq::append_all(&mut out, &stripped);
    proof {
        assert(out@ =~= resolved(base@, rel@));
    }
    out
}

} // verus!
