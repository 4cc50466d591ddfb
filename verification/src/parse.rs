//! The descriptor grammar and its parser.
//!
//! A descriptor is line-oriented text: blank lines and lines whose first
//! non-space character is `#` are skipped (a comment takes a whole line; it
//! cannot follow a value), a single `[target]` header opens the one
//! section, and the section holds `key = value` lines. `style` and `path` take a plain
//! double-quoted string (no escape sequences); `exclude` takes an array of
//! such strings and is only allowed for the settings-store style. `style`
//! and `path` are required; `style` is `"bytes"` or `"dconf"`.
//!
//! The grammar is stated as spec functions over the byte sequence; the
//! executable parser returns exactly what they define, fault for fault.

use vstd::prelude::*;

use crate::config::{BytesConfig, Config, DconfConfig, RunnerConfig, Target};
use crate::errors::ParseFault;

verus! {

/// The selected style tag, before the full model is assembled.
#[derive(Clone, Copy, Debug, PartialEq, Eq, Structural)]
pub enum StyleTag {
    Bytes,
    Dconf,
}

/// Parser state while folding over lines: section seen, and the values
/// collected so far.
struct PState {
    seen: bool,
    style: Option<StyleTag>,
    path: Option<Vec<u8>>,
    exclude: Option<Vec<Vec<u8>>>,
}

/// The state's mathematical shape.
spec fn pst_view(st: PState) -> (bool, Option<StyleTag>, Option<Seq<u8>>, Option<
    Seq<Seq<u8>>,
>) {
    (
        st.seen,
        st.style,
        match st.path {
            Option::Some(p) => Option::Some(p@),
            Option::None => Option::None,
        },
        match st.exclude {
            Option::Some(v) => Option::Some(v@.map_values(|e: Vec<u8>| e@)),
            Option::None => Option::None,
        },
    )
}

pub open spec fn kw_target() -> Seq<u8> {
    seq![116u8, 97u8, 114u8, 103u8, 101u8, 116u8]
}

pub open spec fn kw_style() -> Seq<u8> {
    seq![115u8, 116u8, 121u8, 108u8, 101u8]
}

pub open spec fn kw_path() -> Seq<u8> {
    seq![112u8, 97u8, 116u8, 104u8]
}

pub open spec fn kw_exclude() -> Seq<u8> {
    seq![101u8, 120u8, 99u8, 108u8, 117u8, 100u8, 101u8]
}

pub open spec fn kw_bytes() -> Seq<u8> {
    seq![98u8, 121u8, 116u8, 101u8, 115u8]
}

pub open spec fn kw_dconf() -> Seq<u8> {
    seq![100u8, 99u8, 111u8, 110u8, 102u8]
}

/// Horizontal whitespace (carriage returns fall out with end trimming).
pub open spec fn is_sp(c: u8) -> bool {
    c == 32 || c == 9 || c == 13
}

/// First position in `[i, hi)` holding `c`, else `hi`.
pub open spec fn find_in(s: Seq<u8>, i: int, hi: int, c: u8) -> int
    decreases hi - i,
{
    if i >= hi {
        hi
    } else if s[i] == c {
        i
    } else {
        find_in(s, i + 1, hi, c)
    }
}

/// First position in `[i, hi)` holding a non-space, else `hi`.
pub open spec fn skip_sp(s: Seq<u8>, i: int, hi: int) -> int
    decreases hi - i,
{
    if i >= hi {
        hi
    } else if is_sp(s[i]) {
        skip_sp(s, i + 1, hi)
    } else {
        i
    }
}

/// Position after the last non-space in `[lo, hi)`, at least `lo`.
pub open spec fn rtrim(s: Seq<u8>, lo: int, hi: int) -> int
    decreases hi - lo,
{
    if hi <= lo {
        hi
    } else if is_sp(s[hi - 1]) {
        rtrim(s, lo, hi - 1)
    } else {
        hi
    }
}

/// A plain double-quoted string filling `[a, b)` exactly: no inner quote,
/// no escape sequence.
pub open spec fn quoted(s: Seq<u8>, a: int, b: int) -> Option<Seq<u8>> {
    if b - a >= 2 && s[a] == 34 && s[b - 1] == 34 && find_in(s, a + 1, b - 1, 34) == b - 1
        && find_in(s, a + 1, b - 1, 92) == b - 1 {
        Option::Some(s.subrange(a + 1, b - 1))
    } else {
        Option::None
    }
}

/// `find_in` stays within `[i, hi]`.
pub proof fn lemma_find_in_bounds(s: Seq<u8>, i: int, hi: int, c: u8)
    requires
        i <= hi,
    ensures
        i <= find_in(s, i, hi, c) <= hi,
    decreases hi - i,
{
    if i < hi && s[i] != c {
        lemma_find_in_bounds(s, i + 1, hi, c);
    }
}

/// `skip_sp` stays within `[i, hi]`.
pub proof fn lemma_skip_sp_bounds(s: Seq<u8>, i: int, hi: int)
    requires
        i <= hi,
    ensures
        i <= skip_sp(s, i, hi) <= hi,
    decreases hi - i,
{
    if i < hi && is_sp(s[i]) {
        lemma_skip_sp_bounds(s, i + 1, hi);
    }
}

/// The comma-separated quoted strings in `[i, hi)`, the array brackets
/// already removed; a trailing comma is allowed.
pub open spec fn items_in(s: Seq<u8>, i: int, hi: int) -> Option<Seq<Seq<u8>>>
    decreases hi - i,
    via items_in_decreases
{
    let j = skip_sp(s, i, hi);
    if j >= hi {
        Option::Some(Seq::empty())
    } else if s[j] != 34 {
        Option::None
    } else {
        let q = find_in(s, j + 1, hi, 34);
        if q >= hi {
            Option::None
        } else if find_in(s, j + 1, q, 92) != q {
            Option::None
        } else {
            let item = s.subrange(j + 1, q);
            let k = skip_sp(s, q + 1, hi);
            if k >= hi {
                Option::Some(seq![item])
            } else if s[k] == 44 {
                match items_in(s, k + 1, hi) {
                    Option::Some(rest) => Option::Some(seq![item] + rest),
                    Option::None => Option::None,
                }
            } else {
                Option::None
            }
        }
    }
}

#[via_fn]
proof fn items_in_decreases(s: Seq<u8>, i: int, hi: int) {
    if i < hi {
        lemma_skip_sp_bounds(s, i, hi);
        let j = skip_sp(s, i, hi);
        if j < hi {
            lemma_find_in_bounds(s, j + 1, hi, 34);
            let q = find_in(s, j + 1, hi, 34);
            if q < hi {
                lemma_skip_sp_bounds(s, q + 1, hi);
            }
        }
    }
}

/// Effect of the line `[lo, hi)` on the parser state.
pub open spec fn line_step(
    s: Seq<u8>,
    lo: int,
    hi: int,
    st: (bool, Option<StyleTag>, Option<Seq<u8>>, Option<Seq<Seq<u8>>>),
) -> Result<(bool, Option<StyleTag>, Option<Seq<u8>>, Option<Seq<Seq<u8>>>), ParseFault> {
    let a = skip_sp(s, lo, hi);
    let b = rtrim(s, a, hi);
    if a >= b {
        Result::Ok(st)
    } else if s[a] == 35 {
        Result::Ok(st)
    } else if s[a] == 91 {
        if s[b - 1] != 93 {
            Result::Err(ParseFault::BadLine)
        } else if s.subrange(a + 1, b - 1) != kw_target() {
            Result::Err(ParseFault::UnknownSection)
        } else if st.0 {
            Result::Err(ParseFault::DuplicateSection)
        } else {
            Result::Ok((true, st.1, st.2, st.3))
        }
    } else if !st.0 {
        Result::Err(ParseFault::KeyOutsideSection)
    } else {
        let e = find_in(s, a, b, 61);
        if e >= b {
            Result::Err(ParseFault::BadLine)
        } else {
            let kend = rtrim(s, a, e);
            let key = s.subrange(a, kend);
            let va = skip_sp(s, e + 1, b);
            if key == kw_style() {
                if st.1 is Some {
                    Result::Err(ParseFault::DuplicateKey)
                } else {
                    match quoted(s, va, b) {
                        Option::None => Result::Err(ParseFault::BadString),
                        Option::Some(v) => if v == kw_bytes() {
                            Result::Ok((st.0, Option::Some(StyleTag::Bytes), st.2, st.3))
                        } else if v == kw_dconf() {
                            Result::Ok((st.0, Option::Some(StyleTag::Dconf), st.2, st.3))
                        } else {
                            Result::Err(ParseFault::UnknownStyle)
                        },
                    }
                }
            } else if key == kw_path() {
                if st.2 is Some {
                    Result::Err(ParseFault::DuplicateKey)
                } else {
                    match quoted(s, va, b) {
                        Option::None => Result::Err(ParseFault::BadString),
                        Option::Some(v) => Result::Ok((st.0, st.1, Option::Some(v), st.3)),
                    }
                }
            } else if key == kw_exclude() {
                if st.3 is Some {
                    Result::Err(ParseFault::DuplicateKey)
                } else if va >= b || s[va] != 91 || s[b - 1] != 93 {
                    Result::Err(ParseFault::BadArray)
                } else {
                    match items_in(s, va + 1, b - 1) {
                        Option::None => Result::Err(ParseFault::BadArray),
                        Option::Some(items) => Result::Ok((st.0, st.1, st.2, Option::Some(items))),
                    }
                }
            } else {
                Result::Err(ParseFault::UnknownKey)
            }
        }
    }
}

/// Check the collected state once every line is folded in.
pub open spec fn finish(
    st: (bool, Option<StyleTag>, Option<Seq<u8>>, Option<Seq<Seq<u8>>>),
) -> Result<(bool, Seq<u8>, Seq<Seq<u8>>), ParseFault> {
    if !st.0 {
        Result::Err(ParseFault::MissingSection)
    } else {
        match st.1 {
            Option::None => Result::Err(ParseFault::MissingStyle),
            Option::Some(tag) => match st.2 {
                Option::None => Result::Err(ParseFault::MissingPath),
                Option::Some(p) => if tag is Bytes && st.3 is Some {
                    Result::Err(ParseFault::ExcludeNotAllowed)
                } else {
                    Result::Ok(
                        (
                            tag is Bytes,
                            p,
                            match st.3 {
                                Option::Some(x) => x,
                                Option::None => Seq::empty(),
                            },
                        ),
                    )
                },
            },
        }
    }
}

/// Fold the lines of `s` from position `i` on into the state.
pub open spec fn parse_from(
    s: Seq<u8>,
    i: int,
    st: (bool, Option<StyleTag>, Option<Seq<u8>>, Option<Seq<Seq<u8>>>),
) -> Result<(bool, Seq<u8>, Seq<Seq<u8>>), ParseFault>
    decreases s.len() - i,
    via parse_from_decreases
{
    if i >= s.len() {
        finish(st)
    } else {
        let e = find_in(s, i, s.len() as int, 10);
        match line_step(s, i, e, st) {
            Result::Err(f) => Result::Err(f),
            Result::Ok(st2) => parse_from(
                s,
                if e < s.len() {
                    e + 1
                } else {
                    e
                },
                st2,
            ),
        }
    }
}

#[via_fn]
proof fn parse_from_decreases(
    s: Seq<u8>,
    i: int,
    st: (bool, Option<StyleTag>, Option<Seq<u8>>, Option<Seq<Seq<u8>>>),
) {
    if i < s.len() {
        lemma_find_in_bounds(s, i, s.len() as int, 10);
    }
}

/// What a descriptor text means: the selected style (`true` for raw bytes),
/// the resource path, and the exclusion prefixes — or the first fault.
pub open spec fn spec_parse(s: Seq<u8>) -> Result<(bool, Seq<u8>, Seq<Seq<u8>>), ParseFault> {
    parse_from(
        s,
        0,
        (false, Option::<StyleTag>::None, Option::<Seq<u8>>::None, Option::<Seq<Seq<u8>>>::None),
    )
}

/// Executable `find_in`.
fn find_in_x(s: &Vec<u8>, i: usize, hi: usize, c: u8) -> (r: usize)
    requires
        i <= hi <= s@.len(),
    ensures
        r == find_in(s@, i as int, hi as int, c),
        i <= r <= hi,
{
    let mut j: usize = i;
    while j < hi && s[j] != c
        invariant
            i <= j <= hi <= s@.len(),
            find_in(s@, i as int, hi as int, c) == find_in(s@, j as int, hi as int, c),
        decreases hi - j,
    {
        j = j + 1;
    }
    j
}

/// Executable `skip_sp`.
fn skip_sp_x(s: &Vec<u8>, i: usize, hi: usize) -> (r: usize)
    requires
        i <= hi <= s@.len(),
    ensures
        r == skip_sp(s@, i as int, hi as int),
        i <= r <= hi,
{
    let mut j: usize = i;
    while j < hi && (s[j] == 32 || s[j] == 9 || s[j] == 13)
        invariant
            i <= j <= hi <= s@.len(),
            skip_sp(s@, i as int, hi as int) == skip_sp(s@, j as int, hi as int),
        decreases hi - j,
    {
        j = j + 1;
    }
    j
}

/// Executable `rtrim`.
fn rtrim_x(s: &Vec<u8>, lo: usize, hi: usize) -> (r: usize)
    requires
        lo <= hi <= s@.len(),
    ensures
        r == rtrim(s@, lo as int, hi as int),
        lo <= r <= hi,
{
    let mut j: usize = hi;
    while j > lo && (s[j - 1] == 32 || s[j - 1] == 9 || s[j - 1] == 13)
        invariant
            lo <= j <= hi <= s@.len(),
            rtrim(s@, lo as int, hi as int) == rtrim(s@, lo as int, j as int),
        decreases j,
    {
        j = j - 1;
    }
    j
}

/// Executable `quoted`.
fn quoted_x(s: &Vec<u8>, a: usize, b: usize) -> (r: Option<Vec<u8>>)
    requires
        a <= b <= s@.len(),
    ensures
        match r {
            Option::Some(v) => quoted(s@, a as int, b as int) == Option::Some(v@),
            Option::None => quoted(s@, a as int, b as int) is None,
        },
{
    if b - a >= 2 && s[a] == 34 && s[b - 1] == 34 {
        let q1 = find_in_x(s, a + 1, b - 1, 34);
        let q2 = find_in_x(s, a + 1, b - 1, 92);
        if q1 == b - 1 && q2 == b - 1 {
            Option::Some(crate::bytesq::copy_range(s, a + 1, b - 1))
        } else {
            Option::None
        }
    } else {
        Option::None
    }
}

/// Executable `items_in`.
fn items_in_x(s: &Vec<u8>, i: usize, hi: usize) -> (r: Option<Vec<Vec<u8>>>)
    requires
        i <= hi <= s@.len(),
    ensures
        match r {
            Option::Some(v) => items_in(s@, i as int, hi as int) == Option::Some(
                v@.map_values(|e: Vec<u8>| e@),
            ),
            Option::None => items_in(s@, i as int, hi as int) is None,
        },
    decreases hi - i,
{
    let j = skip_sp_x(s, i, hi);
    if j >= hi {
        let out: Vec<Vec<u8>> = Vec::new();
        proof {
            assert(out@.map_values(|e: Vec<u8>| e@) =~= Seq::<Seq<u8>>::empty());
        }
        return Option::Some(out);
    }
    if s[j] != 34 {
        return Option::None;
    }
    let q = find_in_x(s, j + 1, hi, 34);
    if q >= hi {
        return Option::None;
    }
    if find_in_x(s, j + 1, q, 92) != q {
        return Option::None;
    }
    let item = crate::bytesq::copy_range(s, j + 1, q);
    let k = skip_sp_x(s, q + 1, hi);
    if k >= hi {
        let mut out: Vec<Vec<u8>> = Vec::new();
        out.push(item);
        proof {
            assert(out@.map_values(|e: Vec<u8>| e@) =~= seq![s@.subrange(j + 1, q as int)]);
        }
        return Option::Some(out);
    }
    if s[k] == 44 {
        match items_in_x(s, k + 1, hi) {
            Option::None => Option::None,
            Option::Some(mut rest) => {
                let ghost rest0 = rest@;
                rest.insert(0, item);
                proof {
                    assert(rest@.map_values(|e: Vec<u8>| e@) =~= seq![s@.subrange(j + 1, q as int)]
                        + rest0.map_values(|e: Vec<u8>| e@));
                }
                Option::Some(rest)
            },
        }
    } else {
        Option::None
    }
}

/// Executable `line_step`.
fn line_step_x(s: &Vec<u8>, lo: usize, hi: usize, st: PState) -> (r: Result<
    PState,
    ParseFault,
>)
    requires
        lo <= hi <= s@.len(),
    ensures
        match r {
            Result::Ok(st2) => line_step(s@, lo as int, hi as int, pst_view(st)) == Result::<
                _,
                ParseFault,
            >::Ok(pst_view(st2)),
            Result::Err(f) => line_step(s@, lo as int, hi as int, pst_view(st)) == Result::<
                (bool, Option<StyleTag>, Option<Seq<u8>>, Option<Seq<Seq<u8>>>),
                _,
            >::Err(f),
        },
{
    let a = skip_sp_x(s, lo, hi);
    let b = rtrim_x(s, a, hi);
    if a >= b {
        return Result::Ok(st);
    }
    if s[a] == 35 {
        return Result::Ok(st);
    }
    if s[a] == 91 {
        if s[b - 1] != 93 {
            return Result::Err(ParseFault::BadLine);
        }
        let target_kw = kw_target_vec();
        if !crate::bytesq::range_eq(s, a + 1, b - 1, &target_kw) {
            return Result::Err(ParseFault::UnknownSection);
        }
        if st.seen {
            return Result::Err(ParseFault::DuplicateSection);
        }
        return Result::Ok(
            PState { seen: true, style: st.style, path: st.path, exclude: st.exclude },
        );
    }
    if !st.seen {
        return Result::Err(ParseFault::KeyOutsideSection);
    }
    let e = find_in_x(s, a, b, 61);
    if e >= b {
        return Result::Err(ParseFault::BadLine);
    }
    let kend = rtrim_x(s, a, e);
    let va = skip_sp_x(s, e + 1, b);
    let style_kw = kw_style_vec();
    let path_kw = kw_path_vec();
    let exclude_kw = kw_exclude_vec();
    if crate::bytesq::range_eq(s, a, kend, &style_kw) {
        if st.style.is_some() {
            return Result::Err(ParseFault::DuplicateKey);
        }
        match quoted_x(s, va, b) {
            Option::None => Result::Err(ParseFault::BadString),
            Option::Some(v) => {
                let bytes_kw = kw_bytes_vec();
                let dconf_kw = kw_dconf_vec();
                if crate::bytesq::vec_eq(&v, &bytes_kw) {
                    Result::Ok(
                        PState {
                            seen: st.seen,
                            style: Option::Some(StyleTag::Bytes),
                            path: st.path,
                            exclude: st.exclude,
                        },
                    )
                } else if crate::bytesq::vec_eq(&v, &dconf_kw) {
                    Result::Ok(
                        PState {
                            seen: st.seen,
                            style: Option::Some(StyleTag::Dconf),
                            path: st.path,
                            exclude: st.exclude,
                        },
                    )
                } else {
                    Result::Err(ParseFault::UnknownStyle)
                }
            },
        }
    } else if crate::bytesq::range_eq(s, a, kend, &path_kw) {
        if st.path.is_some() {
            return Result::Err(ParseFault::DuplicateKey);
        }
        match quoted_x(s, va, b) {
            Option::None => Result::Err(ParseFault::BadString),
            Option::Some(v) => Result::Ok(
                PState {
                    seen: st.seen,
                    style: st.style,
                    path: Option::Some(v),
                    exclude: st.exclude,
                },
            ),
        }
    } else if crate::bytesq::range_eq(s, a, kend, &exclude_kw) {
        if st.exclude.is_some() {
            return Result::Err(ParseFault::DuplicateKey);
        }
        if va >= b || s[va] != 91 || s[b - 1] != 93 {
            return Result::Err(ParseFault::BadArray);
        }
        match items_in_x(s, va + 1, b - 1) {
            Option::None => Result::Err(ParseFault::BadArray),
            Option::Some(items) => Result::Ok(
                PState {
                    seen: st.seen,
                    style: st.style,
                    path: st.path,
                    exclude: Option::Some(items),
                },
            ),
        }
    } else {
        Result::Err(ParseFault::UnknownKey)
    }
}

/// Executable `finish`: assemble the model, or report what is missing.
fn finish_x(st: PState) -> (r: Result<Config, ParseFault>)
    ensures
        match r {
            Result::Ok(c) => finish(pst_view(st)) == Result::<_, ParseFault>::Ok(
                (c.is_bytes(), c.path_spec(), c.exclude_spec()),
            ),
            Result::Err(f) => finish(pst_view(st)) == Result::<(bool, Seq<u8>, Seq<Seq<u8>>), _>::Err(f),
        },
{
    if !st.seen {
        return Result::Err(ParseFault::MissingSection);
    }
    let tag = match st.style {
        Option::None => {
            return Result::Err(ParseFault::MissingStyle);
        },
        Option::Some(t) => t,
    };
    let path = match st.path {
        Option::None => {
            return Result::Err(ParseFault::MissingPath);
        },
        Option::Some(p) => p,
    };
    match tag {
        StyleTag::Bytes => {
            if st.exclude.is_some() {
                Result::Err(ParseFault::ExcludeNotAllowed)
            } else {
                let c = Config { target: Target { style: RunnerConfig::Bytes(BytesConfig { path }) } };
                proof {
                    assert(c.exclude_spec() =~= Seq::<Seq<u8>>::empty());
                }
                Result::Ok(c)
            }
        },
        StyleTag::Dconf => {
            let exclude = match st.exclude {
                Option::Some(x) => x,
                Option::None => Vec::new(),
            };
            let c = Config {
                target: Target { style: RunnerConfig::Dconf(DconfConfig { path, exclude }) },
            };
            proof {
                if c.exclude_spec().len() == 0 {
                    assert(c.exclude_spec() =~= Seq::<Seq<u8>>::empty());
                }
            }
            Result::Ok(c)
        },
    }
}

/// Parse a descriptor's text into the descriptor model. Succeeds exactly on
/// the texts the grammar admits, and returns the fault the grammar assigns
/// otherwise.
pub fn parse_descriptor(s: &Vec<u8>) -> (r: Result<Config, ParseFault>)
    ensures
        match r {
            Result::Ok(c) => spec_parse(s@) == Result::<_, ParseFault>::Ok(
                (c.is_bytes(), c.path_spec(), c.exclude_spec()),
            ),
            Result::Err(f) => spec_parse(s@) == Result::<(bool, Seq<u8>, Seq<Seq<u8>>), _>::Err(f),
        },
{
    let mut st = PState { seen: false, style: Option::None, path: Option::None, exclude: Option::None };
    let mut i: usize = 0;
    while i < s.len()
        invariant
            i <= s@.len(),
            spec_parse(s@) == parse_from(s@, i as int, pst_view(st)),
        decreases s@.len() - i,
    {
        let e = find_in_x(s, i, s.len(), 10);
        match line_step_x(s, i, e, st) {
            Result::Err(f) => {
                return Result::Err(f);
            },
            Result::Ok(st2) => {
                st = st2;
            },
        }
        i = if e < s.len() {
            e + 1
        } else {
            e
        };
    }
    finish_x(st)
}

/// `kw_target` as a vector.
fn kw_target_vec() -> (r: Vec<u8>)
    ensures
        r@ == kw_target(),
{
    let mut v: Vec<u8> = Vec::new();
    v.push(116);
    v.push(97);
    v.push(114);
    v.push(103);
    v.push(101);
    v.push(116);
    proof {
        assert(v@ =~= kw_target());
    }
    v
}

/// `kw_style` as a vector.
fn kw_style_vec() -> (r: Vec<u8>)
    ensures
        r@ == kw_style(),
{
    let mut v: Vec<u8> = Vec::new();
    v.push(115);
    v.push(116);
    v.push(121);
    v.push(108);
    v.push(101);
    proof {
        assert(v@ =~= kw_style());
    }
    v
}

/// `kw_path` as a vector.
fn kw_path_vec() -> (r: Vec<u8>)
    ensures
        r@ == kw_path(),
{
    let mut v: Vec<u8> = Vec::new();
    v.push(112);
    v.push(97);
    v.push(116);
    v.push(104);
    proof {
        assert(v@ =~= kw_path());
    }
    v
}

/// `kw_exclude` as a vector.
fn kw_exclude_vec() -> (r: Vec<u8>)
    ensures
        r@ == kw_exclude(),
{
    let mut v: Vec<u8> = Vec::new();
    v.push(101);
    v.push(120);
    v.push(99);
    v.push(108);
    v.push(117);
    v.push(100);
    v.push(101);
    proof {
        assert(v@ =~= kw_exclude());
    }
    v
}

/// `kw_bytes` as a vector.
fn kw_bytes_vec() -> (r: Vec<u8>)
    ensures
        r@ == kw_bytes(),
{
    let mut v: Vec<u8> = Vec::new();
    v.push(98);
    v.push(121);
    v.push(116);
    v.push(101);
    v.push(115);
    proof {
        assert(v@ =~= kw_bytes());
    }
    v
}

/// `kw_dconf` as a vector.
fn kw_dconf_vec() -> (r: Vec<u8>)
    ensures
        r@ == kw_dconf(),
{
    let mut v: Vec<u8> = Vec::new();
    v.push(100);
    v.push(99);
    v.push(111);
    v.push(110);
    v.push(102);
    proof {
        assert(v@ =~= kw_dconf());
    }
    v
}

} // verus!
