//! String-level model of the paths and keys the protocol moves around.
//!
//! Paths travel as plain UTF-8 strings. A path is absolute when it starts
//! with `/`; the output base is an absolute directory path without a
//! trailing separator.

use vstd::prelude::*;
use vstd::string::StrSliceExecFns;
use vstd::string::StringExecFns;

verus! {

/// `p` is a prefix of `s`.
pub open spec fn has_prefix(s: Seq<char>, p: Seq<char>) -> bool {
    p.len() <= s.len() && s.subrange(0, p.len() as int) == p
}

/// `p` is a suffix of `s`.
pub open spec fn has_suffix(s: Seq<char>, p: Seq<char>) -> bool {
    p.len() <= s.len() && s.subrange(s.len() - p.len(), s.len() as int) == p
}

/// Character-for-character string equality.
pub fn str_eq(a: &str, b: &str) -> (r: bool)
    ensures
        r == (a@ == b@),
{
    let alen = a.unicode_len();
    let blen = b.unicode_len();
    if alen != blen {
        return false;
    }
    let mut i: usize = 0;
    while i < alen
        invariant
            alen == a@.len(),
            alen == b@.len(),
            i <= alen,
            forall|j: int| 0 <= j < i ==> a@[j] == b@[j],
        decreases alen - i,
    {
        if a.get_char(i) != b.get_char(i) {
            return false;
        }
        i += 1;
    }
    proof {
        assert(a@ =~= b@);
    }
    true
}

/// Whether `p` starts with the prefix `pre`.
pub fn str_has_prefix(s: &str, pre: &str) -> (r: bool)
    ensures
        r == has_prefix(s@, pre@),
{
    let slen = s.unicode_len();
    let plen = pre.unicode_len();
    if plen > slen {
        return false;
    }
    let mut i: usize = 0;
    while i < plen
        invariant
            slen == s@.len(),
            plen == pre@.len(),
            plen <= slen,
            i <= plen,
            forall|j: int| 0 <= j < i ==> s@[j] == pre@[j],
        decreases plen - i,
    {
        if s.get_char(i) != pre.get_char(i) {
            proof {
                assert(s@.subrange(0, plen as int)[i as int] != pre@[i as int]);
            }
            return false;
        }
        i += 1;
    }
    proof {
        assert(s@.subrange(0, plen as int) =~= pre@);
    }
    true
}

/// Whether `s` ends with the suffix `suf`.
pub fn str_has_suffix(s: &str, suf: &str) -> (r: bool)
    ensures
        r == has_suffix(s@, suf@),
{
    let slen = s.unicode_len();
    let plen = suf.unicode_len();
    if plen > slen {
        return false;
    }
    let off = slen - plen;
    let mut i: usize = 0;
    while i < plen
        invariant
            slen == s@.len(),
            plen == suf@.len(),
            plen <= slen,
            off == slen - plen,
            i <= plen,
            forall|j: int| 0 <= j < i ==> s@[off + j] == suf@[j],
        decreases plen - i,
    {
        if s.get_char(off + i) != suf.get_char(i) {
            proof {
                assert(s@.subrange(slen - plen, slen as int)[i as int] != suf@[i as int]);
            }
            return false;
        }
        i += 1;
    }
    proof {
        assert(s@.subrange(slen - plen, slen as int) =~= suf@);
    }
    true
}

/// A path is absolute when it starts with the separator.
pub open spec fn is_absolute_path(p: Seq<char>) -> bool {
    p.len() > 0 && p[0] == '/'
}

/// `b` without its trailing separators: the normal form an output base
/// is brought to before prefix-stripping, so that a base given with a
/// trailing separator (the root directory included, which collapses to
/// the empty path) still matches the canonical paths below it.
pub open spec fn trim_trailing_separators(b: Seq<char>) -> Seq<char>
    decreases b.len(),
{
    if b.len() > 0 && b.last() == '/' {
        trim_trailing_separators(b.drop_last())
    } else {
        b
    }
}

/// A trimmed base never ends with a separator.
pub proof fn lemma_trim_no_trailing_separator(b: Seq<char>)
    ensures
        trim_trailing_separators(b).len() == 0 || trim_trailing_separators(b).last() != '/',
    decreases b.len(),
{
    if b.len() > 0 && b.last() == '/' {
        lemma_trim_no_trailing_separator(b.drop_last());
    }
}

/// `rel` joined onto the directory `dir`, inserting a separator unless
/// `dir` already ends with one.
pub open spec fn join_path(dir: Seq<char>, rel: Seq<char>) -> Seq<char> {
    if dir.len() > 0 && dir.last() == '/' {
        dir + rel
    } else {
        dir + "/"@ + rel
    }
}

/// The base-relative form of the canonical path `p`: what is left of `p`
/// after removing the prefix `base` and the separator that follows it, or
/// nothing when `p` does not lie at or below `base`.
pub open spec fn strip_base(p: Seq<char>, base: Seq<char>) -> Option<Seq<char>> {
    if p == base {
        Some(Seq::<char>::empty())
    } else if p.len() > base.len() && p.subrange(0, base.len() as int) == base && p[base.len() as int]
        == '/' {
        Some(p.subrange(base.len() as int + 1, p.len() as int))
    } else {
        None
    }
}

/// Trim trailing separators off a directory path.
pub fn trim_trailing_separators_str(b: &str) -> (r: String)
    ensures
        r@ == trim_trailing_separators(b@),
{
    let blen = b.unicode_len();
    let mut end: usize = blen;
    proof {
        assert(b@.take(blen as int) =~= b@);
    }
    while end > 0 && b.get_char(end - 1) == '/'
        invariant
            blen == b@.len(),
            end <= blen,
            trim_trailing_separators(b@) == trim_trailing_separators(b@.take(end as int)),
        decreases end,
    {
        proof {
            assert(b@.take(end as int).last() == b@[end as int - 1]);
            assert(b@.take(end as int).drop_last() =~= b@.take(end as int - 1));
        }
        end -= 1;
    }
    let trimmed = b.substring_char(0, end);
    proof {
        assert(trimmed@ =~= b@.take(end as int));
    }
    trimmed.to_owned()
}

/// Whether the path is absolute.
pub fn is_absolute(p: &str) -> (r: bool)
    ensures
        r == is_absolute_path(p@),
{
    let len = p.unicode_len();
    len > 0 && p.get_char(0) == '/'
}

/// Join a relative path onto a directory.
pub fn join_path_str(dir: &str, rel: &str) -> (r: String)
    ensures
        r@ == join_path(dir@, rel@),
{
    let dlen = dir.unicode_len();
    let mut out = String::from_str(dir);
    if dlen == 0 || dir.get_char(dlen - 1) != '/' {
        out.append("/");
    }
    out.append(rel);
    out
}

/// The base-relative form of `p`, or `None` when `p` is not at or below
/// `base`.
pub fn strip_base_prefix(p: &str, base: &str) -> (r: Option<String>)
    ensures
        r is Some <==> strip_base(p@, base@) is Some,
        r matches Some(rel) ==> Some(rel@) == strip_base(p@, base@),
{
    if str_eq(p, base) {
        return Some(String::new());
    }
    let plen = p.unicode_len();
    let blen = base.unicode_len();
    if plen > blen && str_has_prefix(p, base) && p.get_char(blen) == '/' {
        let rest = p.substring_char(blen + 1, plen);
        Some(rest.to_owned())
    } else {
        None
    }
}

/// Relativizing against a base and resolving against the same base are
/// inverse: a canonical path strictly below a trimmed base (one without
/// a trailing separator, the root collapsed to the empty path) is
/// reproduced by joining its base-relative form back onto that base.
pub proof fn lemma_strip_join_round_trip(p: Seq<char>, base: Seq<char>, rel: Seq<char>)
    requires
        base.len() == 0 || base.last() != '/',
        p != base,
        strip_base(p, base) == Some(rel),
    ensures
        join_path(base, rel) == p,
{
    reveal_strlit("/");
    assert(base + "/"@ + rel =~= p);
}

} // verus!
