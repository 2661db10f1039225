//! Verified string helpers: equality, prefix/suffix tests, searching for a
//! character from the right, concatenation and single-character substitution.
//! All contracts are stated over the `Seq<char>` view of `str` and `String`.

use vstd::prelude::*;

verus! {

/// `pre` is a prefix of `s`.
pub open spec fn is_prefix_of(pre: Seq<char>, s: Seq<char>) -> bool {
    pre.len() <= s.len() && s.subrange(0, pre.len() as int) == pre
}

/// Character-for-character equality of two string slices.
pub fn str_eq(a: &str, b: &str) -> (r: bool)
    ensures
        r == (a@ == b@),
{
    let alen = a.unicode_len();
    let blen = b.unicode_len();
    if alen != blen {
        return false;
    }
    let mut i: usize = 0;
    while i < alen
        invariant
            alen == a@.len(),
            alen == blen,
            blen == b@.len(),
            i <= alen,
            forall|j: int| 0 <= j < i ==> a@[j] == b@[j],
        decreases alen - i,
    {
        if a.get_char(i) != b.get_char(i) {
            return false;
        }
        i = i + 1;
    }
    proof {
        assert(a@ =~= b@);
    }
    true
}

/// Whether `s` starts with `pre`.
pub fn str_starts_with(s: &str, pre: &str) -> (r: bool)
    ensures
        r == is_prefix_of(pre@, s@),
{
    let slen = s.unicode_len();
    let plen = pre.unicode_len();
    if plen > slen {
        return false;
    }
    let mut i: usize = 0;
    while i < plen
        invariant
            slen == s@.len(),
            plen == pre@.len(),
            plen <= slen,
            i <= plen,
            forall|j: int| 0 <= j < i ==> s@[j] == pre@[j],
        decreases plen - i,
    {
        if s.get_char(i) != pre.get_char(i) {
            proof {
                assert(s@.subrange(0, pre@.len() as int)[i as int] == s@[i as int]);
            }
            return false;
        }
        i = i + 1;
    }
    proof {
        assert(s@.subrange(0, pre@.len() as int) =~= pre@);
    }
    true
}

/// The index of the last occurrence of `c` in `s`, or `-1` when there is none.
pub open spec fn last_idx_of(s: Seq<char>, c: char) -> int
    decreases s.len(),
{
    if s.len() == 0 {
        -1
    } else if s[s.len() - 1] == c {
        s.len() - 1
    } else {
        last_idx_of(s.drop_last(), c)
    }
}

/// The defining properties of `last_idx_of`: it is `-1` exactly when `c` does
/// not occur, and otherwise the largest index holding `c`.
pub proof fn lemma_last_idx_of(s: Seq<char>, c: char)
    ensures
        -1 <= last_idx_of(s, c) < s.len(),
        last_idx_of(s, c) == -1 ==> forall|j: int| 0 <= j < s.len() ==> s[j] != c,
        last_idx_of(s, c) >= 0 ==> s[last_idx_of(s, c)] == c,
        forall|j: int| last_idx_of(s, c) < j < s.len() ==> s[j] != c,
    decreases s.len(),
{
    if s.len() > 0 && s[s.len() - 1] != c {
        lemma_last_idx_of(s.drop_last(), c);
        assert forall|j: int| last_idx_of(s, c) < j < s.len() implies s[j] != c by {
            if j < s.len() - 1 {
                assert(s.drop_last()[j] == s[j]);
            }
        }
        if last_idx_of(s, c) == -1 {
            assert forall|j: int| 0 <= j < s.len() implies s[j] != c by {
                if j < s.len() - 1 {
                    assert(s.drop_last()[j] == s[j]);
                }
            }
        }
        if last_idx_of(s, c) >= 0 {
            assert(s.drop_last()[last_idx_of(s, c)] == s[last_idx_of(s, c)]);
        }
    }
}

/// The last index at which `c` occurs in `s`, or `None` when it does not occur.
pub fn find_last(s: &str, c: char) -> (r: Option<usize>)
    ensures
        match r {
            Some(i) => i == last_idx_of(s@, c),
            None => last_idx_of(s@, c) == -1,
        },
{
    let len = s.unicode_len();
    let mut i: usize = len;
    while i > 0
        invariant
            len == s@.len(),
            i <= len,
            forall|j: int| i <= j < len ==> s@[j] != c,
        decreases i,
    {
        i = i - 1;
        if s.get_char(i) == c {
            proof {
                lemma_last_idx_of(s@, c);
            }
            return Some(i);
        }
    }
    proof {
        lemma_last_idx_of(s@, c);
    }
    None
}

/// `a` followed by `b`, as a fresh `String`.
pub fn str_concat(a: &str, b: &str) -> (r: String)
    ensures
        r@ == a@ + b@,
{
    let mut out = String::from_str(a);
    out.append(b);
    out
}

/// The characters of `s` from `from` (inclusive) to `to` (exclusive).
pub fn str_slice<'a>(s: &'a str, from: usize, to: usize) -> (r: &'a str)
    requires
        from <= to <= s@.len(),
    ensures
        r@ == s@.subrange(from as int, to as int),
{
    s.substring_char(from, to)
}

/// `s` with every `/` replaced by `_`; used to flatten a root-relative path
/// into a single cache file name.
pub open spec fn flatten_slashes(s: Seq<char>) -> Seq<char> {
    s.map_values(|c: char| if c == '/' { '_' } else { c })
}

/// Replaces every `/` in `s` by `_`.
pub fn flatten_path(s: &str) -> (r: String)
    ensures
        r@ == flatten_slashes(s@),
{
    let len = s.unicode_len();
    let mut out = String::new();
    let mut i: usize = 0;
    while i < len
        invariant
            len == s@.len(),
            i <= len,
            out@ == flatten_slashes(s@.subrange(0, i as int)),
        decreases len - i,
    {
        let c = s.get_char(i);
        if c == '/' {
            out.append("_");
        } else {
            let piece = s.substring_char(i, i + 1);
            out.append(piece);
        }
        proof {
            reveal_strlit("_");
            assert(out@ =~= flatten_slashes(s@.subrange(0, i + 1))) by {
                assert(s@.subrange(0, i + 1) =~= s@.subrange(0, i as int).push(s@[i as int]));
                assert(flatten_slashes(s@.subrange(0, i as int).push(s@[i as int]))
                    =~= flatten_slashes(s@.subrange(0, i as int)).push(
                        if s@[i as int] == '/' { '_' } else { s@[i as int] }));
            }
        }
        i = i + 1;
    }
    proof {
        assert(s@.subrange(0, s@.len() as int) =~= s@);
    }
    out
}

} // verus!
