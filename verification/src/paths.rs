//! The filesystem path model: resolving a request path beneath the content
//! root, recognizing the file extension of a path, and rejecting parent
//! traversal.
//!
//! A path is modelled as its character sequence.  The *basename* of a path is
//! everything after the last `/`; the *extension* is the part of the basename
//! after its last `.`, provided that dot is not the basename's first
//! character (so a leading-dot name such as `.profile` has no extension).

use vstd::prelude::*;
use crate::strutil::{last_idx_of, lemma_last_idx_of, find_last, str_slice, str_concat};

verus! {

/// Index of the first character of the basename of `p`.
pub open spec fn basename_start(p: Seq<char>) -> int {
    last_idx_of(p, '/') + 1
}

/// Whether `p` has an extension: a `.` strictly inside its basename.
pub open spec fn has_extension(p: Seq<char>) -> bool {
    last_idx_of(p, '.') > basename_start(p)
}

/// The extension of `p`; meaningful only when `has_extension(p)`.
pub open spec fn extension_of(p: Seq<char>) -> Seq<char> {
    p.subrange(last_idx_of(p, '.') + 1, p.len() as int)
}

/// Computes the extension of `p` under the model above: `Some` exactly when a
/// `.` stands strictly inside the basename, and then the part after the last
/// `.`.
pub fn extension_str(p: &str) -> (r: Option<String>)
    ensures
        match r {
            Some(e) => has_extension(p@) && e@ == extension_of(p@),
            None => !has_extension(p@),
        },
{
    proof {
        lemma_last_idx_of(p@, '.');
        lemma_last_idx_of(p@, '/');
    }
    let len = p.unicode_len();
    let dot = find_last(p, '.');
    let slash = find_last(p, '/');
    match dot {
        None => None,
        Some(d) => {
            let base: usize = match slash {
                None => 0,
                Some(s_idx) => s_idx + 1,
            };
            if d > base {
                let e = str_slice(p, d + 1, len);
                Some(String::from_str(e))
            } else {
                None
            }
        },
    }
}

/// The on-disk location of request path `path` under `root`: the root
/// followed by the path without its leading separator.
pub open spec fn spec_resolve(root: Seq<char>, path: Seq<char>) -> Seq<char> {
    root + path.subrange(1, path.len() as int)
}

/// Maps a request path to its on-disk location under the content root.
pub fn resolve(root: &str, path: &str) -> (r: String)
    requires
        path@.len() >= 1,
    ensures
        r@ == spec_resolve(root@, path@),
{
    let rest = str_slice(path, 1, path.unicode_len());
    str_concat(root, rest)
}

/// A `..` path segment stands at index `i` of `p`: two dots delimited by the
/// string's ends or by `/` on both sides.
pub open spec fn dotdot_at(p: Seq<char>, i: int) -> bool {
    &&& 0 <= i
    &&& i + 2 <= p.len()
    &&& p[i] == '.'
    &&& p[i + 1] == '.'
    &&& (i == 0 || p[i - 1] == '/')
    &&& (i + 2 == p.len() || p[i + 2] == '/')
}

/// Whether `p` contains a `..` segment anywhere.
pub open spec fn has_dotdot(p: Seq<char>) -> bool {
    exists|i: int| #[trigger] dotdot_at(p, i)
}

/// Scans `p` for a `..` segment.
pub fn contains_dotdot(p: &str) -> (r: bool)
    ensures
        r == has_dotdot(p@),
{
    let len = p.unicode_len();
    if len < 2 {
        proof {
            assert forall|i: int| !dotdot_at(p@, i) by {}
        }
        return false;
    }
    let mut i: usize = 0;
    while i <= len - 2
        invariant
            len == p@.len(),
            2 <= len,
            i <= len - 1,
            forall|j: int| 0 <= j < i ==> !dotdot_at(p@, j),
        decreases len - i,
    {
        let c0 = p.get_char(i);
        let c1 = p.get_char(i + 1);
        if c0 == '.' && c1 == '.' {
            let left_ok = if i == 0 { true } else { p.get_char(i - 1) == '/' };
            let right_ok = if i + 2 == len { true } else { p.get_char(i + 2) == '/' };
            if left_ok && right_ok {
                proof {
                    assert(dotdot_at(p@, i as int));
                }
                return true;
            }
        }
        i = i + 1;
    }
    proof {
        assert forall|j: int| !dotdot_at(p@, j) by {
            if 0 <= j && j + 2 <= p@.len() {
                assert(j < i);
            }
        }
    }
    false
}

} // verus!
