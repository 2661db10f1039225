//! The derived-asset cache layout: one reserved dot-prefixed area under the
//! content root, one subdirectory per derivation kind, and a deterministic
//! cache file name per source: the source's root-relative path with every
//! `/` flattened to `_`, plus `.html` for rendered documents.

use vstd::prelude::*;
use crate::strutil::{flatten_slashes, flatten_path, str_concat};

verus! {

/// A derivation kind: an image thumbnail, or a document rendered to HTML.
#[derive(Clone, Copy, PartialEq, Eq, Structural)]
pub enum DeriveKind {
    Thumbnail,
    Render,
}

/// The cache subdirectory for `kind`, as an absolute path under `root`.
pub open spec fn model_cache_dir(root: Seq<char>, kind: DeriveKind) -> Seq<char> {
    match kind {
        DeriveKind::Thumbnail => root + ".cache/thumbnails/"@,
        DeriveKind::Render => root + ".cache/rendered/"@,
    }
}

pub fn cache_dir(root: &str, kind: DeriveKind) -> (r: String)
    ensures
        r@ == model_cache_dir(root@, kind),
{
    match kind {
        DeriveKind::Thumbnail => str_concat(root, ".cache/thumbnails/"),
        DeriveKind::Render => str_concat(root, ".cache/rendered/"),
    }
}

/// The cache file for deriving `kind` from the source whose root-relative
/// path is `rel_source`.
pub open spec fn model_cache_file(root: Seq<char>, kind: DeriveKind, rel_source: Seq<char>) -> Seq<
    char,
> {
    match kind {
        DeriveKind::Thumbnail => model_cache_dir(root, kind) + flatten_slashes(rel_source),
        DeriveKind::Render => model_cache_dir(root, kind) + flatten_slashes(rel_source) + ".html"@,
    }
}

pub fn cache_file(root: &str, kind: DeriveKind, rel_source: &str) -> (r: String)
    ensures
        r@ == model_cache_file(root@, kind, rel_source@),
{
    let dir = cache_dir(root, kind);
    let flat = flatten_path(rel_source);
    let base = str_concat(dir.as_str(), flat.as_str());
    match kind {
        DeriveKind::Thumbnail => base,
        DeriveKind::Render => str_concat(base.as_str(), ".html"),
    }
}

} // verus!
