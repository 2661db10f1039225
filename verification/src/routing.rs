//! The request router: classifies a decoded request path into exactly one
//! route.  Classification order, first match wins: the root marker `/`, the
//! list-entire-tree marker `/*`, the reserved cache area (always not found),
//! parent traversal (rejected, never resolved on disk), then by the file
//! extension of the resolved on-disk path.

use vstd::prelude::*;
use crate::cache::DeriveKind;
use crate::paths::{
    basename_start, extension_of, extension_str, has_dotdot, has_extension, contains_dotdot,
    resolve,
};
use crate::strutil::{
    is_prefix_of, last_idx_of, lemma_last_idx_of, str_concat, str_eq, str_slice, str_starts_with,
};

verus! {

/// The content root as every component expects it: a non-empty path ending
/// with the separator, so that resolved paths are its direct extensions.
pub open spec fn root_wf(root: Seq<char>) -> bool {
    root.len() >= 1 && root[root.len() - 1] == '/'
}

/// A request path names the reserved cache area when it is the area itself or
/// anything beneath it.
pub open spec fn is_cache_path(path: Seq<char>) -> bool {
    path == "/.cache"@ || is_prefix_of("/.cache/"@, path)
}

/// Extensions served as text with a content type from the MIME resolver.
pub open spec fn is_text_ext(e: Seq<char>) -> bool {
    ||| e == "html"@
    ||| e == "css"@
    ||| e == "js"@
    ||| e == "txt"@
    ||| e == "md"@
    ||| e == "csv"@
    ||| e == "ics"@
    ||| e == "xml"@
    ||| e == "htm"@
    ||| e == "rss"@
}

/// One route per request.  Paths named here are absolute on-disk locations,
/// except `rel` / `rel_source`, which are relative to the content root.
pub enum Route {
    /// Serve a directory listing or an extensionless file.
    NoExtRoute { rel: String, filepath: String },
    /// List the content root itself.
    ListRootRoute,
    /// Respond not found without touching the resolved location.
    NotFoundRoute,
    /// Serve an existing file as text.
    TextRoute { filepath: String },
    /// Serve the file obtained by dropping the raw-source marker, as text.
    SourceRoute { filepath: String },
    /// Serve a derived asset generated from `source` on first request.
    DerivedRoute { kind: DeriveKind, rel_source: String, source: String },
    /// Serve an existing file as opaque bytes.
    BinaryRoute { filepath: String },
}

/// Mathematical model of a route.
pub enum RouteModel {
    NoExtModel { rel: Seq<char>, filepath: Seq<char> },
    ListRootModel,
    NotFoundModel,
    TextModel { filepath: Seq<char> },
    SourceModel { filepath: Seq<char> },
    DerivedModel { kind: DeriveKind, rel_source: Seq<char>, source: Seq<char> },
    BinaryModel { filepath: Seq<char> },
}

impl View for Route {
    type V = RouteModel;

    open spec fn view(&self) -> RouteModel {
        match self {
            Route::NoExtRoute { rel, filepath } => RouteModel::NoExtModel {
                rel: rel@,
                filepath: filepath@,
            },
            Route::ListRootRoute => RouteModel::ListRootModel,
            Route::NotFoundRoute => RouteModel::NotFoundModel,
            Route::TextRoute { filepath } => RouteModel::TextModel { filepath: filepath@ },
            Route::SourceRoute { filepath } => RouteModel::SourceModel { filepath: filepath@ },
            Route::DerivedRoute { kind, rel_source, source } => RouteModel::DerivedModel {
                kind: *kind,
                rel_source: rel_source@,
                source: source@,
            },
            Route::BinaryRoute { filepath } => RouteModel::BinaryModel { filepath: filepath@ },
        }
    }
}

/// `s` without its last `n` characters.
pub open spec fn strip_last_n(s: Seq<char>, n: int) -> Seq<char> {
    s.subrange(0, s.len() - n)
}

/// The classification of request path `path` under `root`.
pub open spec fn spec_classify(root: Seq<char>, path: Seq<char>) -> RouteModel {
    if path == "/"@ {
        RouteModel::NoExtModel { rel: "index"@, filepath: root + "index"@ }
    } else if path == "/*"@ {
        RouteModel::ListRootModel
    } else if is_cache_path(path) {
        RouteModel::NotFoundModel
    } else if has_dotdot(path) {
        RouteModel::NotFoundModel
    } else {
        let rel = path.subrange(1, path.len() as int);
        let fp = root + rel;
        if !has_extension(fp) {
            RouteModel::NoExtModel { rel, filepath: fp }
        } else {
            let e = extension_of(fp);
            if is_text_ext(e) {
                RouteModel::TextModel { filepath: fp }
            } else if e == "thumbnail"@ {
                RouteModel::DerivedModel {
                    kind: DeriveKind::Thumbnail,
                    rel_source: strip_last_n(rel, 10),
                    source: strip_last_n(fp, 10),
                }
            } else if e == "render"@ {
                RouteModel::DerivedModel {
                    kind: DeriveKind::Render,
                    rel_source: strip_last_n(rel, 7),
                    source: strip_last_n(fp, 7),
                }
            } else if e == "source"@ {
                RouteModel::SourceModel { filepath: strip_last_n(fp, 7) }
            } else {
                RouteModel::BinaryModel { filepath: fp }
            }
        }
    }
}

/// When the resolved path `root + rel` has extension `e`, the dot before the
/// extension lies strictly inside `rel`, so both `rel` and the resolved path
/// end with `.` followed by `e`.
pub proof fn lemma_extension_inside_rel(root: Seq<char>, rel: Seq<char>)
    requires
        root_wf(root),
        has_extension(root + rel),
    ensures
        root.len() + 1 <= last_idx_of(root + rel, '.') < (root + rel).len(),
        (root + rel).len() == root.len() + rel.len(),
        rel.len() >= (root + rel).len() - last_idx_of(root + rel, '.'),
{
    let fp = root + rel;
    lemma_last_idx_of(fp, '/');
    lemma_last_idx_of(fp, '.');
    assert(fp[root.len() - 1] == '/');
    // the last '/' is at or after root's trailing separator
    assert(last_idx_of(fp, '/') >= root.len() - 1);
    // a dot strictly inside the basename is strictly after the last '/'
    assert(last_idx_of(fp, '.') > basename_start(fp));
}

/// Classifies `path` under `root`, exactly as `spec_classify` states.
pub fn classify(root: &str, path: &str) -> (r: Route)
    requires
        root_wf(root@),
        path@.len() >= 1,
    ensures
        r@ == spec_classify(root@, path@),
{
    if str_eq(path, "/") {
        return Route::NoExtRoute {
            rel: String::from_str("index"),
            filepath: str_concat(root, "index"),
        };
    }
    if str_eq(path, "/*") {
        return Route::ListRootRoute;
    }
    if str_eq(path, "/.cache") || str_starts_with(path, "/.cache/") {
        return Route::NotFoundRoute;
    }
    if contains_dotdot(path) {
        return Route::NotFoundRoute;
    }
    let path_len = path.unicode_len();
    let rel_slice = str_slice(path, 1, path_len);
    let rel = String::from_str(rel_slice);
    let fp = resolve(root, path);
    let ghost grel = path@.subrange(1, path@.len() as int);
    let ghost gfp = root@ + grel;
    assert(fp@ == gfp);
    match extension_str(fp.as_str()) {
        None => Route::NoExtRoute { rel, filepath: fp },
        Some(e) => {
            proof {
                lemma_extension_inside_rel(root@, grel);
            }
            if is_text_ext_exec(e.as_str()) {
                Route::TextRoute { filepath: fp }
            } else if str_eq(e.as_str(), "thumbnail") {
                proof {
                    reveal_strlit("thumbnail");
                    assert(e@.len() == 9);
                }
                let fp_len = fp.as_str().unicode_len();
                let rel_len = rel.as_str().unicode_len();
                let source = String::from_str(str_slice(fp.as_str(), 0, fp_len - 10));
                let rel_source = String::from_str(str_slice(rel.as_str(), 0, rel_len - 10));
                Route::DerivedRoute { kind: DeriveKind::Thumbnail, rel_source, source }
            } else if str_eq(e.as_str(), "render") {
                proof {
                    reveal_strlit("render");
                    assert(e@.len() == 6);
                }
                let fp_len = fp.as_str().unicode_len();
                let rel_len = rel.as_str().unicode_len();
                let source = String::from_str(str_slice(fp.as_str(), 0, fp_len - 7));
                let rel_source = String::from_str(str_slice(rel.as_str(), 0, rel_len - 7));
                Route::DerivedRoute { kind: DeriveKind::Render, rel_source, source }
            } else if str_eq(e.as_str(), "source") {
                proof {
                    reveal_strlit("source");
                    assert(e@.len() == 6);
                }
                let fp_len = fp.as_str().unicode_len();
                let stripped = String::from_str(str_slice(fp.as_str(), 0, fp_len - 7));
                Route::SourceRoute { filepath: stripped }
            } else {
                Route::BinaryRoute { filepath: fp }
            }
        },
    }
}

/// Membership of `e` in the known-text extension set.
pub fn is_text_ext_exec(e: &str) -> (r: bool)
    ensures
        r == is_text_ext(e@),
{
    str_eq(e, "html") || str_eq(e, "css") || str_eq(e, "js") || str_eq(e, "txt") || str_eq(e, "md")
        || str_eq(e, "csv") || str_eq(e, "ics") || str_eq(e, "xml") || str_eq(e, "htm") || str_eq(
        e,
        "rss",
    )
}

} // verus!
