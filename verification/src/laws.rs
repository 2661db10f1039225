//! The library's laws: properties of the router, the listing and the request
//! machine that hold for all inputs, stated and proved here as public proof
//! functions.

use vstd::prelude::*;
use vstd::relations::sorted_by;
use crate::cache::model_cache_file;
use crate::listing::{
    entries_html, is_hidden, lex_fn, lemma_lex_total_ordering, model_entry_html,
    model_listing_page, sorted_names,
};
use crate::machine::{
    ActionModel, EventModel, FsNode, ServeMode, StateModel, event_fits, fallback_page, mode_of,
    spec_start, spec_step,
};
use crate::paths::has_dotdot;
use crate::response::{
    BodyModel, model_binary_response, model_not_found_fallback, model_not_found_response,
    model_text_response,
};
use crate::routing::{RouteModel, is_cache_path, spec_classify};

verus! {

/// `n` occurs in `h` as a contiguous substring.
pub open spec fn contains_sub(h: Seq<char>, n: Seq<char>) -> bool {
    exists|k: int|
        0 <= k && k + n.len() <= h.len() && #[trigger] h.subrange(k, k + n.len() as int) == n
}

pub proof fn lemma_contains_at_start(h: Seq<char>, t: Seq<char>)
    ensures
        contains_sub(h + t, h),
{
    assert((h + t).subrange(0, 0 + h.len() as int) =~= h);
}

pub proof fn lemma_contains_left_extend(a: Seq<char>, h: Seq<char>, n: Seq<char>)
    requires
        contains_sub(h, n),
    ensures
        contains_sub(a + h, n),
{
    let k = choose|k: int|
        0 <= k && k + n.len() <= h.len() && #[trigger] h.subrange(k, k + n.len() as int) == n;
    assert((a + h).subrange(a.len() + k, a.len() + k + n.len() as int) =~= h.subrange(
        k,
        k + n.len() as int,
    ));
}

pub proof fn lemma_contains_right_extend(h: Seq<char>, t: Seq<char>, n: Seq<char>)
    requires
        contains_sub(h, n),
    ensures
        contains_sub(h + t, n),
{
    let k = choose|k: int|
        0 <= k && k + n.len() <= h.len() && #[trigger] h.subrange(k, k + n.len() as int) == n;
    assert((h + t).subrange(k, k + n.len() as int) =~= h.subrange(k, k + n.len() as int));
}

/// Each rendered line occurs in the rendered sequence of lines.
pub proof fn lemma_entries_html_contains(rel_dir: Seq<char>, names: Seq<Seq<char>>, i: int)
    requires
        0 <= i < names.len(),
    ensures
        contains_sub(entries_html(rel_dir, names), model_entry_html(rel_dir, names[i])),
    decreases names.len(),
{
    if i == 0 {
        lemma_contains_at_start(
            model_entry_html(rel_dir, names[0]),
            entries_html(rel_dir, names.drop_first()),
        );
    } else {
        lemma_entries_html_contains(rel_dir, names.drop_first(), i - 1);
        assert(names.drop_first()[i - 1] == names[i]);
        lemma_contains_left_extend(
            model_entry_html(rel_dir, names[0]),
            entries_html(rel_dir, names.drop_first()),
            model_entry_html(rel_dir, names[i]),
        );
    }
}

/// The sorted arrangement a listing renders is ascending and holds exactly
/// the names that were read, and a listing page renders its entries in that
/// order with exactly one parent link, by the shape of `model_listing_page`.
pub proof fn lemma_sorted_names_ensures(names: Seq<Seq<char>>)
    ensures
        sorted_by(sorted_names(names), lex_fn()),
        sorted_names(names).to_multiset() =~= names.to_multiset(),
{
    lemma_lex_total_ordering();
    names.lemma_sort_by_ensures(lex_fn());
}

/// Every visible (non-hidden) entry of a directory appears in the rendered
/// listing page: the page contains that entry's full rendered line, which
/// links to the entry.
pub proof fn lemma_listing_contains_entry(rel_dir: Seq<char>, names: Seq<Seq<char>>, i: int)
    requires
        0 <= i < names.len(),
    ensures
        contains_sub(model_listing_page(rel_dir, names), model_entry_html(rel_dir, names[i])),
{
    let pre = crate::listing::page_header() + "<h1>Index: /"@ + rel_dir + "</h1><a href=\"/"@
        + crate::listing::parent_of(rel_dir) + "\">..</a><br>"@;
    lemma_entries_html_contains(rel_dir, names, i);
    lemma_contains_left_extend(
        pre,
        entries_html(rel_dir, names),
        model_entry_html(rel_dir, names[i]),
    );
    lemma_contains_right_extend(
        pre + entries_html(rel_dir, names),
        crate::listing::page_footer(),
        model_entry_html(rel_dir, names[i]),
    );
}

/// The uniform dotfile policy: a hidden entry contributes nothing to the
/// page.  In particular the reserved cache area, whose name starts with a
/// dot, never appears in a listing.
pub proof fn lemma_hidden_entry_not_rendered(rel_dir: Seq<char>, name: Seq<char>)
    requires
        is_hidden(name),
    ensures
        model_entry_html(rel_dir, name) == Seq::<char>::empty(),
{
}

/// Serving an existing text file: when the router classifies a path as text,
/// the machine probes the resolved file; if it exists and reads back as
/// `content`, the response is 200 with body exactly `content` and a content
/// type derived from the file's extension through the MIME table.
pub proof fn lemma_text_file_served(
    root: Seq<char>,
    path: Seq<char>,
    fp: Seq<char>,
    content: Seq<char>,
)
    requires
        spec_classify(root, path) == (RouteModel::TextModel { filepath: fp }),
    ensures
        spec_start(root, path) == (
            (StateModel::ProbingFile { mode: ServeMode::TextMode, filepath: fp }),
            (ActionModel::Probe { path: fp }),
        ),
        spec_step(
            root,
            StateModel::ProbingFile { mode: ServeMode::TextMode, filepath: fp },
            EventModel::Probed { node: FsNode::FileNode },
        ) == (
            (StateModel::ReadingFile { mode: ServeMode::TextMode, filepath: fp }),
            (ActionModel::ReadText { path: fp }),
        ),
        spec_step(
            root,
            StateModel::ReadingFile { mode: ServeMode::TextMode, filepath: fp },
            EventModel::TextRead { result: Ok(content) },
        ) == (
            StateModel::Finished,
            (ActionModel::Respond {
                response: model_text_response(
                    crate::server_env::spec_mime(crate::machine::ext_or_empty(fp)),
                    content,
                ),
            }),
        ),
        model_text_response(
            crate::server_env::spec_mime(crate::machine::ext_or_empty(fp)),
            content,
        ).status == 200,
        model_text_response(
            crate::server_env::spec_mime(crate::machine::ext_or_empty(fp)),
            content,
        ).body == BodyModel::TextModel(content),
{
}

/// A missing resource leads to the not-found flow: from any probing state,
/// a missing-node probe moves the machine to the fallback probe, and the
/// fallback flow responds 404 with the custom page's contents when the page
/// exists and reads, else with the fixed fallback text.
pub proof fn lemma_not_found_flow(root: Seq<char>, s: StateModel, page: Seq<char>)
    requires
        s is ProbingFile || s is ProbingNoExt || s is ProbingSource,
    ensures
        spec_step(root, s, EventModel::Probed { node: FsNode::MissingNode }) == (
            StateModel::ProbingFallback,
            (ActionModel::Probe { path: fallback_page(root) }),
        ),
        spec_step(
            root,
            StateModel::ProbingFallback,
            EventModel::Probed { node: FsNode::MissingNode },
        ) == (
            StateModel::Finished,
            (ActionModel::Respond { response: model_not_found_response(None) }),
        ),
        spec_step(
            root,
            StateModel::ProbingFallback,
            EventModel::Probed { node: FsNode::FileNode },
        ) == (
            StateModel::ReadingFallback,
            (ActionModel::ReadText { path: fallback_page(root) }),
        ),
        spec_step(root, StateModel::ReadingFallback, EventModel::TextRead { result: Ok(page) })
            == (
            StateModel::Finished,
            (ActionModel::Respond { response: model_not_found_response(Some(page)) }),
        ),
        model_not_found_response(None).status == 404,
        model_not_found_response(None).body == BodyModel::TextModel(model_not_found_fallback()),
        model_not_found_response(Some(page)).status == 404,
        model_not_found_response(Some(page)).body == BodyModel::TextModel(page),
{
}

/// The serving tail of the machine: once a request is down to probing or
/// reading a file to serve (or the not-found fallback), no later step ever
/// invokes the external tool, touches the cache directory, or lists a
/// directory.
pub open spec fn serving_only(s: StateModel) -> bool {
    ||| s is ProbingFile
    ||| s is ReadingFile
    ||| s is ProbingFallback
    ||| s is ReadingFallback
    ||| s is Finished
}

pub proof fn lemma_serving_flow_quiescent(root: Seq<char>, s: StateModel, e: EventModel)
    requires
        serving_only(s),
    ensures
        serving_only(spec_step(root, s, e).0),
        !(spec_step(root, s, e).1 is RunTool),
        !(spec_step(root, s, e).1 is EnsureDirectory),
        !(spec_step(root, s, e).1 is ReadDirectory),
{
}

/// Derivation idempotence, first half: when the cache already holds the
/// derived file, the machine goes straight to reading it — the fast path —
/// and from then on, by `lemma_serving_flow_quiescent`, no step can invoke
/// the external tool.
pub proof fn lemma_cache_hit_no_tool(
    root: Seq<char>,
    kind: crate::cache::DeriveKind,
    rel_source: Seq<char>,
    source: Seq<char>,
    node: FsNode,
)
    requires
        !(node is MissingNode),
    ensures
        spec_step(
            root,
            StateModel::ProbingCache { kind, rel_source, source },
            EventModel::Probed { node },
        ).0 == (StateModel::ReadingFile {
            mode: mode_of(kind),
            filepath: model_cache_file(root, kind, rel_source),
        }),
        serving_only(
            spec_step(
                root,
                StateModel::ProbingCache { kind, rel_source, source },
                EventModel::Probed { node },
            ).0,
        ),
        !(spec_step(
            root,
            StateModel::ProbingCache { kind, rel_source, source },
            EventModel::Probed { node },
        ).1 is RunTool),
{
}

/// Derivation idempotence, second half: what is served from the cache is a
/// function of the cached bytes alone.  Two reads that return the same bytes
/// yield equal responses, whatever paths they were read from.
pub proof fn lemma_binary_read_response(
    root: Seq<char>,
    fp1: Seq<char>,
    fp2: Seq<char>,
    content: Seq<u8>,
)
    ensures
        spec_step(
            root,
            StateModel::ReadingFile { mode: ServeMode::BinaryMode, filepath: fp1 },
            EventModel::BytesRead { result: Ok(content) },
        ).1 == (ActionModel::Respond { response: model_binary_response(content) }),
        spec_step(
            root,
            StateModel::ReadingFile { mode: ServeMode::BinaryMode, filepath: fp1 },
            EventModel::BytesRead { result: Ok(content) },
        ).1 == spec_step(
            root,
            StateModel::ReadingFile { mode: ServeMode::BinaryMode, filepath: fp2 },
            EventModel::BytesRead { result: Ok(content) },
        ).1,
{
}

/// The raw-source round trip: a path carrying the raw-source marker is
/// served exactly as the file with the marker stripped, served as text: the
/// machine starts in the same state with the same action, so the whole
/// session coincides with that of the stripped file's text route.
pub proof fn lemma_source_route_serves_text(
    root: Seq<char>,
    path: Seq<char>,
    other: Seq<char>,
    fp: Seq<char>,
)
    requires
        spec_classify(root, path) == (RouteModel::SourceModel { filepath: fp }),
        spec_classify(root, other) == (RouteModel::TextModel { filepath: fp }),
    ensures
        spec_start(root, path) == spec_start(root, other),
{
}

/// Reserved-area lockout: any request path naming the cache area, and any
/// path carrying a parent-traversal segment, is classified not-found, and
/// its whole session touches nothing but the fallback page: every action is
/// a probe or read of the fallback page, or the final response.
pub open spec fn fallback_only(s: StateModel) -> bool {
    ||| s is ProbingFallback
    ||| s is ReadingFallback
    ||| s is Finished
}

pub proof fn lemma_cache_area_locked_out(root: Seq<char>, path: Seq<char>)
    requires
        is_cache_path(path) || has_dotdot(path),
    ensures
        spec_classify(root, path) == RouteModel::NotFoundModel,
        spec_start(root, path) == (
            StateModel::ProbingFallback,
            (ActionModel::Probe { path: fallback_page(root) }),
        ),
{
    reveal_strlit("/");
    reveal_strlit("/*");
    reveal_strlit("/.cache");
    reveal_strlit("/.cache/");
}

/// Hardening of path resolution: every on-disk location a route names lies
/// under the content root.  Together with `lemma_cache_area_locked_out`,
/// which rejects every path carrying a `..` segment, no request escapes the
/// content root by string manipulation.
pub proof fn lemma_routes_stay_under_root(root: Seq<char>, path: Seq<char>)
    requires
        crate::routing::root_wf(root),
    ensures
        match spec_classify(root, path) {
            RouteModel::NoExtModel { rel, filepath } => filepath == root + rel,
            RouteModel::ListRootModel => true,
            RouteModel::NotFoundModel => true,
            RouteModel::TextModel { filepath } => crate::strutil::is_prefix_of(root, filepath),
            RouteModel::SourceModel { filepath } => crate::strutil::is_prefix_of(root, filepath),
            RouteModel::DerivedModel { source, .. } => crate::strutil::is_prefix_of(root, source),
            RouteModel::BinaryModel { filepath } => crate::strutil::is_prefix_of(root, filepath),
        },
{
    let rel = path.subrange(1, path.len() as int);
    let fp = root + rel;
    assert(fp.subrange(0, root.len() as int) =~= root);
    if crate::paths::has_extension(fp) {
        crate::routing::lemma_extension_inside_rel(root, rel);
        let e = crate::paths::extension_of(fp);
        reveal_strlit("thumbnail");
        reveal_strlit("render");
        reveal_strlit("source");
        if e == "thumbnail"@ {
            assert(e.len() == 9);
            assert(fp.len() - (crate::strutil::last_idx_of(fp, '.') + 1) == 9);
            assert(fp.len() - 10 >= root.len() + 1);
            assert(crate::routing::strip_last_n(fp, 10).subrange(0, root.len() as int) =~= root);
        }
        if e == "render"@ || e == "source"@ {
            assert(e.len() == 6);
            assert(fp.len() - (crate::strutil::last_idx_of(fp, '.') + 1) == 6);
            assert(fp.len() - 7 >= root.len() + 1);
            assert(crate::routing::strip_last_n(fp, 7).subrange(0, root.len() as int) =~= root);
        }
    }
}

/// Every action of a locked-out session names only the fallback page.
pub proof fn lemma_fallback_flow_touches_only_fallback(
    root: Seq<char>,
    s: StateModel,
    e: EventModel,
)
    requires
        fallback_only(s),
        event_fits(s, e),
    ensures
        fallback_only(spec_step(root, s, e).0),
        match spec_step(root, s, e).1 {
            ActionModel::Probe { path } => path == fallback_page(root),
            ActionModel::ReadText { path } => path == fallback_page(root),
            ActionModel::Respond { .. } => true,
            _ => false,
        },
{
}

} // verus!
