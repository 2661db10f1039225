//! The request state machine.  A request is handled as a short session: the
//! machine names the one environment operation to perform next (a stat-like
//! probe, a file or directory read, an idempotent ensure-directory, or a
//! synchronous external tool run), the application performs it and hands the
//! outcome back as an event, and the machine moves on, until it responds.
//! The machine itself never touches the environment, so every decision it
//! takes is verified for every possible outcome of every operation.

use vstd::prelude::*;
use crate::cache::{DeriveKind, model_cache_dir, model_cache_file, cache_dir, cache_file};
use crate::listing::{model_listing_page, sorted_names, render_listing};
use crate::paths::{extension_of, has_extension, extension_str};
use crate::response::{
    HttpResponse, RespModel, model_text_response, model_binary_response, model_listing_response,
    model_not_found_response, model_server_error_response, text_response, binary_response,
    listing_response, not_found_response, server_error_response,
};
use crate::routing::{classify, spec_classify, Route, RouteModel, root_wf};
use crate::server_env::{Env, spec_mime};
use crate::strutil::str_concat;

verus! {

/// Whether a file's bytes are served as text or as opaque binary.
#[derive(Clone, Copy, PartialEq, Eq, Structural)]
pub enum ServeMode {
    TextMode,
    BinaryMode,
}

/// How a cached derived asset is served: thumbnails as binary, rendered
/// documents as text.
pub open spec fn mode_of(kind: DeriveKind) -> ServeMode {
    match kind {
        DeriveKind::Thumbnail => ServeMode::BinaryMode,
        DeriveKind::Render => ServeMode::TextMode,
    }
}

/// What a stat-like probe of a path reports.
#[derive(Clone, Copy, PartialEq, Eq, Structural)]
pub enum FsNode {
    FileNode,
    DirNode,
    MissingNode,
}

/// The machine's position within one request.
pub enum ServerState {
    /// Checking that the file to serve exists.
    ProbingFile { mode: ServeMode, filepath: String },
    /// Reading the file to serve.
    ReadingFile { mode: ServeMode, filepath: String },
    /// Checking whether an extensionless path is a directory or a file.
    ProbingNoExt { rel: String, filepath: String },
    /// Reading a directory's entry names.
    ListingDir { rel: String, dirpath: String },
    /// Checking for a custom not-found page at the content root.
    ProbingFallback,
    /// Reading the custom not-found page.
    ReadingFallback,
    /// Checking that a derivation source exists.
    ProbingSource { kind: DeriveKind, rel_source: String, source: String },
    /// Ensuring the cache subdirectory for the kind exists.
    EnsuringCacheDir { kind: DeriveKind, rel_source: String, source: String },
    /// Checking for an already-cached derived file.
    ProbingCache { kind: DeriveKind, rel_source: String, source: String },
    /// Waiting for the external transformation tool.
    RunningTool { kind: DeriveKind, rel_source: String, source: String },
    /// A response has been produced.
    Finished,
}

/// Mathematical model of a state.
pub enum StateModel {
    ProbingFile { mode: ServeMode, filepath: Seq<char> },
    ReadingFile { mode: ServeMode, filepath: Seq<char> },
    ProbingNoExt { rel: Seq<char>, filepath: Seq<char> },
    ListingDir { rel: Seq<char>, dirpath: Seq<char> },
    ProbingFallback,
    ReadingFallback,
    ProbingSource { kind: DeriveKind, rel_source: Seq<char>, source: Seq<char> },
    EnsuringCacheDir { kind: DeriveKind, rel_source: Seq<char>, source: Seq<char> },
    ProbingCache { kind: DeriveKind, rel_source: Seq<char>, source: Seq<char> },
    RunningTool { kind: DeriveKind, rel_source: Seq<char>, source: Seq<char> },
    Finished,
}

impl View for ServerState {
    type V = StateModel;

    open spec fn view(&self) -> StateModel {
        match self {
            ServerState::ProbingFile { mode, filepath } => StateModel::ProbingFile {
                mode: *mode,
                filepath: filepath@,
            },
            ServerState::ReadingFile { mode, filepath } => StateModel::ReadingFile {
                mode: *mode,
                filepath: filepath@,
            },
            ServerState::ProbingNoExt { rel, filepath } => StateModel::ProbingNoExt {
                rel: rel@,
                filepath: filepath@,
            },
            ServerState::ListingDir { rel, dirpath } => StateModel::ListingDir {
                rel: rel@,
                dirpath: dirpath@,
            },
            ServerState::ProbingFallback => StateModel::ProbingFallback,
            ServerState::ReadingFallback => StateModel::ReadingFallback,
            ServerState::ProbingSource { kind, rel_source, source } => StateModel::ProbingSource {
                kind: *kind,
                rel_source: rel_source@,
                source: source@,
            },
            ServerState::EnsuringCacheDir { kind, rel_source, source } => {
                StateModel::EnsuringCacheDir {
                    kind: *kind,
                    rel_source: rel_source@,
                    source: source@,
                }
            },
            ServerState::ProbingCache { kind, rel_source, source } => StateModel::ProbingCache {
                kind: *kind,
                rel_source: rel_source@,
                source: source@,
            },
            ServerState::RunningTool { kind, rel_source, source } => StateModel::RunningTool {
                kind: *kind,
                rel_source: rel_source@,
                source: source@,
            },
            ServerState::Finished => StateModel::Finished,
        }
    }
}

/// The one operation the application must perform next.
pub enum Action {
    /// Report whether `path` is a file, a directory, or missing.
    Probe { path: String },
    /// Read `path` as text.
    ReadText { path: String },
    /// Read `path` as bytes.
    ReadBytes { path: String },
    /// Read the entry names of directory `path`.
    ReadDirectory { path: String },
    /// Create directory `path` and missing ancestors; succeed if present.
    EnsureDirectory { path: String },
    /// Run the transformation tool for `kind` from `source` to `output`.
    RunTool { kind: DeriveKind, source: String, output: String },
    /// Send `response`; the session is over.
    Respond { response: HttpResponse },
}

/// Mathematical model of an action.
pub enum ActionModel {
    Probe { path: Seq<char> },
    ReadText { path: Seq<char> },
    ReadBytes { path: Seq<char> },
    ReadDirectory { path: Seq<char> },
    EnsureDirectory { path: Seq<char> },
    RunTool { kind: DeriveKind, source: Seq<char>, output: Seq<char> },
    Respond { response: RespModel },
}

impl View for Action {
    type V = ActionModel;

    open spec fn view(&self) -> ActionModel {
        match self {
            Action::Probe { path } => ActionModel::Probe { path: path@ },
            Action::ReadText { path } => ActionModel::ReadText { path: path@ },
            Action::ReadBytes { path } => ActionModel::ReadBytes { path: path@ },
            Action::ReadDirectory { path } => ActionModel::ReadDirectory { path: path@ },
            Action::EnsureDirectory { path } => ActionModel::EnsureDirectory { path: path@ },
            Action::RunTool { kind, source, output } => ActionModel::RunTool {
                kind: *kind,
                source: source@,
                output: output@,
            },
            Action::Respond { response } => ActionModel::Respond { response: response@ },
        }
    }
}

/// The outcome of the operation the machine asked for.
pub enum Event {
    Probed { node: FsNode },
    TextRead { result: Result<String, ()> },
    BytesRead { result: Result<Vec<u8>, ()> },
    DirListed { result: Result<Vec<String>, ()> },
    DirEnsured { ok: bool },
    ToolFinished { ok: bool },
}

/// Mathematical model of an event.
pub enum EventModel {
    Probed { node: FsNode },
    TextRead { result: Result<Seq<char>, ()> },
    BytesRead { result: Result<Seq<u8>, ()> },
    DirListed { result: Result<Seq<Seq<char>>, ()> },
    DirEnsured { ok: bool },
    ToolFinished { ok: bool },
}

impl View for Event {
    type V = EventModel;

    open spec fn view(&self) -> EventModel {
        match self {
            Event::Probed { node } => EventModel::Probed { node: *node },
            Event::TextRead { result } => EventModel::TextRead {
                result: match result {
                    Ok(s) => Ok(s@),
                    Err(_) => Err(()),
                },
            },
            Event::BytesRead { result } => EventModel::BytesRead {
                result: match result {
                    Ok(b) => Ok(b@),
                    Err(_) => Err(()),
                },
            },
            Event::DirListed { result } => EventModel::DirListed {
                result: match result {
                    Ok(names) => Ok(names.deep_view()),
                    Err(_) => Err(()),
                },
            },
            Event::DirEnsured { ok } => EventModel::DirEnsured { ok: *ok },
            Event::ToolFinished { ok } => EventModel::ToolFinished { ok: *ok },
        }
    }
}

/// The on-disk location of the custom not-found page.
pub open spec fn fallback_page(root: Seq<char>) -> Seq<char> {
    root + "404.html"@
}

/// The extension a text response's content type is derived from: the served
/// file's extension, or the empty string when it has none.
pub open spec fn ext_or_empty(p: Seq<char>) -> Seq<char> {
    if has_extension(p) {
        extension_of(p)
    } else {
        Seq::empty()
    }
}

/// The session protocol: which events answer which states.
pub open spec fn event_fits(s: StateModel, e: EventModel) -> bool {
    match s {
        StateModel::ProbingFile { .. } => e is Probed,
        StateModel::ReadingFile { mode, .. } => match mode {
            ServeMode::TextMode => e is TextRead,
            ServeMode::BinaryMode => e is BytesRead,
        },
        StateModel::ProbingNoExt { .. } => e is Probed,
        StateModel::ListingDir { .. } => e is DirListed,
        StateModel::ProbingFallback => e is Probed,
        StateModel::ReadingFallback => e is TextRead,
        StateModel::ProbingSource { .. } => e is Probed,
        StateModel::EnsuringCacheDir { .. } => e is DirEnsured,
        StateModel::ProbingCache { .. } => e is Probed,
        StateModel::RunningTool { .. } => e is ToolFinished,
        StateModel::Finished => false,
    }
}

/// The first state and action of a request for `path`.
pub open spec fn spec_start(root: Seq<char>, path: Seq<char>) -> (StateModel, ActionModel) {
    match spec_classify(root, path) {
        RouteModel::NoExtModel { rel, filepath } => (
            StateModel::ProbingNoExt { rel, filepath },
            ActionModel::Probe { path: filepath },
        ),
        RouteModel::ListRootModel => (
            StateModel::ListingDir { rel: Seq::empty(), dirpath: root },
            ActionModel::ReadDirectory { path: root },
        ),
        RouteModel::NotFoundModel => (
            StateModel::ProbingFallback,
            ActionModel::Probe { path: fallback_page(root) },
        ),
        RouteModel::TextModel { filepath } => (
            StateModel::ProbingFile { mode: ServeMode::TextMode, filepath },
            ActionModel::Probe { path: filepath },
        ),
        RouteModel::SourceModel { filepath } => (
            StateModel::ProbingFile { mode: ServeMode::TextMode, filepath },
            ActionModel::Probe { path: filepath },
        ),
        RouteModel::DerivedModel { kind, rel_source, source } => (
            StateModel::ProbingSource { kind, rel_source, source },
            ActionModel::Probe { path: source },
        ),
        RouteModel::BinaryModel { filepath } => (
            StateModel::ProbingFile { mode: ServeMode::BinaryMode, filepath },
            ActionModel::Probe { path: filepath },
        ),
    }
}

/// The transition relation: the next state and action after `e` answers `s`.
/// Any pairing outside the protocol falls to the final catch-all arm, which
/// `event_fits` excludes for every caller.
pub open spec fn spec_step(root: Seq<char>, s: StateModel, e: EventModel) -> (
    StateModel,
    ActionModel,
) {
    match (s, e) {
        (StateModel::ProbingFile { mode, filepath }, EventModel::Probed { node }) => {
            if node is MissingNode {
                (StateModel::ProbingFallback, ActionModel::Probe { path: fallback_page(root) })
            } else {
                (
                    StateModel::ReadingFile { mode, filepath },
                    match mode {
                        ServeMode::TextMode => ActionModel::ReadText { path: filepath },
                        ServeMode::BinaryMode => ActionModel::ReadBytes { path: filepath },
                    },
                )
            }
        },
        (StateModel::ReadingFile { mode: ServeMode::TextMode, filepath }, EventModel::TextRead {
            result,
        }) => {
            match result {
                Ok(content) => (
                    StateModel::Finished,
                    ActionModel::Respond {
                        response: model_text_response(
                            spec_mime(ext_or_empty(filepath)),
                            content,
                        ),
                    },
                ),
                Err(_) => (
                    StateModel::Finished,
                    ActionModel::Respond { response: model_server_error_response() },
                ),
            }
        },
        (StateModel::ReadingFile { mode: ServeMode::BinaryMode, .. }, EventModel::BytesRead {
            result,
        }) => {
            match result {
                Ok(content) => (
                    StateModel::Finished,
                    ActionModel::Respond { response: model_binary_response(content) },
                ),
                Err(_) => (
                    StateModel::Finished,
                    ActionModel::Respond { response: model_server_error_response() },
                ),
            }
        },
        (StateModel::ProbingNoExt { rel, filepath }, EventModel::Probed { node }) => {
            match node {
                FsNode::DirNode => (
                    StateModel::ListingDir { rel, dirpath: filepath },
                    ActionModel::ReadDirectory { path: filepath },
                ),
                FsNode::FileNode => (
                    StateModel::ReadingFile { mode: ServeMode::TextMode, filepath },
                    ActionModel::ReadText { path: filepath },
                ),
                FsNode::MissingNode => (
                    StateModel::ProbingFallback,
                    ActionModel::Probe { path: fallback_page(root) },
                ),
            }
        },
        (StateModel::ListingDir { rel, .. }, EventModel::DirListed { result }) => {
            match result {
                Ok(names) => (
                    StateModel::Finished,
                    ActionModel::Respond {
                        response: model_listing_response(
                            model_listing_page(rel, sorted_names(names)),
                        ),
                    },
                ),
                Err(_) => (
                    StateModel::Finished,
                    ActionModel::Respond { response: model_server_error_response() },
                ),
            }
        },
        (StateModel::ProbingFallback, EventModel::Probed { node }) => {
            if node is MissingNode {
                (
                    StateModel::Finished,
                    ActionModel::Respond { response: model_not_found_response(None) },
                )
            } else {
                (StateModel::ReadingFallback, ActionModel::ReadText { path: fallback_page(root) })
            }
        },
        (StateModel::ReadingFallback, EventModel::TextRead { result }) => {
            match result {
                Ok(content) => (
                    StateModel::Finished,
                    ActionModel::Respond { response: model_not_found_response(Some(content)) },
                ),
                Err(_) => (
                    StateModel::Finished,
                    ActionModel::Respond { response: model_server_error_response() },
                ),
            }
        },
        (StateModel::ProbingSource { kind, rel_source, source }, EventModel::Probed { node }) => {
            if node is MissingNode {
                (StateModel::ProbingFallback, ActionModel::Probe { path: fallback_page(root) })
            } else {
                (
                    StateModel::EnsuringCacheDir { kind, rel_source, source },
                    ActionModel::EnsureDirectory { path: model_cache_dir(root, kind) },
                )
            }
        },
        (StateModel::EnsuringCacheDir { kind, rel_source, source }, EventModel::DirEnsured {
            ok,
        }) => {
            if ok {
                (
                    StateModel::ProbingCache { kind, rel_source, source },
                    ActionModel::Probe { path: model_cache_file(root, kind, rel_source) },
                )
            } else {
                (
                    StateModel::Finished,
                    ActionModel::Respond { response: model_server_error_response() },
                )
            }
        },
        (StateModel::ProbingCache { kind, rel_source, source }, EventModel::Probed { node }) => {
            if node is MissingNode {
                (
                    StateModel::RunningTool { kind, rel_source, source },
                    ActionModel::RunTool {
                        kind,
                        source,
                        output: model_cache_file(root, kind, rel_source),
                    },
                )
            } else {
                let cached = model_cache_file(root, kind, rel_source);
                (
                    StateModel::ReadingFile { mode: mode_of(kind), filepath: cached },
                    match mode_of(kind) {
                        ServeMode::TextMode => ActionModel::ReadText { path: cached },
                        ServeMode::BinaryMode => ActionModel::ReadBytes { path: cached },
                    },
                )
            }
        },
        (StateModel::RunningTool { kind, rel_source, .. }, EventModel::ToolFinished { ok }) => {
            if ok {
                let cached = model_cache_file(root, kind, rel_source);
                (
                    StateModel::ProbingFile { mode: mode_of(kind), filepath: cached },
                    ActionModel::Probe { path: cached },
                )
            } else {
                (
                    StateModel::Finished,
                    ActionModel::Respond { response: model_server_error_response() },
                )
            }
        },
        (_, _) => (
            StateModel::Finished,
            ActionModel::Respond { response: model_server_error_response() },
        ),
    }
}

/// Starts a request session: classifies `path` and names the first operation.
pub fn start_request(root: &str, path: &str) -> (r: (ServerState, Action))
    requires
        root_wf(root@),
        path@.len() >= 1,
    ensures
        r.0@ == spec_start(root@, path@).0,
        r.1@ == spec_start(root@, path@).1,
{
    match classify(root, path) {
        Route::NoExtRoute { rel, filepath } => {
            let probe = filepath.clone();
            (
                ServerState::ProbingNoExt { rel, filepath },
                Action::Probe { path: probe },
            )
        },
        Route::ListRootRoute => {
            let dirpath = String::from_str(root);
            (
                ServerState::ListingDir { rel: String::new(), dirpath },
                Action::ReadDirectory { path: String::from_str(root) },
            )
        },
        Route::NotFoundRoute => {
            (
                ServerState::ProbingFallback,
                Action::Probe { path: str_concat(root, "404.html") },
            )
        },
        Route::TextRoute { filepath } => {
            let probe = filepath.clone();
            (
                ServerState::ProbingFile { mode: ServeMode::TextMode, filepath },
                Action::Probe { path: probe },
            )
        },
        Route::SourceRoute { filepath } => {
            let probe = filepath.clone();
            (
                ServerState::ProbingFile { mode: ServeMode::TextMode, filepath },
                Action::Probe { path: probe },
            )
        },
        Route::DerivedRoute { kind, rel_source, source } => {
            let probe = source.clone();
            (
                ServerState::ProbingSource { kind, rel_source, source },
                Action::Probe { path: probe },
            )
        },
        Route::BinaryRoute { filepath } => {
            let probe = filepath.clone();
            (
                ServerState::ProbingFile { mode: ServeMode::BinaryMode, filepath },
                Action::Probe { path: probe },
            )
        },
    }
}

/// Performs one transition, exactly as `spec_step` states.
pub fn step_request(env: &Env, root: &str, state: ServerState, event: Event) -> (r: (
    ServerState,
    Action,
))
    requires
        env.wf(),
        root_wf(root@),
        event_fits(state@, event@),
    ensures
        r.0@ == spec_step(root@, state@, event@).0,
        r.1@ == spec_step(root@, state@, event@).1,
{
    match (state, event) {
        (ServerState::ProbingFile { mode, filepath }, Event::Probed { node }) => {
            if matches!(node, FsNode::MissingNode) {
                (
                    ServerState::ProbingFallback,
                    Action::Probe { path: str_concat(root, "404.html") },
                )
            } else {
                let target = filepath.clone();
                let action = match mode {
                    ServeMode::TextMode => Action::ReadText { path: target },
                    ServeMode::BinaryMode => Action::ReadBytes { path: target },
                };
                (ServerState::ReadingFile { mode, filepath }, action)
            }
        },
        (ServerState::ReadingFile { mode: ServeMode::TextMode, filepath }, Event::TextRead {
            result,
        }) => {
            match result {
                Ok(content) => {
                    let mime = match extension_str(filepath.as_str()) {
                        Some(e) => env.get_mime(e.as_str()),
                        None => env.get_mime(""),
                    };
                    proof {
                        reveal_strlit("");
                        assert(""@ =~= Seq::<char>::empty());
                    }
                    (
                        ServerState::Finished,
                        Action::Respond { response: text_response(mime.as_str(), content) },
                    )
                },
                Err(_) => (
                    ServerState::Finished,
                    Action::Respond { response: server_error_response() },
                ),
            }
        },
        (ServerState::ReadingFile { mode: ServeMode::BinaryMode, .. }, Event::BytesRead {
            result,
        }) => {
            match result {
                Ok(content) => (
                    ServerState::Finished,
                    Action::Respond { response: binary_response(content) },
                ),
                Err(_) => (
                    ServerState::Finished,
                    Action::Respond { response: server_error_response() },
                ),
            }
        },
        (ServerState::ProbingNoExt { rel, filepath }, Event::Probed { node }) => {
            match node {
                FsNode::DirNode => {
                    let target = filepath.clone();
                    (
                        ServerState::ListingDir { rel, dirpath: filepath },
                        Action::ReadDirectory { path: target },
                    )
                },
                FsNode::FileNode => {
                    let target = filepath.clone();
                    (
                        ServerState::ReadingFile { mode: ServeMode::TextMode, filepath },
                        Action::ReadText { path: target },
                    )
                },
                FsNode::MissingNode => (
                    ServerState::ProbingFallback,
                    Action::Probe { path: str_concat(root, "404.html") },
                ),
            }
        },
        (ServerState::ListingDir { rel, .. }, Event::DirListed { result }) => {
            match result {
                Ok(names) => {
                    let page = render_listing(rel.as_str(), &names);
                    (
                        ServerState::Finished,
                        Action::Respond { response: listing_response(page) },
                    )
                },
                Err(_) => (
                    ServerState::Finished,
                    Action::Respond { response: server_error_response() },
                ),
            }
        },
        (ServerState::ProbingFallback, Event::Probed { node }) => {
            if matches!(node, FsNode::MissingNode) {
                (
                    ServerState::Finished,
                    Action::Respond { response: not_found_response(None) },
                )
            } else {
                (
                    ServerState::ReadingFallback,
                    Action::ReadText { path: str_concat(root, "404.html") },
                )
            }
        },
        (ServerState::ReadingFallback, Event::TextRead { result }) => {
            match result {
                Ok(content) => (
                    ServerState::Finished,
                    Action::Respond { response: not_found_response(Some(content)) },
                ),
                Err(_) => (
                    ServerState::Finished,
                    Action::Respond { response: server_error_response() },
                ),
            }
        },
        (ServerState::ProbingSource { kind, rel_source, source }, Event::Probed { node }) => {
            if matches!(node, FsNode::MissingNode) {
                (
                    ServerState::ProbingFallback,
                    Action::Probe { path: str_concat(root, "404.html") },
                )
            } else {
                let dir = cache_dir(root, kind);
                (
                    ServerState::EnsuringCacheDir { kind, rel_source, source },
                    Action::EnsureDirectory { path: dir },
                )
            }
        },
        (ServerState::EnsuringCacheDir { kind, rel_source, source }, Event::DirEnsured { ok }) => {
            if ok {
                let cached = cache_file(root, kind, rel_source.as_str());
                (
                    ServerState::ProbingCache { kind, rel_source, source },
                    Action::Probe { path: cached },
                )
            } else {
                (
                    ServerState::Finished,
                    Action::Respond { response: server_error_response() },
                )
            }
        },
        (ServerState::ProbingCache { kind, rel_source, source }, Event::Probed { node }) => {
            if matches!(node, FsNode::MissingNode) {
                let output = cache_file(root, kind, rel_source.as_str());
                let tool_source = source.clone();
                (
                    ServerState::RunningTool { kind, rel_source, source },
                    Action::RunTool { kind, source: tool_source, output },
                )
            } else {
                let cached = cache_file(root, kind, rel_source.as_str());
                let target = cached.clone();
                let mode = match kind {
                    DeriveKind::Thumbnail => ServeMode::BinaryMode,
                    DeriveKind::Render => ServeMode::TextMode,
                };
                let action = match mode {
                    ServeMode::TextMode => Action::ReadText { path: target },
                    ServeMode::BinaryMode => Action::ReadBytes { path: target },
                };
                (ServerState::ReadingFile { mode, filepath: cached }, action)
            }
        },
        (ServerState::RunningTool { kind, rel_source, .. }, Event::ToolFinished { ok }) => {
            if ok {
                let cached = cache_file(root, kind, rel_source.as_str());
                let target = cached.clone();
                let mode = match kind {
                    DeriveKind::Thumbnail => ServeMode::BinaryMode,
                    DeriveKind::Render => ServeMode::TextMode,
                };
                (
                    ServerState::ProbingFile { mode, filepath: cached },
                    Action::Probe { path: target },
                )
            } else {
                (
                    ServerState::Finished,
                    Action::Respond { response: server_error_response() },
                )
            }
        },
        (_, _) => (
            ServerState::Finished,
            Action::Respond { response: server_error_response() },
        ),
    }
}

} // verus!
