use serben::cache::DeriveKind;
use serben::machine::{start_request, step_request, Action, Event, FsNode, ServerState};
use serben::paths::extension_str;
use serben::response::{BodyData, HttpResponse};
use serben::routing::{classify, Route};
use serben::server_env::Env;

fn respond(action: Action) -> HttpResponse {
    match action {
        Action::Respond { response } => response,
        _ => panic!("expected a response action"),
    }
}

fn text_body(r: &HttpResponse) -> String {
    match &r.body {
        BodyData::TextBody(s) => s.clone(),
        _ => panic!("expected a text body"),
    }
}

fn byte_body(r: &HttpResponse) -> Vec<u8> {
    match &r.body {
        BodyData::ByteBody(b) => b.clone(),
        _ => panic!("expected a byte body"),
    }
}

fn probe_path(action: &Action) -> String {
    match action {
        Action::Probe { path } => path.clone(),
        _ => panic!("expected a probe action"),
    }
}

#[test]
fn mime_override_and_fallback() {
    let env = Env::new();
    assert_eq!(env.get_mime("js"), "javascript");
    assert_eq!(env.get_mime("css"), "css");
    assert_eq!(env.get_mime("md"), "md");
    assert_eq!(env.get_mime(""), "");
}

#[test]
fn extension_model() {
    assert_eq!(extension_str("a/b.txt"), Some("txt".to_string()));
    assert_eq!(extension_str("a/b.tar.gz"), Some("gz".to_string()));
    assert_eq!(extension_str("a/.hidden"), None);
    assert_eq!(extension_str("noext"), None);
    assert_eq!(extension_str("trailing."), Some("".to_string()));
    assert_eq!(extension_str("dot.in/dir"), None);
}

#[test]
fn text_file_served_with_content_type() {
    let env = Env::new();
    let root = "/srv/";
    let (state, action) = start_request(root, "/notes.txt");
    assert_eq!(probe_path(&action), "/srv/notes.txt");
    let (state, action) = step_request(&env, root, state, Event::Probed { node: FsNode::FileNode });
    match &action {
        Action::ReadText { path } => assert_eq!(path, "/srv/notes.txt"),
        _ => panic!("expected a text read"),
    }
    let (_, action) = step_request(
        &env,
        root,
        state,
        Event::TextRead { result: Ok("hello world".to_string()) },
    );
    let r = respond(action);
    assert_eq!(r.status, 200);
    assert_eq!(r.content_type, Some("text/txt".to_string()));
    assert_eq!(r.cache_control, Some("public, max-age=600".to_string()));
    assert_eq!(text_body(&r), "hello world");
}

#[test]
fn javascript_gets_mime_override() {
    let env = Env::new();
    let root = "/srv/";
    let (state, _) = start_request(root, "/app.js");
    let (state, _) = step_request(&env, root, state, Event::Probed { node: FsNode::FileNode });
    let (_, action) = step_request(
        &env,
        root,
        state,
        Event::TextRead { result: Ok("x".to_string()) },
    );
    let r = respond(action);
    assert_eq!(r.content_type, Some("text/javascript".to_string()));
}

#[test]
fn binary_file_served_with_long_cache() {
    let env = Env::new();
    let root = "/srv/";
    let (state, action) = start_request(root, "/pic.webp");
    assert_eq!(probe_path(&action), "/srv/pic.webp");
    let (state, _) = step_request(&env, root, state, Event::Probed { node: FsNode::FileNode });
    let (_, action) = step_request(
        &env,
        root,
        state,
        Event::BytesRead { result: Ok(vec![9, 8, 7]) },
    );
    let r = respond(action);
    assert_eq!(r.status, 200);
    assert_eq!(r.content_type, None);
    assert_eq!(r.cache_control, Some("public, max-age=3600".to_string()));
    assert_eq!(byte_body(&r), vec![9, 8, 7]);
}

#[test]
fn missing_file_uses_custom_not_found_page() {
    let env = Env::new();
    let root = "/srv/";
    let (state, _) = start_request(root, "/absent.png");
    let (state, action) =
        step_request(&env, root, state, Event::Probed { node: FsNode::MissingNode });
    assert_eq!(probe_path(&action), "/srv/404.html");
    let (state, action) = step_request(&env, root, state, Event::Probed { node: FsNode::FileNode });
    match &action {
        Action::ReadText { path } => assert_eq!(path, "/srv/404.html"),
        _ => panic!("expected a text read"),
    }
    let (_, action) = step_request(
        &env,
        root,
        state,
        Event::TextRead { result: Ok("<h1>gone</h1>".to_string()) },
    );
    let r = respond(action);
    assert_eq!(r.status, 404);
    assert_eq!(r.content_type, Some("text/html".to_string()));
    assert_eq!(text_body(&r), "<h1>gone</h1>");
}

#[test]
fn missing_file_uses_fixed_fallback_text() {
    let env = Env::new();
    let root = "/srv/";
    let (state, _) = start_request(root, "/absent.txt");
    let (state, _) = step_request(&env, root, state, Event::Probed { node: FsNode::MissingNode });
    let (_, action) =
        step_request(&env, root, state, Event::Probed { node: FsNode::MissingNode });
    let r = respond(action);
    assert_eq!(r.status, 404);
    assert_eq!(r.content_type, None);
    assert_eq!(text_body(&r), "404 Not Found.");
}

#[test]
fn root_marker_serves_index_resource() {
    let env = Env::new();
    let root = "/srv/";
    let (state, action) = start_request(root, "/");
    assert_eq!(probe_path(&action), "/srv/index");
    let (state, _) = step_request(&env, root, state, Event::Probed { node: FsNode::FileNode });
    let (_, action) = step_request(
        &env,
        root,
        state,
        Event::TextRead { result: Ok("welcome".to_string()) },
    );
    let r = respond(action);
    assert_eq!(r.status, 200);
    assert_eq!(r.content_type, Some("text/".to_string()));
    assert_eq!(text_body(&r), "welcome");
}

#[test]
fn list_root_renders_sorted_visible_entries() {
    let env = Env::new();
    let root = "/srv/";
    let (state, action) = start_request(root, "/*");
    match &action {
        Action::ReadDirectory { path } => assert_eq!(path, "/srv/"),
        _ => panic!("expected a directory read"),
    }
    let names = vec![
        "b.txt".to_string(),
        "a.png".to_string(),
        ".cache".to_string(),
        "sub".to_string(),
    ];
    let (_, action) = step_request(&env, root, state, Event::DirListed { result: Ok(names) });
    let r = respond(action);
    assert_eq!(r.status, 200);
    let page = text_body(&r);
    assert!(page.contains("<a href=\"/*\">..</a><br>"));
    assert!(page.contains("<a href=\"/b.txt\">b.txt</a><br>"));
    assert!(page.contains("<a href=\"/sub\">sub</a><br>"));
    assert!(page.contains("<img src=\"/a.png.thumbnail\" alt=\"preview\">"));
    assert!(page.contains("<a href=\"/a.png\">a.png</a><br>"));
    assert!(!page.contains(".cache"));
    let a = page.find("a.png").unwrap();
    let b = page.find("b.txt").unwrap();
    let s = page.find(">sub<").unwrap();
    assert!(a < b && b < s);
}

#[test]
fn subdirectory_listing_title_and_parent() {
    let env = Env::new();
    let root = "/srv/";
    let (state, action) = start_request(root, "/docs");
    assert_eq!(probe_path(&action), "/srv/docs");
    let (state, action) = step_request(&env, root, state, Event::Probed { node: FsNode::DirNode });
    match &action {
        Action::ReadDirectory { path } => assert_eq!(path, "/srv/docs"),
        _ => panic!("expected a directory read"),
    }
    let (_, action) = step_request(
        &env,
        root,
        state,
        Event::DirListed { result: Ok(vec!["z.md".to_string()]) },
    );
    let page = text_body(&respond(action));
    assert!(page.contains("<h1>Index: /docs</h1>"));
    assert!(page.contains("<a href=\"/*\">..</a><br>"));
    assert!(page.contains("<a href=\"/docs/z.md\">z.md</a><br>"));
}

#[test]
fn nested_listing_parent_is_prefix() {
    let env = Env::new();
    let root = "/srv/";
    let (state, _) = start_request(root, "/a/b");
    let (state, _) = step_request(&env, root, state, Event::Probed { node: FsNode::DirNode });
    let (_, action) = step_request(&env, root, state, Event::DirListed { result: Ok(vec![]) });
    let page = text_body(&respond(action));
    assert!(page.contains("<h1>Index: /a/b</h1>"));
    assert!(page.contains("<a href=\"/a\">..</a><br>"));
}

#[test]
fn unreadable_directory_is_server_error() {
    let env = Env::new();
    let root = "/srv/";
    let (state, _) = start_request(root, "/*");
    let (_, action) = step_request(&env, root, state, Event::DirListed { result: Err(()) });
    let r = respond(action);
    assert_eq!(r.status, 500);
    assert_eq!(text_body(&r), "Internal server error.");
}

#[test]
fn unreadable_file_is_server_error() {
    let env = Env::new();
    let root = "/srv/";
    let (state, _) = start_request(root, "/notes.txt");
    let (state, _) = step_request(&env, root, state, Event::Probed { node: FsNode::FileNode });
    let (_, action) = step_request(&env, root, state, Event::TextRead { result: Err(()) });
    assert_eq!(respond(action).status, 500);
}

#[test]
fn thumbnail_generated_then_served() {
    let env = Env::new();
    let root = "/srv/";
    let (state, action) = start_request(root, "/a.png.thumbnail");
    assert_eq!(probe_path(&action), "/srv/a.png");
    let (state, action) = step_request(&env, root, state, Event::Probed { node: FsNode::FileNode });
    match &action {
        Action::EnsureDirectory { path } => assert_eq!(path, "/srv/.cache/thumbnails/"),
        _ => panic!("expected the cache directory to be ensured"),
    }
    let (state, action) = step_request(&env, root, state, Event::DirEnsured { ok: true });
    assert_eq!(probe_path(&action), "/srv/.cache/thumbnails/a.png");
    let (state, action) =
        step_request(&env, root, state, Event::Probed { node: FsNode::MissingNode });
    match &action {
        Action::RunTool { kind, source, output } => {
            assert!(matches!(kind, DeriveKind::Thumbnail));
            assert_eq!(source, "/srv/a.png");
            assert_eq!(output, "/srv/.cache/thumbnails/a.png");
        },
        _ => panic!("expected the tool to run"),
    }
    let (state, action) = step_request(&env, root, state, Event::ToolFinished { ok: true });
    assert_eq!(probe_path(&action), "/srv/.cache/thumbnails/a.png");
    let (state, _) = step_request(&env, root, state, Event::Probed { node: FsNode::FileNode });
    let (_, action) = step_request(
        &env,
        root,
        state,
        Event::BytesRead { result: Ok(vec![1, 2, 3]) },
    );
    let r = respond(action);
    assert_eq!(r.status, 200);
    assert_eq!(byte_body(&r), vec![1, 2, 3]);
}

#[test]
fn thumbnail_cache_hit_spawns_no_tool() {
    let env = Env::new();
    let root = "/srv/";
    let (state, _) = start_request(root, "/a.png.thumbnail");
    let (state, _) = step_request(&env, root, state, Event::Probed { node: FsNode::FileNode });
    let (state, _) = step_request(&env, root, state, Event::DirEnsured { ok: true });
    // the cached file is present this time: the fast path reads it directly
    let (state, action) = step_request(&env, root, state, Event::Probed { node: FsNode::FileNode });
    match &action {
        Action::ReadBytes { path } => assert_eq!(path, "/srv/.cache/thumbnails/a.png"),
        _ => panic!("expected a direct byte read, with no tool run"),
    }
    let (_, action) = step_request(
        &env,
        root,
        state,
        Event::BytesRead { result: Ok(vec![1, 2, 3]) },
    );
    let r = respond(action);
    assert_eq!(r.status, 200);
    assert_eq!(byte_body(&r), vec![1, 2, 3]);
}

#[test]
fn nested_thumbnail_source_path_is_flattened() {
    let root = "/srv/";
    match classify(root, "/img/pics/cat.png.thumbnail") {
        Route::DerivedRoute { kind, rel_source, source } => {
            assert!(matches!(kind, DeriveKind::Thumbnail));
            assert_eq!(rel_source, "img/pics/cat.png");
            assert_eq!(source, "/srv/img/pics/cat.png");
        },
        _ => panic!("expected the derived route"),
    }
    let env = Env::new();
    let (state, _) = start_request(root, "/img/pics/cat.png.thumbnail");
    let (state, _) = step_request(&env, root, state, Event::Probed { node: FsNode::FileNode });
    let (_, action) = step_request(&env, root, state, Event::DirEnsured { ok: true });
    assert_eq!(probe_path(&action), "/srv/.cache/thumbnails/img_pics_cat.png");
}

#[test]
fn rendered_document_cached_with_html_extension() {
    let env = Env::new();
    let root = "/srv/";
    let (state, action) = start_request(root, "/doc.md.render");
    assert_eq!(probe_path(&action), "/srv/doc.md");
    let (state, action) = step_request(&env, root, state, Event::Probed { node: FsNode::FileNode });
    match &action {
        Action::EnsureDirectory { path } => assert_eq!(path, "/srv/.cache/rendered/"),
        _ => panic!("expected the cache directory to be ensured"),
    }
    let (state, action) = step_request(&env, root, state, Event::DirEnsured { ok: true });
    assert_eq!(probe_path(&action), "/srv/.cache/rendered/doc.md.html");
    let (state, action) = step_request(&env, root, state, Event::Probed { node: FsNode::FileNode });
    match &action {
        Action::ReadText { path } => assert_eq!(path, "/srv/.cache/rendered/doc.md.html"),
        _ => panic!("expected a text read of the rendered page"),
    }
    let (_, action) = step_request(
        &env,
        root,
        state,
        Event::TextRead { result: Ok("<html></html>".to_string()) },
    );
    let r = respond(action);
    assert_eq!(r.status, 200);
    assert_eq!(r.content_type, Some("text/html".to_string()));
}

#[test]
fn failed_tool_run_is_server_error() {
    let env = Env::new();
    let root = "/srv/";
    let (state, _) = start_request(root, "/a.png.thumbnail");
    let (state, _) = step_request(&env, root, state, Event::Probed { node: FsNode::FileNode });
    let (state, _) = step_request(&env, root, state, Event::DirEnsured { ok: true });
    let (state, _) = step_request(&env, root, state, Event::Probed { node: FsNode::MissingNode });
    let (_, action) = step_request(&env, root, state, Event::ToolFinished { ok: false });
    assert_eq!(respond(action).status, 500);
}

#[test]
fn failed_cache_directory_is_server_error() {
    let env = Env::new();
    let root = "/srv/";
    let (state, _) = start_request(root, "/a.png.thumbnail");
    let (state, _) = step_request(&env, root, state, Event::Probed { node: FsNode::FileNode });
    let (_, action) = step_request(&env, root, state, Event::DirEnsured { ok: false });
    assert_eq!(respond(action).status, 500);
}

#[test]
fn missing_derivation_source_is_not_found() {
    let env = Env::new();
    let root = "/srv/";
    let (state, _) = start_request(root, "/a.png.thumbnail");
    let (state, action) =
        step_request(&env, root, state, Event::Probed { node: FsNode::MissingNode });
    assert_eq!(probe_path(&action), "/srv/404.html");
    let (_, action) = step_request(&env, root, state, Event::Probed { node: FsNode::MissingNode });
    assert_eq!(respond(action).status, 404);
}

#[test]
fn source_marker_round_trips_to_text() {
    let env = Env::new();
    let root = "/srv/";
    let (state_a, action_a) = start_request(root, "/doc.md.source");
    let (state_b, action_b) = start_request(root, "/doc.md");
    assert_eq!(probe_path(&action_a), "/srv/doc.md");
    assert_eq!(probe_path(&action_a), probe_path(&action_b));
    let (state_a, _) = step_request(&env, root, state_a, Event::Probed { node: FsNode::FileNode });
    let (state_b, _) = step_request(&env, root, state_b, Event::Probed { node: FsNode::FileNode });
    let (_, action_a) = step_request(
        &env,
        root,
        state_a,
        Event::TextRead { result: Ok("# title".to_string()) },
    );
    let (_, action_b) = step_request(
        &env,
        root,
        state_b,
        Event::TextRead { result: Ok("# title".to_string()) },
    );
    let ra = respond(action_a);
    let rb = respond(action_b);
    assert_eq!(ra.status, rb.status);
    assert_eq!(ra.content_type, rb.content_type);
    assert_eq!(text_body(&ra), text_body(&rb));
    assert_eq!(ra.content_type, Some("text/md".to_string()));
}

#[test]
fn cache_area_is_locked_out() {
    let env = Env::new();
    let root = "/srv/";
    for path in ["/.cache", "/.cache/thumbnails/a.png"] {
        let (state, action) = start_request(root, path);
        // only the not-found page is ever touched, never the physical path
        assert_eq!(probe_path(&action), "/srv/404.html");
        let (_, action) =
            step_request(&env, root, state, Event::Probed { node: FsNode::MissingNode });
        assert_eq!(respond(action).status, 404);
    }
}

#[test]
fn parent_traversal_is_rejected() {
    let env = Env::new();
    let root = "/srv/";
    let (state, action) = start_request(root, "/../etc/passwd");
    assert_eq!(probe_path(&action), "/srv/404.html");
    let (_, action) = step_request(&env, root, state, Event::Probed { node: FsNode::MissingNode });
    assert_eq!(respond(action).status, 404);
}

#[test]
fn trailing_slash_directory_links_have_single_separator() {
    let env = Env::new();
    let root = "/srv/";
    let (state, _) = start_request(root, "/a/b/");
    let (state, _) = step_request(&env, root, state, Event::Probed { node: FsNode::DirNode });
    let (_, action) = step_request(
        &env,
        root,
        state,
        Event::DirListed { result: Ok(vec!["x.txt".to_string()]) },
    );
    let page = text_body(&respond(action));
    assert!(page.contains("<a href=\"/a/b/x.txt\">x.txt</a><br>"));
    assert!(page.contains("<a href=\"/a\">..</a><br>"));
}

#[test]
fn empty_directory_lists_only_parent_link() {
    let env = Env::new();
    let root = "/srv/";
    let (state, _) = start_request(root, "/empty");
    let (state, _) = step_request(&env, root, state, Event::Probed { node: FsNode::DirNode });
    let (_, action) = step_request(&env, root, state, Event::DirListed { result: Ok(vec![]) });
    let page = text_body(&respond(action));
    assert_eq!(page.matches("<a href=").count(), 1);
    assert!(page.contains("<a href=\"/*\">..</a><br>"));
    assert!(page.ends_with("</body><footer><p>- serben -</p></footer></html>"));
}

#[test]
fn sorting_is_by_code_point() {
    let names = vec!["b".to_string(), "a".to_string(), "B".to_string(), "a".to_string()];
    let sorted = serben::listing::sort_names(&names);
    assert_eq!(sorted, vec!["B".to_string(), "a".to_string(), "a".to_string(), "b".to_string()]);
}

#[test]
fn image_extension_matching_is_case_insensitive() {
    assert!(serben::listing::is_image_name_exec("photo.JPG"));
    assert!(serben::listing::is_image_name_exec("photo.png"));
    assert!(serben::listing::is_image_name_exec("icon.Ico"));
    assert!(!serben::listing::is_image_name_exec("notes.txt"));
    // a dotless name is probed whole, as the lister's split keeps it
    assert!(serben::listing::is_image_name_exec("gif"));
}
