use edge_router::assets::{AssetEntry, AssetTable};
use edge_router::request::{InboundRequest, Method};
use edge_router::route::{classify, dispatch, rejection, route, Action, Dispatch, DispatchClass, BACKEND};
use edge_router::text::{eq_ignore_ascii_case, starts_with};

const SCRIPT: &[u8] = b"console.log('hello');\n";
const STYLE: &[u8] = b"body { margin: 0; }\n";
const ROBOTS: &[u8] = b"User-agent: *\nDisallow:\n";
const MANIFEST: &[u8] = b"---\nname: demo\n";
const PNG: &[u8] = &[0x89, b'P', b'N', b'G', 0x0d, 0x0a, 0x1a, 0x0a, 0x00, 0xff, 0xfe];
const INDEX: &[u8] = b"<!doctype html><title>demo</title>\n";

fn table() -> AssetTable {
    AssetTable::standard(
        SCRIPT.to_vec(),
        STYLE.to_vec(),
        ROBOTS.to_vec(),
        MANIFEST.to_vec(),
        PNG.to_vec(),
        INDEX.to_vec(),
    )
}

fn req(method: Method, path: &str) -> InboundRequest {
    InboundRequest::new(method, path.to_string())
}

fn upgrade(r: InboundRequest) -> InboundRequest {
    r.with_header("Upgrade".to_string(), "websocket".to_string())
}

fn header<'a>(headers: &'a [(String, String)], name: &str) -> Option<&'a str> {
    headers.iter().find(|(n, _)| n.eq_ignore_ascii_case(name)).map(|(_, v)| v.as_str())
}

fn served(d: &Dispatch) -> (u16, String, Vec<u8>) {
    match &d.action {
        Action::Respond(resp) => (
            resp.status,
            header(&resp.headers, "content-type").unwrap_or("").to_string(),
            resp.body.clone(),
        ),
        other => panic!("expected a local response, got {:?}", other),
    }
}

#[test]
fn websocket_upgrade_wins_over_everything() {
    for (m, p) in [
        (Method::Get, "/"),
        (Method::Post, "/api/widgets"),
        (Method::Delete, "/main.css"),
        (Method::Other("BREW".to_string()), "/anything"),
    ] {
        let r = upgrade(req(m, p));
        assert!(matches!(classify(&r), DispatchClass::WebsocketUpgrade));
    }
}

#[test]
fn websocket_upgrade_dispatch_logs_session() {
    let r = upgrade(req(Method::Get, "/socket"))
        .with_query("other".to_string(), "x".to_string())
        .with_query("session".to_string(), "abc123".to_string())
        .with_query("session".to_string(), "second".to_string());
    let d = route(&r, &table());
    match &d.action {
        Action::UpgradeWebsocket { backend } => assert_eq!(backend, "edge_app"),
        other => panic!("unexpected {:?}", other),
    }
    let note = d.log.expect("a log note");
    assert_eq!(note.msg, "Upgrading websocket connection");
    assert_eq!(note.session.as_deref(), Some("abc123"));
}

#[test]
fn websocket_upgrade_without_session() {
    let d = route(&upgrade(req(Method::Get, "/")), &table());
    let note = d.log.expect("a log note");
    assert_eq!(note.session, None);
}

#[test]
fn upgrade_header_name_is_case_insensitive_value_is_not() {
    let r = req(Method::Get, "/x").with_header("UPGRADE".to_string(), "websocket".to_string());
    assert!(matches!(classify(&r), DispatchClass::WebsocketUpgrade));
    let r = req(Method::Get, "/x").with_header("upgrade".to_string(), "WebSocket".to_string());
    assert!(matches!(classify(&r), DispatchClass::AssetServe(_)));
    let r = req(Method::Get, "/x").with_header("Upgrade".to_string(), "h2c".to_string());
    assert!(matches!(classify(&r), DispatchClass::AssetServe(_)));
}

#[test]
fn first_upgrade_header_counts() {
    let r = req(Method::Get, "/x")
        .with_header("Upgrade".to_string(), "h2c".to_string())
        .with_header("Upgrade".to_string(), "websocket".to_string());
    assert!(matches!(classify(&r), DispatchClass::AssetServe(_)));
    assert_eq!(r.header("upgrade").map(|s| s.as_str()), Some("h2c"));
    assert_eq!(r.header("accept"), None);
}

#[test]
fn api_paths_proxy_with_any_method() {
    for m in [Method::Get, Method::Head, Method::Post, Method::Put, Method::Delete, Method::Patch] {
        let r = req(m, "/api/widgets");
        assert!(matches!(classify(&r), DispatchClass::ApiProxy));
    }
    assert!(!matches!(classify(&req(Method::Post, "/api")), DispatchClass::ApiProxy));
    assert!(!matches!(classify(&req(Method::Get, "/API/x")), DispatchClass::ApiProxy));
}

#[test]
fn post_api_widgets_is_passed_to_backend() {
    let d = route(&req(Method::Post, "/api/widgets"), &table());
    match &d.action {
        Action::Forward { backend, pass } => {
            assert_eq!(backend, BACKEND);
            assert!(*pass);
        }
        other => panic!("unexpected {:?}", other),
    }
    assert!(d.log.is_none());
}

#[test]
fn other_methods_are_rejected() {
    for m in [
        Method::Post,
        Method::Put,
        Method::Delete,
        Method::Patch,
        Method::Options,
        Method::Connect,
        Method::Trace,
        Method::Other("PURGE".to_string()),
    ] {
        let d = route(&req(m, "/index.html"), &table());
        match &d.action {
            Action::Respond(resp) => {
                assert_eq!(resp.status, 405);
                assert_eq!(header(&resp.headers, "allow"), Some("GET, HEAD"));
            }
            other => panic!("unexpected {:?}", other),
        }
        assert!(d.log.is_none());
    }
}

#[test]
fn delete_main_css_is_rejected() {
    let d = route(&req(Method::Delete, "/main.css"), &table());
    match &d.action {
        Action::Respond(resp) => {
            assert_eq!(resp.status, 405);
            assert_eq!(header(&resp.headers, "Allow"), Some("GET, HEAD"));
            assert_eq!(resp.body, b"This method is not allowed\n".to_vec());
        }
        other => panic!("unexpected {:?}", other),
    }
}

#[test]
fn rejection_response_is_plain_text() {
    let resp = rejection();
    assert_eq!(resp.status, 405);
    assert_eq!(header(&resp.headers, "content-type"), Some("text/plain; charset=utf-8"));
}

#[test]
fn get_main_js_serves_script_bytes() {
    let (status, ct, body) = served(&route(&req(Method::Get, "/main.js"), &table()));
    assert_eq!(status, 200);
    assert_eq!(ct, "application/javascript");
    assert_eq!(body, SCRIPT);
}

#[test]
fn head_is_served_like_get() {
    let (status, ct, body) = served(&route(&req(Method::Head, "/main.css"), &table()));
    assert_eq!(status, 200);
    assert_eq!(ct, "text/css");
    assert_eq!(body, STYLE);
}

#[test]
fn get_robots_txt() {
    let d = route(&req(Method::Get, "/robots.txt"), &table());
    let (status, ct, body) = served(&d);
    assert_eq!(status, 200);
    assert_eq!(ct, "text/plain");
    assert_eq!(body, ROBOTS);
    assert!(d.log.is_none());
}

#[test]
fn get_demo_manifest_and_screenshot() {
    let (status, ct, body) =
        served(&route(&req(Method::Get, "/.well-known/fastly/demo-manifest"), &table()));
    assert_eq!((status, ct.as_str()), (200, "text/plain"));
    assert_eq!(body, MANIFEST);
    let (status, ct, body) = served(&route(&req(Method::Get, "/images/screenshot.png"), &table()));
    assert_eq!((status, ct.as_str()), (200, "image/png"));
    assert_eq!(body, PNG);
}

#[test]
fn unknown_path_serves_default_document_each_time() {
    let t = table();
    let r = req(Method::Get, "/unknown/path");
    let d1 = route(&r, &t);
    let d2 = route(&r, &t);
    let (s1, ct1, b1) = served(&d1);
    let (s2, _, b2) = served(&d2);
    assert_eq!((s1, s2), (200, 200));
    assert_eq!(ct1, "text/html");
    assert_eq!(b1, INDEX);
    assert_eq!(b1, b2);
    assert_eq!(d1.log.expect("a log note").msg, "Sending index.html");
}

#[test]
fn root_and_empty_paths_serve_default_document() {
    for p in ["/", "", "/index.html", "/main.js/", "/MAIN.JS"] {
        let (status, ct, body) = served(&route(&req(Method::Get, p), &table()));
        assert_eq!((status, ct.as_str()), (200, "text/html"));
        assert_eq!(body, INDEX);
    }
}

#[test]
fn default_document_log_carries_session() {
    let r = req(Method::Get, "/").with_query("session".to_string(), "s-1".to_string());
    let note = route(&r, &table()).log.expect("a log note");
    assert_eq!(note.session.as_deref(), Some("s-1"));
}

#[test]
fn custom_table_first_entry_wins() {
    let entries = vec![
        AssetEntry::new("/a".to_string(), "text/a".to_string(), vec![1]),
        AssetEntry::new("/a".to_string(), "text/b".to_string(), vec![2]),
    ];
    let t = AssetTable::new(entries, AssetEntry::new("/".to_string(), "text/html".to_string(), vec![]));
    assert_eq!(t.resolve("/a").content_type, "text/a");
    assert_eq!(t.resolve("/b").content_type, "text/html");
    assert!(t.lookup("/b").is_none());
    let (status, _, body) = served(&route(&req(Method::Get, "/b"), &t));
    assert_eq!(status, 200);
    assert!(body.is_empty());
}

#[test]
fn dispatch_follows_given_class() {
    let r = req(Method::Get, "/main.js");
    let d = dispatch(&DispatchClass::MethodRejected, &r, &table());
    assert_eq!(served(&d).0, 405);
    let d = dispatch(&DispatchClass::AssetServe("/robots.txt".to_string()), &r, &table());
    assert_eq!(served(&d).2, ROBOTS);
}

#[test]
fn classify_asset_keeps_path() {
    match classify(&req(Method::Head, "/main.js")) {
        DispatchClass::AssetServe(p) => assert_eq!(p, "/main.js"),
        other => panic!("unexpected {:?}", other),
    }
}

#[test]
fn query_param_exact_name() {
    let r = req(Method::Get, "/")
        .with_query("Session".to_string(), "a".to_string())
        .with_query("session".to_string(), "b".to_string());
    assert_eq!(r.query_param("session").map(|s| s.as_str()), Some("b"));
    assert_eq!(r.query_param("missing"), None);
}

#[test]
fn text_helpers() {
    assert!(starts_with("/api/x", "/api/"));
    assert!(starts_with("/api/", "/api/"));
    assert!(!starts_with("/api", "/api/"));
    assert!(starts_with("anything", ""));
    assert!(eq_ignore_ascii_case("Content-Type", "content-TYPE"));
    assert!(!eq_ignore_ascii_case("Upgrade", "Upgrades"));
    assert!(!eq_ignore_ascii_case("a[", "A{"));
}
