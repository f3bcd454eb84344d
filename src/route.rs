//! Request classification and the dispatch decision for each class.

use vstd::prelude::*;
use vstd::string::StringSliceAdditionalSpecFns;
use crate::assets::{AssetTable, AssetEntry, keyed};
use crate::request::{is_first_match, lemma_first_match_at};
use crate::request::InboundRequest;
use crate::text::starts_with;

verus! {

/// The logical name of the backend that live traffic goes to.
pub const BACKEND: &'static str = "edge_app";

/// The class a request falls into; exactly one applies to each request.
#[derive(Clone, Debug)]
pub enum DispatchClass {
    WebsocketUpgrade,
    ApiProxy,
    MethodRejected,
    AssetServe(String),
}

/// The request asks for a websocket: its `Upgrade` header is exactly `websocket`.
pub open spec fn is_websocket_upgrade(req: InboundRequest) -> bool {
    req.header_spec("Upgrade"@) == Some("websocket"@)
}

/// The path lies under `/api/`.
pub open spec fn is_api_path(path: Seq<char>) -> bool {
    "/api/"@.is_prefix_of(path)
}

/// Classification, first rule that applies wins.
pub open spec fn classify_spec(req: InboundRequest) -> DispatchClass {
    if is_websocket_upgrade(req) {
        DispatchClass::WebsocketUpgrade
    } else if is_api_path(req.path@) {
        DispatchClass::ApiProxy
    } else if !req.method.is_get_or_head_spec() {
        DispatchClass::MethodRejected
    } else {
        DispatchClass::AssetServe(req.path)
    }
}

/// Assigns `req` its dispatch class.
pub fn classify(req: &InboundRequest) -> (r: DispatchClass)
    ensures
        r == classify_spec(*req),
        is_websocket_upgrade(*req) ==> r is WebsocketUpgrade,
        !is_websocket_upgrade(*req) && is_api_path(req.path@) ==> r is ApiProxy,
{
    let upgrade = match req.header("Upgrade") {
        Some(v) => *v == "websocket".to_owned(),
        None => false,
    };
    if upgrade {
        DispatchClass::WebsocketUpgrade
    } else if starts_with(req.path.as_str(), "/api/") {
        DispatchClass::ApiProxy
    } else if !req.method.is_get_or_head() {
        DispatchClass::MethodRejected
    } else {
        DispatchClass::AssetServe(req.path.clone())
    }
}

/// A response built by the router itself.
#[derive(Clone, Debug)]
pub struct OutboundResponse {
    pub status: u16,
    pub headers: Vec<(String, String)>,
    pub body: Vec<u8>,
}

/// What the caller is to do with the request.
#[derive(Clone, Debug)]
pub enum Action {
    /// Hand the connection to `backend` as a websocket.
    UpgradeWebsocket { backend: String },
    /// Send the request to `backend` and relay its response unchanged;
    /// `pass` asks to bypass any cache on the way.
    Forward { backend: String, pass: bool },
    /// Send this response.
    Respond(OutboundResponse),
}

/// A log record to emit: its message and the session it belongs to.
#[derive(Clone, Debug)]
pub struct LogNote {
    pub session: Option<String>,
    pub msg: String,
}

/// The outcome of dispatch: an action, and at most one log record.
#[derive(Clone, Debug)]
pub struct Dispatch {
    pub action: Action,
    pub log: Option<LogNote>,
}

pub open spec fn opt_view(o: Option<String>) -> Option<Seq<char>> {
    match o {
        Some(s) => Some(s@),
        None => None,
    }
}

pub open spec fn pair_is(p: (String, String), name: Seq<char>, value: Seq<char>) -> bool {
    p.0@ == name && p.1@ == value
}

/// The body of a method rejection.
pub open spec fn rejection_body() -> Seq<u8> {
    "This method is not allowed\n".spec_bytes()
}

/// `resp` rejects the method: 405, the allowed methods, a plain-text reason.
pub open spec fn is_rejection(resp: OutboundResponse) -> bool {
    &&& resp.status == 405
    &&& resp.headers@.len() == 2
    &&& pair_is(resp.headers@[0], "Allow"@, "GET, HEAD"@)
    &&& pair_is(resp.headers@[1], "Content-Type"@, "text/plain; charset=utf-8"@)
    &&& resp.body@ == rejection_body()
}

/// `resp` serves `e`: 200, its content type, its payload byte for byte.
pub open spec fn serves(resp: OutboundResponse, e: AssetEntry) -> bool {
    &&& resp.status == 200
    &&& resp.headers@.len() == 1
    &&& pair_is(resp.headers@[0], "Content-Type"@, e.content_type@)
    &&& resp.body@ == e.payload@
}

/// `n` is a log note with message `msg` for the session of `req`.
pub open spec fn notes(n: Option<LogNote>, req: InboundRequest, msg: Seq<char>) -> bool {
    &&& n is Some
    &&& n->0.msg@ == msg
    &&& opt_view(n->0.session) == req.query_spec("session"@)
}

/// What dispatch of `class` for `req` against `table` gives.
pub open spec fn dispatch_spec(class: DispatchClass, req: InboundRequest, table: AssetTable, d: Dispatch) -> bool {
    match class {
        DispatchClass::WebsocketUpgrade => {
            &&& d.action matches Action::UpgradeWebsocket { backend } && backend@ == BACKEND@
            &&& notes(d.log, req, "Upgrading websocket connection"@)
        },
        DispatchClass::ApiProxy => {
            &&& d.action matches Action::Forward { backend, pass } && backend@ == BACKEND@ && pass
            &&& d.log is None
        },
        DispatchClass::MethodRejected => {
            &&& d.action matches Action::Respond(resp) && is_rejection(resp)
            &&& d.log is None
        },
        DispatchClass::AssetServe(key) => {
            &&& d.action matches Action::Respond(resp) && serves(resp, table.resolve_spec(key@))
            &&& if table.is_default_spec(key@) {
                notes(d.log, req, "Sending index.html"@)
            } else {
                d.log is None
            }
        },
    }
}

/// What the router does with `req`.
pub open spec fn route_spec(req: InboundRequest, table: AssetTable, d: Dispatch) -> bool {
    dispatch_spec(classify_spec(req), req, table, d)
}

fn copy_bytes(b: &Vec<u8>) -> (r: Vec<u8>)
    ensures
        r@ == b@,
{
    let mut r: Vec<u8> = Vec::new();
    let mut i: usize = 0;
    while i < b.len()
        invariant
            i <= b@.len(),
            r@ == b@.subrange(0, i as int),
        decreases b@.len() - i,
    {
        r.push(b[i]);
        i = i + 1;
        assert(r@ =~= b@.subrange(0, i as int));
    }
    assert(r@ =~= b@);
    r
}

fn session_note(req: &InboundRequest, msg: &str) -> (n: LogNote)
    ensures
        n.msg@ == msg@,
        opt_view(n.session) == req.query_spec("session"@),
{
    let session = match req.query_param("session") {
        Some(s) => Some(s.clone()),
        None => None,
    };
    LogNote { session, msg: msg.to_owned() }
}

/// The method rejection response.
pub fn rejection() -> (r: OutboundResponse)
    ensures
        is_rejection(r),
{
    let mut headers: Vec<(String, String)> = Vec::new();
    headers.push(("Allow".to_owned(), "GET, HEAD".to_owned()));
    headers.push(("Content-Type".to_owned(), "text/plain; charset=utf-8".to_owned()));
    OutboundResponse { status: 405, headers, body: "This method is not allowed\n".as_bytes_vec() }
}

/// The response that serves `e`.
pub fn serve(e: &AssetEntry) -> (r: OutboundResponse)
    ensures
        serves(r, *e),
{
    let mut headers: Vec<(String, String)> = Vec::new();
    headers.push(("Content-Type".to_owned(), e.content_type.clone()));
    OutboundResponse { status: 200, headers, body: copy_bytes(&e.payload) }
}

/// Carries out the decision for `class`.
pub fn dispatch(class: &DispatchClass, req: &InboundRequest, table: &AssetTable) -> (r: Dispatch)
    ensures
        dispatch_spec(*class, *req, *table, r),
{
    match class {
        DispatchClass::WebsocketUpgrade => Dispatch {
            action: Action::UpgradeWebsocket { backend: BACKEND.to_owned() },
            log: Some(session_note(req, "Upgrading websocket connection")),
        },
        DispatchClass::ApiProxy => Dispatch {
            action: Action::Forward { backend: BACKEND.to_owned(), pass: true },
            log: None,
        },
        DispatchClass::MethodRejected => Dispatch { action: Action::Respond(rejection()), log: None },
        DispatchClass::AssetServe(key) => {
            match table.lookup(key.as_str()) {
                Some(e) => Dispatch { action: Action::Respond(serve(e)), log: None },
                None => Dispatch {
                    action: Action::Respond(serve(table.fallback())),
                    log: Some(session_note(req, "Sending index.html")),
                },
            }
        },
    }
}

/// Classifies `req` and dispatches it.
pub fn route(req: &InboundRequest, table: &AssetTable) -> (r: Dispatch)
    ensures
        route_spec(*req, *table, r),
{
    let class = classify(req);
    dispatch(&class, req, table)
}

/// A request that asks for no websocket, lies outside `/api/` and uses a method
/// other than `GET` or `HEAD` is answered 405 with `Allow: GET, HEAD`.
pub proof fn law_other_methods_rejected(req: InboundRequest, table: AssetTable, d: Dispatch)
    requires
        route_spec(req, table, d),
        !is_websocket_upgrade(req),
        !is_api_path(req.path@),
        !req.method.is_get_or_head_spec(),
    ensures
        d.action matches Action::Respond(resp) && resp.status == 405 && pair_is(
            resp.headers@[0],
            "Allow"@,
            "GET, HEAD"@,
        ),
{
}

/// `GET /main.js` on a table whose first entry is the script serves the
/// script's content type and exactly its bytes.
pub proof fn law_script_served(req: InboundRequest, table: AssetTable, d: Dispatch, script: Seq<u8>)
    requires
        route_spec(req, table, d),
        req.method is Get,
        req.path@ == "/main.js"@,
        !is_websocket_upgrade(req),
        table.entries_view().len() > 0,
        table.entries_view()[0].is("/main.js"@, "application/javascript"@, script),
    ensures
        d.action matches Action::Respond(resp) && resp.status == 200 && pair_is(
            resp.headers@[0],
            "Content-Type"@,
            "application/javascript"@,
        ) && resp.body@ == script,
{
    reveal_strlit("/main.js");
    reveal_strlit("/api/");
    assert(!is_api_path(req.path@)) by {
        assert(req.path@[1] != "/api/"@[1]);
    }
    let p = keyed(req.path@);
    assert(is_first_match(table.entries_view(), p, 0));
    lemma_first_match_at(table.entries_view(), p, 0);
}

/// A `GET` or `HEAD` for a path that no entry is keyed by, outside `/api/`
/// and without a websocket upgrade, is served the default document with
/// status 200; two such dispatches of one request carry the same bytes.
pub proof fn law_unknown_path_default(req: InboundRequest, table: AssetTable, d1: Dispatch, d2: Dispatch)
    requires
        route_spec(req, table, d1),
        route_spec(req, table, d2),
        req.method.is_get_or_head_spec(),
        !is_websocket_upgrade(req),
        !is_api_path(req.path@),
        table.is_default_spec(req.path@),
    ensures
        d1.action matches Action::Respond(r1) && d2.action matches Action::Respond(r2) && r1.status
            == 200 && r1.body@ == table.fallback_view().payload@ && r1.body@ == r2.body@,
{
}

} // verus!
