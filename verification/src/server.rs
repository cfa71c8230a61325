//! Routing a request to its handler, rendering the handler's result, and
//! the reply that goes back on the connection.

use crate::auth::{
    auth_response, authenticate, login_accepted, login_outcome, outcome_reply, AuthOutcome,
    AuthOutcomeView, UserValidator,
};
use crate::database::ShardDatabase;
use crate::query::QueryParams;
use crate::request::{
    ends_token, is_http_shaped, is_plain_token, lemma_plain_request, lemma_query_keeps_route,
    lemma_target_with_query_is_plain, parse_request, parsed_request, request_target,
    routing_path, ParsedRequest,
};
use crate::response::{http_response, wire_text, Response, ResponseView, StatusCode, Version};
use crate::shard_list::{
    shard_list_body, shard_list_filter, shard_list_headers, ShardListEntry, ShardRecord,
};
use crate::text::bytes_equal;
use vstd::prelude::*;
use vstd::utf8::{encode_utf8, is_ascii_chars_encode_utf8};

verus! {

/// The headers of a reply made by [`create_response`].
pub open spec fn plain_headers() -> Seq<(Seq<char>, Seq<char>)> {
    seq![("Connection"@, "close"@)]
}

/// A reply with a status and a body, in HTTP/1.0 and with `Connection: close`.
pub open spec fn plain_reply(status: int, body: Seq<char>) -> ResponseView {
    ResponseView { status, version: Version::Http10, headers: plain_headers(), body }
}

pub fn create_response(status: StatusCode, body: &str) -> (resp: Response)
    ensures
        resp@ == plain_reply(status.value(), body@),
{
    let mut headers: Vec<(String, String)> = Vec::new();
    headers.push((String::from_str("Connection"), String::from_str("close")));
    assert(headers.deep_view() =~= plain_headers());
    Response::new(status, Version::Http10, headers, String::from_str(body))
}

/// What a route leads to.
#[derive(Debug)]
pub enum RouteResult {
    /// The health probe.
    Health,
    /// A login attempt and how it ended.
    AuthLogin(AuthOutcome),
    /// The shard list, with a snapshot of the registry.
    ShardList(Vec<ShardListEntry>),
    /// No route has this path.
    NotFound,
}

/// The mathematical content of a [`RouteResult`].
pub enum RouteResultView {
    Health,
    AuthLogin(AuthOutcomeView),
    ShardList(Seq<ShardRecord>),
    NotFound,
}

impl View for RouteResult {
    type V = RouteResultView;

    open spec fn view(&self) -> RouteResultView {
        match self {
            RouteResult::Health => RouteResultView::Health,
            RouteResult::AuthLogin(outcome) => RouteResultView::AuthLogin(outcome@),
            RouteResult::ShardList(shards) => RouteResultView::ShardList(shards.deep_view()),
            RouteResult::NotFound => RouteResultView::NotFound,
        }
    }
}

/// The routing table. A path routes only where it is, byte for byte, one of
/// `/health`, `/AuthLogin` and `/ShardList`.
pub open spec fn route_of<V: UserValidator>(
    path: Seq<u8>,
    query: Map<Seq<char>, Seq<char>>,
    db: &V,
    registry: Seq<ShardRecord>,
) -> RouteResultView {
    if path == encode_utf8("/health"@) {
        RouteResultView::Health
    } else if path == encode_utf8("/AuthLogin"@) {
        RouteResultView::AuthLogin(login_outcome(login_accepted(db, query)))
    } else if path == encode_utf8("/ShardList"@) {
        RouteResultView::ShardList(registry)
    } else {
        RouteResultView::NotFound
    }
}

/// The reply that a route result is rendered to.
pub open spec fn rendered(result: RouteResultView) -> ResponseView {
    match result {
        RouteResultView::Health => plain_reply(200, "Server is running"@),
        RouteResultView::AuthLogin(outcome) => outcome_reply(outcome),
        RouteResultView::ShardList(records) => ResponseView {
            status: 200,
            version: Version::Http11,
            headers: shard_list_headers(),
            body: shard_list_body(records),
        },
        RouteResultView::NotFound => plain_reply(404, "Not Found"@),
    }
}

/// The reason phrase of the three statuses the bridge answers with.
pub open spec fn reply_reason(status: int) -> Option<Seq<char>> {
    if status == 200 {
        Some("OK"@)
    } else if status == 401 {
        Some("Unauthorized"@)
    } else if status == 404 {
        Some("Not Found"@)
    } else {
        None
    }
}

/// The text that goes on the wire for a reply of the bridge.
pub open spec fn reply_wire(resp: ResponseView) -> Seq<char> {
    wire_text(resp.status, reply_reason(resp.status), resp.body)
}

/// What is written back for the bytes read from a connection: nothing where
/// they hold no request, else the rendered result of the request's route.
pub open spec fn reply_to<V: UserValidator>(
    buffer: Seq<u8>,
    db: &V,
    registry: Seq<ShardRecord>,
) -> Option<Seq<char>> {
    match parsed_request(buffer) {
        None => None,
        Some(request) => Some(
            reply_wire(rendered(route_of(request.path, request.query, db, registry))),
        ),
    }
}

/// Whether a path is one of the three that route.
pub open spec fn is_registered(path: Seq<u8>) -> bool {
    path == encode_utf8("/health"@) || path == encode_utf8("/AuthLogin"@) || path == encode_utf8(
        "/ShardList"@,
    )
}

/// A path that is not registered is answered with status 404 and the body
/// `Not Found`, whatever the parameters, the validator and the registry.
pub proof fn lemma_unregistered_path_not_found<V: UserValidator>(
    path: Seq<u8>,
    query: Map<Seq<char>, Seq<char>>,
    db: &V,
    registry: Seq<ShardRecord>,
)
    requires
        !is_registered(path),
    ensures
        rendered(route_of(path, query, db, registry)) == plain_reply(404, "Not Found"@),
        reply_wire(rendered(route_of(path, query, db, registry))) == wire_text(
            404,
            Some("Not Found"@),
            "Not Found"@,
        ),
{
}

/// A request whose target routes nowhere is answered with 404 `Not Found`;
/// a query string behind the path changes nothing about that, since only
/// what stands before the first `?` routes.
pub proof fn lemma_unregistered_target_not_found<V: UserValidator>(
    buffer: Seq<u8>,
    db: &V,
    registry: Seq<ShardRecord>,
)
    requires
        is_http_shaped(buffer),
        (request_target(buffer) matches Some(target) && !is_registered(routing_path(target))),
    ensures
        reply_to(buffer, db, registry) == Some(
            wire_text(404, Some("Not Found"@), "Not Found"@),
        ),
{
}

/// A request for a path that is not registered is answered with 404
/// `Not Found`, and so is the same request with a query string behind the
/// path.
pub proof fn lemma_unregistered_request_not_found<V: UserValidator>(
    method: Seq<u8>,
    path: Seq<u8>,
    query: Seq<u8>,
    tail: Seq<u8>,
    db: &V,
    registry: Seq<ShardRecord>,
)
    requires
        method == encode_utf8("GET"@) || method == encode_utf8("POST"@),
        is_plain_token(path),
        forall|j: int| 0 <= j < path.len() ==> path[j] != 0x3F,
        !is_registered(path),
        query.len() == 0 || is_plain_token(query),
        ends_token(tail),
    ensures
        reply_to(method + seq![0x20u8] + path + tail, db, registry) == Some(
            wire_text(404, Some("Not Found"@), "Not Found"@),
        ),
        reply_to(method + seq![0x20u8] + (path + seq![0x3Fu8] + query) + tail, db, registry)
            == Some(wire_text(404, Some("Not Found"@), "Not Found"@)),
{
    let target = path + seq![0x3Fu8] + query;
    lemma_target_with_query_is_plain(path, query);
    lemma_query_keeps_route(path, query);
    lemma_plain_request(method, path, tail);
    lemma_plain_request(method, target, tail);
    lemma_unregistered_target_not_found(method + seq![0x20u8] + path + tail, db, registry);
    lemma_unregistered_target_not_found(method + seq![0x20u8] + target + tail, db, registry);
}

/// The bytes of the three registered paths. None of them holds a `?`.
pub proof fn lemma_registered_paths()
    ensures
        encode_utf8("/health"@) == seq![0x2Fu8, 0x68u8, 0x65u8, 0x61u8, 0x6Cu8, 0x74u8, 0x68u8],
        encode_utf8("/AuthLogin"@) == seq![
            0x2Fu8,
            0x41u8,
            0x75u8,
            0x74u8,
            0x68u8,
            0x4Cu8,
            0x6Fu8,
            0x67u8,
            0x69u8,
            0x6Eu8,
        ],
        encode_utf8("/ShardList"@) == seq![
            0x2Fu8,
            0x53u8,
            0x68u8,
            0x61u8,
            0x72u8,
            0x64u8,
            0x4Cu8,
            0x69u8,
            0x73u8,
            0x74u8,
        ],
{
    reveal_strlit("/health");
    reveal_strlit("/AuthLogin");
    reveal_strlit("/ShardList");
    is_ascii_chars_encode_utf8("/health"@);
    is_ascii_chars_encode_utf8("/AuthLogin"@);
    is_ascii_chars_encode_utf8("/ShardList"@);
    assert(encode_utf8("/health"@) =~= seq![
        0x2Fu8,
        0x68u8,
        0x65u8,
        0x61u8,
        0x6Cu8,
        0x74u8,
        0x68u8,
    ]);
    assert(encode_utf8("/AuthLogin"@) =~= seq![
        0x2Fu8,
        0x41u8,
        0x75u8,
        0x74u8,
        0x68u8,
        0x4Cu8,
        0x6Fu8,
        0x67u8,
        0x69u8,
        0x6Eu8,
    ]);
    assert(encode_utf8("/ShardList"@) =~= seq![
        0x2Fu8,
        0x53u8,
        0x68u8,
        0x61u8,
        0x72u8,
        0x64u8,
        0x4Cu8,
        0x69u8,
        0x73u8,
        0x74u8,
    ]);
}

/// A health probe is answered with 200 and `Server is running`, with or
/// without a query string, whatever the validator and the registry.
pub proof fn lemma_health_probe<V: UserValidator>(
    method: Seq<u8>,
    query: Seq<u8>,
    tail: Seq<u8>,
    db: &V,
    registry: Seq<ShardRecord>,
)
    requires
        method == encode_utf8("GET"@) || method == encode_utf8("POST"@),
        query.len() == 0 || is_plain_token(query),
        ends_token(tail),
    ensures
        reply_to(method + seq![0x20u8] + encode_utf8("/health"@) + tail, db, registry) == Some(
            wire_text(200, Some("OK"@), "Server is running"@),
        ),
        reply_to(
            method + seq![0x20u8] + (encode_utf8("/health"@) + seq![0x3Fu8] + query) + tail,
            db,
            registry,
        ) == Some(wire_text(200, Some("OK"@), "Server is running"@)),
{
    lemma_registered_paths();
    let path = encode_utf8("/health"@);
    let target = path + seq![0x3Fu8] + query;
    lemma_target_with_query_is_plain(path, query);
    lemma_query_keeps_route(path, query);
    lemma_plain_request(method, path, tail);
    lemma_plain_request(method, target, tail);
}

/// Bytes that do not begin with `GET` or `POST` get no reply.
pub proof fn lemma_not_http_no_reply<V: UserValidator>(
    buffer: Seq<u8>,
    db: &V,
    registry: Seq<ShardRecord>,
)
    requires
        !is_http_shaped(buffer),
    ensures
        reply_to(buffer, db, registry) is None,
{
}

/// Routes a request: finds the handler of its path and has it decide.
pub fn route<V: UserValidator>(
    path: &[u8],
    query: &QueryParams,
    db: &V,
    registry: &ShardDatabase,
) -> (result: RouteResult)
    ensures
        result@ == route_of(path@, query@, db, registry@),
{
    if bytes_equal(path, "/health".as_bytes()) {
        RouteResult::Health
    } else if bytes_equal(path, "/AuthLogin".as_bytes()) {
        RouteResult::AuthLogin(authenticate(query, db))
    } else if bytes_equal(path, "/ShardList".as_bytes()) {
        RouteResult::ShardList(ShardListEntry::get_all_shards(registry))
    } else {
        RouteResult::NotFound
    }
}

/// Renders a route result to the reply of its handler.
pub fn render(result: &RouteResult) -> (resp: Response)
    ensures
        resp@ == rendered(result@),
{
    match result {
        RouteResult::Health => create_response(StatusCode::ok(), "Server is running"),
        RouteResult::AuthLogin(outcome) => auth_response(outcome),
        RouteResult::ShardList(shards) => shard_list_filter(shards),
        RouteResult::NotFound => create_response(StatusCode::not_found(), "Not Found"),
    }
}

/// The text to write back for a request.
pub fn respond<V: UserValidator>(request: &ParsedRequest, db: &V, registry: &ShardDatabase) -> (out:
    String)
    ensures
        out@ == reply_wire(rendered(route_of(request@.path, request@.query, db, registry@))),
{
    let result: RouteResult = route(request.path.as_slice(), &request.query, db, registry);
    let resp: Response = render(&result);
    http_response(&resp)
}

/// What a connection handler does with the bytes of one read: the text to
/// write back before it closes the connection, or `None` to close it without
/// a reply.
pub fn handle_request<V: UserValidator>(buffer: &[u8], db: &V, registry: &ShardDatabase) -> (reply:
    Option<String>)
    ensures
        reply.deep_view() == reply_to(buffer@, db, registry@),
        !is_http_shaped(buffer@) ==> reply is None,
{
    match parse_request(buffer) {
        None => None,
        Some(request) => Some(respond(&request, db, registry)),
    }
}

} // verus!
