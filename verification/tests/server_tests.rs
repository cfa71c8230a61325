use oxide::auth::Database;
use oxide::config::{bind_address, Config};
use oxide::database::{ShardDatabase, AUTH_CREDENTIALS};
use oxide::query::QueryParams;
use oxide::request::{
    begins_like_http, find_request_target, parse_request, split_target, Method,
    REQUEST_BUFFER_SIZE,
};
use oxide::response::{format_http_response, http_response, Response, StatusCode, Version};
use oxide::server::{create_response, handle_request, render, respond, route, RouteResult};
use oxide::shard_list::{render_shard_list, ShardListEntry};
use oxide::text::{bytes_equal, bytes_start_with, decimal_string, str_eq};

fn reply(request: &[u8]) -> Option<String> {
    handle_request(request, &Database, &ShardDatabase::with_initial_shards())
}

const NOT_FOUND: &str = "HTTP/1.0 404 Not Found\r\nContent-Length: 9\r\nConnection: close\r\n\r\nNot Found";

const LOGIN_OK: &str = "HTTP/1.0 200 OK\r\nContent-Length: 31\r\nConnection: close\r\n\r\nValid=TRUE\nTicket=<auth_ticket>";

const LOGIN_FAILED: &str = "HTTP/1.0 401 Unauthorized\r\nContent-Length: 87\r\nConnection: close\r\n\r\nreasoncode=INV-100\nreasontext=Invalid username or password\nreasonurl=https://winehq.com";

#[test]
fn test_create_response() {
    let response = create_response(StatusCode::ok(), "Test Body");
    assert_eq!(response.status(), StatusCode::ok());
    assert_eq!(response.body(), "Test Body");
}

#[test]
fn created_response_closes_the_connection() {
    let response = create_response(StatusCode::not_found(), "gone");
    assert_eq!(response.status().as_u16(), 404);
    assert_eq!(response.version(), Version::Http10);
    assert_eq!(response.header("Connection"), Some("close"));
    assert_eq!(response.headers().len(), 1);
    assert_eq!(response.body(), "gone");
}

#[test]
fn test_health_route() {
    let request = "GET /health HTTP/1.1\r\nHost: localhost\r\n\r\n";
    let response = reply(request.as_bytes()).unwrap();
    assert!(response.contains("Server is running"), "Unexpected response: {}", response);
}

#[test]
fn test_404_handler() {
    let request = "GET /nonexistent HTTP/1.1\r\nHost: localhost\r\n\r\n";
    let response = reply(request.as_bytes()).unwrap();
    assert!(response.contains("Not Found"), "Unexpected response: {}", response);
}

#[test]
fn health_reply_is_exact() {
    assert_eq!(
        reply(b"GET /health HTTP/1.1\r\nHost: localhost\r\n\r\n").unwrap(),
        "HTTP/1.0 200 OK\r\nContent-Length: 17\r\nConnection: close\r\n\r\nServer is running"
    );
    assert_eq!(
        reply(b"POST /health HTTP/1.0\r\n\r\n").unwrap(),
        "HTTP/1.0 200 OK\r\nContent-Length: 17\r\nConnection: close\r\n\r\nServer is running"
    );
}

#[test]
fn unknown_path_is_not_found() {
    assert_eq!(reply(b"GET /unknown-path HTTP/1.1\r\n\r\n").unwrap(), NOT_FOUND);
    assert_eq!(reply(b"GET /unknown-path?x=1 HTTP/1.1\r\n\r\n").unwrap(), NOT_FOUND);
    assert_eq!(reply(b"GET /unknown-path? HTTP/1.1\r\n\r\n").unwrap(), NOT_FOUND);
    assert_eq!(reply(b"GET / HTTP/1.1\r\n\r\n").unwrap(), NOT_FOUND);
    assert_eq!(reply(b"GET ?username=valid_user HTTP/1.1\r\n\r\n").unwrap(), NOT_FOUND);
}

#[test]
fn routes_match_exactly() {
    assert_eq!(reply(b"GET /Health HTTP/1.1\r\n\r\n").unwrap(), NOT_FOUND);
    assert_eq!(reply(b"GET /health/ HTTP/1.1\r\n\r\n").unwrap(), NOT_FOUND);
    assert_eq!(reply(b"GET /health/x HTTP/1.1\r\n\r\n").unwrap(), NOT_FOUND);
    assert_eq!(reply(b"GET /healthy HTTP/1.1\r\n\r\n").unwrap(), NOT_FOUND);
    assert_eq!(reply(b"GET health HTTP/1.1\r\n\r\n").unwrap(), NOT_FOUND);
    assert_eq!(reply(b"GET /authlogin HTTP/1.1\r\n\r\n").unwrap(), NOT_FOUND);
    assert_eq!(reply(b"GET /shardlist HTTP/1.1\r\n\r\n").unwrap(), NOT_FOUND);
    assert_eq!(reply(b"GET /ShardList/ HTTP/1.1\r\n\r\n").unwrap(), NOT_FOUND);
}

#[test]
fn query_does_not_change_the_route() {
    let plain = reply(b"GET /health HTTP/1.1\r\n\r\n").unwrap();
    assert_eq!(reply(b"GET /health?probe=1 HTTP/1.1\r\n\r\n").unwrap(), plain);
    assert_eq!(reply(b"GET /health? HTTP/1.1\r\n\r\n").unwrap(), plain);
    assert_eq!(reply(b"GET /health?a?b HTTP/1.1\r\n\r\n").unwrap(), plain);
}

#[test]
fn login_with_the_valid_pair() {
    let response =
        reply(b"GET /AuthLogin?username=valid_user&password=valid_password HTTP/1.1\r\n\r\n")
            .unwrap();
    assert_eq!(response, LOGIN_OK);
    assert!(response.starts_with("HTTP/1.0 200 "));
    assert!(response.contains("Valid=TRUE"));
    let ticket = response.lines().last().unwrap();
    assert!(ticket.starts_with("Ticket=") && ticket.len() > "Ticket=".len());
}

#[test]
fn login_with_any_other_pair() {
    assert_eq!(
        reply(b"GET /AuthLogin?username=invalid_user&password=wrong_password HTTP/1.1\r\n\r\n")
            .unwrap(),
        LOGIN_FAILED
    );
    assert_eq!(
        reply(b"GET /AuthLogin?username=valid_user&password= HTTP/1.1\r\n\r\n").unwrap(),
        LOGIN_FAILED
    );
    assert_eq!(
        reply(b"GET /AuthLogin?username=valid_user HTTP/1.1\r\n\r\n").unwrap(),
        LOGIN_FAILED
    );
    assert_eq!(
        reply(b"GET /AuthLogin?password=valid_password&username=Valid_user HTTP/1.1\r\n\r\n")
            .unwrap(),
        LOGIN_FAILED
    );
}

#[test]
fn login_without_a_query() {
    assert_eq!(
        reply(b"GET /AuthLogin HTTP/1.1\r\nHost: localhost\r\n\r\n").unwrap(),
        LOGIN_FAILED
    );
    assert_eq!(reply(b"GET /AuthLogin? HTTP/1.1\r\n\r\n").unwrap(), LOGIN_FAILED);
}

#[test]
fn login_parameters_in_any_order_and_last_value_wins() {
    assert_eq!(
        reply(b"GET /AuthLogin?password=valid_password&username=valid_user HTTP/1.1\r\n\r\n")
            .unwrap(),
        LOGIN_OK
    );
    assert_eq!(
        reply(
            b"GET /AuthLogin?username=x&password=valid_password&username=valid_user HTTP/1.1\r\n\r\n"
        )
        .unwrap(),
        LOGIN_OK
    );
    assert_eq!(
        reply(
            b"GET /AuthLogin?username=valid_user&password=valid_password&username=x HTTP/1.1\r\n\r\n"
        )
        .unwrap(),
        LOGIN_FAILED
    );
}

#[test]
fn login_parameters_are_form_decoded() {
    assert_eq!(
        reply(b"GET /AuthLogin?username=valid%5Fuser&password=valid%5fpassword HTTP/1.1\r\n\r\n")
            .unwrap(),
        LOGIN_OK
    );
    assert_eq!(
        reply(b"GET /AuthLogin?%75sername=valid_user&&password=valid_password& HTTP/1.1\r\n\r\n")
            .unwrap(),
        LOGIN_OK
    );
    let query = QueryParams::parse(b"a=1+2&b=%26%3D&c&d=x=y&a=%C3%BC");
    assert_eq!(query.get("a"), Some("ü"));
    assert_eq!(query.get("b"), Some("&="));
    assert_eq!(query.get("c"), Some(""));
    assert_eq!(query.get("d"), Some("x=y"));
    assert_eq!(query.get("e"), None);
    let spaced = QueryParams::parse(b"a=1+2");
    assert_eq!(spaced.get("a"), Some("1 2"));
    assert_eq!(QueryParams::parse(b"").get("a"), None);
}

#[test]
fn login_with_the_active_credentials() {
    let registry = ShardDatabase::new();
    let mut credentials = AUTH_CREDENTIALS::new();
    let request = b"GET /AuthLogin?username=postgres&password=password HTTP/1.1\r\n\r\n";
    assert_eq!(handle_request(request, &credentials, &registry).unwrap(), LOGIN_OK);
    assert_eq!(handle_request(request, &Database, &registry).unwrap(), LOGIN_FAILED);
    credentials.update_credentials("a".to_string(), "b".to_string());
    assert_eq!(handle_request(request, &credentials, &registry).unwrap(), LOGIN_FAILED);
}

#[test]
fn shard_list_reply_is_exact() {
    let registry = ShardDatabase::with_initial_shards();
    let body = render_shard_list(&ShardListEntry::get_all_shards(&registry));
    assert_eq!(body.len(), 628);
    let response = reply(b"GET /ShardList HTTP/1.1\r\n\r\n").unwrap();
    assert_eq!(
        response,
        format!("HTTP/1.0 200 OK\r\nContent-Length: 628\r\nConnection: close\r\n\r\n{}", body)
    );
    assert!(response.contains("\nStatusId=\nStatus_Reason=\n"));
    assert!(!response.contains("Content-Type"));
}

#[test]
fn shard_list_follows_the_registry() {
    let mut registry = ShardDatabase::with_initial_shards();
    assert!(ShardListEntry::delete_shard(&mut registry, 1));
    let response =
        handle_request(b"GET /ShardList HTTP/1.1\r\n\r\n", &Database, &registry).unwrap();
    assert!(!response.contains("[Shard1]"));
    assert!(response.contains("[Shard2]"));

    assert!(ShardListEntry::delete_shard(&mut registry, 2));
    assert_eq!(
        handle_request(b"GET /ShardList HTTP/1.1\r\n\r\n", &Database, &registry).unwrap(),
        "HTTP/1.0 200 OK\r\nContent-Length: 0\r\nConnection: close\r\n\r\n"
    );
}

#[test]
fn bytes_that_are_no_request_get_no_reply() {
    assert_eq!(reply(&[0x00, 0x01, 0x02, 0xff, 0xfe]), None);
    assert_eq!(reply(b""), None);
    assert_eq!(reply(b"PUT /health HTTP/1.1\r\n\r\n"), None);
    assert_eq!(reply(b"get /health HTTP/1.1\r\n\r\n"), None);
    assert_eq!(reply(b" GET /health HTTP/1.1\r\n\r\n"), None);
    assert_eq!(reply(b"GE"), None);
    assert_eq!(reply(b"POS"), None);
    assert_eq!(reply(b"HEAD /health HTTP/1.1\r\n\r\n"), None);
    assert_eq!(reply(b"\r\nGET /health HTTP/1.1\r\n\r\n"), None);
}

#[test]
fn shape_of_a_request() {
    assert!(begins_like_http(b"GET /health HTTP/1.1\r\n"));
    assert!(begins_like_http(b"POST /health"));
    assert!(begins_like_http(b"GET"));
    assert!(begins_like_http(b"POSTAL"));
    assert!(!begins_like_http(b""));
    assert!(!begins_like_http(b"GE"));
    assert!(!begins_like_http(b"POS"));
    assert!(!begins_like_http(b"get /health"));
    assert!(!begins_like_http(b" GET /health"));
    assert!(!begins_like_http(&[0x16, 0x03, 0x01, 0x02, 0x00]));
}

#[test]
fn request_line_without_a_target_gets_no_reply() {
    assert_eq!(reply(b"GET"), None);
    assert_eq!(reply(b"GET \r\n"), None);
    assert_eq!(reply(b"GET\r\n/health HTTP/1.1\r\n"), None);
    assert_eq!(reply(b"POST\n/health"), None);
    assert_eq!(reply(b"GET   \t \r\nHost: localhost\r\n\r\n"), None);
}

#[test]
fn only_the_first_line_counts() {
    assert_eq!(
        reply(b"GET /health\n/ShardList HTTP/1.1\r\n").unwrap(),
        "HTTP/1.0 200 OK\r\nContent-Length: 17\r\nConnection: close\r\n\r\nServer is running"
    );
    assert_eq!(reply(b"GET /health").unwrap(), reply(b"GET /health HTTP/1.1\r\n\r\n").unwrap());
    assert_eq!(reply(b"GET /nowhere\r\n").unwrap(), NOT_FOUND);
}

#[test]
fn method_is_told_by_the_first_bytes() {
    assert_eq!(parse_request(b"GET /a HTTP/1.1\r\n").unwrap().method, Method::Get);
    assert_eq!(parse_request(b"POST /a HTTP/1.1\r\n").unwrap().method, Method::Post);
    assert_eq!(parse_request(b"GETTY /a HTTP/1.1\r\n").unwrap().method, Method::Get);
    assert!(parse_request(b"PATCH /a HTTP/1.1\r\n").is_none());
    assert!(parse_request(b"GET").is_none());
}

#[test]
fn target_is_the_second_token() {
    assert_eq!(find_request_target(b"GET /a/b?c=d HTTP/1.1\r\nHost: h\r\n"), Some(&b"/a/b?c=d"[..]));
    assert_eq!(find_request_target(b"GET \t  /x\t HTTP/1.1"), Some(&b"/x"[..]));
    assert_eq!(find_request_target(b"  GET /x"), Some(&b"/x"[..]));
    assert_eq!(find_request_target(b"GET /x\r\n"), Some(&b"/x"[..]));
    assert_eq!(find_request_target(b"GET\x0b/x\x0c/y"), Some(&b"/x"[..]));
    assert_eq!(find_request_target(b"GET"), None);
    assert_eq!(find_request_target(b""), None);
    assert_eq!(find_request_target(b"\n"), None);
    assert_eq!(find_request_target(b"one\ntwo three"), None);
}

#[test]
fn tokens_end_at_unicode_white_space() {
    let cases: [&str; 8] = [
        "\u{85}", "\u{a0}", "\u{1680}", "\u{2000}", "\u{200a}", "\u{2028}", "\u{205f}", "\u{3000}",
    ];
    for space in cases {
        let line = format!("GET{}/health{}HTTP/1.1\r\n", space, space);
        assert_eq!(find_request_target(line.as_bytes()), Some(&b"/health"[..]), "{:?}", space);
        let expected: Vec<&str> = line.lines().next().unwrap().split_whitespace().collect();
        assert_eq!(expected[1], "/health");
    }
    assert_eq!(find_request_target("GET /a\u{2029}b".as_bytes()), Some(&b"/a"[..]));
    assert_eq!(find_request_target("GET /a\u{202f}b".as_bytes()), Some(&b"/a"[..]));
    // U+200B and U+FEFF are not white space, nor is a cut-off encoding.
    assert_eq!(
        find_request_target("GET /a\u{200b}b c".as_bytes()),
        Some("/a\u{200b}b".as_bytes())
    );
    assert_eq!(
        find_request_target("GET /a\u{feff}b c".as_bytes()),
        Some("/a\u{feff}b".as_bytes())
    );
    assert_eq!(find_request_target(b"GET /a\xe2\x80"), Some(&b"/a\xe2\x80"[..]));
    assert_eq!(find_request_target(b"GET /a\xc2"), Some(&b"/a\xc2"[..]));
    assert_eq!(find_request_target(b"GET /a\xe2\x80\n\x80"), Some(&b"/a\xe2\x80"[..]));
}

#[test]
fn target_agrees_with_text_splitting() {
    let lines: [&str; 6] = [
        "GET /ShardList HTTP/1.1\r\nHost: a b\r\n\r\n",
        "POST   /AuthLogin?username=a&password=b   HTTP/1.0\r\n",
        "GET\t/x\u{a0}y z",
        "GET",
        "GET \u{3000}\u{2003} ",
        "GET /\u{e9}t\u{e9} HTTP/1.1",
    ];
    for line in lines {
        let expected = line.lines().next().and_then(|l| l.split_whitespace().nth(1));
        assert_eq!(
            find_request_target(line.as_bytes()),
            expected.map(|t| t.as_bytes()),
            "{:?}",
            line
        );
    }
}

#[test]
fn target_splits_at_the_first_question_mark() {
    let (path, query) = split_target(b"/AuthLogin?username=u&password=p");
    assert_eq!(path, b"/AuthLogin");
    assert_eq!(query.get("username"), Some("u"));
    assert_eq!(query.get("password"), Some("p"));

    let (path, query) = split_target(b"/p?a=1?b=2");
    assert_eq!(path, b"/p");
    assert_eq!(query.get("a"), Some("1?b=2"));

    let (path, query) = split_target(b"/only");
    assert_eq!(path, b"/only");
    assert_eq!(query.get("a"), None);

    let (path, _) = split_target(b"?a=1");
    assert_eq!(path, b"");
    let (path, _) = split_target(b"");
    assert_eq!(path, b"");
    let (path, _) = split_target(b"/q?");
    assert_eq!(path, b"/q");
}

#[test]
fn parsed_request_holds_path_and_parameters() {
    let request = parse_request(b"GET /AuthLogin?username=u&x=1&x=2 HTTP/1.1\r\n\r\n").unwrap();
    assert_eq!(request.method, Method::Get);
    assert_eq!(request.path, b"/AuthLogin");
    assert_eq!(request.query.get("username"), Some("u"));
    assert_eq!(request.query.get("x"), Some("2"));
    assert_eq!(request.query.get("password"), None);
}

#[test]
fn route_results() {
    let registry = ShardDatabase::with_initial_shards();
    let none = QueryParams::new();
    assert!(matches!(route(b"/health", &none, &Database, &registry), RouteResult::Health));
    assert!(matches!(
        route(b"/AuthLogin", &none, &Database, &registry),
        RouteResult::AuthLogin(_)
    ));
    match route(b"/ShardList", &none, &Database, &registry) {
        RouteResult::ShardList(shards) => assert_eq!(shards.len(), 2),
        other => panic!("unexpected {:?}", other),
    }
    assert!(matches!(route(b"/else", &none, &Database, &registry), RouteResult::NotFound));
    assert!(matches!(route(b"", &none, &Database, &registry), RouteResult::NotFound));
    assert!(matches!(route(b"/health?x", &none, &Database, &registry), RouteResult::NotFound));
}

#[test]
fn rendered_results() {
    let health = render(&RouteResult::Health);
    assert_eq!(health.status().as_u16(), 200);
    assert_eq!(health.body(), "Server is running");
    assert_eq!(health.version(), Version::Http10);
    assert_eq!(health.header("Connection"), Some("close"));
    let missing = render(&RouteResult::NotFound);
    assert_eq!(missing.status().as_u16(), 404);
    assert_eq!(missing.body(), "Not Found");
    let list = render(&RouteResult::ShardList(Vec::new()));
    assert_eq!(list.status().as_u16(), 200);
    assert_eq!(list.body(), "");
}

#[test]
fn respond_renders_the_route_of_a_request() {
    let registry = ShardDatabase::new();
    let request = parse_request(b"POST /nothing?here=1 HTTP/1.1\r\n\r\n").unwrap();
    assert_eq!(respond(&request, &Database, &registry), NOT_FOUND);
}

#[test]
fn status_codes() {
    assert_eq!(StatusCode::from_u16(200), Some(StatusCode::ok()));
    assert_eq!(StatusCode::from_u16(401), Some(StatusCode::unauthorized()));
    assert_eq!(StatusCode::from_u16(404), Some(StatusCode::not_found()));
    assert_eq!(StatusCode::from_u16(100).unwrap().as_u16(), 100);
    assert_eq!(StatusCode::from_u16(999).unwrap().as_u16(), 999);
    assert_eq!(StatusCode::from_u16(99), None);
    assert_eq!(StatusCode::from_u16(1000), None);
    assert_eq!(StatusCode::from_u16(0), None);
    assert_eq!(StatusCode::from_u16(u16::MAX), None);
}

#[test]
fn envelope_carries_the_reason_of_the_status() {
    let headers: Vec<(String, String)> = Vec::new();
    let teapot = Response::new(
        StatusCode::from_u16(500).unwrap(),
        Version::Http11,
        headers,
        "oops".to_string(),
    );
    assert_eq!(
        http_response(&teapot),
        "HTTP/1.0 500 Internal Server Error\r\nContent-Length: 4\r\nConnection: close\r\n\r\noops"
    );
    let unknown =
        Response::new(StatusCode::from_u16(299).unwrap(), Version::Http10, Vec::new(), String::new());
    assert_eq!(
        http_response(&unknown),
        "HTTP/1.0 299 <unknown status code>\r\nContent-Length: 0\r\nConnection: close\r\n\r\n"
    );
    let unauthorized = create_response(StatusCode::unauthorized(), "no");
    assert_eq!(
        http_response(&unauthorized),
        "HTTP/1.0 401 Unauthorized\r\nContent-Length: 2\r\nConnection: close\r\n\r\nno"
    );
}

#[test]
fn content_length_counts_bytes() {
    let response = create_response(StatusCode::ok(), "Zürich €");
    assert_eq!(
        http_response(&response),
        "HTTP/1.0 200 OK\r\nContent-Length: 11\r\nConnection: close\r\n\r\nZürich €"
    );
    assert_eq!(
        format_http_response(StatusCode::ok(), Some("Fine"), "ab"),
        "HTTP/1.0 200 Fine\r\nContent-Length: 2\r\nConnection: close\r\n\r\nab"
    );
    assert_eq!(
        format_http_response(StatusCode::not_found(), None, ""),
        "HTTP/1.0 404 <unknown status code>\r\nContent-Length: 0\r\nConnection: close\r\n\r\n"
    );
}

#[test]
fn last_header_of_a_name_is_the_one_read() {
    let response = Response::new(
        StatusCode::ok(),
        Version::Http11,
        vec![
            ("A".to_string(), "1".to_string()),
            ("B".to_string(), "2".to_string()),
            ("A".to_string(), "3".to_string()),
        ],
        String::new(),
    );
    assert_eq!(response.header("A"), Some("3"));
    assert_eq!(response.header("B"), Some("2"));
    assert_eq!(response.header("a"), None);
    assert_eq!(response.headers().len(), 3);
}

#[test]
fn byte_comparisons() {
    assert!(bytes_start_with(b"GET /", b"GET"));
    assert!(bytes_start_with(b"GET", b"GET"));
    assert!(bytes_start_with(b"GET", b""));
    assert!(!bytes_start_with(b"GE", b"GET"));
    assert!(!bytes_start_with(b"GXT /", b"GET"));
    assert!(bytes_equal(b"", b""));
    assert!(bytes_equal(b"/health", b"/health"));
    assert!(!bytes_equal(b"/health", b"/healt"));
    assert!(!bytes_equal(b"/health", b"/healtH"));
    assert!(str_eq("", ""));
    assert!(str_eq("ab", "ab"));
    assert!(!str_eq("ab", "abc"));
    assert!(!str_eq("ab", "aB"));
    assert!(str_eq("Zürich", "Zürich"));
    assert!(!str_eq("Zürich", "Zurich"));
}

#[test]
fn decimal_numerals() {
    assert_eq!(decimal_string(0), "0");
    assert_eq!(decimal_string(7), "7");
    assert_eq!(decimal_string(9), "9");
    assert_eq!(decimal_string(10), "10");
    assert_eq!(decimal_string(405), "405");
    assert_eq!(decimal_string(65535), "65535");
    assert_eq!(decimal_string(1_000_000), "1000000");
    assert_eq!(decimal_string(u64::MAX), "18446744073709551615");
}

#[test]
fn bind_addresses_follow_the_ports() {
    assert_eq!(bind_address(3000), "0.0.0.0:3000");
    assert_eq!(bind_address(0), "0.0.0.0:0");
    assert_eq!(bind_address(u16::MAX), "0.0.0.0:65535");
    let config = Config { tcp_ports: vec![8226, 8228, 7003, 43300] };
    assert_eq!(
        config.bind_addresses(),
        vec!["0.0.0.0:8226", "0.0.0.0:8228", "0.0.0.0:7003", "0.0.0.0:43300"]
    );
    assert!(Config { tcp_ports: Vec::new() }.bind_addresses().is_empty());
}

#[test]
fn one_read_is_at_most_the_buffer() {
    assert_eq!(REQUEST_BUFFER_SIZE, 1024);
    let mut request = b"GET /health?pad=".to_vec();
    while request.len() < REQUEST_BUFFER_SIZE {
        request.push(b'x');
    }
    assert_eq!(
        reply(&request).unwrap(),
        "HTTP/1.0 200 OK\r\nContent-Length: 17\r\nConnection: close\r\n\r\nServer is running"
    );
}

#[test]
fn white_space_is_what_the_standard_library_calls_so() {
    let mut spaces = 0;
    for code in 0..=0x10FFFFu32 {
        let c = match char::from_u32(code) {
            Some(c) => c,
            None => continue,
        };
        let line = format!("GET{}/x", c);
        let found = find_request_target(line.as_bytes());
        if c == '\n' {
            assert_eq!(found, None);
            spaces += 1;
        } else if c.is_whitespace() {
            assert_eq!(found, Some(&b"/x"[..]), "U+{:04X}", code);
            spaces += 1;
        } else {
            assert_eq!(found, None, "U+{:04X}", code);
        }
    }
    assert_eq!(spaces, 25);
}
