use syneroym::handshake::HandshakeError;
use syneroym::path_proxy::{
    bad_gateway, extract_service_and_path, extract_service_info_or_error, forward_path, handle_ws,
    parse_iroh_response, parse_u16, proxy_handler, request_head, response_status, upstream_payload, version_text,
    ws_upgrade_request, HeadLine, HttpVersion, Rejection,
};

fn pair(a: &str, b: &str) -> Option<(String, String)> {
    Some((a.to_string(), b.to_string()))
}

fn chars(s: &str) -> Vec<char> {
    s.chars().collect()
}

#[test]
fn service_and_rest_of_path() {
    assert_eq!(extract_service_and_path("/orders/list/1"), pair("orders", "/list/1"));
    assert_eq!(extract_service_and_path("/orders"), pair("orders", "/"));
    assert_eq!(extract_service_and_path("/orders/"), pair("orders", "/"));
    assert_eq!(extract_service_and_path("orders/x"), pair("orders", "/x"));
    assert_eq!(extract_service_and_path("///orders//x"), pair("orders", "//x"));
}

#[test]
fn path_without_service() {
    assert_eq!(extract_service_and_path(""), None);
    assert_eq!(extract_service_and_path("/"), None);
    assert_eq!(extract_service_and_path("////"), None);
}

#[test]
fn missing_service_is_a_bad_request() {
    assert_eq!(
        extract_service_info_or_error("/"),
        Err(Rejection { status: 400, message: "Missing service name in path".to_string() })
    );
    assert_eq!(
        extract_service_info_or_error("/svc/a"),
        Ok(("svc".to_string(), "/a".to_string()))
    );
}

#[test]
fn query_goes_behind_the_path() {
    assert_eq!(forward_path("/list", Some("page=2&x=y")), "/list?page=2&x=y");
    assert_eq!(forward_path("/list", Some("")), "/list?");
    assert_eq!(forward_path("/list", None), "/list");
}

#[test]
fn upgrade_request_text() {
    assert_eq!(
        ws_upgrade_request("/chat?room=1"),
        "GET /chat?room=1 HTTP/1.1\r\nUpgrade: websocket\r\nConnection: Upgrade\r\nSec-WebSocket-Key: dGhlIHNhbXBsZSBub25jZQ==\r\n\r\n"
    );
}

#[test]
fn websocket_opening_bytes() {
    let mut expected = vec![4u8];
    expected.extend(b"chat");
    expected.extend(ws_upgrade_request("/").as_bytes());
    assert_eq!(handle_ws("chat", "/"), Ok(expected));
    assert_eq!(handle_ws("", "/"), Err(HandshakeError::BadLabel));
}

#[test]
fn version_names() {
    assert_eq!(version_text(HttpVersion::Http09), "HTTP/0.9");
    assert_eq!(version_text(HttpVersion::Http10), "HTTP/1.0");
    assert_eq!(version_text(HttpVersion::Http11), "HTTP/1.1");
    assert_eq!(version_text(HttpVersion::Http2), "HTTP/2.0");
    assert_eq!(version_text(HttpVersion::Http3), "HTTP/3.0");
    assert_eq!(version_text(HttpVersion::Other), "HTTP/1.1");
}

#[test]
fn request_head_text() {
    let headers = vec![
        ("host".to_string(), Some("gateway.local".to_string())),
        ("x-binary".to_string(), None),
        ("accept".to_string(), Some("*/*".to_string())),
    ];
    assert_eq!(
        request_head("GET", "/list?x=1", HttpVersion::Http11, &headers),
        "GET /list?x=1 HTTP/1.1\r\nhost: gateway.local\r\naccept: */*\r\n\r\n"
    );
    assert_eq!(
        request_head("POST", "/", HttpVersion::Http2, &Vec::new()),
        "POST / HTTP/2.0\r\n\r\n"
    );
}

#[test]
fn proxied_request_opens_with_the_handshake() {
    let headers = vec![("a".to_string(), Some("b".to_string()))];
    let bytes = proxy_handler("orders", "GET", "/x", HttpVersion::Http10, &headers).unwrap();
    assert_eq!(&bytes[..7], &[6, b'o', b'r', b'd', b'e', b'r', b's']);
    assert_eq!(&bytes[7..], b"GET /x HTTP/1.0\r\na: b\r\n\r\n");
    assert_eq!(
        proxy_handler(&"s".repeat(256), "GET", "/", HttpVersion::Http11, &headers),
        Err(HandshakeError::BadLabel)
    );
}

#[test]
fn numbers_that_fit_16_bits() {
    assert_eq!(parse_u16(&chars("0")), Some(0));
    assert_eq!(parse_u16(&chars("200")), Some(200));
    assert_eq!(parse_u16(&chars("+404")), Some(404));
    assert_eq!(parse_u16(&chars("000502")), Some(502));
    assert_eq!(parse_u16(&chars("65535")), Some(65535));
    assert_eq!(parse_u16(&chars("65536")), None);
    assert_eq!(parse_u16(&chars("99999999999999999999")), None);
    assert_eq!(parse_u16(&chars("")), None);
    assert_eq!(parse_u16(&chars("+")), None);
    assert_eq!(parse_u16(&chars("-1")), None);
    assert_eq!(parse_u16(&chars("12a")), None);
    assert_eq!(parse_u16(&chars("1 ")), None);
    assert_eq!(parse_u16(&chars("++1")), None);
    assert_eq!(parse_u16(&chars("\u{0663}")), None);
    assert_eq!(parse_u16(&chars("70000x")), None);
}

#[test]
fn numbers_agree_with_the_standard_library() {
    for text in ["7", "+7", "007", "65535", "65536", "", "+", "1e3", " 1", "0x10", "９"] {
        assert_eq!(parse_u16(&chars(text)), text.parse::<u16>().ok());
    }
}

#[test]
fn status_of_a_status_line() {
    assert_eq!(response_status("HTTP/1.1 200 OK\r\n"), Some(200));
    assert_eq!(response_status("HTTP/1.1 404 Not Found"), Some(404));
    assert_eq!(response_status("  HTTP/1.0\t+301\n"), Some(301));
    assert_eq!(response_status("HTTP/1.1 100"), Some(100));
    assert_eq!(response_status("HTTP/1.1 999"), Some(999));
}

#[test]
fn what_is_no_status_counts_as_bad_gateway() {
    assert_eq!(response_status("HTTP/1.1 99 Low"), Some(502));
    assert_eq!(response_status("HTTP/1.1 1000 High"), Some(502));
    assert_eq!(response_status("HTTP/1.1 abc"), Some(502));
    assert_eq!(response_status("HTTP/1.1 70000"), Some(502));
    assert_eq!(response_status("HTTP/1.1 2OO"), Some(502));
}

#[test]
fn a_status_line_needs_two_words() {
    assert_eq!(response_status(""), None);
    assert_eq!(response_status("\r\n"), None);
    assert_eq!(response_status("HTTP/1.1"), None);
    assert_eq!(response_status("HTTP/1.1   \r\n"), None);
}

#[test]
fn head_lines() {
    assert_eq!(parse_iroh_response("\r\n"), HeadLine::End);
    assert_eq!(parse_iroh_response("\n"), HeadLine::End);
    assert_eq!(parse_iroh_response(""), HeadLine::End);
    assert_eq!(
        parse_iroh_response("Content-Type: text/html\r\n"),
        HeadLine::Header("Content-Type".to_string(), "text/html".to_string())
    );
    assert_eq!(
        parse_iroh_response("  Date :  Mon, 01 Jan 2024 00:00:00 GMT  \n"),
        HeadLine::Header("Date".to_string(), "Mon, 01 Jan 2024 00:00:00 GMT".to_string())
    );
    assert_eq!(parse_iroh_response(":\r\n"), HeadLine::Header(String::new(), String::new()));
    assert_eq!(parse_iroh_response("no colon here\r\n"), HeadLine::Skip);
    assert_eq!(parse_iroh_response("\r"), HeadLine::Skip);
    assert_eq!(parse_iroh_response(" \r\n"), HeadLine::Skip);
}

#[test]
fn empty_messages_are_not_forwarded() {
    assert_eq!(upstream_payload(vec![]), None);
    assert_eq!(upstream_payload(vec![0]), Some(vec![0]));
    assert_eq!(upstream_payload(b"ping".to_vec()), Some(b"ping".to_vec()));
}

#[test]
fn unreachable_peer_is_a_bad_gateway() {
    assert_eq!(
        bad_gateway("timed out"),
        Rejection { status: 502, message: "Connect/Handshake error: timed out".to_string() }
    );
}
