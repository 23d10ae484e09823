use syneroym::protocol_utils::{
    classify, extract_host_from_http, extract_service_from_host, extract_sni, host_from_text,
    is_tls_client_hello, server_name_in, ClassificationError, PEEK_SIZE,
};

fn client_hello(host: &[u8], with_extensions: bool) -> Vec<u8> {
    let mut sni: Vec<u8> = vec![0x00, 0x00];
    let list_len = 3 + host.len();
    let ext_len = 2 + list_len;
    sni.extend([(ext_len >> 8) as u8, ext_len as u8]);
    sni.extend([(list_len >> 8) as u8, list_len as u8]);
    sni.push(0x00);
    sni.extend([(host.len() >> 8) as u8, host.len() as u8]);
    sni.extend(host);
    let mut body: Vec<u8> = vec![0x03, 0x03];
    body.extend([7u8; 32]);
    body.push(0);
    body.extend([0x00, 0x02, 0x13, 0x01]);
    body.extend([0x01, 0x00]);
    if with_extensions {
        body.extend([(sni.len() >> 8) as u8, sni.len() as u8]);
        body.extend(&sni);
    }
    let mut handshake: Vec<u8> = vec![0x01, 0x00, (body.len() >> 8) as u8, body.len() as u8];
    handshake.extend(&body);
    let mut record: Vec<u8> =
        vec![0x16, 0x03, 0x01, (handshake.len() >> 8) as u8, handshake.len() as u8];
    record.extend(&handshake);
    record
}

#[test]
fn a_full_peek_is_classified() {
    assert_eq!(PEEK_SIZE, 4096);
    let mut request = b"GET / HTTP/1.1\r\nX-Fill: ".to_vec();
    request.extend(vec![b'x'; 3000]);
    request.extend(b"\r\nHost: big.example.com\r\nX-More: ");
    while request.len() < PEEK_SIZE {
        request.push(b'y');
    }
    assert_eq!(classify(&request), Ok("big".to_string()));
    let mut cut = b"GET / HTTP/1.1\r\nX-Fill: ".to_vec();
    cut.extend(vec![b'x'; PEEK_SIZE - cut.len()]);
    assert_eq!(classify(&cut), Err(ClassificationError::NoHostname));
}

#[test]
fn tls_prefix_is_recognised() {
    assert!(is_tls_client_hello(&[0x16, 0x03, 0x01]));
    assert!(is_tls_client_hello(&[0x16, 0x03, 0x03, 0x00, 0x10]));
    assert!(is_tls_client_hello(&client_hello(b"users.example.com", true)));
}

#[test]
fn tls_prefix_needs_three_bytes() {
    assert!(!is_tls_client_hello(&[]));
    assert!(!is_tls_client_hello(&[0x16]));
    assert!(!is_tls_client_hello(&[0x16, 0x03]));
}

#[test]
fn other_prefixes_are_not_tls() {
    assert!(!is_tls_client_hello(b"GET / HTTP/1.1\r\n"));
    assert!(!is_tls_client_hello(&[0x17, 0x03, 0x03]));
    assert!(!is_tls_client_hello(&[0x16, 0x02, 0x03]));
}

#[test]
fn sni_is_read_from_a_client_hello() {
    let hello = client_hello(b"users.example.com", true);
    assert_eq!(extract_sni(&hello), Ok("users.example.com".to_string()));
}

#[test]
fn a_cut_record_is_a_short_peek() {
    let hello = client_hello(b"users.example.com", true);
    let cut = &hello[..hello.len() - 5];
    assert_eq!(extract_sni(cut), Err(ClassificationError::ShortPeek));
    assert_eq!(extract_sni(&[0x16, 0x03, 0x01]), Err(ClassificationError::ShortPeek));
    assert_eq!(classify(cut), Err(ClassificationError::ShortPeek));
}

#[test]
fn a_record_that_is_no_handshake_is_malformed() {
    let bytes = [0x16, 0x03, 0x01, 0x00, 0x02, 0xFF, 0xFF];
    assert_eq!(extract_sni(&bytes), Err(ClassificationError::MalformedTls));
    assert_eq!(classify(&bytes), Err(ClassificationError::MalformedTls));
}

#[test]
fn a_client_hello_without_sni_names_no_host() {
    let hello = client_hello(b"", false);
    assert_eq!(extract_sni(&hello), Err(ClassificationError::NoHostname));
}

#[test]
fn a_host_name_that_is_no_text_is_malformed() {
    let hello = client_hello(&[0xFF, 0xFE, b'.', b'x'], true);
    assert_eq!(extract_sni(&hello), Err(ClassificationError::MalformedTls));
}

#[test]
fn first_name_of_first_filled_sni_extension() {
    let extensions: Vec<Option<Vec<Vec<u8>>>> = vec![
        None,
        Some(vec![]),
        Some(vec![b"a.example".to_vec(), b"b.example".to_vec()]),
        Some(vec![b"c.example".to_vec()]),
    ];
    assert_eq!(server_name_in(&extensions), Some(&b"a.example".to_vec()));
    let none: Vec<Option<Vec<Vec<u8>>>> = vec![None, Some(vec![])];
    assert_eq!(server_name_in(&none), None);
    assert_eq!(server_name_in(&Vec::new()), None);
}

#[test]
fn host_header_is_found() {
    let request = b"GET / HTTP/1.1\r\nHost: orders.example.com\r\n\r\n";
    assert_eq!(extract_host_from_http(request), Ok("orders.example.com".to_string()));
}

#[test]
fn host_header_in_any_case_and_without_port() {
    assert_eq!(
        extract_host_from_http(b"GET / HTTP/1.1\r\nhOsT:   shop.peer.net:8080  \r\n\r\n"),
        Ok("shop.peer.net".to_string())
    );
    assert_eq!(
        extract_host_from_http(b"GET / HTTP/1.1\nHOST:a.b\n"),
        Ok("a.b".to_string())
    );
}

#[test]
fn first_host_header_counts() {
    let request = b"GET / HTTP/1.1\r\nHost: one.example\r\nHost: two.example\r\n\r\n";
    assert_eq!(extract_host_from_http(request), Ok("one.example".to_string()));
}

#[test]
fn a_host_header_needs_a_value() {
    assert_eq!(
        extract_host_from_http(b"GET / HTTP/1.1\r\nHost:\r\n\r\n"),
        Err(ClassificationError::NoHostname)
    );
    assert_eq!(extract_host_from_http(b"GET / HTTP/1.1\r\nHost: \r\n\r\n"), Ok(String::new()));
}

#[test]
fn no_host_header_is_no_hostname() {
    assert_eq!(
        extract_host_from_http(b"GET / HTTP/1.1\r\nAccept: */*\r\n\r\n"),
        Err(ClassificationError::NoHostname)
    );
    assert_eq!(extract_host_from_http(b""), Err(ClassificationError::NoHostname));
}

#[test]
fn bytes_that_are_no_utf8_do_not_hide_the_host() {
    let mut request = b"GET /\xff\xfe HTTP/1.1\r\nHost: data.example.org\r\n\r\n".to_vec();
    request.extend([0x80, 0x81, 0xC3]);
    assert_eq!(extract_host_from_http(&request), Ok("data.example.org".to_string()));
    assert_eq!(
        extract_host_from_http(b"GET / HTTP/1.1\r\nHost: a\xffb.example\r\n\r\n"),
        Ok("a\u{FFFD}b.example".to_string())
    );
}

#[test]
fn host_from_text_trims_unicode_space() {
    assert_eq!(
        host_from_text("GET / HTTP/1.1\r\nHost:\u{00A0}\u{2003}x.y\u{3000}\r\n"),
        Ok("x.y".to_string())
    );
    assert_eq!(host_from_text("Host: last.line\r"), Ok("last.line".to_string()));
}

#[test]
fn service_is_the_leftmost_label() {
    assert_eq!(extract_service_from_host("orders.example.com"), Ok("orders".to_string()));
    assert_eq!(extract_service_from_host("a.b"), Ok("a".to_string()));
    assert_eq!(extract_service_from_host("chat.peerX:8443"), Ok("chat".to_string()));
    assert_eq!(extract_service_from_host(".example"), Ok(String::new()));
}

#[test]
fn a_single_label_is_no_service() {
    assert_eq!(extract_service_from_host("localhost"), Err(ClassificationError::NoService));
    assert_eq!(extract_service_from_host("localhost:3000"), Err(ClassificationError::NoService));
    assert_eq!(extract_service_from_host(""), Err(ClassificationError::NoService));
    assert_eq!(extract_service_from_host("host:80.5"), Err(ClassificationError::NoService));
}

#[test]
fn classify_http_request() {
    let request = b"GET / HTTP/1.1\r\nHost: orders.example.com\r\n\r\n";
    assert_eq!(classify(request), Ok("orders".to_string()));
}

#[test]
fn classify_tls_client_hello() {
    let hello = client_hello(b"users.example.com", true);
    assert_eq!(classify(&hello), Ok("users".to_string()));
}

#[test]
fn classify_errors() {
    assert_eq!(classify(b""), Err(ClassificationError::ShortPeek));
    assert_eq!(classify(b"hello"), Err(ClassificationError::NoHostname));
    assert_eq!(
        classify(b"GET / HTTP/1.1\r\nHost: localhost\r\n\r\n"),
        Err(ClassificationError::NoService)
    );
    assert_eq!(
        classify(&client_hello(b"localhost", true)),
        Err(ClassificationError::NoService)
    );
}

#[test]
fn classify_gives_the_same_label_again() {
    let request = b"GET / HTTP/1.1\r\nHost: orders.example.com\r\n\r\n";
    let hello = client_hello(b"users.example.com", true);
    for _ in 0..3 {
        assert_eq!(classify(request), classify(request));
        assert_eq!(classify(&hello), Ok("users".to_string()));
        assert_eq!(classify(b"\x16\x03"), classify(b"\x16\x03"));
    }
}
