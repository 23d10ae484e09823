//! The web gateway's rules: what to do with a client connection, decided
//! from its peeked prefix alone. TLS and WebSocket upgrades are tunneled
//! to the peer untouched; a request that carries the loop marker is turned
//! away; the service worker and the shell are served to everything else.
use vstd::prelude::*;
use vstd::slice::slice_subrange;
use vstd::string::StringExecFns;
use vstd::utf8::*;
use crate::handshake::push_all;
use crate::protocol_utils::{
    extract_service_from_host,
    extract_sni,
    host_from_text,
    host_value,
    http_host,
    is_host_line,
    is_tls_client_hello,
    service_label,
    sni_host,
    tls_record_prefix,
    ClassificationError,
};
use crate::trusted::{lossy_text, utf8_lossy};
use crate::text::{
    after_first_word,
    before,
    chars_of,
    eq_ignore_case,
    equals_ignore_case,
    find,
    first_index,
    first_word,
    has_prefix_ignore_case,
    lines,
    same_text,
    split_first_word,
    split_lines,
    starts_with_ignore_case,
    string_of,
    take_before,
    text_of,
    trim,
    trimmed,
    views,
};

verus! {

/// Why a peeked prefix is no HTTP request that the gateway can read.
#[derive(Clone, Copy, Debug, PartialEq, Eq, Structural)]
pub enum PeekError {
    /// The prefix holds no line.
    EmptyRequest,
    /// The first line has no method and path.
    InvalidRequestLine,
    /// No header names a host.
    NoHost,
}

/// What the gateway reads from the head of an HTTP request.
pub struct PeekModel {
    pub method: Seq<char>,
    pub path: Seq<char>,
    pub host: Seq<char>,
    pub has_loop_header: bool,
    pub is_websocket: bool,
}

/// A header line that carries the loop marker, whatever its value.
pub open spec fn is_loop_line(line: Seq<char>) -> bool {
    line.len() > 12 && has_prefix_ignore_case(line, "x-peer-proxy"@)
}

/// A header line that asks for an upgrade to WebSocket.
pub open spec fn is_websocket_line(line: Seq<char>) -> bool {
    &&& line.len() > 8
    &&& has_prefix_ignore_case(line, "upgrade:"@)
    &&& eq_ignore_case(trim(line.skip(8)), "websocket"@)
}

/// Whether one of the first `n` lines behind the first line of `ls`
/// carries the loop marker.
pub open spec fn loop_line_within(ls: Seq<Seq<char>>, n: int) -> bool {
    exists|i: int| 1 <= i < n && i < ls.len() && is_loop_line(#[trigger] ls[i])
}

/// Whether one of the first `n` lines behind the first line of `ls` asks
/// for WebSocket.
pub open spec fn websocket_line_within(ls: Seq<Seq<char>>, n: int) -> bool {
    exists|i: int| 1 <= i < n && i < ls.len() && is_websocket_line(#[trigger] ls[i])
}

/// Whether a request carries the loop marker in one of its header lines.
pub open spec fn has_loop_marker(text: Seq<char>) -> bool {
    loop_line_within(lines(text), lines(text).len() as int)
}

/// Whether a request asks for WebSocket in one of its header lines.
pub open spec fn asks_websocket(text: Seq<char>) -> bool {
    websocket_line_within(lines(text), lines(text).len() as int)
}

/// The host of the last host line among `ls`; empty where there is none.
pub open spec fn last_host(ls: Seq<Seq<char>>) -> Seq<char>
    decreases ls.len(),
{
    if ls.len() == 0 {
        Seq::empty()
    } else if is_host_line(ls.last()) {
        host_value(ls.last())
    } else {
        last_host(ls.drop_last())
    }
}

/// The head of the HTTP request in `text`: method and path from the first
/// line, and from the lines behind it the host and the two markers.
pub open spec fn http_peek(text: Seq<char>) -> Result<PeekModel, PeekError> {
    let ls = lines(text);
    if ls.len() == 0 {
        Err(PeekError::EmptyRequest)
    } else if first_word(after_first_word(ls[0])).len() == 0 {
        Err(PeekError::InvalidRequestLine)
    } else if last_host(ls.drop_first()).len() == 0 {
        Err(PeekError::NoHost)
    } else {
        Ok(
            PeekModel {
                method: first_word(ls[0]),
                path: first_word(after_first_word(ls[0])),
                host: last_host(ls.drop_first()),
                has_loop_header: has_loop_marker(text),
                is_websocket: asks_websocket(text),
            },
        )
    }
}

/// What `parse_http_peek` hands out, as contracts see it.
pub open spec fn peek_model(r: Result<(String, String, String, bool, bool), PeekError>) -> Result<
    PeekModel,
    PeekError,
> {
    match r {
        Ok(p) => Ok(
            PeekModel {
                method: p.0@,
                path: p.1@,
                host: p.2@,
                has_loop_header: p.3,
                is_websocket: p.4,
            },
        ),
        Err(e) => Err(e),
    }
}

/// The part of a host that names the peer: what follows the first dot of
/// the host, taken without a port; the host itself where it has no dot.
pub open spec fn peer_id_of(host: Seq<char>) -> Seq<char> {
    let name = before(host, ':');
    if first_index(name, '.') < name.len() {
        name.skip(first_index(name, '.') + 1)
    } else {
        name
    }
}

/// What the gateway does with a connection.
#[derive(Debug, PartialEq, Eq)]
pub enum GatewayAction {
    /// The client sent nothing: let the connection go.
    Ignore,
    /// Dial the peer, ask for this service, and copy bytes both ways.
    Tunnel { label: String },
    /// Answer that the request has come back to the gateway, and close.
    RejectLoop,
    /// Serve the service worker.
    ServeWorker,
    /// Serve the shell, for this host.
    ServeShell { host: String },
    /// Give the connection up.
    Fail(ClassificationError),
}

/// A gateway action, as contracts see it.
pub enum GatewayModel {
    Ignore,
    Tunnel { label: Seq<char> },
    RejectLoop,
    ServeWorker,
    ServeShell { host: Seq<char> },
    Fail(ClassificationError),
}

impl View for GatewayAction {
    type V = GatewayModel;

    open spec fn view(&self) -> GatewayModel {
        match self {
            GatewayAction::Ignore => GatewayModel::Ignore,
            GatewayAction::Tunnel { label } => GatewayModel::Tunnel { label: label@ },
            GatewayAction::RejectLoop => GatewayModel::RejectLoop,
            GatewayAction::ServeWorker => GatewayModel::ServeWorker,
            GatewayAction::ServeShell { host } => GatewayModel::ServeShell { host: host@ },
            GatewayAction::Fail(e) => GatewayModel::Fail(*e),
        }
    }
}

/// A tunnel to the service that `host` leads to.
pub open spec fn tunnel_to(host: Result<Seq<char>, ClassificationError>) -> GatewayModel {
    match host {
        Ok(h) => match service_label(h) {
            Ok(label) => GatewayModel::Tunnel { label },
            Err(e) => GatewayModel::Fail(e),
        },
        Err(e) => GatewayModel::Fail(e),
    }
}

/// What the gateway does with an HTTP request whose head it could read.
pub open spec fn request_action(p: PeekModel) -> GatewayModel {
    if p.has_loop_header {
        GatewayModel::RejectLoop
    } else if p.is_websocket {
        tunnel_to(Ok(p.host))
    } else if p.method == "GET"@ && p.path == "/__syneroym/sw.js"@ {
        GatewayModel::ServeWorker
    } else {
        GatewayModel::ServeShell { host: p.host }
    }
}

/// The gateway's rule, from the peeked prefix to the action, where `text`
/// is the prefix read as text. What carries the loop marker is turned
/// away. What is no request that the gateway can read is still tunneled if
/// a header names a host.
pub open spec fn gateway_action_as(peek: Seq<u8>, text: Seq<char>) -> GatewayModel {
    if peek.len() == 0 {
        GatewayModel::Ignore
    } else if tls_record_prefix(peek) {
        tunnel_to(sni_host(peek))
    } else {
        match http_peek(text) {
            Ok(p) => request_action(p),
            Err(_) => if has_loop_marker(text) {
                GatewayModel::RejectLoop
            } else {
                tunnel_to(http_host(text))
            },
        }
    }
}

/// The gateway's rule, from the peeked prefix to the action.
pub open spec fn gateway_action(peek: Seq<u8>) -> GatewayModel {
    gateway_action_as(peek, utf8_lossy(peek))
}

/// The answer to a request that carries the loop marker.
pub open spec fn loop_detected_reply() -> Seq<u8> {
    encode_utf8(
        "HTTP/1.1 502 Bad Gateway\r\nX-Peer-Proxy-Error: Loop Detected\r\nContent-Length: 13\r\n\r\nLoop Detected"@,
    )
}

/// The answer where a page could not be made.
pub open spec fn render_failed_reply() -> Seq<u8> {
    encode_utf8("HTTP/1.1 500 Internal Server Error\r\n\r\n"@)
}

/// The digit for a number below ten.
pub open spec fn digit(d: nat) -> char {
    ((48 + d) as u8) as char
}

/// A number in decimal digits.
pub open spec fn decimal(n: nat) -> Seq<char>
    decreases n,
{
    if n < 10 {
        seq![digit(n)]
    } else {
        decimal(n / 10).push(digit(n % 10))
    }
}

/// An answer `200 OK` with the given header lines, the length of `content`
/// in bytes, and `content` as its body.
pub open spec fn ok_reply(headers: Seq<char>, content: Seq<char>) -> Seq<char> {
    "HTTP/1.1 200 OK\r\n"@ + headers + "Content-Length: "@ + decimal(encode_utf8(content).len())
        + "\r\n\r\n"@ + content
}

/// The head of the HTTP request in `text`.
pub fn parse_request_text(text: &str) -> (r: Result<
    (String, String, String, bool, bool),
    PeekError,
>)
    ensures
        peek_model(r) == http_peek(text@),
{
    let chars = chars_of(text);
    let ls = split_lines(chars.as_slice());
    if ls.len() == 0 {
        return Err(PeekError::EmptyRequest);
    }
    let ghost all = views(ls@);
    let words = split_first_word(ls[0]);
    let second = split_first_word(words.1);
    assert(all[0] == ls@[0]@);
    if second.0.len() == 0 {
        return Err(PeekError::InvalidRequestLine);
    }
    let host_tag = chars_of("host:");
    let loop_tag = chars_of("x-peer-proxy");
    let upgrade_tag = chars_of("upgrade:");
    let websocket = chars_of("websocket");
    let ghost headers = all.drop_first();
    let mut host: &[char] = slice_subrange(ls[0], 0, 0);
    let mut has_loop = false;
    let mut is_websocket = false;
    let mut i: usize = 1;
    proof {
        assert(headers.take(0) =~= Seq::<Seq<char>>::empty());
    }
    while i < ls.len()
        invariant
            1 <= i <= ls.len(),
            all == views(ls@),
            headers == all.drop_first(),
            host_tag@ == "host:"@,
            loop_tag@ == "x-peer-proxy"@,
            upgrade_tag@ == "upgrade:"@,
            websocket@ == "websocket"@,
            host@ == last_host(headers.take(i - 1)),
            has_loop == loop_line_within(all, i as int),
            is_websocket == websocket_line_within(all, i as int),
        decreases ls.len() - i,
    {
        let line = ls[i];
        let ghost seen = headers.take(i - 1);
        let ghost now = headers.take(i as int);
        proof {
            assert(now.drop_last() =~= seen);
            assert(now.last() == line@);
            assert(all[i as int] == line@);
        }
        if line.len() > 5 && starts_with_ignore_case(line, host_tag.as_slice()) {
            let rest = slice_subrange(line, 5, line.len());
            assert(rest@ =~= line@.skip(5));
            host = take_before(trimmed(rest), ':');
        }
        if line.len() > 12 && starts_with_ignore_case(line, loop_tag.as_slice()) {
            has_loop = true;
        }
        if line.len() > 8 && starts_with_ignore_case(line, upgrade_tag.as_slice()) {
            let rest = slice_subrange(line, 8, line.len());
            assert(rest@ =~= line@.skip(8));
            if equals_ignore_case(trimmed(rest), websocket.as_slice()) {
                is_websocket = true;
            }
        }
        proof {
            assert(loop_line_within(all, i + 1) == (loop_line_within(all, i as int) || is_loop_line(
                all[i as int],
            )));
            assert(websocket_line_within(all, i + 1) == (websocket_line_within(all, i as int)
                || is_websocket_line(all[i as int])));
        }
        i = i + 1;
    }
    proof {
        assert(headers.take(ls.len() - 1) =~= headers);
    }
    if host.len() == 0 {
        return Err(PeekError::NoHost);
    }
    Ok((string_of(words.0), string_of(second.0), string_of(host), has_loop, is_websocket))
}

/// The head of the HTTP request in a peeked prefix: method, path, host,
/// whether a header carries the loop marker, and whether one asks for
/// WebSocket. The bytes are read as text, with U+FFFD wherever they are no
/// UTF-8.
pub fn parse_http_peek(buf: &[u8]) -> (r: Result<(String, String, String, bool, bool), PeekError>)
    ensures
        peek_model(r) == http_peek(utf8_lossy(buf@)),
        valid_utf8(buf@) ==> peek_model(r) == http_peek(decode_utf8(buf@)),
{
    let text = lossy_text(buf);
    parse_request_text(text.as_str())
}

/// Whether the request in `text` carries the loop marker in one of its
/// header lines.
pub fn carries_loop_marker(text: &str) -> (marked: bool)
    ensures
        marked == has_loop_marker(text@),
{
    let chars = chars_of(text);
    let ls = split_lines(chars.as_slice());
    let loop_tag = chars_of("x-peer-proxy");
    let ghost all = views(ls@);
    let mut i: usize = 1;
    while i < ls.len()
        invariant
            1 <= i,
            all == views(ls@),
            all == lines(text@),
            loop_tag@ == "x-peer-proxy"@,
            !loop_line_within(all, i as int),
        decreases ls.len() - i,
    {
        let line = ls[i];
        assert(all[i as int] == line@);
        if line.len() > 12 && starts_with_ignore_case(line, loop_tag.as_slice()) {
            return true;
        }
        assert(loop_line_within(all, i + 1) == (loop_line_within(all, i as int) || is_loop_line(
            all[i as int],
        )));
        i = i + 1;
    }
    false
}

/// The name of the peer in a host.
pub fn extract_peer_id_from_host(host: &str) -> (peer: String)
    ensures
        peer@ == peer_id_of(host@),
{
    let chars = chars_of(host);
    let name = take_before(chars.as_slice(), ':');
    let dot = find(name, '.');
    if dot < name.len() {
        string_of(slice_subrange(name, dot + 1, name.len()))
    } else {
        string_of(name)
    }
}

/// A tunnel to the service that `host` leads to, or the reason why there
/// is none.
pub fn tunnel_for(host: Result<String, ClassificationError>) -> (action: GatewayAction)
    ensures
        action@ == tunnel_to(text_of(host)),
{
    match host {
        Ok(h) => match extract_service_from_host(h.as_str()) {
            Ok(label) => GatewayAction::Tunnel { label },
            Err(e) => GatewayAction::Fail(e),
        },
        Err(e) => GatewayAction::Fail(e),
    }
}

/// What the gateway does with an HTTP request, given what it read from the
/// request's head.
pub fn decide_request(
    method: String,
    path: String,
    host: String,
    has_loop_header: bool,
    is_websocket: bool,
) -> (action: GatewayAction)
    ensures
        action@ == request_action(
            PeekModel {
                method: method@,
                path: path@,
                host: host@,
                has_loop_header,
                is_websocket,
            },
        ),
{
    if has_loop_header {
        GatewayAction::RejectLoop
    } else if is_websocket {
        tunnel_for(Ok(host))
    } else if same_text(method.as_str(), "GET") && same_text(path.as_str(), "/__syneroym/sw.js") {
        GatewayAction::ServeWorker
    } else {
        GatewayAction::ServeShell { host }
    }
}

/// What the gateway does with a client connection, from its peeked prefix.
pub fn handle_connection(peek: &[u8]) -> (action: GatewayAction)
    ensures
        action@ == gateway_action(peek@),
        valid_utf8(peek@) ==> action@ == gateway_action_as(peek@, decode_utf8(peek@)),
{
    if peek.len() == 0 {
        return GatewayAction::Ignore;
    }
    if is_tls_client_hello(peek) {
        return tunnel_for(extract_sni(peek));
    }
    let text = lossy_text(peek);
    match parse_request_text(text.as_str()) {
        Ok((method, path, host, has_loop_header, is_websocket)) => decide_request(
            method,
            path,
            host,
            has_loop_header,
            is_websocket,
        ),
        Err(_) => if carries_loop_marker(text.as_str()) {
            GatewayAction::RejectLoop
        } else {
            tunnel_for(host_from_text(text.as_str()))
        },
    }
}

/// The bytes of the answer to a request that carries the loop marker.
pub fn loop_detected_response() -> (reply: Vec<u8>)
    ensures
        reply@ == loop_detected_reply(),
{
    let mut reply: Vec<u8> = Vec::new();
    push_all(
        &mut reply,
        "HTTP/1.1 502 Bad Gateway\r\nX-Peer-Proxy-Error: Loop Detected\r\nContent-Length: 13\r\n\r\nLoop Detected".as_bytes(),
    );
    reply
}

/// The bytes of the answer where a page could not be made.
pub fn render_failed_response() -> (reply: Vec<u8>)
    ensures
        reply@ == render_failed_reply(),
{
    let mut reply: Vec<u8> = Vec::new();
    push_all(&mut reply, "HTTP/1.1 500 Internal Server Error\r\n\r\n".as_bytes());
    reply
}

/// Appends `n` in decimal digits.
pub fn push_decimal(out: &mut String, n: usize)
    ensures
        final(out)@ == old(out)@ + decimal(n as nat),
    decreases n,
{
    if n >= 10 {
        push_decimal(out, n / 10);
    }
    let d: u8 = (n % 10) as u8;
    out.push((48 + d) as char);
    proof {
        if n >= 10 {
            assert(out@ =~= old(out)@ + decimal(n as nat / 10).push(digit(n as nat % 10)));
        } else {
            assert(out@ =~= old(out)@ + seq![digit(n as nat)]);
        }
    }
}

/// An answer `200 OK` that carries `content`, with `headers` before the
/// content length.
pub fn ok_response(headers: &str, content: &str) -> (reply: String)
    ensures
        reply@ == ok_reply(headers@, content@),
{
    let mut reply = String::from_str("HTTP/1.1 200 OK\r\n");
    reply.append(headers);
    reply.append("Content-Length: ");
    push_decimal(&mut reply, content.as_bytes().len());
    reply.append("\r\n\r\n");
    reply.append(content);
    assert(reply@ =~= ok_reply(headers@, content@));
    reply
}

/// The answer that serves the shell `content`.
pub fn serve_index(content: &str) -> (reply: String)
    ensures
        reply@ == ok_reply("Content-Type: text/html\r\n"@, content@),
{
    ok_response("Content-Type: text/html\r\n", content)
}

/// The answer that serves the service worker `content`, allowed for the
/// whole origin.
pub fn serve_sw(content: &str) -> (reply: String)
    ensures
        reply@ == ok_reply(
            "Content-Type: application/javascript\r\nService-Worker-Allowed: /\r\n"@,
            content@,
        ),
{
    ok_response("Content-Type: application/javascript\r\nService-Worker-Allowed: /\r\n", content)
}

/// A page that a handler answers with.
#[derive(Debug, PartialEq, Eq)]
pub struct PageResponse {
    /// The status of the answer.
    pub status: u16,
    /// Its headers, by name and value.
    pub headers: Vec<(String, String)>,
    /// Its body.
    pub body: String,
}

/// A page, as contracts see it.
pub struct PageModel {
    pub status: u16,
    pub headers: Seq<(Seq<char>, Seq<char>)>,
    pub body: Seq<char>,
}

impl View for PageResponse {
    type V = PageModel;

    open spec fn view(&self) -> PageModel {
        PageModel { status: self.status, headers: self.headers.deep_view(), body: self.body@ }
    }
}

/// An answer without headers.
pub open spec fn plain_page(status: u16, body: Seq<char>) -> PageModel {
    PageModel { status, headers: Seq::empty(), body }
}

/// The answer to a request for the index: 502 where the request carries
/// the loop marker, else the page as HTML, and 500 where there is no page.
pub open spec fn index_page(has_loop_header: bool, page: Option<Seq<char>>) -> PageModel {
    if has_loop_header {
        plain_page(502, "Loop Detected"@)
    } else {
        match page {
            Some(content) => PageModel {
                status: 200,
                headers: seq![("content-type"@, "text/html"@)],
                body: content,
            },
            None => plain_page(500, "Internal Server Error"@),
        }
    }
}

/// The answer to a request for the service worker: the script, allowed for
/// the whole origin, and 500 where there is no script.
pub open spec fn worker_page(page: Option<Seq<char>>) -> PageModel {
    match page {
        Some(content) => PageModel {
            status: 200,
            headers: seq![
                ("content-type"@, "application/javascript"@),
                ("service-worker-allowed"@, "/"@),
            ],
            body: content,
        },
        None => plain_page(500, "Internal Server Error"@),
    }
}

/// An answer with a status and a body and no header.
pub fn plain_response(status: u16, body: &str) -> (page: PageResponse)
    ensures
        page@ == plain_page(status, body@),
{
    let page = PageResponse { status, headers: Vec::new(), body: String::from_str(body) };
    assert(page.headers.deep_view() =~= Seq::<(Seq<char>, Seq<char>)>::empty());
    page
}

/// Answers a request for the index, given whether it carries the loop
/// marker and the page as far as it could be made.
pub fn index_handler(has_loop_header: bool, page: Option<String>) -> (answer: PageResponse)
    ensures
        answer@ == index_page(has_loop_header, page.deep_view()),
{
    if has_loop_header {
        return plain_response(502, "Loop Detected");
    }
    match page {
        Some(body) => {
            let mut headers: Vec<(String, String)> = Vec::new();
            headers.push((String::from_str("content-type"), String::from_str("text/html")));
            assert(headers.deep_view() =~= seq![("content-type"@, "text/html"@)]);
            PageResponse { status: 200, headers, body }
        },
        None => plain_response(500, "Internal Server Error"),
    }
}

/// Answers a request for the service worker, given the script as far as
/// it could be made.
pub fn sw_handler(page: Option<String>) -> (answer: PageResponse)
    ensures
        answer@ == worker_page(page.deep_view()),
{
    match page {
        Some(body) => {
            let mut headers: Vec<(String, String)> = Vec::new();
            headers.push(
                (String::from_str("content-type"), String::from_str("application/javascript")),
            );
            headers.push((String::from_str("service-worker-allowed"), String::from_str("/")));
            assert(headers.deep_view() =~= seq![
                ("content-type"@, "application/javascript"@),
                ("service-worker-allowed"@, "/"@),
            ]);
            PageResponse { status: 200, headers, body }
        },
        None => plain_response(500, "Internal Server Error"),
    }
}

/// Loop marker: a request that carries the marker in one of its header
/// lines is turned away, whatever its value and whatever else the request
/// holds. No tunnel is made, so no peer is dialed.
pub proof fn law_loop_marker_short_circuit(peek: Seq<u8>, text: Seq<char>)
    requires
        peek.len() > 0,
        !tls_record_prefix(peek),
        has_loop_marker(text),
    ensures
        gateway_action_as(peek, text) == GatewayModel::RejectLoop,
        text == utf8_lossy(peek) ==> gateway_action(peek) == GatewayModel::RejectLoop,
{
}

/// The gateway tunnels only what is TLS, and of what is not TLS only what
/// carries no loop marker.
pub proof fn law_tunnel_cases(peek: Seq<u8>, text: Seq<char>)
    requires
        gateway_action_as(peek, text) is Tunnel,
    ensures
        peek.len() > 0,
        tls_record_prefix(peek) || !has_loop_marker(text),
{
}

} // verus!
