//! The proxy that finds the service in the path of the URL: the first
//! segment names the service, the rest is the path that the service sees.
//! It writes the request onto the peer stream as HTTP/1.x text and reads
//! the head of the answer back.
use vstd::prelude::*;
use vstd::slice::slice_subrange;
use vstd::string::StringExecFns;
use vstd::utf8::*;
use crate::handshake::{encode_handshake, handshake, push_all, valid_label, HandshakeError};
use crate::trusted::status_code;
use crate::text::{
    after_first_word,
    chars_of,
    find,
    first_index,
    first_word,
    split_first_word,
    string_of,
    trim,
    trimmed,
};

verus! {

/// `s` without the slashes at its beginning.
pub open spec fn strip_slashes(s: Seq<char>) -> Seq<char>
    decreases s.len(),
{
    if s.len() > 0 && s[0] == '/' {
        strip_slashes(s.drop_first())
    } else {
        s
    }
}

/// The service that a path names and the path that is left for it: the
/// first segment, and what follows it, `/` where nothing does.
pub open spec fn service_and_path(path: Seq<char>) -> Option<(Seq<char>, Seq<char>)> {
    let p = strip_slashes(path);
    if p.len() == 0 {
        None
    } else if first_index(p, '/') < p.len() {
        Some((p.take(first_index(p, '/')), p.skip(first_index(p, '/'))))
    } else {
        Some((p, "/"@))
    }
}

/// A path with its query behind it.
pub open spec fn with_query(path: Seq<char>, query: Option<Seq<char>>) -> Seq<char> {
    match query {
        Some(q) => path + "?"@ + q,
        None => path,
    }
}

/// The request that asks a backend to upgrade to WebSocket on `path`.
pub open spec fn upgrade_request(path: Seq<char>) -> Seq<char> {
    "GET "@ + path
        + " HTTP/1.1\r\nUpgrade: websocket\r\nConnection: Upgrade\r\nSec-WebSocket-Key: dGhlIHNhbXBsZSBub25jZQ==\r\n\r\n"@
}

/// The version of HTTP that a request came in.
#[derive(Clone, Copy, Debug, PartialEq, Eq, Structural)]
pub enum HttpVersion {
    Http09,
    Http10,
    Http11,
    Http2,
    Http3,
    /// A version that this proxy does not know.
    Other,
}

/// How a version is written in a request line. A version that is not
/// known is written as HTTP/1.1.
pub open spec fn version_name(version: HttpVersion) -> Seq<char> {
    match version {
        HttpVersion::Http09 => "HTTP/0.9"@,
        HttpVersion::Http10 => "HTTP/1.0"@,
        HttpVersion::Http11 => "HTTP/1.1"@,
        HttpVersion::Http2 => "HTTP/2.0"@,
        HttpVersion::Http3 => "HTTP/3.0"@,
        HttpVersion::Other => "HTTP/1.1"@,
    }
}

/// The header lines of a request. A header whose value is no text is left
/// out.
pub open spec fn header_lines(headers: Seq<(Seq<char>, Option<Seq<char>>)>) -> Seq<char>
    decreases headers.len(),
{
    if headers.len() == 0 {
        Seq::empty()
    } else {
        header_lines(headers.drop_last()) + match headers.last().1 {
            Some(value) => headers.last().0 + ": "@ + value + "\r\n"@,
            None => Seq::empty(),
        }
    }
}

/// The head of a request as it goes onto the peer stream: the request
/// line, the header lines, and an empty line.
pub open spec fn request_head_text(
    method: Seq<char>,
    target: Seq<char>,
    version: HttpVersion,
    headers: Seq<(Seq<char>, Option<Seq<char>>)>,
) -> Seq<char> {
    method + " "@ + target + " "@ + version_name(version) + "\r\n"@ + header_lines(headers)
        + "\r\n"@
}

/// The number that decimal digits write.
pub open spec fn digits_value(s: Seq<char>) -> nat
    decreases s.len(),
{
    if s.len() == 0 {
        0
    } else {
        digits_value(s.drop_last()) * 10 + (s.last() as nat - 48) as nat
    }
}

/// Nothing but decimal digits.
pub open spec fn all_digits(s: Seq<char>) -> bool {
    forall|i: int| 0 <= i < s.len() ==> '0' <= #[trigger] s[i] <= '9'
}

/// The number that a text writes, if it is one that 16 bits hold: decimal
/// digits, at least one, with or without a plus sign before them.
pub open spec fn parsed_u16(s: Seq<char>) -> Option<u16> {
    let d = if s.len() > 0 && s[0] == '+' {
        s.drop_first()
    } else {
        s
    };
    if d.len() == 0 || !all_digits(d) || digits_value(d) > 65535 {
        None
    } else {
        Some(digits_value(d) as u16)
    }
}

/// The status that a code stands for: the code itself where it is a status
/// code, from 100 to 999, and 502 where it is none.
pub open spec fn status_or_bad_gateway(code: Option<u16>) -> u16 {
    match code {
        Some(c) if 100 <= c <= 999 => c,
        _ => 502,
    }
}

/// The status that a status line gives: that of its second word. A line
/// with fewer than two words gives none.
pub open spec fn status_of(line: Seq<char>) -> Option<u16> {
    let word = first_word(after_first_word(line));
    if word.len() == 0 {
        None
    } else {
        Some(status_or_bad_gateway(parsed_u16(word)))
    }
}

/// What a line of the head of an answer is.
#[derive(Debug, PartialEq, Eq)]
pub enum HeadLine {
    /// The line that ends the head, or the end of the stream.
    End,
    /// A header, by name and value.
    Header(String, String),
    /// A line without a colon, which is passed over.
    Skip,
}

/// A line of the head of an answer, as contracts see it.
pub enum HeadLineModel {
    End,
    Header(Seq<char>, Seq<char>),
    Skip,
}

impl View for HeadLine {
    type V = HeadLineModel;

    open spec fn view(&self) -> HeadLineModel {
        match self {
            HeadLine::End => HeadLineModel::End,
            HeadLine::Header(name, value) => HeadLineModel::Header(name@, value@),
            HeadLine::Skip => HeadLineModel::Skip,
        }
    }
}

/// What a line, taken with its line ending, means in the head of an
/// answer. The head ends at an empty line and where the stream ends; a
/// header is split at its first colon, and name and value stand without
/// the white space around them.
pub open spec fn head_line(line: Seq<char>) -> HeadLineModel {
    if line.len() == 0 || line == "\r\n"@ || line == "\n"@ {
        HeadLineModel::End
    } else if first_index(line, ':') < line.len() {
        HeadLineModel::Header(
            trim(line.take(first_index(line, ':'))),
            trim(line.skip(first_index(line, ':') + 1)),
        )
    } else {
        HeadLineModel::Skip
    }
}

/// Why a request is turned away before a peer is dialed.
#[derive(Debug, PartialEq, Eq)]
pub struct Rejection {
    /// The status of the answer.
    pub status: u16,
    /// The body of the answer.
    pub message: String,
}

/// What the proxy opens a WebSocket tunnel with: the handshake for the
/// service, then the request that asks the backend to upgrade.
pub open spec fn websocket_opening(service: Seq<char>, path: Seq<char>) -> Seq<u8> {
    handshake(service) + encode_utf8(upgrade_request(path))
}

/// The service that a path names, and the path that is left for it.
pub fn extract_service_and_path(path: &str) -> (r: Option<(String, String)>)
    ensures
        match r {
            Some((service, rest)) => service_and_path(path@) == Some((service@, rest@)),
            None => service_and_path(path@) is None,
        },
{
    let chars = chars_of(path);
    let n = chars.len();
    let mut a: usize = 0;
    assert(chars@.skip(0) =~= chars@);
    while a < n && chars[a] == '/'
        invariant
            a <= n == chars.len(),
            strip_slashes(chars@) == strip_slashes(chars@.skip(a as int)),
        decreases n - a,
    {
        proof {
            assert(chars@.skip(a as int).drop_first() =~= chars@.skip(a as int + 1));
        }
        a = a + 1;
    }
    let p = slice_subrange(chars.as_slice(), a, n);
    assert(p@ =~= chars@.skip(a as int));
    if p.len() == 0 {
        return None;
    }
    let k = find(p, '/');
    if k < p.len() {
        let service = slice_subrange(p, 0, k);
        let rest = slice_subrange(p, k, p.len());
        assert(service@ =~= p@.take(k as int));
        assert(rest@ =~= p@.skip(k as int));
        Some((string_of(service), string_of(rest)))
    } else {
        Some((string_of(p), String::from_str("/")))
    }
}

/// The service and the path of a request, or the answer that turns the
/// request away: 400 where the path names no service.
pub fn extract_service_info_or_error(path: &str) -> (r: Result<(String, String), Rejection>)
    ensures
        match r {
            Ok((service, rest)) => service_and_path(path@) == Some((service@, rest@)),
            Err(e) => service_and_path(path@) is None && e.status == 400 && e.message@
                == "Missing service name in path"@,
        },
{
    match extract_service_and_path(path) {
        Some(found) => Ok(found),
        None => Err(
            Rejection { status: 400, message: String::from_str("Missing service name in path") },
        ),
    }
}

/// The path that is forwarded: the path left for the service, with the
/// query of the request behind it.
pub fn forward_path(remaining: &str, query: Option<&str>) -> (full: String)
    ensures
        full@ == with_query(
            remaining@,
            match query {
                Some(q) => Some(q@),
                None => None,
            },
        ),
{
    let mut full = String::from_str(remaining);
    match query {
        Some(q) => {
            full.append("?");
            full.append(q);
        },
        None => {},
    }
    full
}

/// The request that asks the backend to upgrade to WebSocket on `path`.
pub fn ws_upgrade_request(path: &str) -> (request: String)
    ensures
        request@ == upgrade_request(path@),
{
    let mut request = String::from_str("GET ");
    request.append(path);
    request.append(
        " HTTP/1.1\r\nUpgrade: websocket\r\nConnection: Upgrade\r\nSec-WebSocket-Key: dGhlIHNhbXBsZSBub25jZQ==\r\n\r\n",
    );
    request
}

/// All that is written on the peer stream before WebSocket payload flows:
/// the handshake for `service`, then the upgrade request for `path`.
pub fn handle_ws(service: &str, path: &str) -> (r: Result<Vec<u8>, HandshakeError>)
    ensures
        match r {
            Ok(bytes) => valid_label(service@) && bytes@ == websocket_opening(service@, path@),
            Err(e) => !valid_label(service@) && e == HandshakeError::BadLabel,
        },
{
    let mut bytes = encode_handshake(service)?;
    let request = ws_upgrade_request(path);
    push_all(&mut bytes, request.as_str().as_bytes());
    Ok(bytes)
}

/// What goes onto the peer stream for a WebSocket message from the client:
/// its payload as it is, and nothing for a message without payload.
pub fn upstream_payload(data: Vec<u8>) -> (payload: Option<Vec<u8>>)
    ensures
        payload == if data@.len() == 0 {
            None
        } else {
            Some(data)
        },
{
    if data.len() == 0 {
        None
    } else {
        Some(data)
    }
}

/// The answer where the peer could not be reached or the handshake could
/// not be written: 502, with the reason.
pub fn bad_gateway(reason: &str) -> (r: Rejection)
    ensures
        r.status == 502,
        r.message@ == "Connect/Handshake error: "@ + reason@,
{
    let mut message = String::from_str("Connect/Handshake error: ");
    message.append(reason);
    Rejection { status: 502, message }
}

/// How `version` is written in a request line.
pub fn version_text(version: HttpVersion) -> (name: &'static str)
    ensures
        name@ == version_name(version),
{
    match version {
        HttpVersion::Http09 => "HTTP/0.9",
        HttpVersion::Http10 => "HTTP/1.0",
        HttpVersion::Http11 => "HTTP/1.1",
        HttpVersion::Http2 => "HTTP/2.0",
        HttpVersion::Http3 => "HTTP/3.0",
        HttpVersion::Other => "HTTP/1.1",
    }
}

/// The head of a request as text: request line, headers, empty line. A
/// header comes with its value as text, or with none where the value is no
/// text; such a header is left out.
pub fn request_head(
    method: &str,
    target: &str,
    version: HttpVersion,
    headers: &Vec<(String, Option<String>)>,
) -> (head: String)
    ensures
        head@ == request_head_text(method@, target@, version, headers.deep_view()),
{
    let mut head = String::from_str(method);
    head.append(" ");
    head.append(target);
    head.append(" ");
    head.append(version_text(version));
    head.append("\r\n");
    let ghost line = head@;
    let ghost all = headers.deep_view();
    let mut i: usize = 0;
    proof {
        assert(all.take(0) =~= Seq::<(Seq<char>, Option<Seq<char>>)>::empty());
        assert(line + Seq::<char>::empty() =~= line);
    }
    while i < headers.len()
        invariant
            i <= headers.len(),
            all == headers.deep_view(),
            head@ == line + header_lines(all.take(i as int)),
        decreases headers.len() - i,
    {
        let ghost seen = all.take(i as int);
        let ghost now = all.take(i as int + 1);
        proof {
            assert(now.drop_last() =~= seen);
            assert(now.last() == headers@[i as int].deep_view());
        }
        match &headers[i].1 {
            Some(value) => {
                head.append(headers[i].0.as_str());
                head.append(": ");
                head.append(value.as_str());
                head.append("\r\n");
                proof {
                    assert(head@ =~= line + (header_lines(seen) + (now.last().0 + ": "@ + value@
                        + "\r\n"@)));
                }
            },
            None => {
                proof {
                    assert(header_lines(seen) + Seq::<char>::empty() =~= header_lines(seen));
                }
            },
        }
        i = i + 1;
    }
    proof {
        assert(all.take(headers.len() as int) =~= all);
    }
    head.append("\r\n");
    proof {
        assert(head@ =~= request_head_text(method@, target@, version, all));
    }
    head
}

/// All that is written on the peer stream before the body of a request:
/// the handshake for `service`, then the head of the request.
pub fn proxy_handler(
    service: &str,
    method: &str,
    target: &str,
    version: HttpVersion,
    headers: &Vec<(String, Option<String>)>,
) -> (r: Result<Vec<u8>, HandshakeError>)
    ensures
        match r {
            Ok(bytes) => valid_label(service@) && bytes@ == handshake(service@) + encode_utf8(
                request_head_text(method@, target@, version, headers.deep_view()),
            ),
            Err(e) => !valid_label(service@) && e == HandshakeError::BadLabel,
        },
{
    let mut bytes = encode_handshake(service)?;
    let head = request_head(method, target, version, headers);
    push_all(&mut bytes, head.as_str().as_bytes());
    Ok(bytes)
}

/// A longer run of digits writes no smaller number than its beginning.
pub proof fn lemma_digits_value_grows(s: Seq<char>, k: int)
    requires
        0 <= k <= s.len(),
        all_digits(s),
    ensures
        digits_value(s.take(k)) <= digits_value(s),
    decreases s.len() - k,
{
    if k == s.len() {
        assert(s.take(k) =~= s);
    } else {
        lemma_digits_value_grows(s, k + 1);
        let longer = s.take(k + 1);
        assert(longer.drop_last() =~= s.take(k));
        assert(longer.last() == s[k]);
        assert('0' <= s[k] <= '9');
    }
}

/// The number that `s` writes, if it is one that 16 bits hold.
pub fn parse_u16(s: &[char]) -> (r: Option<u16>)
    ensures
        r == parsed_u16(s@),
{
    let start: usize = if s.len() > 0 && s[0] == '+' {
        1
    } else {
        0
    };
    let d = slice_subrange(s, start, s.len());
    proof {
        if start == 1 {
            assert(d@ =~= s@.drop_first());
        } else {
            assert(d@ =~= s@);
        }
    }
    if d.len() == 0 {
        return None;
    }
    let mut value: u32 = 0;
    let mut i: usize = 0;
    proof {
        assert(d@.take(0) =~= Seq::<char>::empty());
    }
    while i < d.len()
        invariant
            i <= d.len(),
            d@.len() > 0,
            parsed_u16(s@) == if !all_digits(d@) || digits_value(d@) > 65535 {
                None
            } else {
                Some(digits_value(d@) as u16)
            },
            all_digits(d@.take(i as int)),
            value == digits_value(d@.take(i as int)),
            value <= 65535,
        decreases d.len() - i,
    {
        let c = d[i];
        let ghost seen = d@.take(i as int);
        let ghost now = d@.take(i as int + 1);
        proof {
            assert(now.drop_last() =~= seen);
            assert(now.last() == c);
        }
        if !('0' <= c && c <= '9') {
            assert(d@[i as int] == c);
            return None;
        }
        proof {
            assert forall|j: int| 0 <= j < now.len() implies '0' <= #[trigger] now[j] <= '9' by {
                if j < i {
                    assert(seen[j] == now[j]);
                }
            }
        }
        let digit: u32 = (c as u32) - 48;
        value = value * 10 + digit;
        if value > 65535 {
            proof {
                if all_digits(d@) {
                    lemma_digits_value_grows(d@, i as int + 1);
                }
            }
            return None;
        }
        i = i + 1;
    }
    proof {
        assert(d@.take(d@.len() as int) =~= d@);
    }
    Some(value as u16)
}

/// The status that a status line gives, or nothing where the line has
/// fewer than two words. Whatever is no status code counts as 502.
pub fn response_status(line: &str) -> (status: Option<u16>)
    ensures
        status == status_of(line@),
{
    let chars = chars_of(line);
    let first = split_first_word(chars.as_slice());
    let second = split_first_word(first.1);
    if second.0.len() == 0 {
        return None;
    }
    let code = match parse_u16(second.0) {
        Some(c) => status_code(c),
        None => None,
    };
    match code {
        Some(c) => Some(c),
        None => Some(502),
    }
}

/// Reads one line of the head of an answer, taken with its line ending;
/// the empty text stands for the end of the stream.
pub fn parse_iroh_response(line: &str) -> (r: HeadLine)
    ensures
        r@ == head_line(line@),
{
    let chars = chars_of(line);
    let n = chars.len();
    proof {
        reveal_strlit("\r\n");
        reveal_strlit("\n");
    }
    if n == 0 || (n == 1 && chars[0] == '\n') || (n == 2 && chars[0] == '\r' && chars[1] == '\n') {
        proof {
            if n == 1 {
                assert(chars@ =~= "\n"@);
            }
            if n == 2 {
                assert(chars@ =~= "\r\n"@);
            }
        }
        return HeadLine::End;
    }
    let k = find(chars.as_slice(), ':');
    if k < n {
        let name = trimmed(slice_subrange(chars.as_slice(), 0, k));
        let value = trimmed(slice_subrange(chars.as_slice(), k + 1, n));
        proof {
            assert(chars@.subrange(0, k as int) =~= chars@.take(k as int));
            assert(chars@.subrange(k + 1, n as int) =~= chars@.skip(k + 1));
        }
        HeadLine::Header(string_of(name), string_of(value))
    } else {
        HeadLine::Skip
    }
}

} // verus!
