//! The protocol sniffer: from the first bytes of a client connection,
//! peeked and not consumed, to the label of the service that the client
//! wants. A TLS ClientHello names its host in the SNI extension, an HTTP
//! request in its `Host` header; the leftmost label of the host is the
//! service.
use vstd::prelude::*;
use vstd::slice::slice_subrange;
use vstd::utf8::*;
use crate::trusted::{
    lossy_text,
    parse_hello_extensions,
    parse_server_names,
    tls_hello_extensions,
    tls_server_names,
    utf8_lossy,
    utf8_text,
    TlsParseError,
};
use crate::text::{
    before,
    chars_of,
    find,
    first_index,
    has_prefix_ignore_case,
    lines,
    split_lines,
    starts_with_ignore_case,
    string_of,
    take_before,
    text_of,
    trim,
    trimmed,
    views,
};

verus! {

/// How many bytes of a connection are peeked before it is classified.
pub const PEEK_SIZE: usize = 4096;

/// Why a connection could not be classified.
#[derive(Clone, Copy, Debug, PartialEq, Eq, Structural)]
pub enum ClassificationError {
    /// The peek ends before the record does: more bytes are needed.
    ShortPeek,
    /// The record is no TLS, or its host name is no text.
    MalformedTls,
    /// Neither an SNI extension nor a `Host` header names a host.
    NoHostname,
    /// The host has a single label, so none of them is a service.
    NoService,
}

/// Whether a peeked prefix opens with a TLS handshake record: content
/// type 0x16, then the major version 0x03, then at least one more byte.
pub open spec fn tls_record_prefix(buf: Seq<u8>) -> bool {
    buf.len() >= 3 && buf[0] == 0x16 && buf[1] == 0x03
}

/// The first host name in a list of extensions: the first name of the
/// first server-name extension that has one.
pub open spec fn first_server_name(extensions: Seq<Option<Seq<Seq<u8>>>>) -> Option<Seq<u8>>
    decreases extensions.len(),
{
    if extensions.len() == 0 {
        None
    } else {
        match extensions[0] {
            Some(names) if names.len() > 0 => Some(names[0]),
            _ => first_server_name(extensions.drop_first()),
        }
    }
}

/// The host name that an extension block gives.
pub open spec fn block_server_name(block: Option<Seq<u8>>) -> Option<Seq<u8>> {
    match block {
        Some(b) => match tls_server_names(b) {
            Some(extensions) => first_server_name(extensions),
            None => None,
        },
        None => None,
    }
}

/// The host name that the messages of a record give: that of the first
/// extension block that gives one.
pub open spec fn record_server_name(blocks: Seq<Option<Seq<u8>>>) -> Option<Seq<u8>>
    decreases blocks.len(),
{
    if blocks.len() == 0 {
        None
    } else if block_server_name(blocks[0]) is Some {
        block_server_name(blocks[0])
    } else {
        record_server_name(blocks.drop_first())
    }
}

/// The host that a TLS client names in the record at the head of `buf`.
pub open spec fn sni_host(buf: Seq<u8>) -> Result<Seq<char>, ClassificationError> {
    match tls_hello_extensions(buf) {
        Err(TlsParseError::Incomplete) => Err(ClassificationError::ShortPeek),
        Err(TlsParseError::Invalid) => Err(ClassificationError::MalformedTls),
        Ok(blocks) => match record_server_name(blocks) {
            None => Err(ClassificationError::NoHostname),
            Some(name) => if valid_utf8(name) {
                Ok(decode_utf8(name))
            } else {
                Err(ClassificationError::MalformedTls)
            },
        },
    }
}

/// A header line that names the host: `Host:` in any case, and something
/// behind it.
pub open spec fn is_host_line(line: Seq<char>) -> bool {
    line.len() > 5 && has_prefix_ignore_case(line, "host:"@)
}

/// The host that a host line names: what follows the colon, without the
/// white space around it and without a port.
pub open spec fn host_value(line: Seq<char>) -> Seq<char> {
    before(trim(line.skip(5)), ':')
}

/// The host of the first host line among `ls`.
pub open spec fn first_host(ls: Seq<Seq<char>>) -> Option<Seq<char>>
    decreases ls.len(),
{
    if ls.len() == 0 {
        None
    } else if is_host_line(ls[0]) {
        Some(host_value(ls[0]))
    } else {
        first_host(ls.drop_first())
    }
}

/// The host that an HTTP request names.
pub open spec fn http_host(text: Seq<char>) -> Result<Seq<char>, ClassificationError> {
    match first_host(lines(text)) {
        Some(host) => Ok(host),
        None => Err(ClassificationError::NoHostname),
    }
}

/// The service that a host leads to: its leftmost label, where the host,
/// taken without a port, has more than one label.
pub open spec fn service_label(host: Seq<char>) -> Result<Seq<char>, ClassificationError> {
    let name = before(host, ':');
    if first_index(name, '.') < name.len() {
        Ok(before(name, '.'))
    } else {
        Err(ClassificationError::NoService)
    }
}

/// The service that a peeked prefix asks for, where `text` is the prefix
/// read as text: the leftmost label of the host that the ClientHello names,
/// if the prefix is TLS, and of the host that the request names, if not.
pub open spec fn classified_as(peek: Seq<u8>, text: Seq<char>) -> Result<
    Seq<char>,
    ClassificationError,
> {
    if peek.len() == 0 {
        Err(ClassificationError::ShortPeek)
    } else {
        let host = if tls_record_prefix(peek) {
            sni_host(peek)
        } else {
            http_host(text)
        };
        match host {
            Ok(h) => service_label(h),
            Err(e) => Err(e),
        }
    }
}

/// The service that a peeked prefix asks for.
pub open spec fn classified(peek: Seq<u8>) -> Result<Seq<char>, ClassificationError> {
    classified_as(peek, utf8_lossy(peek))
}

/// Tells a TLS handshake record from anything else by its first bytes.
pub fn is_tls_client_hello(buf: &[u8]) -> (tls: bool)
    ensures
        tls == tls_record_prefix(buf@),
{
    buf.len() >= 3 && buf[0] == 0x16 && buf[1] == 0x03
}

/// The first host name that a list of parsed extensions holds.
pub fn server_name_in(extensions: &Vec<Option<Vec<Vec<u8>>>>) -> (name: Option<&Vec<u8>>)
    ensures
        name.deep_view() == first_server_name(extensions.deep_view()),
{
    let ghost all = extensions.deep_view();
    let mut i: usize = 0;
    assert(all.skip(0) =~= all);
    while i < extensions.len()
        invariant
            i <= extensions.len(),
            all == extensions.deep_view(),
            first_server_name(all) == first_server_name(all.skip(i as int)),
        decreases extensions.len() - i,
    {
        proof {
            assert(all.skip(i as int).drop_first() =~= all.skip(i as int + 1));
            assert(all.skip(i as int)[0] == extensions@[i as int].deep_view());
        }
        match &extensions[i] {
            Some(names) => {
                if names.len() > 0 {
                    proof {
                        assert(names.deep_view()[0] == names@[0].deep_view());
                    }
                    return Some(&names[0]);
                }
            },
            None => {},
        }
        i = i + 1;
    }
    None
}

/// The host name of a TLS ClientHello, read from its SNI extension.
pub fn extract_sni(buf: &[u8]) -> (r: Result<String, ClassificationError>)
    ensures
        text_of(r) == sni_host(buf@),
{
    let blocks = match parse_hello_extensions(buf) {
        Ok(blocks) => blocks,
        Err(TlsParseError::Incomplete) => {
            return Err(ClassificationError::ShortPeek);
        },
        Err(TlsParseError::Invalid) => {
            return Err(ClassificationError::MalformedTls);
        },
    };
    let ghost all = blocks.deep_view();
    let mut i: usize = 0;
    assert(all.skip(0) =~= all);
    while i < blocks.len()
        invariant
            i <= blocks.len(),
            all == blocks.deep_view(),
            tls_hello_extensions(buf@) == Ok::<_, TlsParseError>(all),
            record_server_name(all) == record_server_name(all.skip(i as int)),
        decreases blocks.len() - i,
    {
        proof {
            assert(all.skip(i as int).drop_first() =~= all.skip(i as int + 1));
            assert(all.skip(i as int)[0] == blocks@[i as int].deep_view());
        }
        match &blocks[i] {
            Some(block) => {
                assert(block.deep_view() =~= block@);
                match parse_server_names(block.as_slice()) {
                    Some(extensions) => {
                        match server_name_in(&extensions) {
                            Some(name) => {
                                assert(name.deep_view() =~= name@);
                                return match utf8_text(name.as_slice()) {
                                    Some(host) => Ok(host),
                                    None => Err(ClassificationError::MalformedTls),
                                };
                            },
                            None => {},
                        }
                    },
                    None => {},
                }
            },
            None => {},
        }
        i = i + 1;
    }
    Err(ClassificationError::NoHostname)
}

/// The host of the first `Host` header in the lines of `text`.
pub fn host_from_text(text: &str) -> (r: Result<String, ClassificationError>)
    ensures
        text_of(r) == http_host(text@),
{
    let chars = chars_of(text);
    let tag = chars_of("host:");
    let ls = split_lines(chars.as_slice());
    let ghost all = views(ls@);
    let mut i: usize = 0;
    assert(all.skip(0) =~= all);
    while i < ls.len()
        invariant
            i <= ls.len(),
            all == views(ls@),
            all == lines(text@),
            tag@ == "host:"@,
            first_host(all) == first_host(all.skip(i as int)),
        decreases ls.len() - i,
    {
        let line = ls[i];
        proof {
            assert(all.skip(i as int).drop_first() =~= all.skip(i as int + 1));
            assert(all.skip(i as int)[0] == line@);
        }
        if line.len() > 5 && starts_with_ignore_case(line, tag.as_slice()) {
            let rest = slice_subrange(line, 5, line.len());
            assert(rest@ =~= line@.skip(5));
            let host = take_before(trimmed(rest), ':');
            return Ok(string_of(host));
        }
        i = i + 1;
    }
    Err(ClassificationError::NoHostname)
}

/// The host that an HTTP request names in its `Host` header, without the
/// port. The bytes are read as text, with U+FFFD wherever they are no UTF-8.
pub fn extract_host_from_http(buf: &[u8]) -> (r: Result<String, ClassificationError>)
    ensures
        text_of(r) == http_host(utf8_lossy(buf@)),
        valid_utf8(buf@) ==> text_of(r) == http_host(decode_utf8(buf@)),
{
    let text = lossy_text(buf);
    host_from_text(text.as_str())
}

/// The service that a host leads to: the leftmost label of the host.
pub fn extract_service_from_host(host: &str) -> (r: Result<String, ClassificationError>)
    ensures
        text_of(r) == service_label(host@),
{
    let chars = chars_of(host);
    let name = take_before(chars.as_slice(), ':');
    let dot = find(name, '.');
    if dot < name.len() {
        Ok(string_of(slice_subrange(name, 0, dot)))
    } else {
        Err(ClassificationError::NoService)
    }
}

/// Classifies a connection by its peeked prefix and gives the label of the
/// service that it asks for. The result depends on the bytes alone.
pub fn classify(peek: &[u8]) -> (r: Result<String, ClassificationError>)
    ensures
        text_of(r) == classified(peek@),
        valid_utf8(peek@) ==> text_of(r) == classified_as(peek@, decode_utf8(peek@)),
{
    if peek.len() == 0 {
        return Err(ClassificationError::ShortPeek);
    }
    let host = if is_tls_client_hello(peek) {
        extract_sni(peek)
    } else {
        extract_host_from_http(peek)
    };
    match host {
        Ok(h) => extract_service_from_host(h.as_str()),
        Err(e) => Err(e),
    }
}

/// The classifier is a function of the bytes: whatever two calls on the
/// same prefix hand out, they hand out the same label or the same error.
pub proof fn law_classifier_idempotence(
    peek: Seq<u8>,
    first: Result<String, ClassificationError>,
    second: Result<String, ClassificationError>,
)
    requires
        text_of(first) == classified(peek),
        text_of(second) == classified(peek),
    ensures
        text_of(first) == text_of(second),
        first is Ok <==> second is Ok,
{
}

} // verus!
