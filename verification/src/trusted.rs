//! What this library takes on trust. Each function here calls into the
//! standard library or into another crate; its contract is believed, not
//! proved. Where the result of a call takes more than a few lines to
//! describe, the contract gives the result a name and says no more of it
//! than that the same input gives the same result.
use vstd::prelude::*;
use vstd::utf8::*;

verus! {

/// What `String::from_utf8_lossy` makes of a byte sequence: its text, with
/// U+FFFD in place of each part that is no UTF-8.
pub uninterp spec fn utf8_lossy(bytes: Seq<u8>) -> Seq<char>;

/// Appends one character to a string (`String::push` of the standard library).
pub assume_specification[ String::push ](s: &mut String, c: char)
    ensures
        final(s)@ == old(s)@.push(c),
;

/// Calls `String::from_utf8_lossy` of the standard library. The contract
/// names the result, and says of well-formed UTF-8 that the result is the
/// text that the bytes encode.
#[verifier::external_body]
pub(crate) fn lossy_text(bytes: &[u8]) -> (text: String)
    ensures
        text@ == utf8_lossy(bytes@),
        valid_utf8(bytes@) ==> text@ == decode_utf8(bytes@),
{
    String::from_utf8_lossy(bytes).into_owned()
}

/// Calls `std::str::from_utf8` of the standard library: the text that the
/// bytes encode where they are well-formed UTF-8, nothing where they are not.
#[verifier::external_body]
pub(crate) fn utf8_text(bytes: &[u8]) -> (text: Option<String>)
    ensures
        valid_utf8(bytes@) <==> text is Some,
        text matches Some(t) ==> t@ == decode_utf8(bytes@),
{
    std::str::from_utf8(bytes).ok().map(|t| t.to_string())
}

/// Why `tls_parser` gave no record.
#[derive(Clone, Copy, Debug, PartialEq, Eq, Structural)]
pub enum TlsParseError {
    /// The input ends too early.
    Incomplete,
    /// The input is no TLS record.
    Invalid,
}

/// What `tls_parser::parse_tls_plaintext` finds in the record at the head
/// of `buf`: for each of its messages in order, the extension block of a
/// ClientHello that has one, and nothing for any other message.
pub uninterp spec fn tls_hello_extensions(buf: Seq<u8>) -> Result<
    Seq<Option<Seq<u8>>>,
    TlsParseError,
>;

/// What `tls_parser::parse_tls_extensions` finds in an extension block: for
/// each extension in order, the host names of a server-name extension, and
/// nothing for any other extension.
pub uninterp spec fn tls_server_names(block: Seq<u8>) -> Option<Seq<Option<Seq<Seq<u8>>>>>;

/// Calls `tls_parser::parse_tls_plaintext` and hands out, message by
/// message, the extension block of each ClientHello. The contract names the
/// result; it tells an input that is too short from one that is no record.
#[verifier::external_body]
pub(crate) fn parse_hello_extensions(buf: &[u8]) -> (r: Result<
    Vec<Option<Vec<u8>>>,
    TlsParseError,
>)
    ensures
        match r {
            Ok(blocks) => tls_hello_extensions(buf@) == Ok::<_, TlsParseError>(blocks.deep_view()),
            Err(e) => tls_hello_extensions(buf@) == Err::<Seq<Option<Seq<u8>>>, _>(e),
        },
{
    match tls_parser::parse_tls_plaintext(buf) {
        Ok((_, record)) => Ok(
            record.msg.into_iter().map(
                |m| match m {
                    tls_parser::TlsMessage::Handshake(
                        tls_parser::TlsMessageHandshake::ClientHello(hello),
                    ) => hello.ext.map(|block| block.to_vec()),
                    _ => None,
                },
            ).collect(),
        ),
        Err(tls_parser::Err::Incomplete(_)) => Err(TlsParseError::Incomplete),
        Err(_) => Err(TlsParseError::Invalid),
    }
}

/// Calls `tls_parser::parse_tls_extensions` and hands out, extension by
/// extension, the host names of each server-name extension. The contract
/// names the result.
#[verifier::external_body]
pub(crate) fn parse_server_names(block: &[u8]) -> (r: Option<Vec<Option<Vec<Vec<u8>>>>>)
    ensures
        r.deep_view() == tls_server_names(block@),
{
    match tls_parser::parse_tls_extensions(block) {
        Ok((_, extensions)) => Some(
            extensions.into_iter().map(
                |x| match x {
                    tls_parser::TlsExtension::SNI(names) => Some(
                        names.into_iter().map(|n| n.1.to_vec()).collect(),
                    ),
                    _ => None,
                },
            ).collect(),
        ),
        Err(_) => None,
    }
}

/// The string value of member `key` of the JSON object that `text` is, as
/// `serde_json` reads it: nothing where `text` is no JSON, no object, has no
/// such member, or the member is no string.
pub uninterp spec fn json_member(text: Seq<char>, key: Seq<char>) -> Option<Seq<char>>;

/// The compact JSON text of an object with the given members, all of them
/// strings, as `serde_json` writes it.
pub uninterp spec fn json_object(members: Seq<(Seq<char>, Seq<char>)>) -> Seq<char>;

/// Parses `text` with `serde_json::from_str` and looks `key` up with
/// `Value::get` and `Value::as_str`. The contract names the result.
#[verifier::external_body]
pub(crate) fn json_string_member(text: &str, key: &str) -> (value: Option<String>)
    ensures
        match value {
            Some(v) => json_member(text@, key@) == Some(v@),
            None => json_member(text@, key@) is None,
        },
{
    let parsed: serde_json::Value = serde_json::from_str(text).ok()?;
    parsed.get(key)?.as_str().map(|v| v.to_string())
}

/// Writes an object of string members with `serde_json`, by the `Display`
/// of `serde_json::Value`. The contract names the result.
#[verifier::external_body]
pub(crate) fn json_object_text(members: &Vec<(String, String)>) -> (text: String)
    ensures
        text@ == json_object(members.deep_view()),
{
    let object: serde_json::Map<String, serde_json::Value> = members.iter().map(
        |m| (m.0.clone(), serde_json::Value::String(m.1.clone())),
    ).collect();
    serde_json::Value::Object(object).to_string()
}

/// A hexadecimal digit, with small letters.
pub open spec fn is_lower_hex(c: char) -> bool {
    '0' <= c <= '9' || 'a' <= c <= 'f'
}

/// The written form of a random UUID: 32 hexadecimal digits with small
/// letters, in groups of 8, 4, 4, 4 and 12 with a hyphen between them. The
/// first digit of the third group is the version, 4, and the first digit
/// of the fourth group holds the variant, which makes it 8, 9, a or b.
pub open spec fn is_uuid_v4_text(s: Seq<char>) -> bool {
    &&& s.len() == 36
    &&& forall|i: int|
        #![trigger s[i]]
        0 <= i < 36 ==> if i == 8 || i == 13 || i == 18 || i == 23 {
            s[i] == '-'
        } else {
            is_lower_hex(s[i])
        }
    &&& s[14] == '4'
    &&& (s[19] == '8' || s[19] == '9' || s[19] == 'a' || s[19] == 'b')
}

/// Draws a random version-4 UUID with `uuid::Uuid::new_v4` and writes it
/// out by its `Display`. Which UUID comes is left open; the contract says
/// what holds of every one: the hyphenated form with small letters, with
/// the version and variant digits that `new_v4` sets.
#[verifier::external_body]
pub(crate) fn random_uuid() -> (id: String)
    ensures
        is_uuid_v4_text(id@),
{
    uuid::Uuid::new_v4().to_string()
}

/// Asks `http::StatusCode::from_u16`, through `axum`, whether `code` is a
/// status code: it is one from 100 to 999, and is then handed back.
#[verifier::external_body]
pub(crate) fn status_code(code: u16) -> (status: Option<u16>)
    ensures
        status == if 100 <= code <= 999 {
            Some(code)
        } else {
            None
        },
{
    axum::http::StatusCode::from_u16(code).ok().map(|s| s.as_u16())
}

} // verus!
