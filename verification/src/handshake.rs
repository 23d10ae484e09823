//! The handshake that opens every peer stream: one byte with the length
//! of the service label, then the label. Nothing frames what follows.
use vstd::prelude::*;
use vstd::slice::slice_subrange;
use vstd::utf8::*;
use crate::trusted::utf8_text;

verus! {

/// The application protocol under which peers open their streams.
pub const SYNEROYM_ALPN: [u8; 12] = [115, 121, 110, 101, 114, 111, 121, 109, 47, 49, 46, 48];

/// The longest label, in bytes, that the length byte can announce.
pub const MAX_LABEL_LEN: usize = 255;

/// Why a handshake was not understood.
#[derive(Clone, Copy, Debug, PartialEq, Eq, Structural)]
pub enum HandshakeError {
    /// The stream ended before the announced label was complete.
    ShortRead,
    /// The label is empty, too long for the length byte, or no UTF-8.
    BadLabel,
    /// The catalog has no service of that name.
    UnknownService,
}

/// A label fits a handshake when its UTF-8 form has 1 to 255 bytes.
pub open spec fn valid_label(label: Seq<char>) -> bool {
    1 <= encode_utf8(label).len() <= 255
}

/// The handshake for `label`: the length of its UTF-8 form, then that form.
pub open spec fn handshake(label: Seq<char>) -> Seq<u8> {
    seq![encode_utf8(label).len() as u8] + encode_utf8(label)
}

/// What a listener reads from the bytes that open a stream: the label and
/// how many bytes the handshake took.
pub open spec fn decoded(bytes: Seq<u8>) -> Result<(Seq<char>, int), HandshakeError> {
    if bytes.len() == 0 {
        Err(HandshakeError::ShortRead)
    } else if bytes[0] == 0 {
        Err(HandshakeError::BadLabel)
    } else if bytes.len() < 1 + bytes[0] {
        Err(HandshakeError::ShortRead)
    } else if !valid_utf8(bytes.subrange(1, 1 + bytes[0])) {
        Err(HandshakeError::BadLabel)
    } else {
        Ok((decode_utf8(bytes.subrange(1, 1 + bytes[0])), 1 + bytes[0]))
    }
}

/// The bytes that a listener sends before it closes a stream whose
/// service it does not run.
pub open spec fn not_found_reply() -> Seq<u8> {
    encode_utf8("HTTP/1.1 404 Not Found\r\n\r\n"@)
}

/// Appends `more` to `out`.
pub fn push_all(out: &mut Vec<u8>, more: &[u8])
    ensures
        final(out)@ == old(out)@ + more@,
{
    let mut i: usize = 0;
    while i < more.len()
        invariant
            i <= more.len(),
            out@ == old(out)@ + more@.take(i as int),
        decreases more.len() - i,
    {
        out.push(more[i]);
        i = i + 1;
        assert(out@ =~= old(out)@ + more@.take(i as int));
    }
    assert(more@.take(more@.len() as int) =~= more@);
}

/// The handshake that asks for the service `label`. A label whose UTF-8
/// form is empty or longer than 255 bytes has none.
pub fn encode_handshake(label: &str) -> (r: Result<Vec<u8>, HandshakeError>)
    ensures
        match r {
            Ok(bytes) => valid_label(label@) && bytes@ == handshake(label@),
            Err(e) => !valid_label(label@) && e == HandshakeError::BadLabel,
        },
{
    let name = label.as_bytes();
    if name.len() == 0 || name.len() > MAX_LABEL_LEN {
        return Err(HandshakeError::BadLabel);
    }
    let mut bytes: Vec<u8> = Vec::new();
    bytes.push(name.len() as u8);
    push_all(&mut bytes, name);
    Ok(bytes)
}

/// Reads the handshake at the beginning of `bytes`: the label, and the
/// number of bytes after which the payload begins.
pub fn decode_handshake(bytes: &[u8]) -> (r: Result<(String, usize), HandshakeError>)
    ensures
        match r {
            Ok((label, used)) => decoded(bytes@) == Ok::<_, HandshakeError>(
                (label@, used as int),
            ),
            Err(e) => decoded(bytes@) == Err::<(Seq<char>, int), _>(e),
        },
{
    if bytes.len() == 0 {
        return Err(HandshakeError::ShortRead);
    }
    let len: usize = bytes[0] as usize;
    if len == 0 {
        return Err(HandshakeError::BadLabel);
    }
    if bytes.len() < 1 + len {
        return Err(HandshakeError::ShortRead);
    }
    match utf8_text(slice_subrange(bytes, 1, 1 + len)) {
        Some(label) => Ok((label, 1 + len)),
        None => Err(HandshakeError::BadLabel),
    }
}

/// The reply to a handshake for a service that is not there.
pub fn not_found_bytes() -> (reply: Vec<u8>)
    ensures
        reply@ == not_found_reply(),
{
    let mut reply: Vec<u8> = Vec::new();
    push_all(&mut reply, "HTTP/1.1 404 Not Found\r\n\r\n".as_bytes());
    reply
}

/// A listener reads back the label that a dialer wrote: the handshake of
/// a valid label decodes to that label, and all of it is used.
pub proof fn law_name_round_trip(label: Seq<char>)
    requires
        valid_label(label),
    ensures
        decoded(handshake(label)) == Ok::<_, HandshakeError>(
            (label, 1 + encode_utf8(label).len() as int),
        ),
{
    let name = encode_utf8(label);
    let bytes = handshake(label);
    assert(bytes[0] == name.len());
    assert(bytes.subrange(1, 1 + name.len() as int) =~= name);
    encode_utf8_valid_utf8(label);
    encode_utf8_decode_utf8(label);
}

/// A label of printable ASCII, as the wire format expects.
pub open spec fn printable_ascii(label: Seq<char>) -> bool {
    forall|i: int| 0 <= i < label.len() ==> ' ' <= #[trigger] label[i] <= '~'
}

/// A label of 1 to 255 printable ASCII characters makes a handshake of one
/// byte more than its length, from which a listener reads the same label.
pub proof fn law_ascii_name_round_trip(label: Seq<char>)
    requires
        1 <= label.len() <= 255,
        printable_ascii(label),
    ensures
        valid_label(label),
        handshake(label).len() == 1 + label.len(),
        handshake(label)[0] == label.len(),
        forall|i: int| 0 <= i < label.len() ==> handshake(label)[1 + i] == label[i] as u8,
        decoded(handshake(label)) == Ok::<_, HandshakeError>((label, 1 + label.len() as int)),
{
    assert(is_ascii_chars(label)) by {
        assert forall|i: int| 0 <= i < label.len() implies '\0' <= #[trigger] label[i]
            <= '\u{7f}' by {
            assert(' ' <= label[i] <= '~');
        }
    }
    is_ascii_chars_encode_utf8(label);
    law_name_round_trip(label);
}

} // verus!
