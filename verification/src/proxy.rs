//! The plain proxy: a client connection is classified by its peeked prefix
//! and becomes a session towards the peer, for the service that the client
//! asked for.
use vstd::prelude::*;
use vstd::utf8::*;
use crate::handshake::{valid_label, HandshakeError};
use crate::protocol_utils::{
    classified,
    classified_as,
    classify,
    extract_service_from_host,
    service_label,
    ClassificationError,
};
use crate::session::OutboundSession;

verus! {

/// Why a connection got no session.
#[derive(Clone, Copy, Debug, PartialEq, Eq, Structural)]
pub enum ProxyError {
    /// The prefix names no service.
    Classification(ClassificationError),
    /// The service's label fits no handshake.
    Handshake(HandshakeError),
}

/// The session that a label is due: one for that label where it fits a
/// handshake.
pub open spec fn session_for(label: Result<Seq<char>, ClassificationError>) -> Result<
    Seq<char>,
    ProxyError,
> {
    match label {
        Ok(l) => if valid_label(l) {
            Ok(l)
        } else {
            Err(ProxyError::Handshake(HandshakeError::BadLabel))
        },
        Err(e) => Err(ProxyError::Classification(e)),
    }
}

/// A session, as contracts see it: new, and for this label.
pub open spec fn fresh_session(r: Result<OutboundSession, ProxyError>) -> Result<
    Seq<char>,
    ProxyError,
> {
    match r {
        Ok(s) => Ok(s.label()),
        Err(e) => Err(e),
    }
}

/// Whether a result that holds a session holds a new one.
pub open spec fn unopened(r: Result<OutboundSession, ProxyError>) -> bool {
    r matches Ok(s) ==> s.wf() && !s.opened() && s.forwarded().len() == 0
}

/// A new session for the service `label`, if there is one.
pub fn session_from_label(label: Result<String, ClassificationError>) -> (r: Result<
    OutboundSession,
    ProxyError,
>)
    ensures
        fresh_session(r) == session_for(crate::text::text_of(label)),
        unopened(r),
{
    match label {
        Ok(l) => match OutboundSession::new(l.as_str()) {
            Ok(s) => Ok(s),
            Err(e) => Err(ProxyError::Handshake(e)),
        },
        Err(e) => Err(ProxyError::Classification(e)),
    }
}

/// Takes the peeked prefix of a client connection and opens a session to
/// the service that it names. Nothing has been written on the session.
pub fn proxy_connection(peek: &[u8]) -> (r: Result<OutboundSession, ProxyError>)
    ensures
        fresh_session(r) == session_for(classified(peek@)),
        valid_utf8(peek@) ==> fresh_session(r) == session_for(
            classified_as(peek@, decode_utf8(peek@)),
        ),
        unopened(r),
{
    session_from_label(classify(peek))
}

/// Opens a session to the service that the host `hostname` leads to.
pub fn tunnel_to_iroh(hostname: &str) -> (r: Result<OutboundSession, ProxyError>)
    ensures
        fresh_session(r) == session_for(service_label(hostname@)),
        unopened(r),
{
    session_from_label(extract_service_from_host(hostname))
}

} // verus!
