//! The handlers that serve a node's services, one for each application
//! protocol that the node knows.
use vstd::prelude::*;
use vstd::string::StringExecFns;
use crate::catalog::ServiceRpc;
use crate::text::same_text;

verus! {

/// The application protocols that a node knows.
#[derive(Clone, Copy, Debug, PartialEq, Eq, Structural)]
pub enum ProtocolKind {
    Http,
}

/// Why a handler could not take its services.
#[derive(Debug)]
pub struct SetupError {
    pub message: String,
}

/// What serves the services of one application protocol.
pub trait ProtocolHandler {
    /// The tag of the protocol, as service records write it.
    fn protocol_id(&self) -> String;

    /// Hands the handler the services that it is to serve.
    fn setup(&self, services: &Vec<ServiceRpc>) -> Result<(), SetupError>;
}

/// The handler for HTTP.
#[derive(Clone, Copy, Debug)]
pub struct HttpHandler;

impl HttpHandler {
    /// A handler for HTTP.
    pub fn new() -> Self {
        HttpHandler
    }
}

impl ProtocolHandler for HttpHandler {
    /// `http`.
    fn protocol_id(&self) -> (id: String)
        ensures
            id@ == "http"@,
    {
        String::from_str("http")
    }

    /// Takes any services.
    fn setup(&self, services: &Vec<ServiceRpc>) -> (r: Result<(), SetupError>)
        ensures
            r is Ok,
    {
        Ok(())
    }
}

/// The protocol that a tag names, among those that have a handler.
pub open spec fn kind_of(tag: Seq<char>) -> Option<ProtocolKind> {
    if tag == "http"@ {
        Some(ProtocolKind::Http)
    } else {
        None
    }
}

/// The protocol that `tag` names, if a handler exists for it.
pub fn protocol_kind(tag: &str) -> (kind: Option<ProtocolKind>)
    ensures
        kind == kind_of(tag@),
{
    if same_text(tag, "http") {
        Some(ProtocolKind::Http)
    } else {
        None
    }
}

} // verus!
