//! The two ends of a tunnel. An outbound session hands out what is to be
//! written on the peer stream, the handshake first. An inbound session
//! decides, event by event, what a listener does with an accepted stream.
use vstd::prelude::*;
use vstd::utf8::*;
use crate::catalog::Catalog;
use crate::handshake::{
    encode_handshake,
    handshake,
    not_found_bytes,
    not_found_reply,
    push_all,
    valid_label,
    HandshakeError,
};
use crate::trusted::utf8_text;

verus! {

/// One client connection on its way to a peer. It owns the order of what
/// goes onto the peer stream.
pub struct OutboundSession {
    opening: Vec<u8>,
    opened: bool,
    label: Ghost<Seq<char>>,
    forwarded: Ghost<Seq<u8>>,
}

impl OutboundSession {
    /// The service that the session asks for.
    pub closed spec fn label(&self) -> Seq<char> {
        self.label@
    }

    /// Whether the handshake has been handed out.
    pub closed spec fn opened(&self) -> bool {
        self.opened
    }

    /// All the client's bytes that the session has taken in, in order.
    pub closed spec fn forwarded(&self) -> Seq<u8> {
        self.forwarded@
    }

    /// All that the session has handed out for the peer stream, in order:
    /// nothing before the handshake, then the handshake and, behind it, the
    /// client's bytes.
    pub open spec fn written(&self) -> Seq<u8> {
        if self.opened() {
            handshake(self.label()) + self.forwarded()
        } else {
            Seq::empty()
        }
    }

    /// The session's label fits a handshake, and before the handshake no
    /// byte of the client is taken in.
    #[verifier::type_invariant]
    pub closed spec fn wf(&self) -> bool {
        &&& valid_label(self.label@)
        &&& self.opening@ == handshake(self.label@)
        &&& !self.opened ==> self.forwarded@ == Seq::<u8>::empty()
    }

    /// A session for the service `label`, with nothing written yet.
    pub fn new(label: &str) -> (r: Result<Self, HandshakeError>)
        ensures
            match r {
                Ok(s) => {
                    &&& valid_label(label@)
                    &&& s.wf()
                    &&& s.label() == label@
                    &&& !s.opened()
                    &&& s.forwarded() == Seq::<u8>::empty()
                },
                Err(e) => !valid_label(label@) && e == HandshakeError::BadLabel,
            },
    {
        match encode_handshake(label) {
            Ok(opening) => Ok(
                OutboundSession {
                    opening,
                    opened: false,
                    label: Ghost(label@),
                    forwarded: Ghost(Seq::empty()),
                },
            ),
            Err(e) => Err(e),
        }
    }

    /// What to write on the peer stream once it is open: the handshake,
    /// and nothing if it was handed out before.
    pub fn open(&mut self) -> (out: Vec<u8>)
        ensures
            final(self).wf(),
            final(self).opened(),
            final(self).label() == old(self).label(),
            final(self).forwarded() == old(self).forwarded(),
            final(self).written() == old(self).written() + out@,
            out@ == if old(self).opened() {
                Seq::<u8>::empty()
            } else {
                handshake(old(self).label())
            },
    {
        proof {
            use_type_invariant(&*self);
        }
        let mut out: Vec<u8> = Vec::new();
        if !self.opened {
            push_all(&mut out, self.opening.as_slice());
            self.opened = true;
            proof {
                assert(out@ =~= handshake(self.label@));
                assert(self.written() =~= old(self).written() + out@);
            }
        } else {
            assert(self.written() + out@ =~= self.written());
        }
        out
    }

    /// What to write on the peer stream for the bytes `client` that came
    /// from the client: those bytes, behind the handshake if that is still
    /// to be written.
    pub fn forward(&mut self, client: &[u8]) -> (out: Vec<u8>)
        ensures
            final(self).wf(),
            final(self).opened(),
            final(self).label() == old(self).label(),
            final(self).forwarded() == old(self).forwarded() + client@,
            final(self).written() == old(self).written() + out@,
            out@ == if old(self).opened() {
                client@
            } else {
                handshake(old(self).label()) + client@
            },
    {
        let mut out = self.open();
        let ghost before = self.written();
        push_all(&mut out, client);
        proof {
            self.forwarded = Ghost(self.forwarded@ + client@);
            assert(self.written() =~= before + client@);
            assert(old(self).written() + out@ =~= before + client@);
            assert(Seq::<u8>::empty() + client@ =~= client@);
        }
        out
    }
}

/// Handshake before payload: whatever a session has written begins with
/// the whole handshake of its label, and what follows the handshake is what
/// the client sent, byte for byte.
pub proof fn law_handshake_first(s: OutboundSession)
    requires
        s.wf(),
    ensures
        valid_label(s.label()),
        !s.opened() ==> s.written().len() == 0 && s.forwarded().len() == 0,
        s.opened() ==> s.written() == handshake(s.label()) + s.forwarded(),
        s.written().len() > 0 ==> {
            &&& s.written().len() >= handshake(s.label()).len()
            &&& s.written().take(handshake(s.label()).len() as int) == handshake(s.label())
            &&& s.written().skip(handshake(s.label()).len() as int) == s.forwarded()
        },
{
    if s.opened() {
        let h = handshake(s.label());
        assert((h + s.forwarded()).take(h.len() as int) =~= h);
        assert((h + s.forwarded()).skip(h.len() as int) =~= s.forwarded());
    }
}

/// Where an accepted peer stream stands.
#[derive(Clone, Copy, Debug, PartialEq, Eq, Structural)]
pub enum InboundState {
    /// Nothing read yet: the length byte is awaited.
    AwaitLength,
    /// The length is known: the label is awaited.
    AwaitLabel { len: u8 },
    /// The service is known: its backend is being dialed.
    Dialing,
    /// Bytes flow between the stream and the backend.
    Tunneling,
    /// The session is over.
    Closed,
}

/// What happened on an accepted peer stream.
#[derive(Debug, PartialEq, Eq)]
pub enum InboundEvent {
    /// The read that was asked for returned these bytes.
    Read(Vec<u8>),
    /// The read that was asked for failed, or the stream ended.
    ReadFailed,
    /// The backend took the connection.
    Connected,
    /// The backend could not be reached.
    ConnectFailed,
    /// Both directions of the tunnel have ended.
    Finished,
}

/// What a listener is to do next.
#[derive(Debug, PartialEq, Eq)]
pub enum InboundAction {
    /// Read exactly this many bytes from the stream.
    Read(usize),
    /// Connect to the backend at this address.
    Dial(String),
    /// Write these bytes to the stream and close its sending side.
    Reply(Vec<u8>),
    /// Copy bytes both ways until both directions end.
    Tunnel,
    /// Give the stream up for this reason.
    Abort(HandshakeError),
    /// Wait for the peer to close, then drop the stream.
    Close,
}

/// An event, as contracts see it.
pub enum EventModel {
    Read(Seq<u8>),
    ReadFailed,
    Connected,
    ConnectFailed,
    Finished,
}

/// An action, as contracts see it.
pub enum ActionModel {
    Read(nat),
    Dial(Seq<char>),
    Reply(Seq<u8>),
    Tunnel,
    Abort(HandshakeError),
    Close,
}

impl View for InboundEvent {
    type V = EventModel;

    open spec fn view(&self) -> EventModel {
        match self {
            InboundEvent::Read(bytes) => EventModel::Read(bytes@),
            InboundEvent::ReadFailed => EventModel::ReadFailed,
            InboundEvent::Connected => EventModel::Connected,
            InboundEvent::ConnectFailed => EventModel::ConnectFailed,
            InboundEvent::Finished => EventModel::Finished,
        }
    }
}

impl View for InboundAction {
    type V = ActionModel;

    open spec fn view(&self) -> ActionModel {
        match self {
            InboundAction::Read(n) => ActionModel::Read(*n as nat),
            InboundAction::Dial(addr) => ActionModel::Dial(addr@),
            InboundAction::Reply(bytes) => ActionModel::Reply(bytes@),
            InboundAction::Tunnel => ActionModel::Tunnel,
            InboundAction::Abort(e) => ActionModel::Abort(*e),
            InboundAction::Close => ActionModel::Close,
        }
    }
}

/// The backend that a label leads to: that of the label's record in the
/// catalog.
pub open spec fn backend_of(label: Seq<char>, catalog: Catalog) -> Result<
    Seq<char>,
    HandshakeError,
> {
    match catalog.get(label) {
        Some(record) => Ok(record.backend_addr@),
        None => Err(HandshakeError::UnknownService),
    }
}

/// What a listener does with a label that has come in whole: it dials the
/// backend of the service, or answers that there is none.
pub open spec fn on_label(name: Seq<u8>, catalog: Catalog) -> (InboundState, ActionModel) {
    if !valid_utf8(name) {
        (InboundState::Closed, ActionModel::Abort(HandshakeError::BadLabel))
    } else {
        match backend_of(decode_utf8(name), catalog) {
            Ok(addr) => (InboundState::Dialing, ActionModel::Dial(addr)),
            Err(_) => (InboundState::Closed, ActionModel::Reply(not_found_reply())),
        }
    }
}

/// The listener's rule: the state after `event`, and what to do.
pub open spec fn inbound_step(state: InboundState, event: EventModel, catalog: Catalog) -> (
    InboundState,
    ActionModel,
) {
    match (state, event) {
        (InboundState::AwaitLength, EventModel::Read(bytes)) => {
            if bytes.len() != 1 {
                (InboundState::Closed, ActionModel::Abort(HandshakeError::ShortRead))
            } else if bytes[0] == 0 {
                (InboundState::Closed, ActionModel::Abort(HandshakeError::BadLabel))
            } else {
                (InboundState::AwaitLabel { len: bytes[0] }, ActionModel::Read(bytes[0] as nat))
            }
        },
        (InboundState::AwaitLabel { len }, EventModel::Read(name)) => {
            if name.len() != len {
                (InboundState::Closed, ActionModel::Abort(HandshakeError::ShortRead))
            } else {
                on_label(name, catalog)
            }
        },
        (InboundState::AwaitLength, EventModel::ReadFailed) => (
            InboundState::Closed,
            ActionModel::Abort(HandshakeError::ShortRead),
        ),
        (InboundState::AwaitLabel { len }, EventModel::ReadFailed) => (
            InboundState::Closed,
            ActionModel::Abort(HandshakeError::ShortRead),
        ),
        (InboundState::Dialing, EventModel::Connected) => (
            InboundState::Tunneling,
            ActionModel::Tunnel,
        ),
        (InboundState::Dialing, EventModel::ConnectFailed) => (
            InboundState::Closed,
            ActionModel::Reply(not_found_reply()),
        ),
        _ => (InboundState::Closed, ActionModel::Close),
    }
}

/// The address of the backend that serves `label`, and `UnknownService`
/// where the catalog has no such service.
pub fn backend_for(label: &str, catalog: &Catalog) -> (r: Result<String, HandshakeError>)
    ensures
        crate::text::text_of(r) == backend_of(label@, *catalog),
{
    match catalog.lookup(label) {
        Some(record) => Ok(record.backend_addr.clone()),
        None => Err(HandshakeError::UnknownService),
    }
}

/// How a listener begins with an accepted stream: it asks for the length byte.
pub fn inbound_start() -> (r: (InboundState, InboundAction))
    ensures
        r.0 == InboundState::AwaitLength,
        r.1@ == ActionModel::Read(1),
{
    (InboundState::AwaitLength, InboundAction::Read(1))
}

/// Takes one event of an accepted stream and says what the listener does
/// next. The catalog decides which backend a label leads to.
pub fn step(state: InboundState, event: InboundEvent, catalog: &Catalog) -> (r: (
    InboundState,
    InboundAction,
))
    ensures
        (r.0, r.1@) == inbound_step(state, event@, *catalog),
{
    match state {
        InboundState::AwaitLength => match event {
            InboundEvent::Read(bytes) => {
                if bytes.len() != 1 {
                    (InboundState::Closed, InboundAction::Abort(HandshakeError::ShortRead))
                } else if bytes[0] == 0 {
                    (InboundState::Closed, InboundAction::Abort(HandshakeError::BadLabel))
                } else {
                    let len: u8 = bytes[0];
                    (InboundState::AwaitLabel { len }, InboundAction::Read(len as usize))
                }
            },
            InboundEvent::ReadFailed => (
                InboundState::Closed,
                InboundAction::Abort(HandshakeError::ShortRead),
            ),
            _ => (InboundState::Closed, InboundAction::Close),
        },
        InboundState::AwaitLabel { len } => match event {
            InboundEvent::Read(name) => {
                if name.len() != len as usize {
                    (InboundState::Closed, InboundAction::Abort(HandshakeError::ShortRead))
                } else {
                    match utf8_text(name.as_slice()) {
                        None => (
                            InboundState::Closed,
                            InboundAction::Abort(HandshakeError::BadLabel),
                        ),
                        Some(label) => match backend_for(label.as_str(), catalog) {
                            Ok(addr) => (InboundState::Dialing, InboundAction::Dial(addr)),
                            Err(_) => (InboundState::Closed, InboundAction::Reply(not_found_bytes())),
                        },
                    }
                }
            },
            InboundEvent::ReadFailed => (
                InboundState::Closed,
                InboundAction::Abort(HandshakeError::ShortRead),
            ),
            _ => (InboundState::Closed, InboundAction::Close),
        },
        InboundState::Dialing => match event {
            InboundEvent::Connected => (InboundState::Tunneling, InboundAction::Tunnel),
            InboundEvent::ConnectFailed => (
                InboundState::Closed,
                InboundAction::Reply(not_found_bytes()),
            ),
            _ => (InboundState::Closed, InboundAction::Close),
        },
        _ => (InboundState::Closed, InboundAction::Close),
    }
}

/// Unknown service: a label that has come in whole and that the catalog
/// does not hold is answered with the fixed reply, and the session ends.
pub proof fn law_unknown_service_reply(len: u8, name: Seq<u8>, catalog: Catalog)
    requires
        name.len() == len,
        valid_utf8(name),
        catalog.get(decode_utf8(name)) is None,
    ensures
        inbound_step(InboundState::AwaitLabel { len }, EventModel::Read(name), catalog) == (
            InboundState::Closed,
            ActionModel::Reply(not_found_reply()),
        ),
{
}

/// No backend is dialed before the label has come in whole and the catalog
/// holds it: a `Dial` is the answer to a label of the announced length, and
/// it names the backend of that label's record.
pub proof fn law_dial_after_match(
    state: InboundState,
    event: EventModel,
    catalog: Catalog,
    addr: Seq<char>,
)
    requires
        inbound_step(state, event, catalog).1 == ActionModel::Dial(addr),
    ensures
        ({
            &&& state matches InboundState::AwaitLabel { len }
            &&& event matches EventModel::Read(name)
            &&& name.len() == len
            &&& valid_utf8(name)
            &&& catalog.get(decode_utf8(name)) matches Some(record)
            &&& record.backend_addr@ == addr
        }),
        inbound_step(state, event, catalog).0 == InboundState::Dialing,
{
}

/// Bytes flow only once the backend has taken the connection.
pub proof fn law_tunnel_after_connect(state: InboundState, event: EventModel, catalog: Catalog)
    requires
        inbound_step(state, event, catalog).1 == ActionModel::Tunnel,
    ensures
        state == InboundState::Dialing,
        event == EventModel::Connected,
        inbound_step(state, event, catalog).0 == InboundState::Tunneling,
{
}

} // verus!
