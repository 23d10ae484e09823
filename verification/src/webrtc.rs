//! The WebRTC side of a node: how the transport is set up, what a data
//! channel asks for, and the bridge that lets a data channel, which carries
//! whole messages, stand in for a stream of bytes.
use vstd::prelude::*;
use vstd::slice::slice_subrange;
use vstd::string::StringExecFns;
use crate::catalog::Catalog;
use crate::config::Config;
use crate::handshake::{
    decode_handshake,
    decoded,
    handshake,
    not_found_bytes,
    not_found_reply,
    push_all,
    valid_label,
    HandshakeError,
};
use crate::session::{
    backend_for,
    backend_of,
    inbound_step,
    law_handshake_first,
    ActionModel,
    EventModel,
    InboundState,
    OutboundSession,
};
use vstd::utf8::*;
use crate::text::{chars_of, contains_text, has_infix};

verus! {

/// How many bytes the pipe between the two pumps holds in each direction.
pub const PIPE_CAPACITY: usize = 65536;

/// How many bytes a pump moves at a time, and the most that one message
/// to the peer holds.
pub const SCRATCH_SIZE: usize = 8192;

/// The port of the signaling relay that a node starts for itself.
pub const EMBEDDED_SIGNALING_PORT: u16 = 8000;

/// How the WebRTC transport is to be started.
#[derive(Debug, PartialEq, Eq)]
pub struct WebRtcPlan {
    /// Where the signaling client connects to.
    pub signaling_url: String,
    /// The port on which to start a signaling relay first, where the
    /// client is to connect to this machine.
    pub embedded_server: Option<u16>,
    /// The STUN server that peer connections use.
    pub ice_server: String,
}

/// Where the signaling relay is looked for: where the configuration
/// says, and on this machine where it says nothing.
pub open spec fn signaling_url_of(configured: Option<Seq<char>>) -> Seq<char> {
    match configured {
        Some(url) => url,
        None => "ws://localhost:8000/ws"@,
    }
}

/// An address on this machine.
pub open spec fn is_local_url(url: Seq<char>) -> bool {
    has_infix(url, "localhost"@) || has_infix(url, "127.0.0.1"@)
}

/// The plan for a signaling address.
pub open spec fn plan_matches(plan: WebRtcPlan, url: Seq<char>) -> bool {
    &&& plan.signaling_url@ == url
    &&& plan.embedded_server == if is_local_url(url) {
        Some(EMBEDDED_SIGNALING_PORT)
    } else {
        None
    }
    &&& plan.ice_server@ == "stun:stun.l.google.com:19302"@
}

/// How to start the WebRTC transport, or nothing where the configuration
/// has none.
pub fn init(config: &Config) -> (plan: Option<WebRtcPlan>)
    ensures
        match plan {
            Some(p) => config.comm_webrtc matches Some(c) && plan_matches(
                p,
                signaling_url_of(
                    match c.signaling_server_url {
                        Some(u) => Some(u@),
                        None => None,
                    },
                ),
            ),
            None => config.comm_webrtc is None,
        },
{
    match &config.comm_webrtc {
        Some(c) => {
            let signaling_url = match &c.signaling_server_url {
                Some(u) => u.clone(),
                None => String::from_str("ws://localhost:8000/ws"),
            };
            let url = chars_of(signaling_url.as_str());
            let localhost = chars_of("localhost");
            let loopback = chars_of("127.0.0.1");
            let local = contains_text(url.as_slice(), localhost.as_slice()) || contains_text(
                url.as_slice(),
                loopback.as_slice(),
            );
            let embedded_server = if local {
                Some(EMBEDDED_SIGNALING_PORT)
            } else {
                None
            };
            Some(
                WebRtcPlan {
                    signaling_url,
                    embedded_server,
                    ice_server: String::from_str("stun:stun.l.google.com:19302"),
                },
            )
        },
        None => None,
    }
}

/// What a node does with a data channel, decided from the bytes that the
/// channel has delivered so far.
#[derive(Debug, PartialEq, Eq)]
pub enum ChannelAction {
    /// The handshake is not complete: wait for the next message.
    ReadOn,
    /// Give the channel up for this reason.
    Abort(HandshakeError),
    /// Connect to the backend at `addr`, write `payload`, which came
    /// behind the handshake, and copy bytes both ways.
    Dial { addr: String, payload: Vec<u8> },
    /// Send these bytes back and close the channel.
    Reply(Vec<u8>),
}

/// A channel action, as contracts see it.
pub enum ChannelModel {
    ReadOn,
    Abort(HandshakeError),
    Dial { addr: Seq<char>, payload: Seq<u8> },
    Reply(Seq<u8>),
}

impl View for ChannelAction {
    type V = ChannelModel;

    open spec fn view(&self) -> ChannelModel {
        match self {
            ChannelAction::ReadOn => ChannelModel::ReadOn,
            ChannelAction::Abort(e) => ChannelModel::Abort(*e),
            ChannelAction::Dial { addr, payload } => ChannelModel::Dial {
                addr: addr@,
                payload: payload@,
            },
            ChannelAction::Reply(bytes) => ChannelModel::Reply(bytes@),
        }
    }
}

/// What the bytes received so far ask for. Until the handshake is whole
/// the node reads on, however the bytes were cut into messages. A whole
/// handshake leads to the backend of its service, with what follows the
/// handshake as payload, or to the fixed reply where the catalog has no
/// such service.
pub open spec fn channel_action(received: Seq<u8>, catalog: Catalog) -> ChannelModel {
    match decoded(received) {
        Err(HandshakeError::ShortRead) => ChannelModel::ReadOn,
        Err(e) => ChannelModel::Abort(e),
        Ok((label, used)) => match backend_of(label, catalog) {
            Ok(addr) => ChannelModel::Dial { addr, payload: received.skip(used) },
            Err(_) => ChannelModel::Reply(not_found_reply()),
        },
    }
}

/// What a listener decides that takes `received` from a stream: it reads
/// one byte for the length and then as many bytes as that says for the
/// label, and waits while either is not there.
pub open spec fn listened(received: Seq<u8>, catalog: Catalog) -> ChannelModel {
    if received.len() < 1 {
        ChannelModel::ReadOn
    } else {
        let first = inbound_step(
            InboundState::AwaitLength,
            EventModel::Read(received.take(1)),
            catalog,
        );
        match first.0 {
            InboundState::AwaitLabel { len } => if received.len() < 1 + len {
                ChannelModel::ReadOn
            } else {
                match inbound_step(
                    first.0,
                    EventModel::Read(received.subrange(1, 1 + len)),
                    catalog,
                ).1 {
                    ActionModel::Dial(addr) => ChannelModel::Dial {
                        addr,
                        payload: received.skip(1 + len),
                    },
                    ActionModel::Reply(bytes) => ChannelModel::Reply(bytes),
                    ActionModel::Abort(e) => ChannelModel::Abort(e),
                    _ => ChannelModel::ReadOn,
                }
            },
            _ => match first.1 {
                ActionModel::Abort(e) => ChannelModel::Abort(e),
                _ => ChannelModel::ReadOn,
            },
        }
    }
}

/// What a message asks for that brings the bytes received to `received`.
/// A message without bytes is the end of the channel: a handshake that is
/// not whole by then never will be.
pub open spec fn message_action(received: Seq<u8>, message: Seq<u8>, catalog: Catalog) -> ChannelModel {
    if message.len() == 0 && channel_action(received, catalog) is ReadOn {
        ChannelModel::Abort(HandshakeError::ShortRead)
    } else {
        channel_action(received, catalog)
    }
}

/// Decides what to do with a data channel from all the bytes that it has
/// delivered so far, as a listener does with a peer stream.
pub fn handle_data_channel(received: &[u8], catalog: &Catalog) -> (action: ChannelAction)
    ensures
        action@ == channel_action(received@, *catalog),
{
    match decode_handshake(received) {
        Err(HandshakeError::ShortRead) => ChannelAction::ReadOn,
        Err(e) => ChannelAction::Abort(e),
        Ok((label, used)) => match backend_for(label.as_str(), catalog) {
            Ok(addr) => {
                let rest = slice_subrange(received, used, received.len());
                assert(rest@ =~= received@.skip(used as int));
                let mut payload: Vec<u8> = Vec::new();
                push_all(&mut payload, rest);
                ChannelAction::Dial { addr, payload }
            },
            Err(_) => ChannelAction::Reply(not_found_bytes()),
        },
    }
}

/// The bytes of a data channel that is served message by message, as far
/// as they have come.
pub struct ChannelInbox {
    received: Vec<u8>,
}

impl ChannelInbox {
    /// All the bytes that the channel has delivered, in order.
    pub closed spec fn received(&self) -> Seq<u8> {
        self.received@
    }

    /// The inbox of a channel that has delivered nothing.
    pub fn new() -> (inbox: Self)
        ensures
            inbox.received() == Seq::<u8>::empty(),
    {
        ChannelInbox { received: Vec::new() }
    }

    /// Takes the next message of the channel and decides on all that has
    /// come: the bytes of the message go behind those of the messages
    /// before it.
    pub fn on_message(&mut self, message: &[u8], catalog: &Catalog) -> (action: ChannelAction)
        ensures
            final(self).received() == old(self).received() + message@,
            action@ == message_action(final(self).received(), message@, *catalog),
    {
        push_all(&mut self.received, message);
        let action = handle_data_channel(self.received.as_slice(), catalog);
        if message.len() == 0 {
            match action {
                ChannelAction::ReadOn => ChannelAction::Abort(HandshakeError::ShortRead),
                other => other,
            }
        } else {
            action
        }
    }
}

/// What one of the bridge's pumps met.
#[derive(Debug, PartialEq, Eq)]
pub enum BridgeEvent {
    /// The data channel delivered a message.
    ChannelRead(Vec<u8>),
    /// Reading from the data channel failed.
    ChannelReadFailed,
    /// Writing into the pipe failed.
    PipeWriteFailed,
    /// The pipe delivered bytes that the consumer wrote.
    PipeRead(Vec<u8>),
    /// Reading from the pipe failed.
    PipeReadFailed,
    /// Sending on the data channel failed.
    ChannelWriteFailed,
}

/// What a pump is to do.
#[derive(Debug, PartialEq, Eq)]
pub enum BridgeAction {
    /// Write these bytes into the pipe, towards the consumer.
    WritePipe(Vec<u8>),
    /// Send these messages on the data channel, in order.
    SendMessages(Vec<Vec<u8>>),
    /// Shut the pipe's writing half down, so that the consumer reads its end.
    ShutdownPipe,
    /// Close the data channel.
    CloseChannel,
    /// Stop both pumps and drop the pipe and the channel.
    Abort,
    /// The pump has stopped already.
    Nothing,
}

/// A bridge event, as contracts see it.
pub enum BridgeEventModel {
    ChannelRead(Seq<u8>),
    ChannelReadFailed,
    PipeWriteFailed,
    PipeRead(Seq<u8>),
    PipeReadFailed,
    ChannelWriteFailed,
}

/// A bridge action, as contracts see it.
pub enum BridgeActionModel {
    WritePipe(Seq<u8>),
    SendMessages(Seq<Seq<u8>>),
    ShutdownPipe,
    CloseChannel,
    Abort,
    Nothing,
}

impl View for BridgeEvent {
    type V = BridgeEventModel;

    open spec fn view(&self) -> BridgeEventModel {
        match self {
            BridgeEvent::ChannelRead(b) => BridgeEventModel::ChannelRead(b@),
            BridgeEvent::ChannelReadFailed => BridgeEventModel::ChannelReadFailed,
            BridgeEvent::PipeWriteFailed => BridgeEventModel::PipeWriteFailed,
            BridgeEvent::PipeRead(b) => BridgeEventModel::PipeRead(b@),
            BridgeEvent::PipeReadFailed => BridgeEventModel::PipeReadFailed,
            BridgeEvent::ChannelWriteFailed => BridgeEventModel::ChannelWriteFailed,
        }
    }
}

impl View for BridgeAction {
    type V = BridgeActionModel;

    open spec fn view(&self) -> BridgeActionModel {
        match self {
            BridgeAction::WritePipe(b) => BridgeActionModel::WritePipe(b@),
            BridgeAction::SendMessages(ms) => BridgeActionModel::SendMessages(byte_views(ms@)),
            BridgeAction::ShutdownPipe => BridgeActionModel::ShutdownPipe,
            BridgeAction::CloseChannel => BridgeActionModel::CloseChannel,
            BridgeAction::Abort => BridgeActionModel::Abort,
            BridgeAction::Nothing => BridgeActionModel::Nothing,
        }
    }
}

/// The bytes that an action moves towards the consumer.
pub open spec fn piped(action: BridgeActionModel) -> Seq<u8> {
    match action {
        BridgeActionModel::WritePipe(b) => b,
        _ => Seq::empty(),
    }
}

/// The bytes that an action moves towards the peer.
pub open spec fn sent(action: BridgeActionModel) -> Seq<u8> {
    match action {
        BridgeActionModel::SendMessages(ms) => concat(ms),
        _ => Seq::empty(),
    }
}

/// The contents of a list of messages.
pub open spec fn byte_views(v: Seq<Vec<u8>>) -> Seq<Seq<u8>> {
    Seq::new(v.len(), |i: int| v[i]@)
}

/// How long the last of the messages is that `n` bytes are cut into.
pub open spec fn last_fill_len(n: int) -> int {
    (n - 1) % (SCRATCH_SIZE as int) + 1
}

/// The messages that a run of bytes is sent as: each is one fill of the
/// scratch buffer, so all hold `SCRATCH_SIZE` bytes but the last, which
/// holds what is left. No bytes make no message.
pub open spec fn scratch_fills(bytes: Seq<u8>) -> Seq<Seq<u8>>
    decreases bytes.len(),
{
    if bytes.len() == 0 {
        Seq::empty()
    } else {
        let k = last_fill_len(bytes.len() as int);
        scratch_fills(bytes.take(bytes.len() - k)).push(bytes.skip(bytes.len() - k))
    }
}

/// The bridge's rule: which pumps run after `event`, and what to do. The
/// inbound pump stops at an empty message and at a failure on its way; the
/// outbound pump sends what the pipe delivers in fills of the scratch
/// buffer, and stops where the pipe ends; a message that cannot be sent
/// stops both.
pub open spec fn bridge_step(inbound: bool, outbound: bool, event: BridgeEventModel) -> (
    bool,
    bool,
    BridgeActionModel,
) {
    match event {
        BridgeEventModel::ChannelRead(b) => if !inbound {
            (inbound, outbound, BridgeActionModel::Nothing)
        } else if b.len() == 0 {
            (false, outbound, BridgeActionModel::ShutdownPipe)
        } else {
            (inbound, outbound, BridgeActionModel::WritePipe(b))
        },
        BridgeEventModel::ChannelReadFailed | BridgeEventModel::PipeWriteFailed => if inbound {
            (false, outbound, BridgeActionModel::ShutdownPipe)
        } else {
            (inbound, outbound, BridgeActionModel::Nothing)
        },
        BridgeEventModel::PipeRead(b) => if !outbound {
            (inbound, outbound, BridgeActionModel::Nothing)
        } else if b.len() == 0 {
            (inbound, false, BridgeActionModel::CloseChannel)
        } else {
            (inbound, outbound, BridgeActionModel::SendMessages(scratch_fills(b)))
        },
        BridgeEventModel::PipeReadFailed => if outbound {
            (inbound, false, BridgeActionModel::CloseChannel)
        } else {
            (inbound, outbound, BridgeActionModel::Nothing)
        },
        BridgeEventModel::ChannelWriteFailed => if inbound || outbound {
            (false, false, BridgeActionModel::Abort)
        } else {
            (inbound, outbound, BridgeActionModel::Nothing)
        },
    }
}

/// Cuts `bytes` into the messages that they are sent as.
pub fn split_fills(bytes: &[u8]) -> (messages: Vec<Vec<u8>>)
    ensures
        byte_views(messages@) == scratch_fills(bytes@),
{
    let n = bytes.len();
    let mut messages: Vec<Vec<u8>> = Vec::new();
    let mut pos: usize = 0;
    proof {
        assert(byte_views(messages@) =~= scratch_fills(bytes@.take(0)));
    }
    while pos < n
        invariant
            pos <= n == bytes.len(),
            pos % SCRATCH_SIZE == 0 || pos == n,
            byte_views(messages@) == scratch_fills(bytes@.take(pos as int)),
        decreases n - pos,
    {
        let end: usize = if n - pos > SCRATCH_SIZE {
            pos + SCRATCH_SIZE
        } else {
            n
        };
        let mut message: Vec<u8> = Vec::new();
        push_all(&mut message, slice_subrange(bytes, pos, end));
        let ghost before = byte_views(messages@);
        messages.push(message);
        proof {
            let upto = bytes@.take(end as int);
            assert(last_fill_len(end as int) == end - pos) by {
                assert((end - 1) % 8192 == end - 1 - pos) by (nonlinear_arith)
                    requires
                        pos % 8192 == 0,
                        pos <= end - 1 < pos + 8192,
                ;
            }
            assert(upto.take(upto.len() - (end - pos)) =~= bytes@.take(pos as int));
            assert(upto.skip(upto.len() - (end - pos)) =~= message@);
            assert(byte_views(messages@) =~= before.push(message@));
        }
        pos = end;
    }
    proof {
        assert(bytes@.take(n as int) =~= bytes@);
    }
    messages
}

/// A data channel bridged to a stream of bytes. Two pumps run between the
/// channel and the inner side of a pipe; the consumer holds the outer side.
pub struct WebRTCStream {
    inbound: bool,
    outbound: bool,
    to_consumer: Ghost<Seq<u8>>,
    to_peer: Ghost<Seq<u8>>,
}

impl WebRTCStream {
    /// Whether the pump from the channel to the consumer runs.
    pub closed spec fn inbound_open(&self) -> bool {
        self.inbound
    }

    /// Whether the pump from the consumer to the channel runs.
    pub closed spec fn outbound_open(&self) -> bool {
        self.outbound
    }

    /// All the bytes moved towards the consumer so far, in order.
    pub closed spec fn to_consumer(&self) -> Seq<u8> {
        self.to_consumer@
    }

    /// All the bytes moved towards the peer so far, in order.
    pub closed spec fn to_peer(&self) -> Seq<u8> {
        self.to_peer@
    }

    /// A bridge with both pumps running and nothing moved.
    pub fn new() -> (bridge: Self)
        ensures
            bridge.inbound_open(),
            bridge.outbound_open(),
            bridge.to_consumer() == Seq::<u8>::empty(),
            bridge.to_peer() == Seq::<u8>::empty(),
    {
        WebRTCStream {
            inbound: true,
            outbound: true,
            to_consumer: Ghost(Seq::empty()),
            to_peer: Ghost(Seq::empty()),
        }
    }

    /// Whether both pumps have stopped.
    pub fn is_finished(&self) -> (done: bool)
        ensures
            done == (!self.inbound_open() && !self.outbound_open()),
    {
        !self.inbound && !self.outbound
    }

    /// Takes what a pump met and says what the pump does. Bytes are handed
    /// on as they came, whole and in order; towards the peer they go in
    /// messages of no more than `SCRATCH_SIZE` bytes.
    pub fn step(&mut self, event: BridgeEvent) -> (action: BridgeAction)
        ensures
            (final(self).inbound_open(), final(self).outbound_open(), action@) == bridge_step(
                old(self).inbound_open(),
                old(self).outbound_open(),
                event@,
            ),
            final(self).to_consumer() == old(self).to_consumer() + piped(action@),
            final(self).to_peer() == old(self).to_peer() + sent(action@),
    {
        let action = match event {
            BridgeEvent::ChannelRead(b) => {
                if !self.inbound {
                    BridgeAction::Nothing
                } else if b.len() == 0 {
                    self.inbound = false;
                    BridgeAction::ShutdownPipe
                } else {
                    BridgeAction::WritePipe(b)
                }
            },
            BridgeEvent::ChannelReadFailed | BridgeEvent::PipeWriteFailed => {
                if self.inbound {
                    self.inbound = false;
                    BridgeAction::ShutdownPipe
                } else {
                    BridgeAction::Nothing
                }
            },
            BridgeEvent::PipeRead(b) => {
                if !self.outbound {
                    BridgeAction::Nothing
                } else if b.len() == 0 {
                    self.outbound = false;
                    BridgeAction::CloseChannel
                } else {
                    BridgeAction::SendMessages(split_fills(b.as_slice()))
                }
            },
            BridgeEvent::PipeReadFailed => {
                if self.outbound {
                    self.outbound = false;
                    BridgeAction::CloseChannel
                } else {
                    BridgeAction::Nothing
                }
            },
            BridgeEvent::ChannelWriteFailed => {
                if self.inbound || self.outbound {
                    self.inbound = false;
                    self.outbound = false;
                    BridgeAction::Abort
                } else {
                    BridgeAction::Nothing
                }
            },
        };
        proof {
            self.to_consumer = Ghost(self.to_consumer@ + piped(action@));
            self.to_peer = Ghost(self.to_peer@ + sent(action@));
        }
        action
    }
}

/// All the bytes of a list of messages, in order.
pub open spec fn concat(messages: Seq<Seq<u8>>) -> Seq<u8>
    decreases messages.len(),
{
    if messages.len() == 0 {
        Seq::empty()
    } else {
        concat(messages.drop_last()) + messages.last()
    }
}

/// What the consumer has got after the channel delivered `messages` to a
/// bridge whose inbound pump was in the state `open`.
pub open spec fn delivered(open: bool, messages: Seq<Seq<u8>>) -> (bool, Seq<u8>)
    decreases messages.len(),
{
    if messages.len() == 0 {
        (open, Seq::empty())
    } else {
        let before = delivered(open, messages.drop_last());
        let step = bridge_step(before.0, true, BridgeEventModel::ChannelRead(messages.last()));
        (step.0, before.1 + piped(step.2))
    }
}

/// First in, first out: messages that are not empty reach the consumer as
/// one run of bytes, each message whole, in the order in which they came,
/// and the pump runs on.
pub proof fn law_bridge_fifo(messages: Seq<Seq<u8>>)
    requires
        forall|i: int| 0 <= i < messages.len() ==> (#[trigger] messages[i]).len() > 0,
    ensures
        delivered(true, messages) == (true, concat(messages)),
    decreases messages.len(),
{
    if messages.len() > 0 {
        let head = messages.drop_last();
        assert forall|i: int| 0 <= i < head.len() implies (#[trigger] head[i]).len() > 0 by {
            assert(head[i] == messages[i]);
        }
        law_bridge_fifo(head);
        assert(messages.last() == messages[messages.len() - 1]);
    }
}

/// Nothing is lost or added on the way to the peer: the messages that a
/// run of bytes is sent as hold those bytes, in order; each holds at least
/// one byte and no more than the scratch buffer does, and all but the last
/// fill it.
pub proof fn law_fills_carry_all(bytes: Seq<u8>)
    ensures
        concat(scratch_fills(bytes)) == bytes,
        forall|i: int|
            0 <= i < scratch_fills(bytes).len() ==> 1 <= (#[trigger] scratch_fills(bytes)[i]).len()
                <= SCRATCH_SIZE,
        forall|i: int|
            0 <= i < scratch_fills(bytes).len() - 1 ==> (#[trigger] scratch_fills(bytes)[i]).len()
                == SCRATCH_SIZE,
        sent(bridge_step(true, true, BridgeEventModel::PipeRead(bytes)).2) == bytes,
    decreases bytes.len(),
{
    if bytes.len() > 0 {
        let n = bytes.len() as int;
        let k = last_fill_len(n);
        let head = bytes.take(n - k);
        let fills = scratch_fills(bytes);
        law_fills_carry_all(head);
        assert(fills.drop_last() =~= scratch_fills(head));
        assert(fills.last() == bytes.skip(n - k));
        assert(head + bytes.skip(n - k) =~= bytes);
        assert((n - k) % 8192 == 0) by (nonlinear_arith)
            requires
                k == (n - 1) % 8192 + 1,
        ;
        assert forall|i: int| 0 <= i < fills.len() implies 1 <= (#[trigger] fills[i]).len()
            <= SCRATCH_SIZE by {
            if i < fills.len() - 1 {
                assert(fills[i] == scratch_fills(head)[i]);
            }
        }
        assert forall|i: int| 0 <= i < fills.len() - 1 implies (#[trigger] fills[i]).len()
            == SCRATCH_SIZE by {
            assert(fills[i] == scratch_fills(head)[i]);
            if i == fills.len() - 2 {
                lemma_last_fill_is_full(head);
            }
        }
    } else {
        assert(concat(scratch_fills(bytes)) =~= bytes);
    }
}

/// Where the bytes fill the scratch buffer a whole number of times, the
/// last message is full too.
pub proof fn lemma_last_fill_is_full(bytes: Seq<u8>)
    requires
        bytes.len() > 0,
        bytes.len() % 8192 == 0,
    ensures
        scratch_fills(bytes).len() > 0,
        scratch_fills(bytes).last().len() == SCRATCH_SIZE,
{
    let n = bytes.len() as int;
    assert(last_fill_len(n) == 8192) by (nonlinear_arith)
        requires
            n > 0,
            n % 8192 == 0,
            last_fill_len(n) == (n - 1) % 8192 + 1,
    ;
}

/// A data channel enters the same listener as a peer stream. What the
/// node decides from the bytes of a channel is what a listener decides
/// that reads the length byte and then the label from those bytes, and the
/// payload is what stands behind the two.
pub proof fn law_channel_enters_listener(received: Seq<u8>, catalog: Catalog)
    ensures
        channel_action(received, catalog) == listened(received, catalog),
{
    if received.len() > 0 && received[0] != 0 && received.len() >= 1 + received[0] {
        assert(received.take(1)[0] == received[0]);
        assert(received.subrange(1, 1 + received[0]).len() == received[0]);
    } else if received.len() > 0 {
        assert(received.take(1)[0] == received[0]);
    }
}

/// From the dialer to the backend: a stream that opens with the handshake
/// of a label leads to the backend of that label's service, and the
/// payload for the backend is what follows the handshake, byte for byte.
/// Where the catalog has no such service the stream gets the fixed reply.
pub proof fn law_payload_follows_handshake(label: Seq<char>, payload: Seq<u8>, catalog: Catalog)
    requires
        valid_label(label),
    ensures
        channel_action(handshake(label) + payload, catalog) == match catalog.get(label) {
            Some(record) => ChannelModel::Dial { addr: record.backend_addr@, payload },
            None => ChannelModel::Reply(not_found_reply()),
        },
{
    let name = encode_utf8(label);
    let opening = handshake(label);
    let stream = opening + payload;
    assert(stream[0] == name.len());
    assert(stream.subrange(1, 1 + name.len() as int) =~= name);
    assert(stream.skip(1 + name.len() as int) =~= payload);
    encode_utf8_valid_utf8(label);
    encode_utf8_decode_utf8(label);
}

/// What a session has written reaches the backend as the client sent it:
/// a listener that takes all that an opened session has written dials the
/// service of the session's label, and hands the backend the client's
/// bytes, none of the handshake among them, none lost, none added.
pub proof fn law_session_reaches_backend(session: OutboundSession, catalog: Catalog)
    requires
        session.wf(),
        session.opened(),
    ensures
        channel_action(session.written(), catalog) == match catalog.get(session.label()) {
            Some(record) => ChannelModel::Dial {
                addr: record.backend_addr@,
                payload: session.forwarded(),
            },
            None => ChannelModel::Reply(not_found_reply()),
        },
{
    law_handshake_first(session);
    law_payload_follows_handshake(session.label(), session.forwarded(), catalog);
}

/// Messages that are not empty reach the listener as one run of bytes, so
/// a handshake may lie across them: what the node decides after the last
/// of them is what it decides from all their bytes together.
pub proof fn law_handshake_across_messages(messages: Seq<Seq<u8>>, catalog: Catalog)
    requires
        forall|i: int| 0 <= i < messages.len() ==> (#[trigger] messages[i]).len() > 0,
    ensures
        delivered(true, messages).1 == concat(messages),
        channel_action(delivered(true, messages).1, catalog) == listened(
            concat(messages),
            catalog,
        ),
{
    law_bridge_fifo(messages);
    law_channel_enters_listener(concat(messages), catalog);
}

/// Unknown service over a data channel: where the messages of a channel,
/// however they are cut, open with the handshake of a label that the
/// catalog does not hold, the listener behind the bridge answers with the
/// fixed reply; the messages that carry the reply back hold exactly its
/// bytes; and the end of the pipe behind it closes the channel.
pub proof fn law_unknown_service_over_channel(
    messages: Seq<Seq<u8>>,
    label: Seq<char>,
    rest: Seq<u8>,
    catalog: Catalog,
)
    requires
        forall|i: int| 0 <= i < messages.len() ==> (#[trigger] messages[i]).len() > 0,
        valid_label(label),
        concat(messages) == handshake(label) + rest,
        catalog.get(label) is None,
    ensures
        listened(delivered(true, messages).1, catalog) == ChannelModel::Reply(not_found_reply()),
        sent(bridge_step(true, true, BridgeEventModel::PipeRead(not_found_reply())).2)
            == not_found_reply(),
        bridge_step(true, true, BridgeEventModel::PipeRead(Seq::empty())) == (
            true,
            false,
            BridgeActionModel::CloseChannel,
        ),
{
    law_bridge_fifo(messages);
    law_channel_enters_listener(concat(messages), catalog);
    law_payload_follows_handshake(label, rest, catalog);
    law_fills_carry_all(not_found_reply());
}

/// Half-close: what stops one pump leaves the other as it was. The end of
/// the channel's messages stops the inbound pump alone, and the end of the
/// consumer's bytes stops the outbound pump alone.
pub proof fn law_half_close(inbound: bool, outbound: bool, event: BridgeEventModel)
    ensures
        (event is ChannelRead || event is ChannelReadFailed || event is PipeWriteFailed)
            ==> bridge_step(inbound, outbound, event).1 == outbound,
        (event is PipeRead || event is PipeReadFailed) ==> bridge_step(inbound, outbound, event).0
            == inbound,
        inbound ==> bridge_step(inbound, outbound, BridgeEventModel::ChannelRead(Seq::empty()))
            == (false, outbound, BridgeActionModel::ShutdownPipe),
        outbound ==> bridge_step(inbound, outbound, BridgeEventModel::PipeRead(Seq::empty())) == (
            inbound,
            false,
            BridgeActionModel::CloseChannel,
        ),
{
}

/// Nothing is moved by a pump that has stopped: after the inbound pump
/// has stopped no event makes the bridge write into the pipe, and after the
/// outbound pump has stopped none makes it send a message.
pub proof fn law_stopped_pump_is_silent(inbound: bool, outbound: bool, event: BridgeEventModel)
    ensures
        !inbound ==> piped(bridge_step(inbound, outbound, event).2) == Seq::<u8>::empty()
            && !bridge_step(inbound, outbound, event).0,
        !outbound ==> sent(bridge_step(inbound, outbound, event).2) == Seq::<u8>::empty()
            && !bridge_step(inbound, outbound, event).1,
{
}

} // verus!
