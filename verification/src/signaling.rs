//! The messages of the signaling channel: JSON texts with a `type`, the
//! names of the peers concerned, and a session description. The client side
//! registers and answers offers; the relay registers peers and routes by
//! `target`.
use vstd::prelude::*;
use vstd::string::StringExecFns;
use crate::text::same_text;
use crate::trusted::{
    is_uuid_v4_text,
    json_member,
    json_object,
    json_object_text,
    json_string_member,
    random_uuid,
};

verus! {

/// An offer that asks for an answer.
#[derive(Debug, PartialEq, Eq)]
pub struct Offer {
    /// The peer that sent the offer, `unknown` where it did not say.
    pub sender: String,
    /// The session description offered.
    pub sdp: String,
}

/// The members of a registration.
pub open spec fn register_members(id: Seq<char>) -> Seq<(Seq<char>, Seq<char>)> {
    seq![("type"@, "register"@), ("id"@, id)]
}

/// The members of an answer.
pub open spec fn answer_members(target: Seq<char>, sender: Seq<char>, sdp: Seq<char>) -> Seq<
    (Seq<char>, Seq<char>),
> {
    seq![("type"@, "answer"@), ("target"@, target), ("sender"@, sender), ("sdp"@, sdp)]
}

/// The offer in a message with the given `type`, `sdp` and `sender`: one
/// whose type is `offer` and that carries a session description.
pub open spec fn offer_in(
    kind: Option<Seq<char>>,
    sdp: Option<Seq<char>>,
    sender: Option<Seq<char>>,
) -> Option<(Seq<char>, Seq<char>)> {
    if kind == Some("offer"@) && sdp is Some {
        Some(
            (
                match sender {
                    Some(s) => s,
                    None => "unknown"@,
                },
                sdp->0,
            ),
        )
    } else {
        None
    }
}

/// The peer that a first message registers: its `id`, where the type is
/// `register`.
pub open spec fn registered_in(kind: Option<Seq<char>>, id: Option<Seq<char>>) -> Option<
    Seq<char>,
> {
    if kind == Some("register"@) {
        id
    } else {
        None
    }
}

/// A fresh name for this node on the signaling channel: a random UUID,
/// written out. Which one is left to chance.
pub fn new_peer_id() -> (id: String)
    ensures
        is_uuid_v4_text(id@),
{
    random_uuid()
}

/// The message that registers `peer_id` with the relay.
pub fn register_message(peer_id: &str) -> (text: String)
    ensures
        text@ == json_object(register_members(peer_id@)),
{
    let mut members: Vec<(String, String)> = Vec::new();
    members.push((String::from_str("type"), String::from_str("register")));
    members.push((String::from_str("id"), String::from_str(peer_id)));
    assert(members.deep_view() =~= register_members(peer_id@));
    json_object_text(&members)
}

/// The message that answers an offer: addressed to `target`, sent by
/// `sender`, with the session description `sdp`.
pub fn answer_message(target: &str, sender: &str, sdp: &str) -> (text: String)
    ensures
        text@ == json_object(answer_members(target@, sender@, sdp@)),
{
    let mut members: Vec<(String, String)> = Vec::new();
    members.push((String::from_str("type"), String::from_str("answer")));
    members.push((String::from_str("target"), String::from_str(target)));
    members.push((String::from_str("sender"), String::from_str(sender)));
    members.push((String::from_str("sdp"), String::from_str(sdp)));
    assert(members.deep_view() =~= answer_members(target@, sender@, sdp@));
    json_object_text(&members)
}

/// What the members of a message ask of the client: an answer to an offer,
/// or nothing.
pub fn offer_from_members(
    kind: Option<String>,
    sdp: Option<String>,
    sender: Option<String>,
) -> (offer: Option<Offer>)
    ensures
        match offer {
            Some(o) => offer_in(kind.deep_view(), sdp.deep_view(), sender.deep_view()) == Some(
                (o.sender@, o.sdp@),
            ),
            None => offer_in(kind.deep_view(), sdp.deep_view(), sender.deep_view()) is None,
        },
{
    match kind {
        Some(k) => {
            if !same_text(k.as_str(), "offer") {
                return None;
            }
        },
        None => {
            return None;
        },
    }
    match sdp {
        Some(sdp) => {
            let sender = match sender {
                Some(s) => s,
                None => String::from_str("unknown"),
            };
            Some(Offer { sender, sdp })
        },
        None => None,
    }
}

/// Reads one text frame on the client side: the offer to answer, if the
/// frame is one.
pub fn read_offer(text: &str) -> (offer: Option<Offer>)
    ensures
        match offer {
            Some(o) => offer_in(
                json_member(text@, "type"@),
                json_member(text@, "sdp"@),
                json_member(text@, "sender"@),
            ) == Some((o.sender@, o.sdp@)),
            None => offer_in(
                json_member(text@, "type"@),
                json_member(text@, "sdp"@),
                json_member(text@, "sender"@),
            ) is None,
        },
{
    let kind = json_string_member(text, "type");
    let sdp = json_string_member(text, "sdp");
    let sender = json_string_member(text, "sender");
    offer_from_members(kind, sdp, sender)
}

/// The peer that the members of a first message register.
pub fn registration_from_members(kind: Option<String>, id: Option<String>) -> (peer: Option<
    String,
>)
    ensures
        peer.deep_view() == registered_in(kind.deep_view(), id.deep_view()),
{
    match kind {
        Some(k) => {
            if same_text(k.as_str(), "register") {
                id
            } else {
                None
            }
        },
        None => None,
    }
}

/// Reads the first text frame of a connection to the relay: the name under
/// which the peer registers, or nothing where the frame is no registration.
pub fn read_registration(text: &str) -> (peer: Option<String>)
    ensures
        peer.deep_view() == registered_in(json_member(text@, "type"@), json_member(text@, "id"@)),
{
    let kind = json_string_member(text, "type");
    let id = json_string_member(text, "id");
    registration_from_members(kind, id)
}

/// The peer that a relayed frame is addressed to: its `target`.
pub fn read_target(text: &str) -> (target: Option<String>)
    ensures
        target.deep_view() == json_member(text@, "target"@),
{
    json_string_member(text, "target")
}

/// The connection that a list of registrations gives for `id`, where a
/// later registration replaces an earlier one of the same name.
pub open spec fn connection_of(entries: Seq<(String, u64)>, id: Seq<char>) -> Option<u64>
    decreases entries.len(),
{
    if entries.len() == 0 {
        None
    } else if entries.last().0@ == id {
        Some(entries.last().1)
    } else {
        connection_of(entries.drop_last(), id)
    }
}

/// What the relay does with a frame from a registered peer.
#[derive(Clone, Copy, Debug, PartialEq, Eq, Structural)]
pub enum Route {
    /// Hand the frame to this connection.
    Deliver(u64),
    /// The peer that the frame names is not registered.
    UnknownTarget,
    /// The frame names no peer.
    NoTarget,
}

/// Where a frame with the given `target` goes.
pub open spec fn route_of(target: Option<Seq<char>>, peers: PeerRegistry) -> Route {
    match target {
        Some(t) => match peers.get(t) {
            Some(connection) => Route::Deliver(connection),
            None => Route::UnknownTarget,
        },
        None => Route::NoTarget,
    }
}

/// The peers that are registered with the relay, each with the number of
/// the connection that reaches it.
pub struct PeerRegistry {
    entries: Vec<(String, u64)>,
}

impl PeerRegistry {
    /// The connection under which `id` is registered, if it is.
    pub closed spec fn get(&self, id: Seq<char>) -> Option<u64> {
        connection_of(self.entries@, id)
    }

    /// A registry without peers.
    pub fn new() -> (peers: Self)
        ensures
            forall|id: Seq<char>| peers.get(id) is None,
    {
        PeerRegistry { entries: Vec::new() }
    }

    /// Takes `id` out of the registry.
    pub fn unregister(&mut self, id: &str)
        ensures
            final(self).get(id@) is None,
            forall|other: Seq<char>| other != id@ ==> final(self).get(other) == old(self).get(other),
    {
        let ghost before = self.entries@;
        let mut kept: Vec<(String, u64)> = Vec::new();
        let mut i: usize = 0;
        proof {
            assert(before.take(0) =~= Seq::<(String, u64)>::empty());
        }
        while i < self.entries.len()
            invariant
                i <= self.entries.len(),
                self.entries@ == before,
                connection_of(kept@, id@) is None,
                forall|other: Seq<char>|
                    other != id@ ==> connection_of(kept@, other) == connection_of(
                        before.take(i as int),
                        other,
                    ),
            decreases self.entries.len() - i,
        {
            let ghost kept_before = kept@;
            proof {
                let now = before.take(i as int + 1);
                assert(now.drop_last() =~= before.take(i as int));
                assert(now.last() == before[i as int]);
            }
            if !same_text(self.entries[i].0.as_str(), id) {
                kept.push((self.entries[i].0.clone(), self.entries[i].1));
                proof {
                    assert(kept@.drop_last() =~= kept_before);
                    assert(kept@.last().0@ == before[i as int].0@);
                    assert(kept@.last().1 == before[i as int].1);
                }
            }
            proof {
                assert forall|other: Seq<char>| other != id@ implies connection_of(kept@, other)
                    == connection_of(before.take(i as int + 1), other) by {
                    assert(connection_of(kept_before, other) == connection_of(
                        before.take(i as int),
                        other,
                    ));
                }
            }
            i = i + 1;
        }
        proof {
            assert(before.take(before.len() as int) =~= before);
        }
        self.entries = kept;
    }

    /// Registers `id` with the connection `connection`, in place of the
    /// connection that had the name before.
    pub fn register(&mut self, id: &str, connection: u64)
        ensures
            final(self).get(id@) == Some(connection),
            forall|other: Seq<char>| other != id@ ==> final(self).get(other) == old(self).get(other),
    {
        self.unregister(id);
        let ghost cleared = self.entries@;
        self.entries.push((String::from_str(id), connection));
        proof {
            assert(self.entries@.drop_last() =~= cleared);
        }
    }

    /// The connection under which `id` is registered.
    pub fn lookup(&self, id: &str) -> (connection: Option<u64>)
        ensures
            connection == self.get(id@),
    {
        let mut i: usize = self.entries.len();
        proof {
            assert(self.entries@.take(i as int) =~= self.entries@);
        }
        while i > 0
            invariant
                i <= self.entries.len(),
                self.get(id@) == connection_of(self.entries@.take(i as int), id@),
            decreases i,
        {
            proof {
                let now = self.entries@.take(i as int);
                assert(now.drop_last() =~= self.entries@.take(i - 1));
                assert(now.last() == self.entries@[i - 1]);
            }
            i = i - 1;
            if same_text(self.entries[i].0.as_str(), id) {
                return Some(self.entries[i].1);
            }
        }
        None
    }

    /// Where a frame goes that a registered peer sent: to the connection
    /// of the peer that its `target` names.
    pub fn route(&self, text: &str) -> (route: Route)
        ensures
            route == route_of(json_member(text@, "target"@), *self),
    {
        match read_target(text) {
            Some(target) => match self.lookup(target.as_str()) {
                Some(connection) => Route::Deliver(connection),
                None => Route::UnknownTarget,
            },
            None => Route::NoTarget,
        }
    }
}

} // verus!
