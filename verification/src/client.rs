//! A peer: its identity, the addresses it has discovered, and the messages
//! that wait to be shown.
//!
//! The peer's sockets belong to the program around it. Each method here is
//! the part of one of the peer's loops that decides: it takes what arrived
//! and says what to send or to show.

use crate::address::NetworkAddress;
use crate::document::MAX_DATAGRAM;
use crate::envelope::{control_of_datagram, is_control_datagram, ControlEnvelope, ControlView};
use crate::error::{ClientError, MessageError};
use crate::fields::STATUS_OK;
use crate::identifier::{identifier_of_text, PeerIdentifier};
use crate::message::{is_message_datagram, message_of_datagram, Message, MessageView};
use crate::server::{lookup_answer, registration_accepted, registry_lookup, Registry};
use crate::text::{strip_padding, without_padding};
use crate::timestamp::Timestamp;
use std::collections::{HashMap, VecDeque};
use vstd::prelude::*;

verus! {

broadcast use vstd::std_specs::hash::group_hash_axioms;

/// The port of the rendezvous server on the local host.
pub const HOST_PORT: u16 = 50_000;

/// How many times a peer asks the server to register it before it gives up.
pub const REGISTRATION_ATTEMPTS: u32 = 5;

/// The pause before the second attempt to register, in milliseconds. The
/// pause doubles with each further attempt.
pub const FIRST_PAUSE_MS: u64 = 250;

/// The addresses that a peer has discovered.
pub type DiscoveryCache = Map<PeerIdentifier, NetworkAddress>;

/// A peer of the network.
pub struct Client {
    /// Where the peer receives messages.
    pub listening_addr: NetworkAddress,
    /// Where the rendezvous server receives requests.
    pub server_addr: NetworkAddress,
    /// The addresses discovered so far, by the value of the identifier.
    pub peer_map: HashMap<u128, NetworkAddress>,
    /// The messages received and not yet shown, oldest first.
    pub recv_queue: VecDeque<Message>,
    /// The peer's own identifier; nil until the peer has registered.
    pub uuid: PeerIdentifier,
}

/// The state of a peer, as mathematics.
pub struct ClientView {
    pub listening_addr: NetworkAddress,
    pub server_addr: NetworkAddress,
    pub cache: DiscoveryCache,
    pub queue: Seq<MessageView>,
    pub uuid: PeerIdentifier,
}

/// The views of a sequence of messages.
pub open spec fn message_views(messages: Seq<Message>) -> Seq<MessageView> {
    messages.map_values(|message: Message| message@)
}

impl View for Client {
    type V = ClientView;

    open spec fn view(&self) -> ClientView {
        ClientView {
            listening_addr: self.listening_addr,
            server_addr: self.server_addr,
            cache: Map::new(
                |id: PeerIdentifier| self.peer_map@.contains_key(id.value),
                |id: PeerIdentifier| self.peer_map@[id.value],
            ),
            queue: message_views(self.recv_queue@),
            uuid: self.uuid,
        }
    }
}

/// What the peer is to do next for a message of its user.
pub enum Outgoing {
    /// Nothing: the destination is no identifier.
    InvalidDestination,
    /// Send `datagram` to the rendezvous server at `to`, and hand the answer
    /// to `server_lookup_uuid`: the address of `peer` is not known yet.
    Lookup { peer: PeerIdentifier, to: NetworkAddress, datagram: Vec<u8> },
    /// Send `datagram`, which holds the message, to the peer at `to`.
    Deliver { to: NetworkAddress, datagram: Vec<u8> },
}

/// What the answer to a lookup says of the peer that was asked for.
pub enum Resolution {
    /// The peer has this address.
    Found(NetworkAddress),
    /// The server has no such peer on record.
    NotFound,
    /// The datagram is no answer to this lookup.
    Invalid,
}

/// What a datagram says in answer to a lookup of `peer`. An answer that
/// names another identifier is no answer to this lookup.
pub open spec fn lookup_outcome(peer: PeerIdentifier, response: Seq<u8>) -> Resolution {
    match control_of_datagram(response) {
        Ok(ControlView::LookupResponse { queried, resolved }) => if queried == peer {
            match resolved {
                Some(address) => Resolution::Found(address),
                None => Resolution::NotFound,
            }
        } else {
            Resolution::Invalid
        },
        _ => Resolution::Invalid,
    }
}

/// The identifier that a datagram assigns in answer to a registration, if
/// it is such an answer and its status is `OK`.
pub open spec fn registration_outcome(response: Seq<u8>) -> Option<PeerIdentifier> {
    match control_of_datagram(response) {
        Ok(ControlView::RegistrationResponse { status, assigned }) => if status == STATUS_OK@ {
            Some(assigned)
        } else {
            None
        },
        _ => None,
    }
}

/// Whether `next` is what a peer in the given state is to do for a message
/// to `peer`: deliver the message, stamped with the peer's own identifier and
/// the time given, where the address of `peer` is known; look the address up
/// at the rendezvous server where it is not.
pub open spec fn is_next_step(
    client: ClientView,
    peer: PeerIdentifier,
    data: Seq<char>,
    time: Seq<char>,
    next: Outgoing,
) -> bool {
    if client.cache.contains_key(peer) {
        &&& next matches Outgoing::Deliver { to, datagram }
        &&& to == client.cache[peer]
        &&& is_message_datagram(
            datagram@,
            MessageView { dst_uuid: peer, src_uuid: client.uuid, creation_time: time, data },
        )
    } else {
        &&& next matches Outgoing::Lookup { peer: asked, to, datagram }
        &&& asked == peer
        &&& to == client.server_addr
        &&& is_control_datagram(datagram@, ControlView::LookupRequest { queried: peer })
    }
}

/// The pause before an attempt to register, in milliseconds. Attempts are
/// counted from zero. The first is made at once, and after the last there is
/// none.
pub open spec fn pause_before(attempt: nat) -> Option<nat>
    decreases attempt,
{
    if attempt >= REGISTRATION_ATTEMPTS {
        None
    } else if attempt == 0 {
        Some(0)
    } else if attempt == 1 {
        Some(FIRST_PAUSE_MS as nat)
    } else {
        Some(2 * pause_before((attempt - 1) as nat).unwrap())
    }
}

/// The queue after the given datagrams arrived, one after the other: each
/// that reads as a message has joined the end.
pub open spec fn queue_after(queue: Seq<MessageView>, datagrams: Seq<Seq<u8>>) -> Seq<MessageView>
    decreases datagrams.len(),
{
    if datagrams.len() == 0 {
        queue
    } else {
        let earlier = queue_after(queue, datagrams.drop_last());
        match message_of_datagram(datagrams.last()) {
            Ok(message) => earlier.push(message),
            Err(_) => earlier,
        }
    }
}

/// What the server answers to a registration is what the peer takes as its
/// registration: the peer adopts the identifier that the server assigned.
pub proof fn lemma_registration_is_understood(reply: Seq<u8>, assigned: PeerIdentifier)
    requires
        is_control_datagram(reply, registration_accepted(assigned)),
        reply.len() <= MAX_DATAGRAM,
    ensures
        registration_outcome(reply) == Some(assigned),
{
}

/// What the server answers to a lookup is what the peer takes as the answer
/// to that lookup: the address on record, or that there is none.
pub proof fn lemma_lookup_is_understood(registry: Registry, peer: PeerIdentifier, reply: Seq<u8>)
    requires
        is_control_datagram(reply, lookup_answer(registry, peer)),
        reply.len() <= MAX_DATAGRAM,
    ensures
        lookup_outcome(peer, reply) == match registry_lookup(registry, peer) {
            Some(address) => Resolution::Found(address),
            None => Resolution::NotFound,
        },
{
}

/// Once a lookup of `peer` was answered with an address, a message to
/// `peer` goes to that address without another lookup.
pub proof fn lemma_resolved_peer_needs_no_lookup(
    before: ClientView,
    peer: PeerIdentifier,
    response: Seq<u8>,
    after: ClientView,
    data: Seq<char>,
    time: Seq<char>,
    next: Outgoing,
)
    requires
        lookup_outcome(peer, response) matches Resolution::Found(address) && after == (ClientView {
            cache: before.cache.insert(peer, address),
            ..before
        }),
        is_next_step(after, peer, data, time, next),
    ensures
        next matches Outgoing::Deliver { to, .. } && lookup_outcome(peer, response)
            == Resolution::Found(to),
{
}

/// An address, once discovered, stays known whatever other lookups are
/// answered later.
pub proof fn lemma_cache_keeps_what_it_holds(
    cache: DiscoveryCache,
    known: PeerIdentifier,
    peer: PeerIdentifier,
    address: NetworkAddress,
)
    requires
        cache.contains_key(known),
    ensures
        cache.insert(peer, address).contains_key(known),
        peer != known ==> cache.insert(peer, address)[known] == cache[known],
{
}

/// Messages keep the order in which they arrived: the messages that waited
/// come first, then those that the datagrams brought, in the order of the
/// datagrams.
pub proof fn lemma_queue_keeps_arrival_order(
    queue: Seq<MessageView>,
    first: Seq<Seq<u8>>,
    second: Seq<Seq<u8>>,
)
    ensures
        queue_after(queue, first + second) == queue_after(queue_after(queue, first), second),
        queue_after(queue, first) == queue + queue_after(Seq::empty(), first),
    decreases second.len(), first.len(),
{
    if second.len() == 0 {
        assert(first + second =~= first);
    } else {
        let all = first + second;
        assert(all.drop_last() =~= first + second.drop_last());
        assert(all.last() == second.last());
        lemma_queue_keeps_arrival_order(queue, first, second.drop_last());
    }
    if first.len() > 0 {
        lemma_queue_keeps_arrival_order(queue, first.drop_last(), Seq::empty());
        let earlier = queue_after(Seq::<MessageView>::empty(), first.drop_last());
        match message_of_datagram(first.last()) {
            Ok(message) => {
                assert(queue + earlier.push(message) =~= (queue + earlier).push(message));
            },
            Err(_) => {},
        }
    } else {
        assert(queue + Seq::<MessageView>::empty() =~= queue);
    }
}

impl Client {
    /// A peer that listens on the given port of the local host. It has not
    /// registered, knows no address, and has no message waiting.
    pub fn build(port: u16) -> (client: Client)
        ensures
            client@ == (ClientView {
                listening_addr: NetworkAddress { a: 127, b: 0, c: 0, d: 1, port },
                server_addr: NetworkAddress { a: 127, b: 0, c: 0, d: 1, port: HOST_PORT },
                cache: DiscoveryCache::empty(),
                queue: Seq::empty(),
                uuid: PeerIdentifier { value: 0 },
            }),
    {
        let client = Client {
            listening_addr: NetworkAddress::loopback(port),
            server_addr: NetworkAddress::loopback(HOST_PORT),
            peer_map: HashMap::new(),
            recv_queue: VecDeque::new(),
            uuid: PeerIdentifier::nil(),
        };
        assert(client@.cache =~= DiscoveryCache::empty());
        assert(client@.queue =~= Seq::empty());
        client
    }

    /// Whether to try once more to register, and after what pause in
    /// milliseconds. `attempt` counts the attempts made so far.
    pub fn registration_pause(attempt: u32) -> (pause: Option<u64>)
        ensures
            match pause {
                Some(ms) => pause_before(attempt as nat) == Some(ms as nat),
                None => pause_before(attempt as nat) is None,
            },
    {
        if attempt >= REGISTRATION_ATTEMPTS {
            return None;
        }
        if attempt == 0 {
            return Some(0);
        }
        let mut pause: u64 = FIRST_PAUSE_MS;
        let mut made: u32 = 1;
        while made < attempt
            invariant
                1 <= made <= attempt < REGISTRATION_ATTEMPTS,
                pause_before(made as nat) == Some(pause as nat),
                pause <= FIRST_PAUSE_MS * 8,
            decreases attempt - made,
        {
            proof {
                reveal_with_fuel(pause_before, 5);
            }
            pause = pause * 2;
            made = made + 1;
        }
        Some(pause)
    }

    /// The request that registers the peer under its listening address.
    pub fn registration_request(&self) -> (datagram: Vec<u8>)
        ensures
            is_control_datagram(
                datagram@,
                (ControlView::Registration { reply_address: self.listening_addr }),
            ),
    {
        let request = ControlEnvelope::Registration { reply_address: self.listening_addr };
        request.encode()
    }

    /// Takes the server's answer to the registration request. Where the
    /// answer assigns an identifier with status `OK`, the peer adopts it;
    /// any other datagram leaves the peer as it was.
    pub fn register_with_server(&mut self, response: &[u8]) -> (registered: Result<
        PeerIdentifier,
        ClientError,
    >)
        ensures
            registration_outcome(response@) matches Some(assigned) ==> {
                &&& registered == Ok::<PeerIdentifier, ClientError>(assigned)
                &&& final(self)@ == (ClientView { uuid: assigned, ..old(self)@ })
            },
            registration_outcome(response@) is None ==> {
                &&& registered matches Err(ClientError::ServerUnavailableError(message))
                &&& message@ == "Error registering with server"@
                &&& final(self)@ == old(self)@
            },
    {
        match ControlEnvelope::decode(response) {
            Ok(ControlEnvelope::RegistrationResponse { status, assigned }) => {
                if status == String::from_str(STATUS_OK) {
                    self.uuid = assigned;
                    return Ok(assigned);
                }
            },
            _ => {},
        }
        Err(ClientError::ServerUnavailableError(String::from_str("Error registering with server")))
    }

    /// The address of a peer, if it has been discovered.
    pub fn resolve(&self, peer: PeerIdentifier) -> (address: Option<NetworkAddress>)
        ensures
            match address {
                Some(found) => self@.cache.contains_key(peer) && self@.cache[peer] == found,
                None => !self@.cache.contains_key(peer),
            },
    {
        match self.peer_map.get(&peer.value) {
            Some(found) => Some(*found),
            None => None,
        }
    }

    /// The request that asks the server for the address of `peer`.
    pub fn lookup_request(&self, peer: PeerIdentifier) -> (datagram: Vec<u8>)
        ensures
            is_control_datagram(datagram@, (ControlView::LookupRequest { queried: peer })),
    {
        let request = ControlEnvelope::LookupRequest { queried: peer };
        request.encode()
    }

    /// Takes the server's answer to a lookup of `peer`. An address is kept
    /// for later messages and handed back. The answer that there is no such
    /// peer, and a datagram that is no answer to this lookup, are errors and
    /// leave the peer as it was.
    pub fn server_lookup_uuid(&mut self, peer: PeerIdentifier, response: &[u8]) -> (found: Result<
        NetworkAddress,
        ClientError,
    >)
        ensures
            lookup_outcome(peer, response@) matches Resolution::Found(address) ==> {
                &&& found == Ok::<NetworkAddress, ClientError>(address)
                &&& final(self)@ == (ClientView {
                    cache: old(self)@.cache.insert(peer, address),
                    ..old(self)@
                })
            },
            lookup_outcome(peer, response@) is NotFound ==> {
                &&& found matches Err(ClientError::PeerNotFoundError(message))
                &&& message@ == "No peer matching provided UUID"@
                &&& final(self)@ == old(self)@
            },
            lookup_outcome(peer, response@) is Invalid ==> {
                &&& found matches Err(ClientError::ServerUnavailableError(message))
                &&& message@ == "Invalid response from server"@
                &&& final(self)@ == old(self)@
            },
    {
        match ControlEnvelope::decode(response) {
            Ok(ControlEnvelope::LookupResponse { queried, resolved }) => {
                if queried == peer {
                    return match resolved {
                        Some(address) => {
                            self.peer_map.insert(peer.value, address);
                            assert(self@.cache =~= old(self)@.cache.insert(peer, address));
                            Ok(address)
                        },
                        None => Err(
                            ClientError::PeerNotFoundError(
                                String::from_str("No peer matching provided UUID"),
                            ),
                        ),
                    };
                }
            },
            _ => {},
        }
        Err(ClientError::ServerUnavailableError(String::from_str("Invalid response from server")))
    }

    /// What to send for a message to `peer`: the message itself, stamped
    /// with the peer's own identifier and the time given, where the address
    /// of `peer` is known; a lookup where it is not.
    pub fn send_message(&self, peer: PeerIdentifier, msg_data: &str, now: Timestamp) -> (next:
        Outgoing)
        ensures
            is_next_step(self@, peer, msg_data@, now@, next),
    {
        match self.resolve(peer) {
            Some(to) => {
                let message = Message {
                    dst_uuid: peer,
                    src_uuid: self.uuid,
                    creation_time: now,
                    data: String::from_str(msg_data),
                };
                Outgoing::Deliver { to, datagram: message.encode() }
            },
            None => Outgoing::Lookup {
                peer,
                to: self.server_addr,
                datagram: self.lookup_request(peer),
            },
        }
    }

    /// One turn of the loop that sends: takes the destination as the user
    /// typed it and the text of the message, and says what to send. Spaces
    /// and line feeds in the destination do not count.
    pub fn outgoing_traff_loop(&self, dst_uuid: &str, msg: &str, now: Timestamp) -> (next:
        Outgoing)
        ensures
            match identifier_of_text(without_padding(dst_uuid@)) {
                Some(peer) => is_next_step(self@, peer, msg@, now@, next),
                None => next is InvalidDestination,
            },
    {
        let destination = strip_padding(dst_uuid);
        match PeerIdentifier::parse(destination.as_str()) {
            Some(peer) => self.send_message(peer, msg, now),
            None => Outgoing::InvalidDestination,
        }
    }

    /// One turn of the loop that receives: a datagram that reads as a
    /// message joins the end of the queue; any other datagram is an error
    /// and leaves the queue as it was.
    pub fn incoming_traff_loop(&mut self, datagram: &[u8]) -> (accepted: Result<(), MessageError>)
        ensures
            message_of_datagram(datagram@) matches Ok(message) ==> {
                &&& accepted is Ok
                &&& final(self)@ == (ClientView {
                    queue: old(self)@.queue.push(message),
                    ..old(self)@
                })
            },
            message_of_datagram(datagram@) matches Err(error) ==> {
                &&& accepted matches Err(MessageError::JsonParseError(cause))
                &&& cause == error
                &&& final(self)@ == old(self)@
            },
    {
        match Message::decode(datagram) {
            Ok(message) => {
                self.recv_queue.push_back(message);
                assert(self@.queue =~= old(self)@.queue.push(message@));
                Ok(())
            },
            Err(cause) => Err(MessageError::JsonParseError(cause)),
        }
    }

    /// One turn of the loop that shows: hands out the messages that wait,
    /// in the order in which they arrived, and leaves the queue empty.
    pub fn display_loop(&mut self) -> (delivered: Vec<Message>)
        ensures
            delivered@ == old(self).recv_queue@,
            message_views(delivered@) == old(self)@.queue,
            final(self)@ == (ClientView { queue: Seq::empty(), ..old(self)@ }),
    {
        let mut delivered: Vec<Message> = Vec::new();
        while self.recv_queue.len() > 0
            invariant
                delivered@ + self.recv_queue@ == old(self).recv_queue@,
                self.listening_addr == old(self).listening_addr,
                self.server_addr == old(self).server_addr,
                self.peer_map == old(self).peer_map,
                self.uuid == old(self).uuid,
            decreases self.recv_queue.len(),
        {
            let ghost before = self.recv_queue@;
            match self.recv_queue.pop_front() {
                Some(message) => {
                    proof {
                        assert(delivered@.push(message) + self.recv_queue@ =~= delivered@
                            + before);
                    }
                    delivered.push(message);
                },
                None => {},
            }
        }
        proof {
            assert(delivered@ =~= old(self).recv_queue@);
            assert(self@.queue =~= Seq::empty());
        }
        delivered
    }
}

} // verus!
