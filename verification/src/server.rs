//! The rendezvous server: the registry of peers and the answers to the
//! datagrams that reach it.

use crate::address::NetworkAddress;
use crate::envelope::{control_of_datagram, is_control_datagram, ControlEnvelope, ControlView};
use crate::error::NodeError;
use crate::fields::STATUS_OK;
use crate::identifier::{is_random_value, PeerIdentifier};
use std::collections::HashMap;
use vstd::prelude::*;

verus! {

broadcast use vstd::std_specs::hash::group_hash_axioms;

/// The lowest port that the server accepts to listen on.
pub const MIN_PORT_NUMBER: u16 = 50_000;

/// What the server knows of the peers: the address of each registered
/// identifier.
pub type Registry = Map<PeerIdentifier, NetworkAddress>;

/// A peer as the server has it on record.
#[derive(Clone, Copy, Debug, PartialEq, Eq, Structural)]
pub struct PeerNode {
    pub id: PeerIdentifier,
    pub addr: NetworkAddress,
}

/// The state of the rendezvous server. Its view is the registry.
pub struct ServerNode {
    listening_addr: NetworkAddress,
    peers: HashMap<u128, PeerNode>,
}

impl View for ServerNode {
    type V = Registry;

    closed spec fn view(&self) -> Registry {
        Map::new(
            |id: PeerIdentifier| self.peers@.contains_key(id.value),
            |id: PeerIdentifier| self.peers@[id.value].addr,
        )
    }
}

/// The address on record for an identifier, if there is one.
pub open spec fn registry_lookup(registry: Registry, id: PeerIdentifier) -> Option<
    NetworkAddress,
> {
    if registry.contains_key(id) {
        Some(registry[id])
    } else {
        None
    }
}

/// The response to a registration that succeeded.
pub open spec fn registration_accepted(assigned: PeerIdentifier) -> ControlView {
    ControlView::RegistrationResponse { status: STATUS_OK@, assigned }
}

/// The response to a lookup.
pub open spec fn lookup_answer(registry: Registry, queried: PeerIdentifier) -> ControlView {
    ControlView::LookupResponse { queried, resolved: registry_lookup(registry, queried) }
}

/// The registry after the given peers were put on record, one after the
/// other, on top of what was on record before.
pub open spec fn registry_extended(registry: Registry, peers: Seq<PeerNode>) -> Registry
    decreases peers.len(),
{
    if peers.len() == 0 {
        registry
    } else {
        registry_extended(registry, peers.drop_last()).insert(peers.last().id, peers.last().addr)
    }
}

/// The registry of a server that started empty and then put the given peers
/// on record, one after the other.
pub open spec fn registry_after(peers: Seq<PeerNode>) -> Registry {
    registry_extended(Registry::empty(), peers)
}

/// A lookup finds an identifier if and only if it was on record before or
/// one of the peers put on record since bears it.
pub proof fn lemma_lookup_in_extended_registry(
    registry: Registry,
    peers: Seq<PeerNode>,
    id: PeerIdentifier,
)
    ensures
        registry_lookup(registry_extended(registry, peers), id) is Some <==> registry.contains_key(
            id,
        ) || exists|i: int| 0 <= i < peers.len() && (#[trigger] peers[i]).id == id,
    decreases peers.len(),
{
    if peers.len() > 0 {
        let earlier = peers.drop_last();
        lemma_lookup_in_extended_registry(registry, earlier, id);
        if exists|i: int| 0 <= i < peers.len() && (#[trigger] peers[i]).id == id {
            let i = choose|i: int| 0 <= i < peers.len() && (#[trigger] peers[i]).id == id;
            if i < earlier.len() {
                assert(earlier[i].id == id);
            }
        }
        if exists|i: int| 0 <= i < earlier.len() && (#[trigger] earlier[i]).id == id {
            let i = choose|i: int| 0 <= i < earlier.len() && (#[trigger] earlier[i]).id == id;
            assert(peers[i].id == id);
        }
        if peers.last().id == id {
            assert(peers[peers.len() - 1].id == id);
        }
    }
}

/// A server that started empty finds no identifier but those that it has
/// handed out: a lookup succeeds if and only if a registration before it
/// put a peer on record under the identifier asked for.
pub proof fn lemma_lookup_finds_only_registered(peers: Seq<PeerNode>, id: PeerIdentifier)
    ensures
        registry_lookup(registry_after(peers), id) is Some <==> exists|i: int|
            0 <= i < peers.len() && (#[trigger] peers[i]).id == id,
{
    lemma_lookup_in_extended_registry(Registry::empty(), peers, id);
}

/// The address on record for an identifier stays the same, whatever peers
/// register later under other identifiers.
pub proof fn lemma_lookup_is_stable(registry: Registry, later: Seq<PeerNode>, id: PeerIdentifier)
    requires
        forall|i: int| 0 <= i < later.len() ==> (#[trigger] later[i]).id != id,
    ensures
        registry_lookup(registry_extended(registry, later), id) == registry_lookup(registry, id),
    decreases later.len(),
{
    if later.len() > 0 {
        let earlier = later.drop_last();
        assert forall|i: int| 0 <= i < earlier.len() implies (#[trigger] earlier[i]).id != id by {
            assert(later[i].id != id);
        }
        lemma_lookup_is_stable(registry, earlier, id);
        assert(later[later.len() - 1].id != id);
    }
}

/// Asking twice gives the same answer: the answer to a lookup depends on the
/// registry and the identifier alone, and a lookup leaves the registry as it
/// is.
pub proof fn lemma_lookup_answer_repeats(
    registry: Registry,
    later: Seq<PeerNode>,
    queried: PeerIdentifier,
)
    requires
        forall|i: int| 0 <= i < later.len() ==> (#[trigger] later[i]).id != queried,
    ensures
        lookup_answer(registry_extended(registry, later), queried) == lookup_answer(
            registry,
            queried,
        ),
{
    lemma_lookup_is_stable(registry, later, queried);
}

impl ServerNode {
    #[verifier::type_invariant]
    closed spec fn well_formed(&self) -> bool {
        forall|key: u128|
            self.peers@.contains_key(key) ==> (#[trigger] self.peers@[key]).id.value == key
    }

    /// The address that the server listens on.
    pub closed spec fn spec_listening_addr(&self) -> NetworkAddress {
        self.listening_addr
    }

    /// A server for the given port of the local host, with no peer on
    /// record. Ports below `MIN_PORT_NUMBER` are refused.
    pub fn build(port: u16) -> (built: Result<ServerNode, NodeError>)
        ensures
            match built {
                Ok(server) => port >= MIN_PORT_NUMBER && server@ == Registry::empty()
                    && server.spec_listening_addr() == (NetworkAddress {
                    a: 127,
                    b: 0,
                    c: 0,
                    d: 1,
                    port,
                }),
                Err(error) => {
                    &&& port < MIN_PORT_NUMBER
                    &&& error matches NodeError::NodeCreationError(message)
                    &&& message@ == "Select higher port number"@
                },
            },
    {
        if port < MIN_PORT_NUMBER {
            return Err(NodeError::NodeCreationError(String::from_str("Select higher port number")));
        }
        let server = ServerNode {
            listening_addr: NetworkAddress::loopback(port),
            peers: HashMap::new(),
        };
        assert(server@ =~= Registry::empty());
        Ok(server)
    }

    /// The address that the server listens on.
    #[verifier::when_used_as_spec(spec_listening_addr)]
    pub fn listening_addr(&self) -> (address: NetworkAddress)
        ensures
            address == self.spec_listening_addr(),
    {
        self.listening_addr
    }

    /// Puts a peer on record. A peer that was on record under the same
    /// identifier is replaced.
    pub fn add_peer(&mut self, peer: PeerNode)
        ensures
            final(self)@ == old(self)@.insert(peer.id, peer.addr),
            final(self).spec_listening_addr() == old(self).spec_listening_addr(),
    {
        proof {
            use_type_invariant(&*self);
        }
        let mut peers: HashMap<u128, PeerNode> = HashMap::new();
        core::mem::swap(&mut self.peers, &mut peers);
        peers.insert(peer.id.value, peer);
        core::mem::swap(&mut self.peers, &mut peers);
        assert(self@ =~= old(self)@.insert(peer.id, peer.addr));
    }

    /// The peer on record under an identifier.
    pub fn lookup_id(&self, id: PeerIdentifier) -> (found: Option<&PeerNode>)
        ensures
            match found {
                Some(peer) => peer.id == id && registry_lookup(self@, id) == Some(peer.addr),
                None => registry_lookup(self@, id) is None,
            },
    {
        proof {
            use_type_invariant(self);
        }
        self.peers.get(&id.value)
    }

    /// Answers one datagram.
    ///
    /// A registration puts the peer on record under a fresh random
    /// identifier and is answered with that identifier. A lookup is answered
    /// with the address on record, or with none. Any other envelope gets no
    /// answer, and a datagram that is no envelope is an error; neither
    /// changes the registry.
    pub fn handle_request(&mut self, recv_bytes: &[u8]) -> (outcome: Result<
        Option<Vec<u8>>,
        NodeError,
    >)
        ensures
            final(self).spec_listening_addr() == old(self).spec_listening_addr(),
            control_of_datagram(recv_bytes@) matches Ok(
                ControlView::Registration { reply_address },
            ) ==> {
                &&& outcome matches Ok(Some(reply))
                &&& exists|assigned: PeerIdentifier|
                    {
                        &&& is_random_value(assigned.value)
                        &&& final(self)@ == #[trigger] old(self)@.insert(assigned, reply_address)
                        &&& is_control_datagram(reply@, registration_accepted(assigned))
                    }
            },
            control_of_datagram(recv_bytes@) matches Ok(ControlView::LookupRequest { queried }) ==> {
                &&& outcome matches Ok(Some(reply))
                &&& final(self)@ == old(self)@
                &&& is_control_datagram(reply@, lookup_answer(old(self)@, queried))
            },
            control_of_datagram(recv_bytes@) matches Ok(envelope) && !(envelope is Registration)
                && !(envelope is LookupRequest) ==> {
                &&& outcome matches Ok(None)
                &&& final(self)@ == old(self)@
            },
            control_of_datagram(recv_bytes@) matches Err(error) ==> {
                &&& outcome matches Err(NodeError::JsonParseError(cause))
                &&& cause == error
                &&& final(self)@ == old(self)@
            },
    {
        match ControlEnvelope::decode(recv_bytes) {
            Ok(ControlEnvelope::Registration { reply_address }) => {
                let (assigned, reply) = self.handle_registration(reply_address);
                assert(control_of_datagram(recv_bytes@) matches Ok(
                    ControlView::Registration { reply_address: requested },
                ) && requested == reply_address);
                Ok(Some(reply))
            },
            Ok(ControlEnvelope::LookupRequest { queried }) => Ok(Some(self.handle_lookup(queried))),
            Ok(_) => Ok(None),
            Err(cause) => Err(NodeError::JsonParseError(cause)),
        }
    }

    /// The answer to a lookup.
    pub fn handle_lookup(&self, queried: PeerIdentifier) -> (reply: Vec<u8>)
        ensures
            is_control_datagram(reply@, lookup_answer(self@, queried)),
    {
        let resolved = match self.lookup_id(queried) {
            Some(peer) => Some(peer.addr),
            None => None,
        };
        let response = ControlEnvelope::LookupResponse { queried, resolved };
        response.encode()
    }

    /// Registers a peer under a fresh random identifier. Gives the identifier
    /// and the answer, which tells the peer its identifier.
    pub fn handle_registration(&mut self, reply_address: NetworkAddress) -> (registered: (
        PeerIdentifier,
        Vec<u8>,
    ))
        ensures
            is_random_value(registered.0.value),
            !registered.0.is_nil(),
            final(self)@ == old(self)@.insert(registered.0, reply_address),
            final(self).spec_listening_addr() == old(self).spec_listening_addr(),
            is_control_datagram(registered.1@, registration_accepted(registered.0)),
    {
        let assigned = PeerIdentifier::random();
        let reply = self.register(assigned, reply_address);
        (assigned, reply)
    }

    /// Registers a peer under the identifier given and gives the answer,
    /// which tells the peer its identifier.
    pub fn register(&mut self, assigned: PeerIdentifier, reply_address: NetworkAddress) -> (reply:
        Vec<u8>)
        ensures
            final(self)@ == old(self)@.insert(assigned, reply_address),
            final(self).spec_listening_addr() == old(self).spec_listening_addr(),
            is_control_datagram(reply@, registration_accepted(assigned)),
    {
        self.add_peer(PeerNode { id: assigned, addr: reply_address });
        let response = ControlEnvelope::RegistrationResponse {
            status: String::from_str(STATUS_OK),
            assigned,
        };
        response.encode()
    }
}

} // verus!
