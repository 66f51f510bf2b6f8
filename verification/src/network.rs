//! The decision core of the network layer.
//!
//! The transport itself — sockets, connection upgrades, the swarm's event
//! loop — is asynchronous plumbing that runs outside the library. What is
//! verified here is what that loop decides: which action each input of the
//! swarm task leads to, and how the peer registry changes on each network
//! event.

use vstd::prelude::*;

use crate::utils::{bytes_eq, copy_vec};

verus! {

/// Failure of a network operation. The transport defines no failure of its
/// own yet; the single variant only keeps the type representable, and
/// nothing constructs it.
#[derive(Clone, Copy, Debug, PartialEq, Eq, Structural)]
pub enum NetworkError {
    Unspecified,
}

/// Failure of a peer-registry update.
#[derive(Clone, Copy, Debug, PartialEq, Eq, Structural)]
pub enum RegistryError {
    /// A peer joined that the registry already holds.
    DuplicatePeer,
    /// A peer left that the registry does not hold.
    UnknownPeer,
}

/// The identity of a peer, as its encoded bytes.
#[derive(Clone, Debug, PartialEq, Eq)]
pub struct PeerId {
    pub bytes: Vec<u8>,
}

impl View for PeerId {
    type V = Seq<u8>;

    open spec fn view(&self) -> Seq<u8> {
        self.bytes@
    }
}

/// A network address, as its textual form.
#[derive(Clone, Debug, PartialEq, Eq)]
pub struct Multiaddr {
    pub address: String,
}

/// An action the swarm is asked to perform.
#[derive(Clone, Debug)]
pub enum SwarmAction {
    Dial(PeerId),
    DialAddr(Multiaddr),
}

/// An event the swarm reports.
#[derive(Clone, Debug)]
pub enum NetworkEvent {
    PeerJoined(PeerId),
    PeerLeft(PeerId),
}

/// One input of the swarm task: either the action channel or the swarm
/// itself became ready, each possibly reporting its end.
pub enum SwarmInput {
    ActionReady(Option<SwarmAction>),
    SwarmReady(Option<NetworkEvent>),
}

/// What the swarm task does with one input.
#[derive(Clone, Debug)]
pub enum SwarmOutcome {
    /// Dial the peer with this identity.
    Dial(PeerId),
    /// Dial this address.
    DialAddr(Multiaddr),
    /// Broadcast this event to the network's subscribers.
    Broadcast(NetworkEvent),
    /// Stop the task: the network or the swarm is gone.
    Stop,
}

/// The swarm task's decision for one input: it stops when nobody listens
/// any more or when a channel ends, performs each requested action, and
/// broadcasts each swarm event.
pub fn swarm_task_step(receiver_count: u64, input: SwarmInput) -> (r: SwarmOutcome)
    ensures
        receiver_count < 1 ==> r is Stop,
        receiver_count >= 1 ==> match input {
            SwarmInput::ActionReady(None) => r is Stop,
            SwarmInput::ActionReady(Some(SwarmAction::Dial(p))) => r == SwarmOutcome::Dial(p),
            SwarmInput::ActionReady(Some(SwarmAction::DialAddr(a))) => r == SwarmOutcome::DialAddr(
                a,
            ),
            SwarmInput::SwarmReady(None) => r is Stop,
            SwarmInput::SwarmReady(Some(e)) => r == SwarmOutcome::Broadcast(e),
        },
{
    if receiver_count < 1 {
        return SwarmOutcome::Stop;
    }
    match input {
        SwarmInput::ActionReady(None) => SwarmOutcome::Stop,
        SwarmInput::ActionReady(Some(SwarmAction::Dial(p))) => SwarmOutcome::Dial(p),
        SwarmInput::ActionReady(Some(SwarmAction::DialAddr(a))) => SwarmOutcome::DialAddr(a),
        SwarmInput::SwarmReady(None) => SwarmOutcome::Stop,
        SwarmInput::SwarmReady(Some(e)) => SwarmOutcome::Broadcast(e),
    }
}

/// The index of the first occurrence of `id` in `peers`, or the length if
/// there is none.
pub open spec fn first_index(peers: Seq<Seq<u8>>, id: Seq<u8>) -> int
    decreases peers.len(),
{
    if peers.len() == 0 {
        0
    } else if peers.first() == id {
        0
    } else {
        1 + first_index(peers.drop_first(), id)
    }
}

/// The set of connected peers, in join order.
pub struct PeerRegistry {
    peers: Vec<PeerId>,
}

impl View for PeerRegistry {
    type V = Seq<Seq<u8>>;

    closed spec fn view(&self) -> Seq<Seq<u8>> {
        self.peers@.map_values(|p: PeerId| p@)
    }
}

impl PeerRegistry {
    /// An empty registry.
    pub fn new() -> (r: Self)
        ensures
            r@ == Seq::<Seq<u8>>::empty(),
    {
        let r = PeerRegistry { peers: Vec::new() };
        proof {
            assert(r@ =~= Seq::<Seq<u8>>::empty());
        }
        r
    }

    /// The number of connected peers.
    pub fn len(&self) -> (r: usize)
        ensures
            r == self@.len(),
    {
        self.peers.len()
    }

    /// Whether a peer with this identity is connected.
    pub fn contains(&self, id: &PeerId) -> (r: bool)
        ensures
            r == self@.contains(id@),
    {
        let n = self.peers.len();
        for i in 0..n
            invariant
                n == self.peers@.len(),
                forall|k: int| 0 <= k < i ==> self@[k] != id@,
        {
            if bytes_eq(&self.peers[i].bytes, &id.bytes) {
                proof {
                    assert(self@[i as int] == id@);
                }
                return true;
            }
        }
        proof {
            if self@.contains(id@) {
                let k = choose|k: int| 0 <= k < self@.len() && self@[k] == id@;
                assert(self@[k] == id@);
            }
        }
        false
    }

    /// Registers a joining peer; a second join of the same identity is the
    /// duplicate the event loop treats as fatal.
    pub fn insert(&mut self, id: PeerId) -> (r: Result<(), RegistryError>)
        ensures
            r is Ok <==> !old(self)@.contains(id@),
            r is Ok ==> final(self)@ == old(self)@.push(id@),
            r is Err ==> final(self)@ == old(self)@ && r.unwrap_err()
                == RegistryError::DuplicatePeer,
    {
        if self.contains(&id) {
            return Err(RegistryError::DuplicatePeer);
        }
        let ghost old_view = self@;
        let ghost id_view = id@;
        self.peers.push(id);
        proof {
            assert(self@ =~= old_view.push(id_view));
        }
        Ok(())
    }

    /// Removes a leaving peer; the leave of an unknown identity is the
    /// inconsistency the event loop treats as fatal.
    pub fn remove(&mut self, id: &PeerId) -> (r: Result<(), RegistryError>)
        ensures
            r is Ok <==> old(self)@.contains(id@),
            r is Ok ==> final(self)@ == old(self)@.remove(first_index(old(self)@, id@)),
            r is Err ==> final(self)@ == old(self)@ && r.unwrap_err() == RegistryError::UnknownPeer,
    {
        let n = self.peers.len();
        for i in 0..n
            invariant
                self.peers@ == old(self).peers@,
                n == self.peers@.len(),
                forall|k: int| 0 <= k < i ==> self@[k] != id@,
        {
            if bytes_eq(&self.peers[i].bytes, &id.bytes) {
                let ghost old_view = self@;
                proof {
                    assert(old_view[i as int] == id@);
                    assert(old_view.contains(id@));
                    lemma_first_index_found(old_view, id@, i as int);
                }
                self.peers.remove(i);
                proof {
                    assert(self@ =~= old_view.remove(i as int));
                }
                return Ok(());
            }
        }
        proof {
            if self@.contains(id@) {
                let k = choose|k: int| 0 <= k < self@.len() && self@[k] == id@;
                assert(self@[k] == id@);
            }
        }
        Err(RegistryError::UnknownPeer)
    }

    /// Applies one network event: a join registers the peer, a leave
    /// removes it.
    pub fn apply_event(&mut self, event: &NetworkEvent) -> (r: Result<(), RegistryError>)
        ensures
            match event {
                NetworkEvent::PeerJoined(p) => {
                    &&& (r is Ok <==> !old(self)@.contains(p@))
                    &&& r is Ok ==> final(self)@ == old(self)@.push(p@)
                    &&& r is Err ==> final(self)@ == old(self)@ && r.unwrap_err()
                        == RegistryError::DuplicatePeer
                },
                NetworkEvent::PeerLeft(p) => {
                    &&& (r is Ok <==> old(self)@.contains(p@))
                    &&& r is Ok ==> final(self)@ == old(self)@.remove(first_index(old(self)@, p@))
                    &&& r is Err ==> final(self)@ == old(self)@ && r.unwrap_err()
                        == RegistryError::UnknownPeer
                },
            },
    {
        match event {
            NetworkEvent::PeerJoined(p) => self.insert(PeerId { bytes: copy_vec(&p.bytes) }),
            NetworkEvent::PeerLeft(p) => self.remove(p),
        }
    }
}

/// Where `id` first occurs at `i` and nowhere before, `first_index` is `i`.
proof fn lemma_first_index_found(peers: Seq<Seq<u8>>, id: Seq<u8>, i: int)
    requires
        0 <= i < peers.len(),
        peers[i] == id,
        forall|k: int| 0 <= k < i ==> peers[k] != id,
    ensures
        first_index(peers, id) == i,
    decreases i,
{
    if i > 0 {
        assert(peers.first() != id);
        lemma_first_index_found(peers.drop_first(), id, i - 1);
        assert(forall|k: int|
            0 <= k < i - 1 ==> peers.drop_first()[k] == peers[k + 1] && peers[k + 1] != id);
    } else {
        assert(peers.first() == id);
    }
}

} // verus!
