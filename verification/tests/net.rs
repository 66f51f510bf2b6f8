use nano_sync::network::{
    swarm_task_step, Multiaddr, NetworkEvent, PeerId, PeerRegistry, RegistryError, SwarmAction,
    SwarmInput, SwarmOutcome,
};
use nano_sync::validator::Tendermint;

fn peer(b: u8) -> PeerId {
    PeerId { bytes: vec![b, b + 1, b + 2] }
}

#[test]
fn registry_tracks_joins_and_leaves() {
    let mut registry = PeerRegistry::new();
    assert_eq!(registry.len(), 0);
    registry.insert(peer(1)).unwrap();
    registry.insert(peer(2)).unwrap();
    assert_eq!(registry.len(), 2);
    assert!(registry.contains(&peer(1)));
    assert!(!registry.contains(&peer(3)));

    assert_eq!(registry.insert(peer(1)).unwrap_err(), RegistryError::DuplicatePeer);
    assert_eq!(registry.remove(&peer(3)).unwrap_err(), RegistryError::UnknownPeer);

    registry.remove(&peer(1)).unwrap();
    assert_eq!(registry.len(), 1);
    assert!(!registry.contains(&peer(1)));
}

#[test]
fn registry_applies_network_events() {
    let mut registry = PeerRegistry::new();
    registry.apply_event(&NetworkEvent::PeerJoined(peer(5))).unwrap();
    assert!(registry.contains(&peer(5)));
    assert_eq!(
        registry.apply_event(&NetworkEvent::PeerJoined(peer(5))).unwrap_err(),
        RegistryError::DuplicatePeer
    );
    registry.apply_event(&NetworkEvent::PeerLeft(peer(5))).unwrap();
    assert_eq!(
        registry.apply_event(&NetworkEvent::PeerLeft(peer(5))).unwrap_err(),
        RegistryError::UnknownPeer
    );
}

#[test]
fn swarm_task_decisions() {
    // Nobody subscribed: the task stops whatever arrives.
    assert!(matches!(
        swarm_task_step(0, SwarmInput::SwarmReady(Some(NetworkEvent::PeerJoined(peer(1))))),
        SwarmOutcome::Stop
    ));
    // Requested actions are performed.
    assert!(matches!(
        swarm_task_step(1, SwarmInput::ActionReady(Some(SwarmAction::Dial(peer(2))))),
        SwarmOutcome::Dial(p) if p == peer(2)
    ));
    let address = Multiaddr { address: "/memory/4".to_string() };
    assert!(matches!(
        swarm_task_step(1, SwarmInput::ActionReady(Some(SwarmAction::DialAddr(address.clone())))),
        SwarmOutcome::DialAddr(a) if a == address
    ));
    // A closed channel stops the task.
    assert!(matches!(swarm_task_step(1, SwarmInput::ActionReady(None)), SwarmOutcome::Stop));
    assert!(matches!(swarm_task_step(1, SwarmInput::SwarmReady(None)), SwarmOutcome::Stop));
    // Swarm events are broadcast.
    assert!(matches!(
        swarm_task_step(3, SwarmInput::SwarmReady(Some(NetworkEvent::PeerLeft(peer(7))))),
        SwarmOutcome::Broadcast(NetworkEvent::PeerLeft(p)) if p == peer(7)
    ));
}

#[test]
fn tendermint_driver_constructs() {
    let _driver: Tendermint = Tendermint::new();
}
