//! End-to-end checks of the replication pipelines on concrete scenarios.

use bevy_pigeon::direction::{AuthorityDirection, PeerDirection};
use bevy_pigeon::envelope::{Envelope, LogicalClock, Received};
use bevy_pigeon::inbound::comp_recv;
use bevy_pigeon::outbound::{comp_send, ResyncSignal};
use bevy_pigeon::recipient::RecipientSpec;
use bevy_pigeon::record::{EntityState, Registry, ReplicationRecord, Role};
use bevy_pigeon::resolve::get_latest_msg;

fn peer_entity(net_id: u64, dir: PeerDirection, value: Vec<u8>) -> EntityState {
    EntityState {
        net_id,
        record: ReplicationRecord::new(AuthorityDirection::Inactive, dir),
        value,
        changed: false,
    }
}

fn recv(entity_id: u64, payload: Vec<u8>, send_time: Option<u32>, sender: u32) -> Received {
    Received {
        envelope: Envelope { entity_id, payload, send_time },
        sender,
    }
}

#[test]
fn duplicate_retransmission_rejected() {
    // A peer applies {7, X, 10}; a duplicate next tick is not re-applied.
    let mut reg = Registry::new();
    reg.register(peer_entity(7, PeerDirection::From, vec![0]));

    let batch = vec![recv(7, vec![b'X'], Some(10), 1)];
    comp_recv(&mut reg, Role::Peer, &batch);
    assert_eq!(reg.value_of(7).unwrap(), &vec![b'X']);
    assert_eq!(reg.record_of(7).unwrap().last_applied, Some(10));
    assert!(reg.entities[0].changed);

    // Clear the mutation flag, then deliver the duplicate.
    reg.entities[0].changed = false;
    let dup = vec![recv(7, vec![b'X'], Some(10), 1)];
    comp_recv(&mut reg, Role::Peer, &dup);
    assert_eq!(reg.record_of(7).unwrap().last_applied, Some(10));
    // Exactly one application happened: the duplicate left the entity
    // untouched, so the mutation flag stayed clear.
    assert!(!reg.entities[0].changed);
}

#[test]
fn out_of_order_batch_newest_wins() {
    // {7, Y, 12} then {7, Z, 11} in one batch: Y wins, marker ends at 12.
    let mut reg = Registry::new();
    reg.register(peer_entity(7, PeerDirection::From, vec![0]));

    let batch = vec![
        recv(7, vec![b'Y'], Some(12), 1),
        recv(7, vec![b'Z'], Some(11), 1),
    ];
    comp_recv(&mut reg, Role::Peer, &batch);
    assert_eq!(reg.value_of(7).unwrap(), &vec![b'Y']);
    assert_eq!(reg.record_of(7).unwrap().last_applied, Some(12));
}

#[test]
fn timestampless_last_write_wins() {
    // {7, P, none} then {7, Q, none}: the last arrival wins.
    let mut reg = Registry::new();
    reg.register(peer_entity(7, PeerDirection::From, vec![0]));

    let batch = vec![
        recv(7, vec![b'P'], None, 1),
        recv(7, vec![b'Q'], None, 1),
    ];
    comp_recv(&mut reg, Role::Peer, &batch);
    assert_eq!(reg.value_of(7).unwrap(), &vec![b'Q']);
    // No timestamped entry was accepted, so the marker is untouched.
    assert_eq!(reg.record_of(7).unwrap().last_applied, None);
}

#[test]
fn timestampless_applies_despite_marker() {
    // A timestamp-less update applies even when a marker is set.
    let mut reg = Registry::new();
    let mut e = peer_entity(7, PeerDirection::From, vec![0]);
    e.record.last_applied = Some(50);
    reg.register(e);

    let batch = vec![recv(7, vec![b'N'], None, 1)];
    comp_recv(&mut reg, Role::Peer, &batch);
    assert_eq!(reg.value_of(7).unwrap(), &vec![b'N']);
    assert_eq!(reg.record_of(7).unwrap().last_applied, Some(50));
}

#[test]
fn stale_update_rejected() {
    // send_time at or below the marker is never applied, even alone.
    let mut reg = Registry::new();
    let mut e = peer_entity(7, PeerDirection::From, vec![b'O']);
    e.record.last_applied = Some(10);
    reg.register(e);

    let batch = vec![recv(7, vec![b'S'], Some(10), 1)];
    comp_recv(&mut reg, Role::Peer, &batch);
    assert_eq!(reg.value_of(7).unwrap(), &vec![b'O']);
    assert_eq!(reg.record_of(7).unwrap().last_applied, Some(10));

    let older = vec![recv(7, vec![b'S'], Some(9), 1)];
    comp_recv(&mut reg, Role::Peer, &older);
    assert_eq!(reg.value_of(7).unwrap(), &vec![b'O']);
}

#[test]
fn filtered_sender_never_applied() {
    // The authority only accepts senders its `from` spec matches.
    let mut reg = Registry::new();
    reg.register(EntityState {
        net_id: 7,
        record: ReplicationRecord::new(
            AuthorityDirection::From(RecipientSpec::Include(vec![3, 5])),
            PeerDirection::Inactive,
        ),
        value: vec![b'O'],
        changed: false,
    });

    // Sender 4 fails the filter, whatever its timestamp.
    let batch = vec![recv(7, vec![b'B'], Some(99), 4)];
    comp_recv(&mut reg, Role::Authority, &batch);
    assert_eq!(reg.value_of(7).unwrap(), &vec![b'O']);
    assert_eq!(reg.record_of(7).unwrap().last_applied, None);

    // Sender 5 passes it.
    let batch2 = vec![recv(7, vec![b'G'], Some(99), 5)];
    comp_recv(&mut reg, Role::Authority, &batch2);
    assert_eq!(reg.value_of(7).unwrap(), &vec![b'G']);
    assert_eq!(reg.record_of(7).unwrap().last_applied, Some(99));
}

#[test]
fn unknown_entity_ignored() {
    // An inbound update for an unregistered entity mutates nothing.
    let mut reg = Registry::new();
    reg.register(peer_entity(7, PeerDirection::From, vec![b'O']));

    let batch = vec![recv(999, vec![b'B'], Some(5), 1)];
    comp_recv(&mut reg, Role::Peer, &batch);
    assert_eq!(reg.len(), 1);
    assert_eq!(reg.value_of(7).unwrap(), &vec![b'O']);
    assert_eq!(reg.record_of(7).unwrap().last_applied, None);
    assert_eq!(reg.resolve(999), None);
}

#[test]
fn recency_across_ticks_any_interleaving() {
    // Updates with times 1..=4 interleaved out of order over two ticks:
    // the newest payload wins in the end.
    let mut reg = Registry::new();
    reg.register(peer_entity(7, PeerDirection::From, vec![0]));

    let tick1 = vec![
        recv(7, vec![2], Some(2), 1),
        recv(7, vec![1], Some(1), 1),
    ];
    comp_recv(&mut reg, Role::Peer, &tick1);
    assert_eq!(reg.value_of(7).unwrap(), &vec![2]);

    let tick2 = vec![
        recv(7, vec![4], Some(4), 1),
        recv(7, vec![3], Some(3), 1),
    ];
    comp_recv(&mut reg, Role::Peer, &tick2);
    assert_eq!(reg.value_of(7).unwrap(), &vec![4]);
    assert_eq!(reg.record_of(7).unwrap().last_applied, Some(4));

    let tick3 = vec![recv(7, vec![3], Some(3), 1)];
    comp_recv(&mut reg, Role::Peer, &tick3);
    assert_eq!(reg.value_of(7).unwrap(), &vec![4]);
}

#[test]
fn forced_resync_sends_once() {
    // Entity 9 unchanged; the signal names it; one envelope goes to each
    // accepted peer; the next tick without a new signal sends nothing.
    let mut reg = Registry::new();
    reg.register(EntityState {
        net_id: 9,
        record: ReplicationRecord::new(
            AuthorityDirection::To(RecipientSpec::All),
            PeerDirection::Inactive,
        ),
        value: vec![b'V'],
        changed: false,
    });
    let peers = vec![1, 2, 3];
    let mut signal = ResyncSignal::new();
    signal.fire(9);

    let out = comp_send(&mut reg, Role::Authority, &peers, &mut signal, 10);
    assert_eq!(out.len(), 3);
    for (k, o) in out.iter().enumerate() {
        assert_eq!(o.to, Some(peers[k]));
        assert_eq!(o.envelope.entity_id, 9);
        assert_eq!(o.envelope.payload, vec![b'V']);
        assert_eq!(o.envelope.send_time, Some(10));
    }

    let out2 = comp_send(&mut reg, Role::Authority, &peers, &mut signal, 11);
    assert!(out2.is_empty());
}

#[test]
fn changed_entity_sent_to_matching_peers_only() {
    let mut reg = Registry::new();
    reg.register(EntityState {
        net_id: 7,
        record: ReplicationRecord::new(
            AuthorityDirection::To(RecipientSpec::Except(vec![2])),
            PeerDirection::Inactive,
        ),
        value: vec![0],
        changed: false,
    });
    assert!(reg.set_value(7, vec![b'X']));

    let peers = vec![1, 2, 3];
    let mut signal = ResyncSignal::new();
    let out = comp_send(&mut reg, Role::Authority, &peers, &mut signal, 5);
    assert_eq!(out.len(), 2);
    assert_eq!(out[0].to, Some(1));
    assert_eq!(out[1].to, Some(3));

    // The mutation flag is consumed: nothing goes out next tick.
    let out2 = comp_send(&mut reg, Role::Authority, &peers, &mut signal, 6);
    assert!(out2.is_empty());
}

#[test]
fn fire_all_resyncs_every_entity() {
    // A full resync, as when a new peer joins: every entity with a `to`
    // policy goes out once, and only once.
    let mut reg = Registry::new();
    for id in [1u64, 2, 3] {
        reg.register(EntityState {
            net_id: id,
            record: ReplicationRecord::new(
                AuthorityDirection::To(RecipientSpec::All),
                PeerDirection::Inactive,
            ),
            value: vec![id as u8],
            changed: false,
        });
    }
    let peers = vec![10];
    let mut signal = ResyncSignal::new();
    signal.fire_all(&reg);

    let out = comp_send(&mut reg, Role::Authority, &peers, &mut signal, 4);
    assert_eq!(out.len(), 3);
    for (k, o) in out.iter().enumerate() {
        assert_eq!(o.envelope.entity_id, (k + 1) as u64);
        assert_eq!(o.to, Some(10));
    }
    let out2 = comp_send(&mut reg, Role::Authority, &peers, &mut signal, 5);
    assert!(out2.is_empty());
}

#[test]
fn peer_sends_to_authority_only() {
    let mut reg = Registry::new();
    reg.register(EntityState {
        net_id: 4,
        record: ReplicationRecord::new(AuthorityDirection::Inactive, PeerDirection::To),
        value: vec![b'P'],
        changed: true,
    });
    let peers: Vec<u32> = vec![];
    let mut signal = ResyncSignal::new();
    let out = comp_send(&mut reg, Role::Peer, &peers, &mut signal, 3);
    assert_eq!(out.len(), 1);
    assert_eq!(out[0].to, None);
    assert_eq!(out[0].envelope.entity_id, 4);
    assert_eq!(out[0].envelope.payload, vec![b'P']);
    assert_eq!(out[0].envelope.send_time, Some(3));
}

#[test]
fn overlap_hazard_warned_once() {
    let mut reg = Registry::new();
    reg.register(EntityState {
        net_id: 7,
        record: ReplicationRecord::new(
            AuthorityDirection::ToFrom(RecipientSpec::All, RecipientSpec::All),
            PeerDirection::Inactive,
        ),
        value: vec![0],
        changed: false,
    });

    let batch: Vec<Received> = vec![];
    let warnings = comp_recv(&mut reg, Role::Authority, &batch);
    assert_eq!(warnings, vec![7]);
    // Already warned: the diagnostic does not repeat.
    let warnings2 = comp_recv(&mut reg, Role::Authority, &batch);
    assert!(warnings2.is_empty());
}

#[test]
fn get_latest_msg_picks_newest() {
    let msgs = vec![
        recv(7, vec![b'A'], Some(3), 1),
        recv(8, vec![b'B'], Some(9), 1),
        recv(7, vec![b'C'], Some(5), 1),
        recv(7, vec![b'D'], Some(4), 1),
    ];
    let (winner, best_time) = get_latest_msg(&msgs, None, &RecipientSpec::All, 7);
    assert_eq!(winner, Some(2));
    assert_eq!(best_time, 5);

    let (winner2, best_time2) = get_latest_msg(&msgs, Some(5), &RecipientSpec::All, 7);
    assert_eq!(winner2, None);
    assert_eq!(best_time2, 5);
}

#[test]
fn logical_clock_advances() {
    let mut clock = LogicalClock::new();
    assert_eq!(clock.current(), 1);
    clock.advance();
    clock.advance();
    assert_eq!(clock.current(), 3);
}

#[test]
fn registry_register_resolve_unregister() {
    let mut reg = Registry::new();
    reg.register(peer_entity(7, PeerDirection::From, vec![1]));
    reg.register(peer_entity(9, PeerDirection::From, vec![2]));
    assert_eq!(reg.len(), 2);
    assert_eq!(reg.resolve(7), Some(0));
    assert_eq!(reg.resolve(9), Some(1));
    assert_eq!(reg.resolve(8), None);

    assert!(reg.unregister(7));
    assert!(!reg.unregister(7));
    assert_eq!(reg.resolve(9), Some(0));
    assert_eq!(reg.len(), 1);

    assert!(!reg.set_value(7, vec![9]));
    assert!(reg.set_value(9, vec![9]));
    assert_eq!(reg.value_of(9).unwrap(), &vec![9]);
    assert!(reg.entities[0].changed);
}
