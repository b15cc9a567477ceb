use raft_cluster::bootstrap::Bootstrap;
use raft_cluster::effect::{Effect, SelfMessage};
use raft_cluster::model::{Node, Peer, State};
use std::collections::HashSet;

fn peer(id: u32) -> Peer {
    Peer { id, next_index: 0, match_index: 0, is_vote_granted: false, is_vote_revoked: false }
}

#[test]
fn leader_ignores_follower_check() {
    let mut n = Node::new(1);
    n.state = State::LEADER;
    assert!(n.follower_heartbeat_step(1_000_000, 5).is_empty());
    assert_eq!(n.state, State::LEADER);
}

#[test]
fn fresh_follower_stands_for_election() {
    let mut n = Node::new(1);
    n.peers.push(peer(2));
    n.peers[0].is_vote_granted = true;
    let e = n.follower_heartbeat_step(10, 1234);
    assert_eq!(e, vec![Effect::ElectionTimer { delay_ms: 1234 }]);
    assert_eq!(n.state, State::CANDIDATE);
    assert!(!n.peers[0].is_vote_granted);
}

#[test]
fn follower_with_quiet_leader_stands_for_election() {
    let mut n = Node::new(1);
    n.heartbeat = 1000;
    let e = n.follower_heartbeat_step(11_001, 7);
    assert_eq!(e, vec![Effect::ElectionTimer { delay_ms: 7 }]);
    assert_eq!(n.state, State::CANDIDATE);
}

#[test]
fn follower_with_recent_leader_checks_later() {
    let mut n = Node::new(1);
    n.heartbeat = 1000;
    let e = n.follower_heartbeat_step(11_000, 7);
    assert_eq!(
        e,
        vec![Effect::NotifyLater { message: SelfMessage::FollowerHeartbeatElapseLoop, delay_ms: 3000 }]
    );
    assert_eq!(n.state, State::FOLLOWER);
}

#[test]
fn candidate_checks_later() {
    let mut n = Node::new(1);
    n.state = State::CANDIDATE;
    let e = n.follower_heartbeat_step(99_999, 7);
    assert_eq!(
        e,
        vec![Effect::NotifyLater { message: SelfMessage::FollowerHeartbeatElapseLoop, delay_ms: 3000 }]
    );
}

#[test]
fn drawn_election_delay_is_in_range() {
    let mut seen = HashSet::new();
    for _ in 0..200 {
        let mut n = Node::new(1);
        let e = n.handle_follower_heartbeat(5);
        assert_eq!(e.len(), 1);
        match e[0] {
            Effect::ElectionTimer { delay_ms } => {
                assert!(delay_ms < 3000);
                seen.insert(delay_ms);
            }
            other => panic!("unexpected effect {:?}", other),
        }
    }
    assert!(seen.len() > 1);
}

#[test]
fn leader_sends_heartbeats_when_due() {
    let mut n = Node::new(1);
    n.state = State::LEADER;
    n.heartbeat = 100;
    n.peers.push(peer(2));
    n.peers.push(peer(3));
    let e = n.leader_heartbeat_step(5_101, &vec![10, 20]);
    assert_eq!(
        e,
        vec![
            Effect::PeerHeartbeatTimer { peer_id: 2, delay_ms: 10 },
            Effect::PeerHeartbeatTimer { peer_id: 3, delay_ms: 20 },
        ]
    );
    let later = n.leader_heartbeat_step(5_100, &vec![]);
    assert_eq!(later, vec![Effect::LeaderLoopTimer { delay_ms: 500 }]);
}

#[test]
fn non_leader_sends_no_heartbeats() {
    let n = Node::new(1);
    assert!(n.leader_heartbeat_step(1_000_000, &vec![]).is_empty());
    assert!(n.handle_leader_heartbeat(1_000_000).is_empty());
}

#[test]
fn drawn_heartbeat_delays_are_in_range() {
    let mut n = Node::new(1);
    n.state = State::LEADER;
    n.heartbeat = 1;
    for id in 2..6 {
        n.peers.push(peer(id));
    }
    let e = n.handle_leader_heartbeat(100_000);
    assert_eq!(e.len(), 4);
    for (i, eff) in e.iter().enumerate() {
        match eff {
            Effect::PeerHeartbeatTimer { peer_id, delay_ms } => {
                assert_eq!(*peer_id, i as u32 + 2);
                assert!(*delay_ms < 15000);
            }
            other => panic!("unexpected effect {:?}", other),
        }
    }
}

#[test]
fn timers_check_the_role() {
    let mut n = Node::new(4);
    n.current_term = 3;
    assert!(!n.election_timer_fired());
    assert!(!n.leader_loop_timer_fired());
    assert!(n.peer_heartbeat_timer_fired(2).is_empty());
    n.state = State::CANDIDATE;
    assert!(n.election_timer_fired());
    n.state = State::LEADER;
    assert!(n.leader_loop_timer_fired());
    assert_eq!(
        n.peer_heartbeat_timer_fired(2),
        vec![
            Effect::SendHeartbeat { to: 2, id: 4, term: 3 },
            Effect::NotifyLater { message: SelfMessage::LeaderHeartbeatSendLoop, delay_ms: 500 },
        ]
    );
}

fn members(ids: &[u32], me: u32) -> Vec<(u32, bool)> {
    ids.iter().map(|&id| (id, id == me)).collect()
}

#[test]
fn set_network_drops_self_and_duplicates() {
    let mut n = Node::new(2);
    n.set_network(&members(&[1, 2, 3, 1, 4, 3], 2));
    assert_eq!(n.network, vec![1, 3, 4]);
}

#[test]
fn set_network_keeps_an_id_named_with_another_address() {
    let mut n = Node::new(2);
    n.set_network(&vec![(2, true), (5, false), (2, false)]);
    assert_eq!(n.network, vec![5, 2]);
}

#[test]
fn pick_peer_takes_the_drawn_unpicked_member() {
    let mut n = Node::new(1);
    let mut remaining = vec![4, 5, 6];
    n.pick_peer(&mut remaining, 1);
    n.pick_peer(&mut remaining, 1);
    let ids: Vec<u32> = n.peers.iter().map(|p| p.id).collect();
    assert_eq!(ids, vec![5, 6]);
    assert_eq!(remaining, vec![4]);
    assert!(n.peers.iter().all(|p| p.next_index == 0 && p.match_index == 0 && !p.is_vote_granted && !p.is_vote_revoked));
}

#[test]
fn bootstrap_picks_three_distinct_peers() {
    let mut n = Node::new(1);
    let e = n.handle_bootstrap(&Bootstrap { peers: members(&[1, 2, 3, 4, 5, 6], 1) });
    assert_eq!(e, vec![Effect::Notify(SelfMessage::FollowerHeartbeatElapseLoop)]);
    assert_eq!(n.network, vec![2, 3, 4, 5, 6]);
    assert_eq!(n.peers.len(), 3);
    let ids: HashSet<u32> = n.peers.iter().map(|p| p.id).collect();
    assert_eq!(ids.len(), 3);
    assert!(ids.iter().all(|id| n.network.contains(id)));
}

#[test]
fn bootstrap_draws_over_the_whole_network() {
    let mut seen = HashSet::new();
    for _ in 0..200 {
        let mut n = Node::new(1);
        n.handle_bootstrap(&Bootstrap { peers: members(&[1, 2, 3, 4, 5, 6], 1) });
        for p in &n.peers {
            seen.insert(p.id);
        }
    }
    assert_eq!(seen.len(), 5);
}

#[test]
fn bootstrap_of_small_cluster_takes_everyone() {
    let mut n = Node::new(3);
    n.handle_bootstrap(&Bootstrap { peers: members(&[1, 2, 3], 3) });
    let mut ids: Vec<u32> = n.peers.iter().map(|p| p.id).collect();
    ids.sort();
    assert_eq!(ids, vec![1, 2]);
}

#[test]
fn bootstrap_alone_has_no_peers() {
    let mut n = Node::new(1);
    let e = n.handle_bootstrap(&Bootstrap { peers: members(&[1], 1) });
    assert!(n.network.is_empty());
    assert!(n.peers.is_empty());
    assert_eq!(e.len(), 1);
}

#[test]
fn bootstrap_keeps_earlier_peers() {
    let mut n = Node::new(1);
    n.peers.push(peer(9));
    n.handle_bootstrap(&Bootstrap { peers: members(&[1, 2, 3, 4, 5], 1) });
    assert_eq!(n.peers.len(), 3);
    assert_eq!(n.peers[0].id, 9);
    assert_ne!(n.peers[1].id, n.peers[2].id);
    let mut full = Node::new(1);
    for id in 10..14 {
        full.peers.push(peer(id));
    }
    full.handle_bootstrap(&Bootstrap { peers: members(&[1, 2], 1) });
    assert_eq!(full.peers.len(), 4);
}
