use raft_cluster::effect::{Effect, SelfMessage};
use raft_cluster::election::{Append, VoteFor, Voted};
use raft_cluster::model::{Node, Peer, State};
use raft_cluster::node::LeaderDiscovered;
use raft_cluster::ops::{Delete, Insert, OpResult, Update};
use raft_cluster::log::OpType;

fn peer(id: u32) -> Peer {
    Peer { id, next_index: 0, match_index: 0, is_vote_granted: false, is_vote_revoked: false }
}

fn node_with_peers(id: u32, ids: &[u32]) -> Node {
    let mut n = Node::new(id);
    for &p in ids {
        n.peers.push(peer(p));
    }
    n
}

#[test]
fn new_node_is_a_fresh_follower() {
    let n = Node::new(7);
    assert_eq!(n.id, 7);
    assert_eq!(n.state, State::FOLLOWER);
    assert_eq!(n.heartbeat, 0);
    assert_eq!(n.voted_for, 0);
    assert_eq!(n.current_term, 0);
    assert_eq!(n.commit_index, -1);
    assert!(n.peers.is_empty());
    assert!(n.network.is_empty());
    assert!(n.log.all().is_empty());
    assert!(n.storage.store.is_empty());
}

#[test]
fn state_names() {
    assert_eq!(State::LEADER.name(), "LEADER");
    assert_eq!(State::CANDIDATE.name(), "CANDIDATE");
    assert_eq!(State::FOLLOWER.name(), "FOLLOWER");
}

#[test]
fn reset_election_clears_votes() {
    let mut n = node_with_peers(1, &[2, 3]);
    n.voted_for = 3;
    n.peers[0].is_vote_granted = true;
    n.peers[1].is_vote_revoked = true;
    n.reset_election();
    assert_eq!(n.state, State::CANDIDATE);
    assert_eq!(n.voted_for, 0);
    assert!(n.peers.iter().all(|p| !p.is_vote_granted && !p.is_vote_revoked));
}

#[test]
fn new_election_round_votes_for_self_and_asks_peers() {
    let mut n = node_with_peers(1, &[2, 3]);
    n.state = State::CANDIDATE;
    let effects = n.handle_new_election_round(100);
    assert_eq!(n.current_term, 1);
    assert_eq!(n.voted_for, 1);
    let req = VoteFor { candidate_id: 1, term: 1, last_log_index: -1, last_log_term: -1 };
    assert_eq!(
        effects,
        vec![Effect::RequestVote { to: 2, request: req }, Effect::RequestVote { to: 3, request: req }]
    );
}

#[test]
fn new_election_round_cancelled_after_voting() {
    let mut n = node_with_peers(1, &[2]);
    n.voted_for = 2;
    n.current_term = 4;
    let effects = n.handle_new_election_round(555);
    assert_eq!(n.current_term, 4);
    assert_eq!(n.heartbeat, 555);
    assert_eq!(effects, vec![Effect::Notify(SelfMessage::FollowerHeartbeatElapseLoop)]);
}

#[test]
fn vote_refused_for_older_term() {
    let mut n = Node::new(1);
    n.current_term = 5;
    let req = VoteFor { candidate_id: 2, term: 4, last_log_index: -1, last_log_term: -1 };
    let effects = n.handle_vote_for(&req, 10);
    assert_eq!(n.voted_for, 0);
    assert_eq!(
        effects,
        vec![Effect::ReplyVote { to: 2, reply: Voted { id: 1, term: 5, vote_granted: false } }]
    );
}

#[test]
fn vote_granted_once_per_term() {
    let mut n = Node::new(1);
    n.current_term = 3;
    let r2 = VoteFor { candidate_id: 2, term: 3, last_log_index: -1, last_log_term: -1 };
    let r3 = VoteFor { candidate_id: 3, term: 3, last_log_index: -1, last_log_term: -1 };
    let e1 = n.handle_vote_for(&r2, 10);
    assert_eq!(e1, vec![Effect::ReplyVote { to: 2, reply: Voted { id: 1, term: 3, vote_granted: true } }]);
    assert_eq!(n.voted_for, 2);
    let e2 = n.handle_vote_for(&r3, 11);
    assert_eq!(e2, vec![Effect::ReplyVote { to: 3, reply: Voted { id: 1, term: 3, vote_granted: false } }]);
    assert_eq!(n.voted_for, 2);
    let e3 = n.handle_vote_for(&r2, 12);
    assert_eq!(e3, vec![Effect::ReplyVote { to: 2, reply: Voted { id: 1, term: 3, vote_granted: true } }]);
}

#[test]
fn vote_for_newer_term_makes_follower() {
    let mut n = Node::new(1);
    n.state = State::LEADER;
    n.current_term = 2;
    n.voted_for = 1;
    let req = VoteFor { candidate_id: 3, term: 6, last_log_index: -1, last_log_term: -1 };
    let effects = n.handle_vote_for(&req, 999);
    assert_eq!(n.state, State::FOLLOWER);
    assert_eq!(n.current_term, 6);
    assert_eq!(n.voted_for, 3);
    assert_eq!(n.heartbeat, 999);
    assert_eq!(
        effects,
        vec![
            Effect::Notify(SelfMessage::FollowerHeartbeatElapseLoop),
            Effect::ReplyVote { to: 3, reply: Voted { id: 1, term: 6, vote_granted: true } },
        ]
    );
}

#[test]
fn candidate_wins_with_quorum() {
    let mut n = node_with_peers(1, &[2, 3, 4]);
    n.state = State::CANDIDATE;
    n.current_term = 1;
    let e1 = n.handle_voted(&Voted { id: 2, term: 1, vote_granted: true }, 50);
    assert!(e1.is_empty());
    assert_eq!(n.state, State::CANDIDATE);
    let e2 = n.handle_voted(&Voted { id: 4, term: 1, vote_granted: true }, 60);
    assert_eq!(n.state, State::LEADER);
    assert_eq!(n.heartbeat, 60);
    assert_eq!(
        e2,
        vec![
            Effect::SendHeartbeat { to: 2, id: 1, term: 1 },
            Effect::SendHeartbeat { to: 3, id: 1, term: 1 },
            Effect::SendHeartbeat { to: 4, id: 1, term: 1 },
            Effect::Notify(SelfMessage::LeaderHeartbeatSendLoop),
        ]
    );
}

#[test]
fn candidate_loses_with_quorum_of_refusals() {
    let mut n = node_with_peers(1, &[2, 3, 4]);
    n.state = State::CANDIDATE;
    n.current_term = 1;
    n.handle_voted(&Voted { id: 2, term: 1, vote_granted: false }, 50);
    let e = n.handle_voted(&Voted { id: 3, term: 1, vote_granted: false }, 70);
    assert_eq!(n.state, State::FOLLOWER);
    assert_eq!(n.heartbeat, 70);
    assert_eq!(e, vec![Effect::Notify(SelfMessage::FollowerHeartbeatElapseLoop)]);
    assert!(n.peers[0].is_vote_revoked && n.peers[1].is_vote_revoked && !n.peers[2].is_vote_revoked);
}

#[test]
fn answer_from_newer_term_makes_follower() {
    let mut n = node_with_peers(1, &[2]);
    n.state = State::CANDIDATE;
    n.current_term = 1;
    let e = n.handle_voted(&Voted { id: 2, term: 4, vote_granted: false }, 50);
    assert_eq!(n.state, State::FOLLOWER);
    assert_eq!(n.current_term, 4);
    assert!(e.is_empty());
    assert!(!n.peers[0].is_vote_revoked);
}

#[test]
fn follower_records_answers_without_counting() {
    let mut n = node_with_peers(1, &[2, 3]);
    n.handle_voted(&Voted { id: 2, term: 0, vote_granted: true }, 50);
    let e = n.handle_voted(&Voted { id: 3, term: 0, vote_granted: true }, 50);
    assert_eq!(n.state, State::FOLLOWER);
    assert!(e.is_empty());
    assert!(n.peers[0].is_vote_granted && n.peers[1].is_vote_granted);
}

#[test]
fn append_resets_heartbeat() {
    let mut n = Node::new(1);
    n.handle_append(&Append { id: 2, term: 1, ops: vec![] }, 1234);
    assert_eq!(n.heartbeat, 1234);
}

#[test]
fn leader_answers_discovery() {
    let mut n = Node::new(3);
    assert_eq!(n.handle_discover_leader(), None);
    n.state = State::LEADER;
    assert_eq!(n.handle_discover_leader(), Some(LeaderDiscovered { id: 3 }));
}

#[test]
fn only_leader_accepts_changes() {
    let mut n = Node::new(1);
    n.current_term = 2;
    let r = n.handle_insert(Insert { key: "a".to_string(), value: "1".to_string() });
    assert_eq!(r, OpResult::NotLeader);
    assert!(n.log.all().is_empty());
    n.state = State::LEADER;
    assert_eq!(n.handle_insert(Insert { key: "a".to_string(), value: "1".to_string() }), OpResult::Applied);
    assert_eq!(n.handle_update(Update { key: "a".to_string(), value: "2".to_string() }), OpResult::Applied);
    assert_eq!(n.handle_delete(Delete { key: "a".to_string() }), OpResult::Applied);
    let ops = n.log.all();
    assert_eq!(ops.len(), 3);
    assert_eq!(ops[0].optype, OpType::INSERT);
    assert_eq!(ops[0].entry.value, Some("1".to_string()));
    assert_eq!(ops[1].optype, OpType::UPDATE);
    assert_eq!(ops[1].entry.value, Some("2".to_string()));
    assert_eq!(ops[2].optype, OpType::UPDATE);
    assert_eq!(ops[2].entry.value, None);
    assert!(ops.iter().all(|o| o.term == 2));
    n.state = State::CANDIDATE;
    assert_eq!(n.handle_delete(Delete { key: "a".to_string() }), OpResult::NotLeader);
    assert_eq!(n.handle_update(Update { key: "a".to_string(), value: "3".to_string() }), OpResult::NotLeader);
    assert_eq!(n.log.all().len(), 3);
}
