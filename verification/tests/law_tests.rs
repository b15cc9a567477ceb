use raft_cluster::effect::Effect;
use raft_cluster::election::{VoteFor, Voted};
use raft_cluster::model::{Node, Peer, State};

fn peer(id: u32) -> Peer {
    Peer { id, next_index: 0, match_index: 0, is_vote_granted: false, is_vote_revoked: false }
}

fn granted(e: &[Effect]) -> bool {
    matches!(e.last(), Some(Effect::ReplyVote { reply: Voted { vote_granted: true, .. }, .. }))
}

#[test]
fn term_never_decreases_over_a_run() {
    let mut n = Node::new(1);
    n.peers.push(peer(2));
    n.peers.push(peer(3));
    let mut last = n.current_term;
    n.follower_heartbeat_step(5, 10);
    assert!(n.current_term >= last);
    last = n.current_term;
    n.handle_new_election_round(20);
    assert!(n.current_term > last);
    last = n.current_term;
    n.handle_voted(&Voted { id: 2, term: 0, vote_granted: false }, 30);
    assert!(n.current_term >= last);
    n.handle_vote_for(&VoteFor { candidate_id: 3, term: 0, last_log_index: -1, last_log_term: -1 }, 40);
    assert_eq!(n.current_term, 1);
    n.handle_vote_for(&VoteFor { candidate_id: 3, term: 9, last_log_index: -1, last_log_term: -1 }, 40);
    assert_eq!(n.current_term, 9);
}

#[test]
fn one_candidate_per_term() {
    let mut n = Node::new(1);
    let a = VoteFor { candidate_id: 2, term: 4, last_log_index: -1, last_log_term: -1 };
    let b = VoteFor { candidate_id: 3, term: 4, last_log_index: -1, last_log_term: -1 };
    assert!(granted(&n.handle_vote_for(&a, 1)));
    assert!(!granted(&n.handle_vote_for(&b, 2)));
}

#[test]
fn leader_only_by_quorum() {
    let mut n = Node::new(1);
    n.peers.push(peer(2));
    n.peers.push(peer(3));
    n.state = State::CANDIDATE;
    n.handle_voted(&Voted { id: 2, term: 0, vote_granted: true }, 1);
    assert_eq!(n.state, State::CANDIDATE);
    n.handle_voted(&Voted { id: 3, term: 0, vote_granted: true }, 2);
    assert_eq!(n.state, State::LEADER);
    let mut f = Node::new(5);
    f.peers.push(peer(2));
    f.peers.push(peer(3));
    f.handle_voted(&Voted { id: 2, term: 0, vote_granted: true }, 1);
    f.handle_voted(&Voted { id: 3, term: 0, vote_granted: true }, 2);
    assert_eq!(f.state, State::FOLLOWER);
}

#[test]
fn quiet_leader_leads_to_election() {
    let mut n = Node::new(1);
    n.peers.push(peer(2));
    n.heartbeat = 10;
    n.current_term = 3;
    n.follower_heartbeat_step(20_000, 100);
    assert!(n.election_timer_fired());
    let e = n.handle_new_election_round(20_100);
    assert_eq!(n.current_term, 4);
    assert_eq!(n.voted_for, 1);
    assert_eq!(e.len(), 1);
}
