use vstd::prelude::*;
use crate::bootstrap::{MAX_PEERS, new_peer, wanted_peers};
use crate::client::{CHOICES, ClientRequest, OP_KINDS, is_request_for, key_name, value_name};
use crate::effect::{Effect, SelfMessage};
use crate::election::{
    VoteFor, Voted, granted_count, new_election_round_next, revoked_count, vote_for_next,
    voted_next,
};
use crate::heartbeat::{ELECTION_START_DELAY_MS, PEER_HEARTBEAT_DELAY_MS, follower_heartbeat_next, leader_heartbeat_next, peer_heartbeat_fired_next};
use crate::log::{OpType, Operation, delete_op, insert_op, term_at, update_op};
use crate::model::{NodeView, Peer, State, initial_node, state_name, with_election_reset, with_heartbeat};

verus! {

/// A peer with at least one granted vote is counted.
proof fn lemma_granted_one(s: Seq<Peer>, i: int)
    requires
        0 <= i < s.len(),
        s[i].is_vote_granted,
    ensures
        granted_count(s) >= 1,
    decreases s.len(),
{
    if i < s.len() - 1 {
        assert(s.drop_last()[i] == s[i]);
        lemma_granted_one(s.drop_last(), i);
    }
}

/// Two peers that granted their vote count as two votes.
proof fn lemma_granted_two(s: Seq<Peer>, i: int, j: int)
    requires
        0 <= i < j < s.len(),
        s[i].is_vote_granted,
        s[j].is_vote_granted,
    ensures
        granted_count(s) >= 2,
    decreases s.len(),
{
    assert(s.drop_last()[i] == s[i]);
    if j == s.len() - 1 {
        lemma_granted_one(s.drop_last(), i);
    } else {
        assert(s.drop_last()[j] == s[j]);
        lemma_granted_two(s.drop_last(), i, j);
    }
}

/// Peers none of which refused count no refusal.
proof fn lemma_revoked_none(s: Seq<Peer>)
    requires
        forall|k: int| 0 <= k < s.len() ==> !#[trigger] s[k].is_vote_revoked,
    ensures
        revoked_count(s) == 0,
    decreases s.len(),
{
    if s.len() > 0 {
        assert forall|k: int| 0 <= k < s.drop_last().len() implies !#[trigger] s.drop_last()[k].is_vote_revoked by {
            assert(s.drop_last()[k] == s[k]);
        }
        lemma_revoked_none(s.drop_last());
    }
}

/// Peers no two of which refused count at most one refusal.
proof fn lemma_revoked_at_most_one(s: Seq<Peer>)
    requires
        forall|a: int, b: int|
            0 <= a < b < s.len() ==> !(#[trigger] s[a].is_vote_revoked && #[trigger] s[b].is_vote_revoked),
    ensures
        revoked_count(s) <= 1,
    decreases s.len(),
{
    if s.len() > 0 {
        let d = s.drop_last();
        assert forall|a: int, b: int| 0 <= a < b < d.len() implies !(#[trigger] d[a].is_vote_revoked
            && #[trigger] d[b].is_vote_revoked) by {
            assert(d[a] == s[a] && d[b] == s[b]);
        }
        lemma_revoked_at_most_one(d);
        if s.last().is_vote_revoked {
            assert forall|k: int| 0 <= k < d.len() implies !#[trigger] d[k].is_vote_revoked by {
                assert(d[k] == s[k]);
                assert(s[s.len() - 1] == s.last());
            }
            lemma_revoked_none(d);
        }
    }
}

/// A node that has voted for no one in its term, told to start an election
/// round, moves to the next term and votes for itself, keeping its role and
/// everything else, and asks each of its peers, in order, for its vote in
/// that term. A node that has voted keeps its term, role and vote, notes
/// `now` as its heartbeat and goes back to watching for a leader.
pub proof fn lemma_new_election_round(n: NodeView, now: u128)
    requires
        n.voted_for == 0 ==> n.current_term < i64::MAX,
    ensures
        n.voted_for == 0 ==> {
            let (m, e) = new_election_round_next(n, now);
            &&& m.state == n.state
            &&& m.current_term == n.current_term + 1
            &&& m.voted_for == n.id
            &&& m.heartbeat == n.heartbeat
            &&& m.peers == n.peers
            &&& m.log == n.log
            &&& m.network == n.network
            &&& m.id == n.id
            &&& m.commit_index == n.commit_index
            &&& m.store == n.store
            &&& e.len() == n.peers.len()
            &&& forall|k: int|
                0 <= k < n.peers.len() ==> #[trigger] e[k] == (Effect::RequestVote {
                    to: n.peers[k].id,
                    request: VoteFor {
                        candidate_id: n.id,
                        term: (n.current_term + 1) as i64,
                        last_log_index: -1i32,
                        last_log_term: -1i64,
                    },
                })
        },
        n.voted_for != 0 ==> {
            let (m, e) = new_election_round_next(n, now);
            &&& m == (NodeView { heartbeat: now, ..n })
            &&& e == seq![Effect::Notify(SelfMessage::FollowerHeartbeatElapseLoop)]
        },
{
}

/// A vote request from an older term is refused and changes nothing. One of
/// the node's own term is granted exactly when the node has voted for no one
/// or for that candidate, and a granted vote is recorded; role and term stay.
/// One from a newer term, whatever the node's role, makes it a follower of
/// that term that votes for the candidate, notes `now` as its heartbeat,
/// goes back to watching for a leader and grants the vote.
pub proof fn lemma_vote_for(n: NodeView, msg: VoteFor, now: u128)
    ensures
        msg.term < n.current_term ==> vote_for_next(n, msg, now) == (
            n,
            seq![
                Effect::ReplyVote {
                    to: msg.candidate_id,
                    reply: Voted { id: n.id, term: n.current_term, vote_granted: false },
                },
            ],
        ),
        msg.term == n.current_term ==> {
            let granted = n.voted_for == 0 || n.voted_for == msg.candidate_id;
            let (m, e) = vote_for_next(n, msg, now);
            &&& m == (NodeView { voted_for: if granted { msg.candidate_id } else { n.voted_for }, ..n })
            &&& e == seq![
                Effect::ReplyVote {
                    to: msg.candidate_id,
                    reply: Voted { id: n.id, term: n.current_term, vote_granted: granted },
                },
            ]
        },
        msg.term > n.current_term ==> {
            let (m, e) = vote_for_next(n, msg, now);
            &&& m.state == State::FOLLOWER
            &&& m.current_term == msg.term
            &&& m.voted_for == msg.candidate_id
            &&& m.heartbeat == now
            &&& m == (NodeView {
                state: State::FOLLOWER,
                current_term: msg.term,
                voted_for: msg.candidate_id,
                heartbeat: now,
                ..n
            })
            &&& e == seq![
                Effect::Notify(SelfMessage::FollowerHeartbeatElapseLoop),
                Effect::ReplyVote {
                    to: msg.candidate_id,
                    reply: Voted { id: n.id, term: msg.term, vote_granted: true },
                },
            ]
        },
{
}

/// When a node's election state is reset it becomes a candidate that has
/// voted for no one, and every peer, in the same order, has neither granted
/// nor refused a vote; nothing else changes.
pub proof fn lemma_election_reset(n: NodeView)
    ensures
        with_election_reset(n).state == State::CANDIDATE,
        with_election_reset(n).voted_for == 0,
        with_election_reset(n).peers.len() == n.peers.len(),
        forall|k: int|
            0 <= k < n.peers.len() ==> #[trigger] with_election_reset(n).peers[k] == (Peer {
                is_vote_granted: false,
                is_vote_revoked: false,
                ..n.peers[k]
            }),
        with_election_reset(n) == (NodeView {
            state: State::CANDIDATE,
            voted_for: 0,
            peers: with_election_reset(n).peers,
            ..n
        }),
{
}

/// A leader's check on its leader changes nothing and asks for nothing. A
/// follower whose leader has never been heard from, or not for more than ten
/// seconds, becomes a candidate that has voted for no one and holds no
/// answer from any peer, and arms its election timer with the drawn delay.
/// Any other node changes nothing and checks again in three seconds.
pub proof fn lemma_follower_heartbeat(n: NodeView, now: u128, delay: u64)
    ensures
        n.state == State::LEADER ==> follower_heartbeat_next(n, now, delay) == (n, Seq::<Effect>::empty()),
        n.state == State::FOLLOWER && (n.heartbeat == 0 || n.heartbeat + 10000 < now) ==> {
            let (m, e) = follower_heartbeat_next(n, now, delay);
            &&& m.state == State::CANDIDATE
            &&& m.voted_for == 0
            &&& m.peers.len() == n.peers.len()
            &&& forall|k: int|
                0 <= k < n.peers.len() ==> #[trigger] m.peers[k] == (Peer {
                    is_vote_granted: false,
                    is_vote_revoked: false,
                    ..n.peers[k]
                })
            &&& m == (NodeView { state: State::CANDIDATE, voted_for: 0, peers: m.peers, ..n })
            &&& e == seq![Effect::ElectionTimer { delay_ms: delay }]
        },
        n.state == State::CANDIDATE || (n.state == State::FOLLOWER && n.heartbeat != 0 && n.heartbeat
            + 10000 >= now) ==> follower_heartbeat_next(n, now, delay) == (
            n,
            seq![
                Effect::NotifyLater {
                    message: SelfMessage::FollowerHeartbeatElapseLoop,
                    delay_ms: 3000,
                },
            ],
        ),
{
}

/// An answer to a vote request from the node's own or an older term is
/// recorded against the peer that sent it, and only there: that peer now
/// shows the vote as granted, or as refused, and every peer keeps its id
/// and the answers it had.
pub proof fn lemma_answer_recorded(n: NodeView, msg: Voted, now: u128)
    requires
        msg.term <= n.current_term,
    ensures
        ({
            let m = voted_next(n, msg, now).0;
            &&& m.peers.len() == n.peers.len()
            &&& m.current_term == n.current_term
            &&& forall|k: int|
                0 <= k < n.peers.len() ==> {
                    &&& (#[trigger] m.peers[k]).id == n.peers[k].id
                    &&& m.peers[k].next_index == n.peers[k].next_index
                    &&& m.peers[k].match_index == n.peers[k].match_index
                    &&& m.peers[k].is_vote_granted == (n.peers[k].is_vote_granted || (
                    n.peers[k].id == msg.id && msg.vote_granted))
                    &&& m.peers[k].is_vote_revoked == (n.peers[k].is_vote_revoked || (
                    n.peers[k].id == msg.id && !msg.vote_granted))
                }
        }),
{
}

/// An answer from a newer term makes the node a follower of that term that
/// asks for nothing.
pub proof fn lemma_newer_answer_demotes(n: NodeView, msg: Voted, now: u128)
    requires
        msg.term > n.current_term,
    ensures
        voted_next(n, msg, now) == (
            NodeView { state: State::FOLLOWER, current_term: msg.term, ..n },
            Seq::<Effect>::empty(),
        ),
{
}

/// A candidate that, once the answer is recorded, holds granted votes from
/// two peers and refusals from fewer than two becomes the leader at `now`:
/// it sends each peer, in order, a heartbeat of its term, then starts its
/// heartbeat loop.
pub proof fn lemma_quorum_of_grants_wins(n: NodeView, msg: Voted, now: u128, i: int, j: int)
    requires
        n.state == State::CANDIDATE,
        msg.term <= n.current_term,
        0 <= i < j < voted_next(n, msg, now).0.peers.len(),
        voted_next(n, msg, now).0.peers[i].is_vote_granted,
        voted_next(n, msg, now).0.peers[j].is_vote_granted,
        forall|a: int, b: int|
            0 <= a < b < voted_next(n, msg, now).0.peers.len() ==> !(
            #[trigger] voted_next(n, msg, now).0.peers[a].is_vote_revoked
                && #[trigger] voted_next(n, msg, now).0.peers[b].is_vote_revoked),
    ensures
        ({
            let (m, e) = voted_next(n, msg, now);
            &&& m.state == State::LEADER
            &&& m.heartbeat == now
            &&& m.current_term == n.current_term
            &&& e.len() == n.peers.len() + 1
            &&& forall|k: int|
                0 <= k < n.peers.len() ==> #[trigger] e[k] == (Effect::SendHeartbeat {
                    to: n.peers[k].id,
                    id: n.id,
                    term: n.current_term,
                })
            &&& e.last() == Effect::Notify(SelfMessage::LeaderHeartbeatSendLoop)
        }),
{
    let m = voted_next(n, msg, now).0;
    lemma_granted_two(m.peers, i, j);
    lemma_revoked_at_most_one(m.peers);
}

/// A candidate that, once the answer is recorded, holds refusals from two
/// peers ends as a follower at `now` and goes back to watching for a leader.
pub proof fn lemma_quorum_of_refusals_loses(n: NodeView, msg: Voted, now: u128)
    requires
        n.state == State::CANDIDATE,
        msg.term <= n.current_term,
        revoked_count(voted_next(n, msg, now).0.peers) >= 2,
    ensures
        voted_next(n, msg, now).0.state == State::FOLLOWER,
        voted_next(n, msg, now).0.heartbeat == now,
        voted_next(n, msg, now).1.last() == Effect::Notify(SelfMessage::FollowerHeartbeatElapseLoop),
{
}

/// A leader whose last heartbeat is more than five seconds before `now` arms
/// one heartbeat timer per peer, in order, with the peer's drawn delay; a
/// leader whose heartbeats are not due checks again in half a second; any
/// other node asks for nothing.
pub proof fn lemma_leader_heartbeat(n: NodeView, now: u128, delays: Seq<u64>)
    ensures
        n.state == State::LEADER && n.heartbeat + 5000 < now ==> {
            let e = leader_heartbeat_next(n, now, delays);
            &&& e.len() == n.peers.len()
            &&& forall|k: int|
                0 <= k < n.peers.len() ==> #[trigger] e[k] == (Effect::PeerHeartbeatTimer {
                    peer_id: n.peers[k].id,
                    delay_ms: delays[k],
                })
        },
        n.state == State::LEADER && n.heartbeat + 5000 >= now ==> leader_heartbeat_next(n, now, delays)
            == seq![Effect::LeaderLoopTimer { delay_ms: 500 }],
        n.state != State::LEADER ==> leader_heartbeat_next(n, now, delays) == Seq::<Effect>::empty(),
{
}

/// When a heartbeat timer fires, a leader sends that peer a heartbeat of its
/// id and term and checks again in half a second; any other node asks for
/// nothing.
pub proof fn lemma_peer_heartbeat_fired(n: NodeView, peer_id: u32)
    ensures
        n.state == State::LEADER ==> peer_heartbeat_fired_next(n, peer_id) == seq![
            Effect::SendHeartbeat { to: peer_id, id: n.id, term: n.current_term },
            Effect::NotifyLater {
                message: SelfMessage::LeaderHeartbeatSendLoop,
                delay_ms: 500,
            },
        ],
        n.state != State::LEADER ==> peer_heartbeat_fired_next(n, peer_id) == Seq::<Effect>::empty(),
{
}

/// Hearing from a leader changes only the node's heartbeat.
pub proof fn lemma_heartbeat_noted(n: NodeView, now: u128)
    ensures
        with_heartbeat(n, now).heartbeat == now,
        with_heartbeat(n, now) == (NodeView { heartbeat: now, ..n }),
{
}

/// A node that has just started is a follower of term 0 with no vote, no
/// heartbeat, commit index -1, and no network, peer, operation or stored key.
pub proof fn lemma_initial_node(id: u32)
    ensures
        initial_node(id).id == id,
        initial_node(id).state == State::FOLLOWER,
        initial_node(id).current_term == 0,
        initial_node(id).voted_for == 0,
        initial_node(id).heartbeat == 0,
        initial_node(id).commit_index == -1,
        initial_node(id).network.len() == 0,
        initial_node(id).peers.len() == 0,
        initial_node(id).log.len() == 0,
        initial_node(id).store.dom().is_empty(),
{
    assert(initial_node(id).store.dom() =~= Set::<String>::empty());
}

/// Each change a client asks for becomes an operation of the given term on
/// the given key: an insert or an update carries the value, with its own
/// kind; a deletion carries no value and the `UPDATE` kind.
pub proof fn lemma_operations(term: i64, key: String, value: String)
    ensures
        insert_op(term, key, value).term == term,
        insert_op(term, key, value).optype == OpType::INSERT,
        insert_op(term, key, value).entry.key == key,
        insert_op(term, key, value).entry.value == Some(value),
        update_op(term, key, value).term == term,
        update_op(term, key, value).optype == OpType::UPDATE,
        update_op(term, key, value).entry.key == key,
        update_op(term, key, value).entry.value == Some(value),
        delete_op(term, key).term == term,
        delete_op(term, key).optype == OpType::UPDATE,
        delete_op(term, key).entry.key == key,
        delete_op(term, key).entry.value.is_none(),
{
}

/// The client's keys for the choices 0 to 4 are "a" to "e", and its values
/// "1" to "5", in that order; the five keys, and the five values, differ.
pub proof fn lemma_key_and_value_tables()
    ensures
        key_name(0) == seq!['a'],
        key_name(1) == seq!['b'],
        key_name(2) == seq!['c'],
        key_name(3) == seq!['d'],
        key_name(4) == seq!['e'],
        value_name(0) == seq!['1'],
        value_name(1) == seq!['2'],
        value_name(2) == seq!['3'],
        value_name(3) == seq!['4'],
        value_name(4) == seq!['5'],
        forall|i: int, j: int| 0 <= i < j < 5 ==> key_name(i) != key_name(j),
        forall|i: int, j: int| 0 <= i < j < 5 ==> value_name(i) != value_name(j),
{
    reveal_strlit("a");
    reveal_strlit("b");
    reveal_strlit("c");
    reveal_strlit("d");
    reveal_strlit("e");
    reveal_strlit("1");
    reveal_strlit("2");
    reveal_strlit("3");
    reveal_strlit("4");
    reveal_strlit("5");
    assert forall|i: int, j: int| 0 <= i < j < 5 implies key_name(i) != key_name(j) by {
        assert(key_name(i)[0] != key_name(j)[0]);
    }
    assert forall|i: int, j: int| 0 <= i < j < 5 implies value_name(i) != value_name(j) by {
        assert(value_name(i)[0] != value_name(j)[0]);
    }
}

/// A request built for kind 0 is an insert, for kind 1 an update, and for
/// any other kind a deletion.
pub proof fn lemma_request_kinds(r: ClientRequest, op_index: int, key_index: int, val_index: int)
    requires
        is_request_for(r, op_index, key_index, val_index),
    ensures
        op_index == 0 <==> r is Insert,
        op_index == 1 <==> r is Update,
        (op_index != 0 && op_index != 1) <==> r is Delete,
        match r {
            ClientRequest::Insert(m) => m.key@ == key_name(key_index) && m.value@ == value_name(
                val_index,
            ),
            ClientRequest::Update(m) => m.key@ == key_name(key_index) && m.value@ == value_name(
                val_index,
            ),
            ClientRequest::Delete(m) => m.key@ == key_name(key_index),
        },
{
}

/// The roles are shown as "LEADER", "CANDIDATE" and "FOLLOWER".
pub proof fn lemma_state_names()
    ensures
        state_name(State::LEADER) == seq!['L', 'E', 'A', 'D', 'E', 'R'],
        state_name(State::CANDIDATE) == seq!['C', 'A', 'N', 'D', 'I', 'D', 'A', 'T', 'E'],
        state_name(State::FOLLOWER) == seq!['F', 'O', 'L', 'L', 'O', 'W', 'E', 'R'],
{
    reveal_strlit("LEADER");
    reveal_strlit("CANDIDATE");
    reveal_strlit("FOLLOWER");
}

/// A newly picked peer is known by its id and holds no index and no answer.
pub proof fn lemma_new_peer(id: u32)
    ensures
        new_peer(id).id == id,
        new_peer(id).next_index == 0,
        new_peer(id).match_index == 0,
        !new_peer(id).is_vote_granted,
        !new_peer(id).is_vote_revoked,
{
}

/// A node wants as many peers as its network holds, but at most three.
pub proof fn lemma_wanted_peers(network_len: nat)
    ensures
        wanted_peers(network_len) <= 3,
        wanted_peers(network_len) <= network_len,
        wanted_peers(network_len) == network_len || wanted_peers(network_len) == 3,
{
}

/// The log's term at a position is that operation's term, and 0 for an
/// empty log.
pub proof fn lemma_term_at(ops: Seq<Operation>, index: int)
    ensures
        ops.len() == 0 ==> term_at(ops, index) == 0,
        0 <= index < ops.len() ==> term_at(ops, index) == ops[index].term,
{
}

/// The ranges things are drawn from: an election starts within three
/// seconds, a heartbeat to a peer within fifteen, a client picks one of
/// three kinds and one of five keys and values, and a node picks up to
/// three peers.
pub proof fn lemma_draw_ranges()
    ensures
        ELECTION_START_DELAY_MS == 3000,
        PEER_HEARTBEAT_DELAY_MS == 15000,
        OP_KINDS == 3,
        CHOICES == 5,
        MAX_PEERS == 3,
{
}

} // verus!
