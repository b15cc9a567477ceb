use vstd::prelude::*;
use crate::effect::Effect;
use crate::election::{
    QUORUM, VoteFor, Voted, granted_count, new_election_round_next, vote_for_next, voted_next,
};
use crate::heartbeat::{follower_heartbeat_next, leader_gone_quiet};
use crate::log::{Operation, term_at};
use crate::model::{NodeView, State, with_heartbeat};
use crate::ops::{OpResult, request_next};

verus! {

/// Whether the last thing a node did was to grant a vote.
pub open spec fn grants_vote(effects: Seq<Effect>) -> bool {
    effects.len() > 0 && match effects.last() {
        Effect::ReplyVote { reply, .. } => reply.vote_granted,
        _ => false,
    }
}

/// What was appended last is read back at the last position, and its term is
/// the log's last term.
pub proof fn lemma_append_then_read(log: Seq<Operation>, op: Operation)
    ensures
        log.push(op)[log.len() as int] == op,
        log.push(op).len() - 1 == log.len(),
        term_at(log.push(op), log.len() as int) == op.term,
{
}

/// Truncating the log at its former length undoes an append.
pub proof fn lemma_truncate_undoes_append(log: Seq<Operation>, op: Operation)
    ensures
        log.push(op).subrange(0, log.len() as int) == log,
{
    assert(log.push(op).subrange(0, log.len() as int) =~= log);
}

/// No message a node handles lowers its term.
pub proof fn lemma_term_never_decreases(
    n: NodeView,
    now: u128,
    delay: u64,
    request: VoteFor,
    answer: Voted,
    op: Operation,
)
    requires
        n.voted_for == 0 ==> n.current_term < i64::MAX,
    ensures
        new_election_round_next(n, now).0.current_term >= n.current_term,
        vote_for_next(n, request, now).0.current_term >= n.current_term,
        voted_next(n, answer, now).0.current_term >= n.current_term,
        follower_heartbeat_next(n, now, delay).0.current_term == n.current_term,
        request_next(n, op).0.current_term == n.current_term,
        with_heartbeat(n, now).current_term == n.current_term,
{
}

/// A vote a node has given in its term is kept when another request of the
/// same term comes in.
pub proof fn lemma_vote_kept_within_term(n: NodeView, request: VoteFor, now: u128)
    requires
        n.voted_for != 0,
        request.term == n.current_term,
    ensures
        vote_for_next(n, request, now).0.voted_for == n.voted_for,
        grants_vote(vote_for_next(n, request, now).1) ==> request.candidate_id == n.voted_for,
{
}

/// Of two vote requests of the same term handled one after the other, both
/// are granted only when they come from the same candidate.
pub proof fn lemma_one_candidate_per_term(
    n: NodeView,
    first: VoteFor,
    second: VoteFor,
    now1: u128,
    now2: u128,
)
    requires
        first.term == second.term,
        first.candidate_id != 0,
        grants_vote(vote_for_next(n, first, now1).1),
        grants_vote(vote_for_next(vote_for_next(n, first, now1).0, second, now2).1),
    ensures
        first.candidate_id == second.candidate_id,
{
}

/// A node becomes the leader only by counting a quorum of granted votes as a
/// candidate; no other message makes it the leader.
pub proof fn lemma_leader_only_by_quorum(
    n: NodeView,
    now: u128,
    delay: u64,
    request: VoteFor,
    answer: Voted,
    op: Operation,
)
    requires
        n.state != State::LEADER,
    ensures
        voted_next(n, answer, now).0.state == State::LEADER ==> n.state == State::CANDIDATE
            && granted_count(voted_next(n, answer, now).0.peers) >= QUORUM,
        new_election_round_next(n, now).0.state != State::LEADER,
        vote_for_next(n, request, now).0.state != State::LEADER,
        follower_heartbeat_next(n, now, delay).0.state != State::LEADER,
        request_next(n, op).0.state != State::LEADER,
{
}

/// A node accepts a client's change only while it leads, and then adds
/// exactly that change to the end of its log and changes nothing else.
pub proof fn lemma_only_leader_accepts(n: NodeView, op: Operation)
    ensures
        (request_next(n, op).1 == OpResult::Applied) == (n.state == State::LEADER),
        n.state == State::LEADER ==> request_next(n, op).0 == (NodeView { log: n.log.push(op), ..n }),
        n.state != State::LEADER ==> request_next(n, op).0 == n,
{
}

/// A follower whose leader has gone quiet becomes a candidate that, when its
/// election timer fires, moves to the next term, votes for itself and asks
/// each of its peers for a vote.
pub proof fn lemma_quiet_leader_leads_to_election(n: NodeView, now: u128, delay: u64, later: u128)
    requires
        n.state == State::FOLLOWER,
        leader_gone_quiet(n.heartbeat, now),
        n.current_term < i64::MAX,
    ensures
        follower_heartbeat_next(n, now, delay).0.state == State::CANDIDATE,
        new_election_round_next(follower_heartbeat_next(n, now, delay).0, later).0.current_term
            == n.current_term + 1,
        new_election_round_next(follower_heartbeat_next(n, now, delay).0, later).0.voted_for == n.id,
        new_election_round_next(follower_heartbeat_next(n, now, delay).0, later).1.len()
            == n.peers.len(),
{
}

} // verus!
