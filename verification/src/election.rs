use vstd::prelude::*;
use crate::effect::{Effect, SelfMessage};
use crate::log::Operation;
use crate::model::{Node, NodeView, Peer, State, with_heartbeat};

verus! {

/// A candidate's request for the vote of a peer.
#[derive(PartialEq, Eq, Structural, Clone, Copy, Debug)]
pub struct VoteFor {
    pub candidate_id: u32,
    pub term: i64,
    pub last_log_index: i32,
    pub last_log_term: i64,
}

/// A peer's answer to a vote request.
#[derive(PartialEq, Eq, Structural, Clone, Copy, Debug)]
pub struct Voted {
    pub id: u32,
    pub term: i64,
    pub vote_granted: bool,
}

/// A leader's message to a follower, carrying the operations to replicate;
/// one with no operations is a heartbeat.
pub struct Append {
    pub id: u32,
    pub term: i64,
    pub ops: Vec<Operation>,
}

/// The number of votes a candidate needs from its peers to win an election.
pub const QUORUM: usize = 2;

/// The vote request a candidate in `term` sends to `p`.
pub open spec fn vote_request_to(id: u32, term: i64, p: Peer) -> Effect {
    Effect::RequestVote {
        to: p.id,
        request: VoteFor { candidate_id: id, term, last_log_index: -1i32, last_log_term: -1i64 },
    }
}

/// What a node does when it is told to start a new election round at `now`.
///
/// A node that has voted for no one in its term moves to the next term,
/// votes for itself and asks every peer for its vote; one that has already
/// voted gives the round up and goes back to watching for a leader.
pub open spec fn new_election_round_next(n: NodeView, now: u128) -> (NodeView, Seq<Effect>) {
    if n.voted_for == 0 {
        let term = (n.current_term + 1) as i64;
        (
            NodeView { current_term: term, voted_for: n.id, ..n },
            n.peers.map_values(|p: Peer| vote_request_to(n.id, term, p)),
        )
    } else {
        (with_heartbeat(n, now), seq![Effect::Notify(SelfMessage::FollowerHeartbeatElapseLoop)])
    }
}

/// The answer of node `n` to `candidate` in `term`.
pub open spec fn vote_reply(n: NodeView, candidate: u32, term: i64, granted: bool) -> Effect {
    Effect::ReplyVote { to: candidate, reply: Voted { id: n.id, term, vote_granted: granted } }
}

/// What a node does with the vote request `msg` received at `now`.
///
/// A request from an older term is refused. One from the node's own term is
/// granted when the node has voted for no one or already for this
/// candidate. One from a newer term makes the node a follower of that term
/// and is granted.
pub open spec fn vote_for_next(n: NodeView, msg: VoteFor, now: u128) -> (NodeView, Seq<Effect>) {
    if n.current_term > msg.term {
        (n, seq![vote_reply(n, msg.candidate_id, n.current_term, false)])
    } else if msg.term == n.current_term {
        let granted = n.voted_for == 0 || n.voted_for == msg.candidate_id;
        (
            if granted { NodeView { voted_for: msg.candidate_id, ..n } } else { n },
            seq![vote_reply(n, msg.candidate_id, n.current_term, granted)],
        )
    } else {
        (
            NodeView {
                state: State::FOLLOWER,
                current_term: msg.term,
                heartbeat: now,
                voted_for: msg.candidate_id,
                ..n
            },
            seq![
                Effect::Notify(SelfMessage::FollowerHeartbeatElapseLoop),
                vote_reply(n, msg.candidate_id, msg.term, true),
            ],
        )
    }
}

/// Peer `p` after the answer `granted` from the peer `id` was recorded.
pub open spec fn recorded_vote(p: Peer, id: u32, granted: bool) -> Peer {
    if p.id == id {
        if granted {
            Peer { is_vote_granted: true, ..p }
        } else {
            Peer { is_vote_revoked: true, ..p }
        }
    } else {
        p
    }
}

/// The number of peers that granted their vote.
pub open spec fn granted_count(peers: Seq<Peer>) -> nat
    decreases peers.len(),
{
    if peers.len() == 0 {
        0
    } else {
        granted_count(peers.drop_last()) + if peers.last().is_vote_granted { 1nat } else { 0nat }
    }
}

/// The number of peers that refused their vote.
pub open spec fn revoked_count(peers: Seq<Peer>) -> nat
    decreases peers.len(),
{
    if peers.len() == 0 {
        0
    } else {
        revoked_count(peers.drop_last()) + if peers.last().is_vote_revoked { 1nat } else { 0nat }
    }
}

/// The heartbeat a leader `n` sends to `p`.
pub open spec fn heartbeat_to(n: NodeView, p: Peer) -> Effect {
    Effect::SendHeartbeat { to: p.id, id: n.id, term: n.current_term }
}

/// The node once the answer `msg` is recorded, before it counts the votes.
pub open spec fn voted_recorded(n: NodeView, msg: Voted) -> NodeView {
    if msg.term > n.current_term {
        NodeView { state: State::FOLLOWER, current_term: msg.term, ..n }
    } else {
        NodeView { peers: n.peers.map_values(|p: Peer| recorded_vote(p, msg.id, msg.vote_granted)), ..n }
    }
}

/// What a node does with the answer `msg` to its vote request, received at
/// `now`.
///
/// An answer from a newer term makes the node a follower of that term;
/// any other answer is recorded against the peer that sent it. A candidate
/// then counts the answers: with a quorum of granted votes it becomes the
/// leader and sends every peer a heartbeat; with a quorum of refusals it
/// becomes a follower again.
pub open spec fn voted_next(n: NodeView, msg: Voted, now: u128) -> (NodeView, Seq<Effect>) {
    let n1 = voted_recorded(n, msg);
    if n1.state == State::CANDIDATE {
        let won = granted_count(n1.peers) >= QUORUM;
        let n2 = if won { NodeView { state: State::LEADER, heartbeat: now, ..n1 } } else { n1 };
        let e2 = if won {
            n1.peers.map_values(|p: Peer| heartbeat_to(n1, p)).push(
                Effect::Notify(SelfMessage::LeaderHeartbeatSendLoop),
            )
        } else {
            Seq::<Effect>::empty()
        };
        if revoked_count(n1.peers) >= QUORUM {
            (
                NodeView { state: State::FOLLOWER, heartbeat: now, ..n2 },
                e2.push(Effect::Notify(SelfMessage::FollowerHeartbeatElapseLoop)),
            )
        } else {
            (n2, e2)
        }
    } else {
        (n1, Seq::empty())
    }
}

fn count_granted(peers: &Vec<Peer>) -> (c: usize)
    ensures
        c == granted_count(peers@),
{
    let mut c: usize = 0;
    let mut i: usize = 0;
    while i < peers.len()
        invariant
            i <= peers@.len(),
            c == granted_count(peers@.take(i as int)),
            c <= i,
        decreases peers@.len() - i,
    {
        assert(peers@.take(i as int + 1).drop_last() =~= peers@.take(i as int));
        if peers[i].is_vote_granted {
            c = c + 1;
        }
        i = i + 1;
    }
    assert(peers@.take(i as int) =~= peers@);
    c
}

fn count_revoked(peers: &Vec<Peer>) -> (c: usize)
    ensures
        c == revoked_count(peers@),
{
    let mut c: usize = 0;
    let mut i: usize = 0;
    while i < peers.len()
        invariant
            i <= peers@.len(),
            c == revoked_count(peers@.take(i as int)),
            c <= i,
        decreases peers@.len() - i,
    {
        assert(peers@.take(i as int + 1).drop_last() =~= peers@.take(i as int));
        if peers[i].is_vote_revoked {
            c = c + 1;
        }
        i = i + 1;
    }
    assert(peers@.take(i as int) =~= peers@);
    c
}

impl Node {
    /// Starts a new election round at `now`; see `new_election_round_next`.
    pub fn handle_new_election_round(&mut self, now: u128) -> (effects: Vec<Effect>)
        requires
            old(self).voted_for == 0 ==> old(self).current_term < i64::MAX,
        ensures
            (final(self)@, effects@) == new_election_round_next(old(self)@, now),
    {
        let mut effects: Vec<Effect> = Vec::new();
        if self.voted_for == 0 {
            self.current_term = self.current_term + 1;
            self.voted_for = self.id;
            let mut i: usize = 0;
            while i < self.peers.len()
                invariant
                    i <= self.peers@.len(),
                    self.peers@ == old(self).peers@,
                    self.id == old(self).id,
                    self.current_term == old(self).current_term + 1,
                    effects@.len() == i,
                    forall|j: int|
                        0 <= j < i ==> effects@[j] == vote_request_to(
                            self.id,
                            self.current_term,
                            self.peers@[j],
                        ),
                decreases self.peers@.len() - i,
            {
                let request = VoteFor {
                    candidate_id: self.id,
                    term: self.current_term,
                    last_log_index: -1,
                    last_log_term: -1,
                };
                effects.push(Effect::RequestVote { to: self.peers[i].id, request });
                i = i + 1;
            }
            assert(effects@ =~= old(self).peers@.map_values(
                |p: Peer| vote_request_to(self.id, self.current_term, p),
            ));
        } else {
            self.reset_heartbeat(now);
            effects.push(Effect::Notify(SelfMessage::FollowerHeartbeatElapseLoop));
        }
        effects
    }

    /// Answers the vote request `msg` received at `now`; see `vote_for_next`.
    pub fn handle_vote_for(&mut self, msg: &VoteFor, now: u128) -> (effects: Vec<Effect>)
        ensures
            (final(self)@, effects@) == vote_for_next(old(self)@, *msg, now),
    {
        let mut effects: Vec<Effect> = Vec::new();
        if self.current_term > msg.term {
            effects.push(
                Effect::ReplyVote {
                    to: msg.candidate_id,
                    reply: Voted { id: self.id, term: self.current_term, vote_granted: false },
                },
            );
        } else {
            let term_check = if msg.term == self.current_term {
                self.voted_for == 0 || self.voted_for == msg.candidate_id
            } else {
                self.state = State::FOLLOWER;
                self.current_term = msg.term;
                self.reset_heartbeat(now);
                effects.push(Effect::Notify(SelfMessage::FollowerHeartbeatElapseLoop));
                true
            };
            let log_check = true;
            let vote_granted = term_check && log_check;
            if vote_granted {
                self.voted_for = msg.candidate_id;
            }
            effects.push(
                Effect::ReplyVote {
                    to: msg.candidate_id,
                    reply: Voted { id: self.id, term: self.current_term, vote_granted },
                },
            );
        }
        effects
    }

    fn record_vote(&mut self, id: u32, granted: bool)
        ensures
            final(self)@ == (NodeView {
                peers: old(self)@.peers.map_values(|p: Peer| recorded_vote(p, id, granted)),
                ..old(self)@
            }),
    {
        let n = self.peers.len();
        let mut i: usize = 0;
        while i < n
            invariant
                n == self.peers@.len(),
                n == old(self).peers@.len(),
                0 <= i <= n,
                self.id == old(self).id,
                self.state == old(self).state,
                self.voted_for == old(self).voted_for,
                self.network@ == old(self).network@,
                self.heartbeat == old(self).heartbeat,
                self.current_term == old(self).current_term,
                self.commit_index == old(self).commit_index,
                self.log@ == old(self).log@,
                self.storage.store@ == old(self).storage.store@,
                forall|j: int|
                    0 <= j < i ==> self.peers@[j] == recorded_vote(old(self).peers@[j], id, granted),
                forall|j: int| i <= j < n ==> self.peers@[j] == old(self).peers@[j],
            decreases n - i,
        {
            let mut p = self.peers[i];
            if p.id == id {
                if granted {
                    p.is_vote_granted = true;
                } else {
                    p.is_vote_revoked = true;
                }
            }
            self.peers.set(i, p);
            i = i + 1;
        }
        assert(self.peers@ =~= old(self).peers@.map_values(
            |p: Peer| recorded_vote(p, id, granted),
        ));
    }

    /// Handles the answer `msg` to this node's vote request, received at
    /// `now`; see `voted_next`.
    pub fn handle_voted(&mut self, msg: &Voted, now: u128) -> (effects: Vec<Effect>)
        ensures
            (final(self)@, effects@) == voted_next(old(self)@, *msg, now),
    {
        if msg.term > self.current_term {
            self.state = State::FOLLOWER;
            self.current_term = msg.term;
        } else {
            self.record_vote(msg.id, msg.vote_granted);
        }
        let ghost n1 = self@;
        let mut effects: Vec<Effect> = Vec::new();
        if self.state == State::CANDIDATE {
            let vote_granted_count = count_granted(&self.peers);
            let vote_revoked_count = count_revoked(&self.peers);
            if vote_granted_count >= QUORUM {
                self.state = State::LEADER;
                self.reset_heartbeat(now);
                let mut i: usize = 0;
                while i < self.peers.len()
                    invariant
                        i <= self.peers@.len(),
                        self.peers@ == n1.peers,
                        self.id == n1.id,
                        self.current_term == n1.current_term,
                        effects@.len() == i,
                        forall|j: int| 0 <= j < i ==> effects@[j] == heartbeat_to(n1, n1.peers[j]),
                    decreases self.peers@.len() - i,
                {
                    effects.push(
                        Effect::SendHeartbeat {
                            to: self.peers[i].id,
                            id: self.id,
                            term: self.current_term,
                        },
                    );
                    i = i + 1;
                }
                effects.push(Effect::Notify(SelfMessage::LeaderHeartbeatSendLoop));
                assert(effects@ =~= n1.peers.map_values(|p: Peer| heartbeat_to(n1, p)).push(
                    Effect::Notify(SelfMessage::LeaderHeartbeatSendLoop),
                ));
            }
            if vote_revoked_count >= QUORUM {
                self.state = State::FOLLOWER;
                self.reset_heartbeat(now);
                effects.push(Effect::Notify(SelfMessage::FollowerHeartbeatElapseLoop));
            }
        }
        effects
    }

    /// Handles an append message received at `now`: the node has heard from
    /// a leader.
    pub fn handle_append(&mut self, msg: &Append, now: u128)
        ensures
            final(self)@ == with_heartbeat(old(self)@, now),
    {
        self.reset_heartbeat(now);
    }
}

} // verus!
