use vstd::prelude::*;
use crate::effect::{Effect, SelfMessage};
use crate::model::{Node, NodeView, State, with_election_reset};
use crate::random::random_in;

verus! {

/// How long, in milliseconds, a follower waits for a leader before it stands
/// for election.
pub const FOLLOWER_HEARTBEAT_INTERVAL_MS: u128 = 10000;

/// How long, in milliseconds, a leader lets pass before it sends heartbeats.
pub const LEADER_HEARTBEAT_INTERVAL_MS: u128 = 5000;

/// The upper bound, exclusive, of the random wait before an election starts.
pub const ELECTION_START_DELAY_MS: u64 = 3000;

/// How long a follower waits before it checks on its leader again.
pub const FOLLOWER_RECHECK_MS: u64 = 3000;

/// How long a leader waits before it checks again whether heartbeats are due.
pub const LEADER_RECHECK_MS: u64 = 500;

/// The upper bound, exclusive, of the random wait before a heartbeat to one
/// peer: three leader heartbeat intervals.
pub const PEER_HEARTBEAT_DELAY_MS: u64 = 15000;

/// Whether a follower that last heard from a leader at `heartbeat` has
/// waited too long at `now`.
pub open spec fn leader_gone_quiet(heartbeat: u128, now: u128) -> bool {
    heartbeat == 0 || heartbeat + FOLLOWER_HEARTBEAT_INTERVAL_MS < now
}

/// What a node does when it checks on its leader at `now`, with `delay` the
/// random wait it drew for the start of an election.
///
/// A leader does nothing. A follower whose leader has gone quiet becomes a
/// candidate and arms the election timer; any other node checks again later.
pub open spec fn follower_heartbeat_next(n: NodeView, now: u128, delay: u64) -> (
    NodeView,
    Seq<Effect>,
) {
    if n.state == State::LEADER {
        (n, Seq::empty())
    } else if n.state == State::FOLLOWER && leader_gone_quiet(n.heartbeat, now) {
        (with_election_reset(n), seq![Effect::ElectionTimer { delay_ms: delay }])
    } else {
        (
            n,
            seq![
                Effect::NotifyLater {
                    message: SelfMessage::FollowerHeartbeatElapseLoop,
                    delay_ms: FOLLOWER_RECHECK_MS,
                },
            ],
        )
    }
}

/// Whether a leader that last changed its heartbeat at `heartbeat` owes its
/// peers heartbeats at `now`.
pub open spec fn heartbeats_due(n: NodeView, now: u128) -> bool {
    n.state == State::LEADER && n.heartbeat + LEADER_HEARTBEAT_INTERVAL_MS < now
}

/// What a node does when it checks at `now` whether heartbeats are due, with
/// `delays[i]` the random wait it drew for the heartbeat to peer `i`.
///
/// A leader whose heartbeats are due arms one heartbeat timer per peer; a
/// leader whose heartbeats are not due checks again later; any other node
/// does nothing.
pub open spec fn leader_heartbeat_next(n: NodeView, now: u128, delays: Seq<u64>) -> Seq<Effect> {
    if n.state == State::LEADER {
        if heartbeats_due(n, now) {
            Seq::new(
                n.peers.len(),
                |i: int| Effect::PeerHeartbeatTimer { peer_id: n.peers[i].id, delay_ms: delays[i] },
            )
        } else {
            seq![Effect::LeaderLoopTimer { delay_ms: LEADER_RECHECK_MS }]
        }
    } else {
        Seq::empty()
    }
}

/// What a node does when the heartbeat timer for `peer_id` fires: a leader
/// sends the peer a heartbeat and checks again later whether heartbeats are
/// due; any other node does nothing.
pub open spec fn peer_heartbeat_fired_next(n: NodeView, peer_id: u32) -> Seq<Effect> {
    if n.state == State::LEADER {
        seq![
            Effect::SendHeartbeat { to: peer_id, id: n.id, term: n.current_term },
            Effect::NotifyLater {
                message: SelfMessage::LeaderHeartbeatSendLoop,
                delay_ms: LEADER_RECHECK_MS,
            },
        ]
    } else {
        Seq::empty()
    }
}

impl Node {
    /// Checks on the leader at `now`, with `delay` the wait drawn for the
    /// start of an election; see `follower_heartbeat_next`.
    pub fn follower_heartbeat_step(&mut self, now: u128, delay: u64) -> (effects: Vec<Effect>)
        requires
            old(self).state == State::FOLLOWER && old(self).heartbeat != 0 ==> old(self).heartbeat
                + FOLLOWER_HEARTBEAT_INTERVAL_MS <= u128::MAX,
        ensures
            (final(self)@, effects@) == follower_heartbeat_next(old(self)@, now, delay),
    {
        let mut effects: Vec<Effect> = Vec::new();
        if self.state == State::LEADER {
            return effects;
        } else if self.state == State::FOLLOWER && self.heartbeat == 0 {
            self.reset_election();
            effects.push(Effect::ElectionTimer { delay_ms: delay });
        } else if self.state == State::FOLLOWER && (self.heartbeat
            + FOLLOWER_HEARTBEAT_INTERVAL_MS) < now {
            self.reset_election();
            effects.push(Effect::ElectionTimer { delay_ms: delay });
        } else {
            effects.push(
                Effect::NotifyLater {
                    message: SelfMessage::FollowerHeartbeatElapseLoop,
                    delay_ms: FOLLOWER_RECHECK_MS,
                },
            );
        }
        effects
    }

    /// Checks on the leader at `now`: draws the wait for the start of an
    /// election and goes on as `follower_heartbeat_step` does with it.
    pub fn handle_follower_heartbeat(&mut self, now: u128) -> (effects: Vec<Effect>)
        requires
            old(self).state == State::FOLLOWER && old(self).heartbeat != 0 ==> old(self).heartbeat
                + FOLLOWER_HEARTBEAT_INTERVAL_MS <= u128::MAX,
        ensures
            exists|delay: u64|
                delay < ELECTION_START_DELAY_MS && (final(self)@, effects@)
                    == follower_heartbeat_next(old(self)@, now, delay),
    {
        let delay = random_in(0, ELECTION_START_DELAY_MS);
        self.follower_heartbeat_step(now, delay)
    }

    /// Checks at `now` whether heartbeats are due, with `delays[i]` the wait
    /// drawn for the heartbeat to peer `i`; see `leader_heartbeat_next`.
    pub fn leader_heartbeat_step(&self, now: u128, delays: &Vec<u64>) -> (effects: Vec<Effect>)
        requires
            self.state == State::LEADER ==> self.heartbeat + LEADER_HEARTBEAT_INTERVAL_MS
                <= u128::MAX,
            heartbeats_due(self@, now) ==> delays@.len() == self.peers@.len(),
        ensures
            effects@ == leader_heartbeat_next(self@, now, delays@),
    {
        let mut effects: Vec<Effect> = Vec::new();
        if self.state == State::LEADER {
            if (self.heartbeat + LEADER_HEARTBEAT_INTERVAL_MS) < now {
                let mut i: usize = 0;
                while i < self.peers.len()
                    invariant
                        i <= self.peers@.len(),
                        delays@.len() == self.peers@.len(),
                        effects@.len() == i,
                        forall|j: int|
                            0 <= j < i ==> effects@[j] == (Effect::PeerHeartbeatTimer {
                                peer_id: self.peers@[j].id,
                                delay_ms: delays@[j],
                            }),
                    decreases self.peers@.len() - i,
                {
                    effects.push(
                        Effect::PeerHeartbeatTimer { peer_id: self.peers[i].id, delay_ms: delays[i] },
                    );
                    i = i + 1;
                }
                assert(effects@ =~= leader_heartbeat_next(self@, now, delays@));
            } else {
                effects.push(Effect::LeaderLoopTimer { delay_ms: LEADER_RECHECK_MS });
            }
        }
        effects
    }

    /// Checks at `now` whether heartbeats are due: when they are, draws for
    /// each peer the wait before its heartbeat, and goes on as
    /// `leader_heartbeat_step` does with those waits.
    pub fn handle_leader_heartbeat(&self, now: u128) -> (effects: Vec<Effect>)
        requires
            self.state == State::LEADER ==> self.heartbeat + LEADER_HEARTBEAT_INTERVAL_MS
                <= u128::MAX,
        ensures
            exists|delays: Seq<u64>|
                {
                    &&& heartbeats_due(self@, now) ==> delays.len() == self.peers@.len()
                    &&& forall|i: int| 0 <= i < delays.len() ==> delays[i] < PEER_HEARTBEAT_DELAY_MS
                    &&& effects@ == leader_heartbeat_next(self@, now, delays)
                },
    {
        let mut delays: Vec<u64> = Vec::new();
        if self.state == State::LEADER && (self.heartbeat + LEADER_HEARTBEAT_INTERVAL_MS) < now {
            let mut i: usize = 0;
            while i < self.peers.len()
                invariant
                    i <= self.peers@.len(),
                    delays@.len() == i,
                    forall|j: int| 0 <= j < i ==> delays@[j] < PEER_HEARTBEAT_DELAY_MS,
                decreases self.peers@.len() - i,
            {
                delays.push(random_in(0, PEER_HEARTBEAT_DELAY_MS));
                i = i + 1;
            }
        }
        let effects = self.leader_heartbeat_step(now, &delays);
        effects
    }

    /// Whether, when its election timer fires, the node still stands for
    /// election and so starts a new election round.
    pub fn election_timer_fired(&self) -> (start: bool)
        ensures
            start == (self.state == State::CANDIDATE),
    {
        self.state == State::CANDIDATE
    }

    /// Whether, when its recheck timer fires, the node still leads and so
    /// checks again whether heartbeats are due.
    pub fn leader_loop_timer_fired(&self) -> (check: bool)
        ensures
            check == (self.state == State::LEADER),
    {
        self.state == State::LEADER
    }

    /// What the node does when the heartbeat timer for `peer_id` fires; see
    /// `peer_heartbeat_fired_next`.
    pub fn peer_heartbeat_timer_fired(&self, peer_id: u32) -> (effects: Vec<Effect>)
        ensures
            effects@ == peer_heartbeat_fired_next(self@, peer_id),
    {
        let mut effects: Vec<Effect> = Vec::new();
        if self.state == State::LEADER {
            effects.push(Effect::SendHeartbeat { to: peer_id, id: self.id, term: self.current_term });
            effects.push(
                Effect::NotifyLater {
                    message: SelfMessage::LeaderHeartbeatSendLoop,
                    delay_ms: LEADER_RECHECK_MS,
                },
            );
        }
        effects
    }
}

} // verus!
