use vstd::prelude::*;
use crate::election::{VoteFor, Voted};

verus! {

/// A message a node sends to itself.
#[allow(non_camel_case_types)]
#[derive(PartialEq, Eq, Structural, Clone, Copy, Debug)]
pub enum SelfMessage {
    /// Check whether the leader has gone quiet.
    FollowerHeartbeatElapseLoop,
    /// Send heartbeats to the peers if this node leads.
    LeaderHeartbeatSendLoop,
    /// Start a new election round.
    NewElectionRound,
}

/// What a node asks its runtime to do after it handled a message.
#[derive(PartialEq, Eq, Structural, Clone, Copy, Debug)]
pub enum Effect {
    /// Deliver `SelfMessage` to this node now.
    Notify(SelfMessage),
    /// Deliver `message` to this node after `delay_ms` milliseconds.
    NotifyLater { message: SelfMessage, delay_ms: u64 },
    /// After `delay_ms` milliseconds, ask the node whether it still stands
    /// for election (`Node::election_timer_fired`).
    ElectionTimer { delay_ms: u64 },
    /// After `delay_ms` milliseconds, ask the node whether it still leads
    /// (`Node::leader_loop_timer_fired`).
    LeaderLoopTimer { delay_ms: u64 },
    /// After `delay_ms` milliseconds, let the node send its heartbeat to
    /// `peer_id` (`Node::peer_heartbeat_timer_fired`).
    PeerHeartbeatTimer { peer_id: u32, delay_ms: u64 },
    /// Send the vote request `request` to the peer `to`.
    RequestVote { to: u32, request: VoteFor },
    /// Answer the candidate `to` with `reply`.
    ReplyVote { to: u32, reply: Voted },
    /// Send the peer `to` an append message with no operations, from leader
    /// `id` in `term`.
    SendHeartbeat { to: u32, id: u32, term: i64 },
}

} // verus!
