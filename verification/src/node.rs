use vstd::prelude::*;
use crate::model::{Node, State};

verus! {

/// A leader's answer to a client looking for it.
#[derive(PartialEq, Eq, Structural, Clone, Copy, Debug)]
pub struct LeaderDiscovered {
    pub id: u32,
}

impl Node {
    /// Answers a client looking for the leader: a leader names itself, any
    /// other node stays silent.
    pub fn handle_discover_leader(&self) -> (answer: Option<LeaderDiscovered>)
        ensures
            answer == if self.state == State::LEADER {
                Some(LeaderDiscovered { id: self.id })
            } else {
                None
            },
    {
        if self.state == State::LEADER {
            Some(LeaderDiscovered { id: self.id })
        } else {
            None
        }
    }
}

} // verus!
