use vstd::prelude::*;
use crate::log::{Operation, delete_op, insert_op, update_op};
use crate::model::{Node, NodeView, State};

verus! {

/// A node's answer to a client's request to change the store.
#[derive(PartialEq, Eq, Structural, Clone, Copy, Debug)]
pub enum OpResult {
    /// The node leads and has added the change to its log.
    Applied,
    /// The node does not lead; the client must find the leader.
    NotLeader,
}

/// A client's request to insert `key` with `value`.
#[derive(Debug)]
pub struct Insert {
    pub key: String,
    pub value: String,
}

/// A client's request to set `key` to `value`.
#[derive(Debug)]
pub struct Update {
    pub key: String,
    pub value: String,
}

/// A client's request to remove `key`.
#[derive(Debug)]
pub struct Delete {
    pub key: String,
}

/// What a node does with a client's request for the change `op`: a leader
/// adds it to its log and answers `Applied`; any other node changes nothing
/// and answers `NotLeader`.
pub open spec fn request_next(n: NodeView, op: Operation) -> (NodeView, OpResult) {
    if n.state == State::LEADER {
        (NodeView { log: n.log.push(op), ..n }, OpResult::Applied)
    } else {
        (n, OpResult::NotLeader)
    }
}

impl Node {
    /// Handles the insert request `msg`; see `request_next`.
    pub fn handle_insert(&mut self, msg: Insert) -> (r: OpResult)
        ensures
            (final(self)@, r) == request_next(
                old(self)@,
                insert_op(old(self)@.current_term, msg.key, msg.value),
            ),
    {
        if self.state == State::LEADER {
            let op = Operation::insert(self.current_term, msg.key, msg.value);
            self.log.append(op);
            OpResult::Applied
        } else {
            OpResult::NotLeader
        }
    }

    /// Handles the update request `msg`; see `request_next`.
    pub fn handle_update(&mut self, msg: Update) -> (r: OpResult)
        ensures
            (final(self)@, r) == request_next(
                old(self)@,
                update_op(old(self)@.current_term, msg.key, msg.value),
            ),
    {
        if self.state == State::LEADER {
            let op = Operation::update(self.current_term, msg.key, msg.value);
            self.log.append(op);
            OpResult::Applied
        } else {
            OpResult::NotLeader
        }
    }

    /// Handles the delete request `msg`; see `request_next`.
    pub fn handle_delete(&mut self, msg: Delete) -> (r: OpResult)
        ensures
            (final(self)@, r) == request_next(old(self)@, delete_op(old(self)@.current_term, msg.key)),
    {
        if self.state == State::LEADER {
            let op = Operation::delete(self.current_term, msg.key);
            self.log.append(op);
            OpResult::Applied
        } else {
            OpResult::NotLeader
        }
    }
}

} // verus!
