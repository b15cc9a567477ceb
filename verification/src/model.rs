use std::collections::HashMap;
use vstd::prelude::*;
use crate::log::{Operation as LogOperation, OperationLog};

verus! {

/// The kind of change a stored operation makes.
#[allow(non_camel_case_types)]
#[derive(PartialEq, Eq, Structural, Clone, Copy, Debug)]
pub enum OpType {
    INSERT,
    UPDATE,
    DELETE,
}

/// The role a node plays in the cluster.
#[allow(non_camel_case_types)]
#[derive(PartialEq, Eq, Structural, Clone, Copy, Debug)]
pub enum State {
    LEADER,
    CANDIDATE,
    FOLLOWER,
}

/// The name under which a role is shown.
pub open spec fn state_name(s: State) -> Seq<char> {
    match s {
        State::LEADER => "LEADER"@,
        State::FOLLOWER => "FOLLOWER"@,
        State::CANDIDATE => "CANDIDATE"@,
    }
}

impl State {
    /// The name under which this role is shown.
    pub fn name(&self) -> (s: &'static str)
        ensures
            s@ == state_name(*self),
    {
        match self {
            State::LEADER => "LEADER",
            State::FOLLOWER => "FOLLOWER",
            State::CANDIDATE => "CANDIDATE",
        }
    }
}

/// A key and the value stored under it.
pub struct Entry {
    pub key: String,
    pub value: String,
}

/// A stored change of the key/value store.
pub struct Operation {
    pub term: u64,
    pub optype: OpType,
    pub entry: Entry,
}

/// The key/value store a node applies operations to.
pub struct Storage {
    pub store: HashMap<String, String>,
}

/// What a node knows of one of the peers it talks to; the peer is known by
/// its id, through which the runtime finds its address.
#[derive(PartialEq, Eq, Structural, Clone, Copy, Debug)]
pub struct Peer {
    pub id: u32,
    pub next_index: u32,
    pub match_index: u32,
    pub is_vote_granted: bool,
    pub is_vote_revoked: bool,
}

/// The state of one member of the cluster.
pub struct Node {
    pub id: u32,
    /// The ids of the other members of the cluster, each once.
    pub network: Vec<u32>,
    pub state: State,
    /// The time, in milliseconds, at which the node last heard from a leader
    /// or changed its role; 0 when it never did.
    pub heartbeat: u128,
    /// The candidate this node voted for in its current term, 0 for none.
    pub voted_for: u32,
    pub current_term: i64,
    pub commit_index: i32,
    /// The peers the node exchanges votes and heartbeats with.
    pub peers: Vec<Peer>,
    pub log: OperationLog,
    pub storage: Storage,
}

/// A node's state as plain values.
pub struct NodeView {
    pub id: u32,
    pub network: Seq<u32>,
    pub state: State,
    pub heartbeat: u128,
    pub voted_for: u32,
    pub current_term: i64,
    pub commit_index: i32,
    pub peers: Seq<Peer>,
    pub log: Seq<LogOperation>,
    pub store: Map<String, String>,
}

impl View for Node {
    type V = NodeView;

    open spec fn view(&self) -> NodeView {
        NodeView {
            id: self.id,
            network: self.network@,
            state: self.state,
            heartbeat: self.heartbeat,
            voted_for: self.voted_for,
            current_term: self.current_term,
            commit_index: self.commit_index,
            peers: self.peers@,
            log: self.log@,
            store: self.storage.store@,
        }
    }
}

/// The state of a node that has just started.
pub open spec fn initial_node(id: u32) -> NodeView {
    NodeView {
        id,
        network: Seq::empty(),
        state: State::FOLLOWER,
        heartbeat: 0,
        voted_for: 0,
        current_term: 0,
        commit_index: -1i32,
        peers: Seq::empty(),
        log: Seq::empty(),
        store: Map::empty(),
    }
}

/// The node after it heard from a leader, or changed its role, at `now`.
pub open spec fn with_heartbeat(n: NodeView, now: u128) -> NodeView {
    NodeView { heartbeat: now, ..n }
}

/// A peer whose answers to the current vote request are forgotten.
pub open spec fn cleared_votes(p: Peer) -> Peer {
    Peer { is_vote_granted: false, is_vote_revoked: false, ..p }
}

/// The node as it becomes a candidate: it has voted for no one yet and has
/// no answer from any peer.
pub open spec fn with_election_reset(n: NodeView) -> NodeView {
    NodeView {
        state: State::CANDIDATE,
        voted_for: 0,
        peers: n.peers.map_values(|p: Peer| cleared_votes(p)),
        ..n
    }
}

impl Node {
    /// A node with id `id` that has just started: a follower of term 0 that
    /// knows no peer, has voted for no one and holds no operation.
    pub fn new(id: u32) -> (node: Node)
        ensures
            node@ == initial_node(id),
    {
        Node {
            id,
            network: Vec::new(),
            state: State::FOLLOWER,
            heartbeat: 0,
            voted_for: 0,
            current_term: 0,
            commit_index: -1,
            peers: Vec::new(),
            log: OperationLog::new(),
            storage: Storage { store: HashMap::new() },
        }
    }

    /// Records that the node heard from a leader, or changed its role, at `now`.
    pub fn reset_heartbeat(&mut self, now: u128)
        ensures
            final(self)@ == with_heartbeat(old(self)@, now),
    {
        self.heartbeat = now;
    }

    /// Makes the node a candidate that has voted for no one and has no answer
    /// from any peer.
    pub fn reset_election(&mut self)
        ensures
            final(self)@ == with_election_reset(old(self)@),
    {
        self.state = State::CANDIDATE;
        self.voted_for = 0;
        let n = self.peers.len();
        let mut i: usize = 0;
        while i < n
            invariant
                n == self.peers@.len(),
                n == old(self).peers@.len(),
                0 <= i <= n,
                self.state == State::CANDIDATE,
                self.voted_for == 0,
                self.id == old(self).id,
                self.network@ == old(self).network@,
                self.heartbeat == old(self).heartbeat,
                self.current_term == old(self).current_term,
                self.commit_index == old(self).commit_index,
                self.log@ == old(self).log@,
                self.storage.store@ == old(self).storage.store@,
                forall|j: int| 0 <= j < i ==> self.peers@[j] == cleared_votes(old(self).peers@[j]),
                forall|j: int| i <= j < n ==> self.peers@[j] == old(self).peers@[j],
            decreases n - i,
        {
            let mut p = self.peers[i];
            p.is_vote_granted = false;
            p.is_vote_revoked = false;
            self.peers.set(i, p);
            i = i + 1;
        }
        assert(self.peers@ =~= old(self).peers@.map_values(|p: Peer| cleared_votes(p)));
    }
}

} // verus!
