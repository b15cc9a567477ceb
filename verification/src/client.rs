use vstd::prelude::*;
use crate::node::LeaderDiscovered;
use crate::ops::{Delete, Insert, OpResult, Update};
use crate::random::random_in;

verus! {

/// A client of the cluster: the ids of its members and, once found, the id
/// of the leader it sends its requests to.
pub struct Client {
    pub cluster: Vec<u32>,
    pub leader: Option<u32>,
}

/// A request a client sends to the leader.
#[derive(Debug)]
pub enum ClientRequest {
    Insert(Insert),
    Update(Update),
    Delete(Delete),
}

/// The number of request kinds a client picks from.
pub const OP_KINDS: u64 = 3;

/// The number of keys, and of values, a client picks from.
pub const CHOICES: u64 = 5;

/// The key a client uses for the choice `i`: "a" to "e".
pub open spec fn key_name(i: int) -> Seq<char> {
    if i == 0 {
        "a"@
    } else if i == 1 {
        "b"@
    } else if i == 2 {
        "c"@
    } else if i == 3 {
        "d"@
    } else {
        "e"@
    }
}

/// The value a client uses for the choice `i`: "1" to "5".
pub open spec fn value_name(i: int) -> Seq<char> {
    if i == 0 {
        "1"@
    } else if i == 1 {
        "2"@
    } else if i == 2 {
        "3"@
    } else if i == 3 {
        "4"@
    } else {
        "5"@
    }
}

/// Whether `r` is the request for the choices `op_index`, `key_index` and
/// `val_index`: kind 0 inserts, kind 1 updates, any other kind deletes.
pub open spec fn is_request_for(r: ClientRequest, op_index: int, key_index: int, val_index: int) -> bool {
    match r {
        ClientRequest::Insert(m) => op_index == 0 && m.key@ == key_name(key_index) && m.value@
            == value_name(val_index),
        ClientRequest::Update(m) => op_index == 1 && m.key@ == key_name(key_index) && m.value@
            == value_name(val_index),
        ClientRequest::Delete(m) => op_index != 0 && op_index != 1 && m.key@ == key_name(key_index),
    }
}

fn key_for(i: u64) -> (s: &'static str)
    requires
        i < CHOICES,
    ensures
        s@ == key_name(i as int),
{
    if i == 0 {
        "a"
    } else if i == 1 {
        "b"
    } else if i == 2 {
        "c"
    } else if i == 3 {
        "d"
    } else {
        "e"
    }
}

fn value_for(i: u64) -> (s: &'static str)
    requires
        i < CHOICES,
    ensures
        s@ == value_name(i as int),
{
    if i == 0 {
        "1"
    } else if i == 1 {
        "2"
    } else if i == 2 {
        "3"
    } else if i == 3 {
        "4"
    } else {
        "5"
    }
}

impl Client {
    /// A client of the members `cluster` that knows no leader yet.
    pub fn new(cluster: Vec<u32>) -> (c: Client)
        ensures
            c.cluster@ == cluster@,
            c.leader.is_none(),
    {
        Client { cluster, leader: None }
    }

    /// The members the client asks for the leader when its periodic check
    /// runs: all of them while it knows no leader, none otherwise.
    pub fn handle_leader_check(&self) -> (targets: Vec<u32>)
        ensures
            targets@ == if self.leader.is_none() {
                self.cluster@
            } else {
                Seq::empty()
            },
    {
        let mut targets: Vec<u32> = Vec::new();
        if self.leader.is_none() {
            let mut i: usize = 0;
            while i < self.cluster.len()
                invariant
                    i <= self.cluster@.len(),
                    targets@ == self.cluster@.take(i as int),
                decreases self.cluster@.len() - i,
            {
                targets.push(self.cluster[i]);
                i = i + 1;
                assert(targets@ =~= self.cluster@.take(i as int));
            }
            assert(self.cluster@.take(i as int) =~= self.cluster@);
        }
        targets
    }

    /// Takes the node that answered `msg` as the leader.
    pub fn handle_leader_discovered(&mut self, msg: &LeaderDiscovered)
        ensures
            final(self).leader == Some(msg.id),
            final(self).cluster@ == old(self).cluster@,
    {
        self.leader = Some(msg.id);
    }

    /// Forgets the leader, which turned out not to lead.
    pub fn handle_leader_lost(&mut self)
        ensures
            final(self).leader.is_none(),
            final(self).cluster@ == old(self).cluster@,
    {
        self.leader = None;
    }

    /// The request for the choices `op_index`, `key_index` and `val_index`;
    /// see `is_request_for`.
    pub fn ops_request(op_index: u64, key_index: u64, val_index: u64) -> (r: ClientRequest)
        requires
            key_index < CHOICES,
            val_index < CHOICES,
        ensures
            is_request_for(r, op_index as int, key_index as int, val_index as int),
    {
        let key = key_for(key_index).to_owned();
        let value = value_for(val_index).to_owned();
        if op_index == 0 {
            ClientRequest::Insert(Insert { key, value })
        } else if op_index == 1 {
            ClientRequest::Update(Update { key, value })
        } else {
            ClientRequest::Delete(Delete { key })
        }
    }

    /// The request the client sends when its periodic request timer runs:
    /// none while it knows no leader; otherwise it draws a kind, a key and a
    /// value and builds the request for them as `ops_request` does.
    pub fn handle_ops_loop(&self) -> (r: Option<ClientRequest>)
        ensures
            r.is_some() == self.leader.is_some(),
            r.is_some() ==> exists|op_index: int, key_index: int, val_index: int|
                {
                    &&& 0 <= op_index < OP_KINDS
                    &&& 0 <= key_index < CHOICES
                    &&& 0 <= val_index < CHOICES
                    &&& is_request_for(r.unwrap(), op_index, key_index, val_index)
                },
    {
        if self.leader.is_some() {
            let op_index = random_in(0, OP_KINDS);
            let key_index = random_in(0, CHOICES);
            let val_index = random_in(0, CHOICES);
            let r = Some(Client::ops_request(op_index, key_index, val_index));
            assert(is_request_for(r.unwrap(), op_index as int, key_index as int, val_index as int));
            r
        } else {
            None
        }
    }

    /// Whether the answer `result` to a request means the client's leader
    /// does not lead, so that it must forget it.
    pub fn leader_lost_after(result: &OpResult) -> (lost: bool)
        ensures
            lost == (*result == OpResult::NotLeader),
    {
        match result {
            OpResult::Applied => false,
            OpResult::NotLeader => true,
        }
    }
}

} // verus!
