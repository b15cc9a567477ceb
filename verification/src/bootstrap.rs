use vstd::prelude::*;
use crate::effect::{Effect, SelfMessage};
use crate::model::{Node, NodeView, Peer};
use crate::random::random_in;

verus! {

/// The message that tells a node the members of the cluster: each member's
/// id, and whether that member is the node receiving the message.
pub struct Bootstrap {
    pub peers: Vec<(u32, bool)>,
}

/// The most peers a node picks to exchange votes and heartbeats with.
pub const MAX_PEERS: usize = 3;

/// The ids of the members named in `members` other than the receiving node,
/// each once, in the order in which they first appear.
pub open spec fn network_of(members: Seq<(u32, bool)>) -> Seq<u32>
    decreases members.len(),
{
    if members.len() == 0 {
        Seq::empty()
    } else {
        let rest = network_of(members.drop_last());
        let (x, is_self) = members.last();
        if is_self || rest.contains(x) {
            rest
        } else {
            rest.push(x)
        }
    }
}

/// How many peers a node with `network_len` other members wants.
pub open spec fn wanted_peers(network_len: nat) -> nat {
    if network_len < MAX_PEERS {
        network_len
    } else {
        MAX_PEERS as nat
    }
}

/// A peer `id` from which no answer has been heard yet.
pub open spec fn new_peer(id: u32) -> Peer {
    Peer { id, next_index: 0, match_index: 0, is_vote_granted: false, is_vote_revoked: false }
}

/// `network_of` holds each other member named in `members` once, and
/// nothing else.
pub proof fn lemma_network_of(members: Seq<(u32, bool)>)
    ensures
        network_of(members).no_duplicates(),
        forall|x: u32| network_of(members).contains(x) <==> members.contains((x, false)),
    decreases members.len(),
{
    if members.len() > 0 {
        let rest = network_of(members.drop_last());
        lemma_network_of(members.drop_last());
        let last = members.last();
        assert(members =~= members.drop_last().push(last));
        assert forall|x: u32| network_of(members).contains(x) <==> members.contains((x, false)) by {
            if members.contains((x, false)) {
                let k = choose|k: int| 0 <= k < members.len() && members[k] == (x, false);
                if k < members.len() - 1 {
                    assert(members.drop_last()[k] == (x, false));
                }
            }
            if members.drop_last().contains((x, false)) {
                let k = choose|k: int|
                    0 <= k < members.drop_last().len() && members.drop_last()[k] == (x, false);
                assert(members[k] == (x, false));
            }
            if last == (x, false) {
                assert(members[members.len() - 1] == (x, false));
            }
            if rest.push(last.0).contains(x) {
                let k = choose|k: int| 0 <= k < rest.push(last.0).len() && rest.push(last.0)[k] == x;
                if k < rest.len() {
                    assert(rest[k] == x);
                }
            }
            if rest.contains(x) {
                let k = choose|k: int| 0 <= k < rest.len() && rest[k] == x;
                assert(rest.push(last.0)[k] == x);
            }
            if x == last.0 {
                assert(rest.push(last.0)[rest.len() as int] == x);
            }
        }
    }
}

/// The node with the network named in `members` in place of its own.
pub open spec fn with_network(n: NodeView, members: Seq<(u32, bool)>) -> NodeView {
    NodeView { network: network_of(members), ..n }
}

/// The node, and the members it has not picked yet, after it picked the
/// `k`-th of `remaining` as a new peer.
pub open spec fn pick_peer_next(n: NodeView, remaining: Seq<u32>, k: int) -> (NodeView, Seq<u32>) {
    (NodeView { peers: n.peers.push(new_peer(remaining[k])), ..n }, remaining.remove(k))
}

/// The node, and the members it has not picked yet, after it picked one
/// new peer for each of `draws` in turn, starting from `remaining`.
pub open spec fn picks(n: NodeView, remaining: Seq<u32>, draws: Seq<int>) -> (NodeView, Seq<u32>)
    decreases draws.len(),
{
    if draws.len() == 0 {
        (n, remaining)
    } else {
        let (m, r) = picks(n, remaining, draws.drop_last());
        pick_peer_next(m, r, draws.last())
    }
}

/// Whether each of `draws` indexes the members still unpicked when it is
/// used, starting from `len` members.
pub open spec fn draws_in_range(len: nat, draws: Seq<int>) -> bool {
    forall|i: int| 0 <= i < draws.len() ==> 0 <= #[trigger] draws[i] < len - i
}

/// The number of peers a node that had `had` peers ends with once it has
/// picked peers from a network of `network_len` members.
pub open spec fn peers_after_bootstrap(had: nat, network_len: nat) -> nat {
    if had < wanted_peers(network_len) {
        wanted_peers(network_len)
    } else {
        had
    }
}

/// Picking peers from members with no duplicates adds one new peer per
/// draw, each a distinct member, and removes it from the unpicked ones.
pub proof fn lemma_picks(n: NodeView, remaining: Seq<u32>, draws: Seq<int>)
    requires
        remaining.no_duplicates(),
        draws_in_range(remaining.len(), draws),
    ensures
        ({
            let (m, r) = picks(n, remaining, draws);
            &&& m == (NodeView { peers: m.peers, ..n })
            &&& m.peers.len() == n.peers.len() + draws.len()
            &&& m.peers.take(n.peers.len() as int) == n.peers
            &&& r.len() == remaining.len() - draws.len()
            &&& r.no_duplicates()
            &&& forall|x: u32| r.contains(x) ==> remaining.contains(x)
            &&& forall|i: int|
                n.peers.len() <= i < m.peers.len() ==> {
                    &&& m.peers[i] == new_peer(m.peers[i].id)
                    &&& remaining.contains(m.peers[i].id)
                    &&& !r.contains(m.peers[i].id)
                }
            &&& forall|i: int, j: int|
                n.peers.len() <= i < j < m.peers.len() ==> m.peers[i].id != m.peers[j].id
        }),
    decreases draws.len(),
{
    if draws.len() > 0 {
        let prefix = draws.drop_last();
        assert(draws_in_range(remaining.len(), prefix)) by {
            assert forall|i: int| 0 <= i < prefix.len() implies 0 <= #[trigger] prefix[i]
                < remaining.len() - i by {
                assert(prefix[i] == draws[i]);
            }
        }
        lemma_picks(n, remaining, prefix);
        let (m0, r0) = picks(n, remaining, prefix);
        let k = draws.last();
        assert(0 <= draws[draws.len() - 1] < remaining.len() - (draws.len() - 1));
        let id = r0[k];
        let r = r0.remove(k);
        let m = NodeView { peers: m0.peers.push(new_peer(id)), ..m0 };
        r0.remove_ensures(k);
        assert(r0.contains(id));
        assert forall|x: u32| r.contains(x) implies r0.contains(x) && x != id by {
            let j = choose|j: int| 0 <= j < r.len() && r[j] == x;
            if j < k {
                assert(r0[j] == x);
                assert(j != k);
            } else {
                assert(r0[j + 1] == x);
            }
        }
        assert(r.no_duplicates()) by {
            assert forall|a: int, b: int| 0 <= a < r.len() && 0 <= b < r.len() && a != b implies r[a]
                != r[b] by {
                let a0 = if a < k { a } else { a + 1 };
                let b0 = if b < k { b } else { b + 1 };
                assert(r[a] == r0[a0]);
                assert(r[b] == r0[b0]);
            }
        }
        assert(m.peers.take(n.peers.len() as int) =~= m0.peers.take(n.peers.len() as int));
        assert forall|i: int| n.peers.len() <= i < m.peers.len() implies {
            &&& m.peers[i] == new_peer(m.peers[i].id)
            &&& remaining.contains(m.peers[i].id)
            &&& !r.contains(m.peers[i].id)
        } by {
            if i < m0.peers.len() {
                assert(m.peers[i] == m0.peers[i]);
            }
        }
        assert forall|i: int, j: int| n.peers.len() <= i < j < m.peers.len() implies m.peers[i].id
            != m.peers[j].id by {
            if j == m0.peers.len() {
                assert(m.peers[i] == m0.peers[i]);
                assert(!r0.contains(m0.peers[i].id));
            } else {
                assert(m.peers[i] == m0.peers[i]);
                assert(m.peers[j] == m0.peers[j]);
            }
        }
    }
}

impl Node {
    /// Replaces the node's network by the other members named in `members`.
    pub fn set_network(&mut self, members: &Vec<(u32, bool)>)
        ensures
            final(self)@ == with_network(old(self)@, members@),
            final(self)@.network.no_duplicates(),
            forall|x: u32| final(self)@.network.contains(x) <==> members@.contains((x, false)),
    {
        let mut network: Vec<u32> = Vec::new();
        let mut i: usize = 0;
        while i < members.len()
            invariant
                i <= members@.len(),
                network@ == network_of(members@.take(i as int)),
            decreases members@.len() - i,
        {
            let (x, is_self) = members[i];
            assert(members@.take(i as int + 1).drop_last() =~= members@.take(i as int));
            let mut seen = is_self;
            let mut j: usize = 0;
            while j < network.len() && !seen
                invariant
                    j <= network@.len(),
                    seen == (is_self || exists|k: int| 0 <= k < j && network@[k] == x),
                decreases network@.len() - j,
            {
                if network[j] == x {
                    seen = true;
                }
                j = j + 1;
            }
            if !seen {
                network.push(x);
            }
            i = i + 1;
        }
        assert(members@.take(i as int) =~= members@);
        proof {
            lemma_network_of(members@);
        }
        self.network = network;
    }

    /// Picks the `k`-th of the members not picked yet, `remaining`, as a new
    /// peer; see `pick_peer_next`.
    pub fn pick_peer(&mut self, remaining: &mut Vec<u32>, k: usize)
        requires
            k < old(remaining)@.len(),
        ensures
            (final(self)@, final(remaining)@) == pick_peer_next(old(self)@, old(remaining)@, k as int),
    {
        let id = remaining.remove(k);
        self.peers.push(
            Peer { id, next_index: 0, match_index: 0, is_vote_granted: false, is_vote_revoked: false },
        );
    }

    /// Joins the cluster whose members `msg` names: the node takes the other
    /// members as its network, then, while it has fewer than `MAX_PEERS`
    /// peers and fewer than its network holds, picks a member it has not
    /// picked yet at random, each unpicked member as likely as any other,
    /// and adds it as a new peer. It then starts watching for a leader.
    pub fn handle_bootstrap(&mut self, msg: &Bootstrap) -> (effects: Vec<Effect>)
        ensures
            final(self)@.network == network_of(msg.peers@),
            exists|draws: Seq<int>|
                {
                    &&& draws.len() == peers_after_bootstrap(
                        old(self)@.peers.len(),
                        final(self)@.network.len(),
                    ) - old(self)@.peers.len()
                    &&& draws_in_range(final(self)@.network.len(), draws)
                    &&& final(self)@ == picks(
                        with_network(old(self)@, msg.peers@),
                        final(self)@.network,
                        draws,
                    ).0
                },
            final(self)@ == (NodeView {
                network: network_of(msg.peers@),
                peers: final(self)@.peers,
                ..old(self)@
            }),
            final(self)@.network.no_duplicates(),
            forall|x: u32| final(self)@.network.contains(x) <==> msg.peers@.contains((x, false)),
            final(self)@.peers.len() == peers_after_bootstrap(
                old(self)@.peers.len(),
                final(self)@.network.len(),
            ),
            final(self)@.peers.take(old(self)@.peers.len() as int) == old(self)@.peers,
            forall|i: int|
                old(self)@.peers.len() <= i < final(self)@.peers.len() ==> {
                    &&& final(self)@.peers[i] == new_peer(final(self)@.peers[i].id)
                    &&& final(self)@.network.contains(final(self)@.peers[i].id)
                },
            forall|i: int, j: int|
                old(self)@.peers.len() <= i < j < final(self)@.peers.len() ==> final(self)@.peers[i].id
                    != final(self)@.peers[j].id,
            effects@ == seq![Effect::Notify(SelfMessage::FollowerHeartbeatElapseLoop)],
    {
        self.set_network(&msg.peers);
        let total_peers = self.network.len();
        let wanted = if total_peers < MAX_PEERS { total_peers } else { MAX_PEERS };
        let ghost start = self@;
        let mut remaining = self.network.clone();
        assert(remaining@ =~= start.network);
        let ghost mut draws: Seq<int> = Seq::empty();
        while self.peers.len() < wanted
            invariant
                total_peers == start.network.len(),
                wanted == wanted_peers(total_peers as nat),
                start.network.no_duplicates(),
                draws_in_range(start.network.len(), draws),
                (self@, remaining@) == picks(start, start.network, draws),
                self@.peers.len() == start.peers.len() + draws.len(),
                remaining@.len() == start.network.len() - draws.len(),
                start.peers.len() >= wanted ==> draws.len() == 0,
                start.peers.len() < wanted ==> self@.peers.len() <= wanted,
            decreases wanted - self.peers.len(),
        {
            let k = random_in(0, remaining.len() as u64) as usize;
            self.pick_peer(&mut remaining, k);
            proof {
                let prev = draws;
                draws = draws.push(k as int);
                assert(draws.drop_last() =~= prev);
                assert(draws_in_range(start.network.len(), draws)) by {
                    assert forall|i: int| 0 <= i < draws.len() implies 0 <= #[trigger] draws[i]
                        < start.network.len() - i by {
                        if i < prev.len() {
                            assert(draws[i] == prev[i]);
                        }
                    }
                }
            }
        }
        proof {
            lemma_picks(start, start.network, draws);
            assert(start == with_network(old(self)@, msg.peers@));
            assert(self@.network == start.network);
            assert(draws.len() == peers_after_bootstrap(
                old(self)@.peers.len(),
                self@.network.len(),
            ) - old(self)@.peers.len());
            assert(self@ == picks(with_network(old(self)@, msg.peers@), self@.network, draws).0);
        }
        let mut effects: Vec<Effect> = Vec::new();
        effects.push(Effect::Notify(SelfMessage::FollowerHeartbeatElapseLoop));
        effects
    }
}

} // verus!
