//! The graph-based strategy: a node's quorum set consists of all its
//! immediate graph neighbors plus the node itself, sorted ascending, with
//! the threshold derived from the validator count by the configured
//! policy. Each node is configured at most once.

use crate::fbas::{
    lemma_strictly_sorted_same_members_equal, strictly_sorted, Fbas, Node, NodeId, QuorumSet,
};
use crate::graph::{full_mesh_row, Graph, NodeIdSet};
use crate::safe::all_nodes_validators;
use crate::threshold::{
    calculate_threshold, lemma_threshold_bounds, threshold_spec, ThresholdPolicy,
};
use crate::{ChangeEffect, QuorumSetConfigurator};
use vstd::prelude::*;

verus! {

/// Inserts `x` into a strictly ascending vector, keeping it strictly
/// ascending; a value already present is left alone.
fn insert_sorted(v: &mut Vec<NodeId>, x: NodeId)
    requires
        strictly_sorted(old(v)@),
    ensures
        strictly_sorted(final (v)@),
        forall|y: NodeId|
            #[trigger] final (v)@.contains(y) <==> (old(v)@.contains(y) || y == x),
{
    let n = v.len();
    let mut i: usize = 0;
    while i < n && v[i] < x
        invariant
            n == v@.len(),
            i <= n,
            v@ == old(v)@,
            strictly_sorted(v@),
            forall|k: int| 0 <= k < i ==> v@[k] < x,
        decreases n - i,
    {
        i = i + 1;
    }
    if i < n && v[i] == x {
        return ;
    }
    v.insert(i, x);
    proof {
        let pre = old(v)@;
        let post = v@;
        assert(post == pre.insert(i as int, x));
        assert forall|a: int, b: int| 0 <= a < b < post.len() implies post[a] < post[b] by {
            if b < i {
                assert(post[a] == pre[a] && post[b] == pre[b]);
            } else if a > i {
                assert(post[a] == pre[a - 1] && post[b] == pre[b - 1]);
            } else if a < i && b == i {
                assert(post[a] == pre[a] && post[b] == x);
            } else if a == i && b > i {
                assert(post[a] == x && post[b] == pre[b - 1]);
                assert(pre[b - 1] >= pre[i as int]);
                assert(pre[i as int] > x);
            } else if a < i && b > i {
                assert(post[a] == pre[a] && post[b] == pre[b - 1]);
            }
        }
        assert forall|y: NodeId| post.contains(y) <==> (pre.contains(y) || y == x) by {
            if post.contains(y) {
                let j = choose|j: int| 0 <= j < post.len() && post[j] == y;
                if j < i {
                    assert(pre[j] == y);
                    assert(pre.contains(y));
                } else if j == i {
                    assert(y == x);
                } else {
                    assert(pre[j - 1] == y);
                    assert(pre.contains(y));
                }
            }
            if pre.contains(y) {
                let j = choose|j: int| 0 <= j < pre.len() && pre[j] == y;
                if j < i {
                    assert(post[j] == y);
                } else {
                    assert(post[j + 1] == y);
                }
            }
            if y == x {
                assert(post[i as int] == x);
            }
        }
    }
}

/// Makes non-nested quorum sets containing all immediate graph neighbors.
pub struct AllNeighborsQsc {
    pub graph: Graph,
    pub connected_nodes: NodeIdSet,
    pub threshold_policy: ThresholdPolicy,
}

impl AllNeighborsQsc {
    /// The cached `connected_nodes` agrees with the graph, and the policy
    /// fraction is in range.
    pub open spec fn wf(self) -> bool {
        &&& self.connected_nodes@ == self.graph.connected_nodes_spec()
        &&& self.threshold_policy.valid()
    }

    pub fn new(graph: Graph, threshold_policy: ThresholdPolicy) -> (qsc: AllNeighborsQsc)
        requires
            threshold_policy.valid(),
        ensures
            qsc.wf(),
            qsc.graph == graph,
            qsc.threshold_policy == threshold_policy,
    {
        let connected_nodes = graph.get_connected_nodes();
        AllNeighborsQsc { graph, connected_nodes, threshold_policy }
    }

    /// The canonical "safe majority" strategy: more than two thirds of the
    /// validators are required.
    pub fn new_67p(graph: Graph) -> (qsc: AllNeighborsQsc)
        ensures
            qsc.wf(),
            qsc.graph == graph,
            qsc.threshold_policy == ThresholdPolicy::Default67Percent,
    {
        Self::new(graph, ThresholdPolicy::Default67Percent)
    }

    /// An explicit relative threshold: the fraction `numerator /
    /// denominator` of the validator count, rounded up.
    pub fn new_relative(graph: Graph, numerator: usize, denominator: usize) -> (qsc:
        AllNeighborsQsc)
        requires
            1 <= numerator <= denominator,
        ensures
            qsc.wf(),
            qsc.graph == graph,
            qsc.threshold_policy == (ThresholdPolicy::Relative { numerator, denominator }),
    {
        Self::new(graph, ThresholdPolicy::Relative { numerator, denominator })
    }

    /// A node is eligible for configuration when it takes part in the
    /// graph and its quorum set is still empty.
    pub open spec fn eligible(self, fbas: Fbas, node_id: NodeId) -> bool {
        &&& self.connected_nodes@.contains(node_id)
        &&& fbas.nodes@[node_id as int].quorum_set.spec_is_empty()
    }

    /// The quorum set a successful configuration writes: the node's
    /// outgoing neighbors plus the node itself, strictly ascending, with
    /// the policy's threshold for that validator count.
    pub open spec fn configured_quorum_set(self, node_id: NodeId, qs: QuorumSet) -> bool {
        &&& strictly_sorted(qs.validators@)
        &&& forall|y: NodeId|
            #[trigger] qs.validators@.contains(y) <==> (self.graph.outlinks@[
                node_id as int
            ]@.contains(y) || y == node_id)
        &&& qs.threshold == threshold_spec(qs.validators@.len() as int, self.threshold_policy)
    }
}

impl QuorumSetConfigurator for AllNeighborsQsc {
    /// The node must be a valid FBAS index, and a node the graph marks as
    /// connected must have an adjacency entry — a connected node without
    /// one means the graph is too small for this FBAS, which the caller
    /// must treat as a configuration mismatch, not a recoverable state.
    open spec fn pre(&self, node_id: NodeId, fbas: Fbas) -> bool {
        &&& self.wf()
        &&& node_id < fbas.nodes@.len()
        &&& self.connected_nodes@.contains(node_id) ==> node_id < self.graph.outlinks@.len()
    }

    open spec fn post(
        &self,
        node_id: NodeId,
        old_fbas: Fbas,
        new_fbas: Fbas,
        effect: ChangeEffect,
    ) -> bool {
        &&& new_fbas.nodes@.len() == old_fbas.nodes@.len()
        &&& forall|j: int|
            0 <= j < old_fbas.nodes@.len() && j != node_id ==> new_fbas.nodes@[j] == old_fbas.nodes@[
                j
            ]
        &&& if self.eligible(old_fbas, node_id) {
            &&& effect == ChangeEffect::Change
            &&& self.configured_quorum_set(node_id, new_fbas.nodes@[node_id as int].quorum_set)
        } else {
            &&& effect == ChangeEffect::NoChange
            &&& new_fbas == old_fbas
        }
    }

    fn configure(&self, node_id: NodeId, fbas: &mut Fbas) -> (effect: ChangeEffect) {
        if self.connected_nodes.contains(node_id) && fbas.nodes[node_id].quorum_set.is_empty() {
            let row = &self.graph.outlinks[node_id];
            let row_len = row.len();
            let mut validators: Vec<NodeId> = Vec::new();
            for b in 0..row_len
                invariant
                    row_len == row@.len(),
                    strictly_sorted(validators@),
                    forall|y: NodeId|
                        #[trigger] validators@.contains(y) <==> exists|c: int|
                            0 <= c < b && row@[c] == y,
            {
                let target = row[b];
                insert_sorted(&mut validators, target);
                proof {
                    assert(row@[b as int] == target);
                }
            }
            insert_sorted(&mut validators, node_id);
            proof {
                assert forall|y: NodeId| validators@.contains(y) <==> (row@.contains(y) || y
                    == node_id) by {}
            }
            let threshold = calculate_threshold(validators.len(), &self.threshold_policy);
            fbas.nodes[node_id] = Node { quorum_set: QuorumSet { validators, threshold } };
            ChangeEffect::Change
        } else {
            ChangeEffect::NoChange
        }
    }
}

/// Law: configuration is configure-once. Whatever the first call for a
/// node returned, a second call for the same node is a no-op: it returns
/// `NoChange` and leaves the state exactly as the first call left it; and
/// the first call changed the state precisely when the node was eligible.
pub proof fn lemma_configure_idempotent(
    qsc: AllNeighborsQsc,
    node_id: NodeId,
    fbas0: Fbas,
    fbas1: Fbas,
    fbas2: Fbas,
    first: ChangeEffect,
    second: ChangeEffect,
)
    requires
        qsc.pre(node_id, fbas0),
        qsc.post(node_id, fbas0, fbas1, first),
        qsc.post(node_id, fbas1, fbas2, second),
    ensures
        second == ChangeEffect::NoChange,
        fbas2 == fbas1,
        first == ChangeEffect::Change <==> qsc.eligible(fbas0, node_id),
{
    if qsc.eligible(fbas0, node_id) {
        let qs = fbas1.nodes@[node_id as int].quorum_set;
        assert(qs.validators@.contains(node_id));
        assert(!qs.spec_is_empty());
        assert(!qsc.eligible(fbas1, node_id));
    }
}

/// Law: every successfully configured node is a member of its own
/// validator list.
pub proof fn lemma_self_inclusion(
    qsc: AllNeighborsQsc,
    node_id: NodeId,
    old_fbas: Fbas,
    new_fbas: Fbas,
)
    requires
        qsc.post(node_id, old_fbas, new_fbas, ChangeEffect::Change),
    ensures
        new_fbas.nodes@[node_id as int].quorum_set.validators@.contains(node_id),
{
}

/// Law: every successfully configured validator list is strictly
/// ascending, and so duplicate-free.
pub proof fn lemma_validators_strictly_sorted(
    qsc: AllNeighborsQsc,
    node_id: NodeId,
    old_fbas: Fbas,
    new_fbas: Fbas,
)
    requires
        qsc.post(node_id, old_fbas, new_fbas, ChangeEffect::Change),
    ensures
        strictly_sorted(new_fbas.nodes@[node_id as int].quorum_set.validators@),
{
}

/// Law: every successful configuration writes a threshold between 1 and
/// the length of its validator list.
pub proof fn lemma_threshold_within_bounds(
    qsc: AllNeighborsQsc,
    node_id: NodeId,
    old_fbas: Fbas,
    new_fbas: Fbas,
)
    requires
        qsc.wf(),
        qsc.post(node_id, old_fbas, new_fbas, ChangeEffect::Change),
    ensures
        1 <= new_fbas.nodes@[node_id as int].quorum_set.threshold <= new_fbas.nodes@[
            node_id as int
        ].quorum_set.validators@.len(),
{
    let qs = new_fbas.nodes@[node_id as int].quorum_set;
    assert(qs.validators@.contains(node_id));
    lemma_threshold_bounds(qs.validators@.len() as int, qsc.threshold_policy);
}

/// Law: configuration is deterministic — two successful configurations of
/// the same node from the same strategy write identical quorum sets, so
/// repeated simulation runs produce repeatable results.
pub proof fn lemma_configure_deterministic(
    qsc: AllNeighborsQsc,
    node_id: NodeId,
    old_fbas: Fbas,
    new_a: Fbas,
    new_b: Fbas,
)
    requires
        qsc.post(node_id, old_fbas, new_a, ChangeEffect::Change),
        qsc.post(node_id, old_fbas, new_b, ChangeEffect::Change),
    ensures
        new_a.nodes@[node_id as int].quorum_set.validators@ == new_b.nodes@[
            node_id as int
        ].quorum_set.validators@,
        new_a.nodes@[node_id as int].quorum_set.threshold == new_b.nodes@[
            node_id as int
        ].quorum_set.threshold,
{
    let va = new_a.nodes@[node_id as int].quorum_set.validators@;
    let vb = new_b.nodes@[node_id as int].quorum_set.validators@;
    lemma_strictly_sorted_same_members_equal(va, vb);
}

/// Law: on a fully connected graph, a successful configuration names
/// every node of the graph as a validator, with the policy's threshold
/// for that count. With the unanimity fraction the result is therefore
/// the everyone-required reference quorum set, and with the default
/// policy the ideal-majority one.
pub proof fn lemma_full_mesh_gives_every_node_as_validator(
    qsc: AllNeighborsQsc,
    node_id: NodeId,
    n: usize,
    old_fbas: Fbas,
    new_fbas: Fbas,
)
    requires
        qsc.graph.outlinks@.len() == n,
        forall|i: int|
            0 <= i < n ==> #[trigger] qsc.graph.outlinks@[i]@ == full_mesh_row(i, n as int),
        node_id < n,
        qsc.post(node_id, old_fbas, new_fbas, ChangeEffect::Change),
    ensures
        new_fbas.nodes@[node_id as int].quorum_set.validators@ == all_nodes_validators(n as int),
        new_fbas.nodes@[node_id as int].quorum_set.threshold == threshold_spec(
            n as int,
            qsc.threshold_policy,
        ),
        qsc.threshold_policy == (ThresholdPolicy::Relative { numerator: 1usize, denominator: 1usize })
            ==> new_fbas.nodes@[node_id as int].quorum_set.threshold == n,
{
    let qs = new_fbas.nodes@[node_id as int].quorum_set;
    let row = qsc.graph.outlinks@[node_id as int]@;
    let alln = all_nodes_validators(n as int);
    assert(row == full_mesh_row(node_id as int, n as int));
    assert forall|y: NodeId| qs.validators@.contains(y) <==> alln.contains(y) by {
        if y < n {
            assert(alln[y as int] == y);
            assert(alln.contains(y));
            if y < node_id {
                assert(row[y as int] == y);
                assert(row.contains(y));
            } else if y > node_id {
                assert(row[y as int - 1] == y);
                assert(row.contains(y));
            }
        }
        if alln.contains(y) {
            let i = choose|i: int| 0 <= i < alln.len() && alln[i] == y;
            assert(y < n);
        }
        if qs.validators@.contains(y) && y != node_id {
            assert(row.contains(y));
            let b = choose|b: int| 0 <= b < row.len() && row[b] == y;
            assert(y < n);
        }
    }
    lemma_strictly_sorted_same_members_equal(qs.validators@, alln);
    assert(qs.validators@.len() == n);
    if qsc.threshold_policy == (ThresholdPolicy::Relative { numerator: 1usize, denominator: 1usize }) {
        vstd::arithmetic::div_mod::lemma_div_multiples_vanish_fancy(n as int, 0, 1);
        assert(1 * (n as int) + 0 == n as int);
    }
}

/// Law: a node outside `connected_nodes` is never configured — the call
/// returns `NoChange` and mutates nothing.
pub proof fn lemma_eligibility_gate(
    qsc: AllNeighborsQsc,
    node_id: NodeId,
    old_fbas: Fbas,
    new_fbas: Fbas,
    effect: ChangeEffect,
)
    requires
        qsc.post(node_id, old_fbas, new_fbas, effect),
        !qsc.connected_nodes@.contains(node_id),
    ensures
        effect == ChangeEffect::NoChange,
        new_fbas == old_fbas,
{
}

} // verus!
