//! The FBAS state that configuration acts on: nodes addressed by dense
//! integer identifiers, each holding one quorum set (validator list plus
//! threshold).

use vstd::prelude::*;

verus! {

/// Dense, totally-ordered node identifier, used as an index into the FBAS
/// node table and into the graph's adjacency lists.
pub type NodeId = usize;

/// A sequence is strictly ascending: later entries are strictly larger.
/// A strictly ascending validator list is in particular duplicate-free,
/// and two strictly ascending lists with the same members are equal.
pub open spec fn strictly_sorted(s: Seq<NodeId>) -> bool {
    forall|i: int, j: int| 0 <= i < j < s.len() ==> s[i] < s[j]
}

/// A strictly ascending sequence is determined by its members: two such
/// sequences with the same members are equal.
pub proof fn lemma_strictly_sorted_same_members_equal(s: Seq<NodeId>, t: Seq<NodeId>)
    requires
        strictly_sorted(s),
        strictly_sorted(t),
        forall|y: NodeId| s.contains(y) <==> t.contains(y),
    ensures
        s == t,
    decreases s.len(),
{
    if s.len() == 0 {
        if t.len() > 0 {
            assert(t.contains(t[0]));
            assert(s.contains(t[0]));
            assert(false);
        }
        assert(s =~= t);
    } else {
        assert(s.contains(s[0]));
        assert(t.contains(s[0]));
        let j = choose|j: int| 0 <= j < t.len() && t[j] == s[0];
        if j > 0 {
            assert(t[0] < t[j]);
            assert(t.contains(t[0]));
            assert(s.contains(t[0]));
            let k = choose|k: int| 0 <= k < s.len() && s[k] == t[0];
            assert(s[k] >= s[0]);
            assert(false);
        }
        assert(t[0] == s[0]);
        let s1 = s.drop_first();
        let t1 = t.drop_first();
        assert forall|y: NodeId| s1.contains(y) <==> t1.contains(y) by {
            lemma_drop_first_members(s, y);
            lemma_drop_first_members(t, y);
        }
        lemma_strictly_sorted_same_members_equal(s1, t1);
        assert(s.len() == s1.len() + 1);
        assert(t.len() == t1.len() + 1);
        assert forall|i: int| 0 <= i < s.len() implies s[i] == t[i] by {
            if i > 0 {
                assert(s[i] == s1[i - 1]);
                assert(t[i] == t1[i - 1]);
            }
        }
        assert(s =~= t);
    }
}

/// The tail of a non-empty strictly ascending sequence holds exactly the
/// members other than the (minimal) first element.
proof fn lemma_drop_first_members(s: Seq<NodeId>, y: NodeId)
    requires
        strictly_sorted(s),
        s.len() > 0,
    ensures
        s.drop_first().contains(y) <==> (s.contains(y) && y != s[0]),
{
    let s1 = s.drop_first();
    if s1.contains(y) {
        let i = choose|i: int| 0 <= i < s1.len() && s1[i] == y;
        assert(s[i + 1] == y);
        assert(s[0] < s[i + 1]);
    }
    if s.contains(y) && y != s[0] {
        let k = choose|k: int| 0 <= k < s.len() && s[k] == y;
        assert(k != 0);
        assert(s1[k - 1] == y);
    }
}

/// A quorum-set policy: `threshold` many of the listed `validators` are
/// required for quorum. The empty quorum set (no validators, threshold 0)
/// is the sentinel for "not yet configured".
#[derive(Debug)]
pub struct QuorumSet {
    pub validators: Vec<NodeId>,
    pub threshold: usize,
}

impl QuorumSet {
    /// The "not yet configured" sentinel.
    pub open spec fn spec_is_empty(self) -> bool {
        self.validators@.len() == 0 && self.threshold == 0
    }

    pub fn new_empty() -> (qs: QuorumSet)
        ensures
            qs.spec_is_empty(),
            qs.validators@ == Seq::<NodeId>::empty(),
            qs.threshold == 0,
    {
        QuorumSet { validators: Vec::new(), threshold: 0 }
    }

    pub fn is_empty(&self) -> (r: bool)
        ensures
            r == self.spec_is_empty(),
    {
        self.validators.len() == 0 && self.threshold == 0
    }
}

impl PartialEq for QuorumSet {
    fn eq(&self, other: &QuorumSet) -> (r: bool) {
        let validators_eq = self.validators == other.validators;
        proof {
            if validators_eq {
                assert(self.validators@ =~= other.validators@);
            }
        }
        validators_eq && self.threshold == other.threshold
    }
}

impl Eq for QuorumSet {}

impl vstd::std_specs::cmp::PartialEqSpecImpl for QuorumSet {
    open spec fn obeys_eq_spec() -> bool {
        true
    }

    open spec fn eq_spec(&self, other: &QuorumSet) -> bool {
        self.validators@ == other.validators@ && self.threshold == other.threshold
    }
}

/// One participant's slot in the FBAS state.
#[derive(Debug)]
pub struct Node {
    pub quorum_set: QuorumSet,
}

impl PartialEq for Node {
    fn eq(&self, other: &Node) -> (r: bool) {
        self.quorum_set == other.quorum_set
    }
}

impl Eq for Node {}

impl vstd::std_specs::cmp::PartialEqSpecImpl for Node {
    open spec fn obeys_eq_spec() -> bool {
        true
    }

    open spec fn eq_spec(&self, other: &Node) -> bool {
        vstd::std_specs::cmp::PartialEqSpec::eq_spec(&self.quorum_set, &other.quorum_set)
    }
}

/// The mutable FBAS state: one quorum-set slot per node, addressed by
/// `NodeId`. A configuration call writes at most the slot of the node it
/// was invoked for.
#[derive(Debug)]
pub struct Fbas {
    pub nodes: Vec<Node>,
}

impl PartialEq for Fbas {
    fn eq(&self, other: &Fbas) -> (r: bool) {
        self.nodes == other.nodes
    }
}

impl Eq for Fbas {}

impl vstd::std_specs::cmp::PartialEqSpecImpl for Fbas {
    open spec fn obeys_eq_spec() -> bool {
        true
    }

    open spec fn eq_spec(&self, other: &Fbas) -> bool {
        vstd::std_specs::cmp::PartialEqSpec::eq_spec(&self.nodes, &other.nodes)
    }
}

impl Fbas {
    /// An FBAS of `n` nodes, none of them configured yet.
    pub fn new_unconfigured(n: usize) -> (fbas: Fbas)
        ensures
            fbas.nodes@.len() == n,
            forall|i: int|
                0 <= i < n ==> (#[trigger] fbas.nodes@[i]).quorum_set.spec_is_empty(),
    {
        let mut nodes: Vec<Node> = Vec::new();
        for k in 0..n
            invariant
                nodes@.len() == k,
                forall|i: int|
                    0 <= i < k ==> (#[trigger] nodes@[i]).quorum_set.spec_is_empty(),
        {
            nodes.push(Node { quorum_set: QuorumSet::new_empty() });
        }
        Fbas { nodes }
    }
}

} // verus!
