//! The trust/communication graph that quorum sets are derived from: an
//! adjacency list per node, plus the set of nodes that take part in at
//! least one edge.

use crate::fbas::NodeId;
use vstd::prelude::*;

verus! {

/// A set of node identifiers, supporting membership test and insertion.
pub struct NodeIdSet {
    ids: Vec<NodeId>,
}

impl View for NodeIdSet {
    type V = Set<NodeId>;

    closed spec fn view(&self) -> Set<NodeId> {
        Set::new(|x: NodeId| self.ids@.contains(x))
    }
}

impl NodeIdSet {
    pub fn new() -> (s: NodeIdSet)
        ensures
            s@ == Set::<NodeId>::empty(),
    {
        let s = NodeIdSet { ids: Vec::new() };
        proof {
            assert(s@ =~= Set::<NodeId>::empty());
        }
        s
    }

    pub fn contains(&self, id: NodeId) -> (r: bool)
        ensures
            r == self@.contains(id),
    {
        let n = self.ids.len();
        for k in 0..n
            invariant
                n == self.ids@.len(),
                forall|j: int| 0 <= j < k ==> self.ids@[j] != id,
        {
            if self.ids[k] == id {
                return true;
            }
        }
        proof {
            assert(!self.ids@.contains(id));
        }
        false
    }

    pub fn insert(&mut self, id: NodeId)
        ensures
            final (self)@ == old(self)@.insert(id),
    {
        if !self.contains(id) {
            self.ids.push(id);
            proof {
                assert forall|x: NodeId| self@.contains(x) <==> old(self)@.insert(id).contains(
                    x,
                ) by {
                    if self.ids@.contains(x) {
                        let j = choose|j: int|
                            0 <= j < self.ids@.len() && self.ids@[j] == x;
                        if j < old(self).ids@.len() {
                            assert(old(self).ids@.contains(x));
                        }
                    }
                    if old(self).ids@.contains(x) {
                        let j = choose|j: int|
                            0 <= j < old(self).ids@.len() && old(self).ids@[j] == x;
                        assert(self.ids@[j] == x);
                    }
                    if x == id {
                        assert(self.ids@[self.ids@.len() - 1] == id);
                    }
                }
                assert(self@ =~= old(self)@.insert(id));
            }
        } else {
            proof {
                assert(self@ =~= old(self)@.insert(id));
            }
        }
    }
}

/// An immutable graph over node identifiers: `outlinks[v]` is the ordered
/// list of `v`'s outgoing neighbors. The graph is never mutated after
/// construction.
pub struct Graph {
    pub outlinks: Vec<Vec<NodeId>>,
}

impl Graph {
    /// A node takes part in the graph if it has at least one outgoing or
    /// incoming edge.
    pub open spec fn is_connected(self, x: NodeId) -> bool {
        ||| (x < self.outlinks@.len() && self.outlinks@[x as int]@.len() > 0)
        ||| (exists|a: int, b: int|
            0 <= a < self.outlinks@.len() && 0 <= b < self.outlinks@[a]@.len()
                && self.outlinks@[a]@[b] == x)
    }

    /// The set of nodes with at least one edge.
    pub open spec fn connected_nodes_spec(self) -> Set<NodeId> {
        Set::new(|x: NodeId| self.is_connected(x))
    }

    pub fn new(outlinks: Vec<Vec<NodeId>>) -> (g: Graph)
        ensures
            g.outlinks == outlinks,
    {
        Graph { outlinks }
    }

    /// Collects the nodes that take part in at least one edge.
    pub fn get_connected_nodes(&self) -> (r: NodeIdSet)
        ensures
            r@ == self.connected_nodes_spec(),
    {
        let mut connected = NodeIdSet::new();
        let n = self.outlinks.len();
        for i in 0..n
            invariant
                n == self.outlinks@.len(),
                forall|x: NodeId|
                    #[trigger] connected@.contains(x) <==> self.connected_among_first_rows(
                        i as int,
                        x,
                    ),
        {
            let row_len = self.outlinks[i].len();
            if row_len > 0 {
                connected.insert(i);
            }
            for b in 0..row_len
                invariant
                    n == self.outlinks@.len(),
                    i < n,
                    row_len == self.outlinks@[i as int]@.len(),
                    forall|x: NodeId|
                        #[trigger] connected@.contains(x) <==> (self.connected_among_first_rows(
                            i as int,
                            x,
                        ) || (row_len > 0 && x == i) || (exists|c: int|
                            0 <= c < b && self.outlinks@[i as int]@[c] == x)),
            {
                let target = self.outlinks[i][b];
                connected.insert(target);
                proof {
                    assert(self.outlinks@[i as int]@[b as int] == target);
                }
            }
        }
        proof {
            assert forall|x: NodeId| connected@.contains(x) <==> self.connected_nodes_spec()
                .contains(x) by {
                if self.is_connected(x) {
                    if x < self.outlinks@.len() && self.outlinks@[x as int]@.len() > 0 {
                        assert(self.connected_among_first_rows(n as int, x));
                    }
                }
            }
            assert(connected@ =~= self.connected_nodes_spec());
        }
        connected
    }

    /// Membership after the first `i` adjacency rows have been scanned:
    /// `x` owns one of those rows and it is non-empty, or `x` is a target
    /// in one of them.
    pub open spec fn connected_among_first_rows(self, i: int, x: NodeId) -> bool {
        ||| (0 <= x < i && self.outlinks@[x as int]@.len() > 0)
        ||| (exists|a: int, b: int|
            0 <= a < i && 0 <= b < self.outlinks@[a]@.len() && self.outlinks@[a]@[b] == x)
    }

    /// A fully connected graph: each of the `n` nodes links to all others.
    pub fn new_full_mesh(n: usize) -> (g: Graph)
        ensures
            g.outlinks@.len() == n,
            forall|i: int| 0 <= i < n ==> #[trigger] g.outlinks@[i]@ == full_mesh_row(i, n as int),
    {
        let mut outlinks: Vec<Vec<NodeId>> = Vec::new();
        for i in 0..n
            invariant
                outlinks@.len() == i,
                forall|a: int|
                    0 <= a < i ==> #[trigger] outlinks@[a]@ == full_mesh_row(a, n as int),
        {
            let mut row: Vec<NodeId> = Vec::new();
            for j in 0..n
                invariant
                    i < n,
                    row@.len() == if j <= i {
                        j as int
                    } else {
                        j - 1
                    },
                    forall|k: int|
                        0 <= k < row@.len() ==> #[trigger] row@[k] == full_mesh_row(
                            i as int,
                            n as int,
                        )[k],
            {
                if j != i {
                    row.push(j);
                }
            }
            proof {
                assert(row@ =~= full_mesh_row(i as int, n as int));
            }
            outlinks.push(row);
        }
        Graph { outlinks }
    }
}

/// Row `i` of a full mesh over `n` nodes: all identifiers below `n`
/// except `i`, in ascending order.
pub open spec fn full_mesh_row(i: int, n: int) -> Seq<NodeId> {
    Seq::new(
        (n - 1) as nat,
        |k: int|
            if k < i {
                k as NodeId
            } else {
                (k + 1) as NodeId
            },
    )
}

} // verus!
