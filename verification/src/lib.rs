//! Quorum-set configuration for simulated federated Byzantine agreement
//! systems: derives each node's quorum-set policy (validator list plus
//! threshold) from its neighborhood in a trust graph, deterministically and
//! exactly once per node.

use vstd::prelude::*;

pub mod all_neighbors;
pub mod fbas;
pub mod graph;
pub mod safe;
pub mod threshold;

use crate::fbas::{Fbas, NodeId};

verus! {

/// Signal returned by a configuration step: whether the call mutated the
/// FBAS state. Callers aggregate these to detect convergence.
#[derive(Clone, Copy, Debug, PartialEq, Eq, Structural)]
pub enum ChangeEffect {
    Change,
    NoChange,
}

/// One-method capability for quorum-set construction strategies, so that a
/// driver can run heterogeneous strategies through the same loop.
///
/// Each strategy states its own precondition `pre` and its full behavior
/// `post`; `configure` derives the quorum set of `node_id` and writes at
/// most that one node's slot in `fbas`.
pub trait QuorumSetConfigurator {
    spec fn pre(&self, node_id: NodeId, fbas: Fbas) -> bool;

    spec fn post(
        &self,
        node_id: NodeId,
        old_fbas: Fbas,
        new_fbas: Fbas,
        effect: ChangeEffect,
    ) -> bool;

    fn configure(&self, node_id: NodeId, fbas: &mut Fbas) -> (effect: ChangeEffect)
        requires
            self.pre(node_id, *old(fbas)),
        ensures
            self.post(node_id, *old(fbas), *final (fbas), effect),
    ;
}

} // verus!
