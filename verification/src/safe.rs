//! Reference strategies that ignore the graph: every node in the FBAS
//! becomes a validator of every quorum set. `SuperSafeQsc` requires all of
//! them (unanimity); `IdealQsc` requires a safe majority of more than two
//! thirds.

use crate::fbas::{Fbas, Node, NodeId, QuorumSet};
use crate::threshold::{calculate_threshold, threshold_spec, ThresholdPolicy};
use crate::{ChangeEffect, QuorumSetConfigurator};
use vstd::prelude::*;

verus! {

/// The validator list naming every node of an FBAS with `n` nodes:
/// `0, 1, ..., n - 1`.
pub open spec fn all_nodes_validators(n: int) -> Seq<NodeId> {
    Seq::new(n as nat, |k: int| k as NodeId)
}

/// Builds the list `0, 1, ..., n - 1`.
fn build_all_nodes_validators(n: usize) -> (validators: Vec<NodeId>)
    ensures
        validators@ == all_nodes_validators(n as int),
{
    let mut validators: Vec<NodeId> = Vec::new();
    for k in 0..n
        invariant
            validators@.len() == k,
            forall|j: int| 0 <= j < k ==> #[trigger] validators@[j] == j as NodeId,
    {
        validators.push(k);
    }
    proof {
        assert(validators@ =~= all_nodes_validators(n as int));
    }
    validators
}

/// The candidate either strategy writes matches the node's current quorum
/// set: all nodes as validators, with the given threshold.
pub open spec fn has_all_nodes_quorum_set(fbas: Fbas, node_id: NodeId, threshold: int) -> bool {
    &&& fbas.nodes@[node_id as int].quorum_set.validators@ == all_nodes_validators(
        fbas.nodes@.len() as int,
    )
    &&& fbas.nodes@[node_id as int].quorum_set.threshold == threshold
}

/// Everyone-required reference strategy: all nodes are validators and all
/// of them are needed for quorum.
pub struct SuperSafeQsc;

impl SuperSafeQsc {
    pub fn new() -> (qsc: SuperSafeQsc) {
        SuperSafeQsc
    }
}

impl QuorumSetConfigurator for SuperSafeQsc {
    open spec fn pre(&self, node_id: NodeId, fbas: Fbas) -> bool {
        node_id < fbas.nodes@.len()
    }

    open spec fn post(
        &self,
        node_id: NodeId,
        old_fbas: Fbas,
        new_fbas: Fbas,
        effect: ChangeEffect,
    ) -> bool {
        &&& new_fbas.nodes@.len() == old_fbas.nodes@.len()
        &&& forall|j: int|
            0 <= j < old_fbas.nodes@.len() && j != node_id ==> new_fbas.nodes@[j] == old_fbas.nodes@[
                j
            ]
        &&& if has_all_nodes_quorum_set(old_fbas, node_id, old_fbas.nodes@.len() as int) {
            &&& effect == ChangeEffect::NoChange
            &&& new_fbas == old_fbas
        } else {
            &&& effect == ChangeEffect::Change
            &&& has_all_nodes_quorum_set(new_fbas, node_id, old_fbas.nodes@.len() as int)
        }
    }

    fn configure(&self, node_id: NodeId, fbas: &mut Fbas) -> (effect: ChangeEffect) {
        let n = fbas.nodes.len();
        let validators = build_all_nodes_validators(n);
        let candidate = QuorumSet { validators, threshold: n };
        if fbas.nodes[node_id].quorum_set == candidate {
            ChangeEffect::NoChange
        } else {
            fbas.nodes[node_id] = Node { quorum_set: candidate };
            ChangeEffect::Change
        }
    }
}

/// Ideal-majority reference strategy: all nodes are validators and more
/// than two thirds of them are needed for quorum.
pub struct IdealQsc;

impl IdealQsc {
    pub fn new() -> (qsc: IdealQsc) {
        IdealQsc
    }
}

impl QuorumSetConfigurator for IdealQsc {
    open spec fn pre(&self, node_id: NodeId, fbas: Fbas) -> bool {
        node_id < fbas.nodes@.len()
    }

    open spec fn post(
        &self,
        node_id: NodeId,
        old_fbas: Fbas,
        new_fbas: Fbas,
        effect: ChangeEffect,
    ) -> bool {
        &&& new_fbas.nodes@.len() == old_fbas.nodes@.len()
        &&& forall|j: int|
            0 <= j < old_fbas.nodes@.len() && j != node_id ==> new_fbas.nodes@[j] == old_fbas.nodes@[
                j
            ]
        &&& if has_all_nodes_quorum_set(
            old_fbas,
            node_id,
            threshold_spec(old_fbas.nodes@.len() as int, ThresholdPolicy::Default67Percent),
        ) {
            &&& effect == ChangeEffect::NoChange
            &&& new_fbas == old_fbas
        } else {
            &&& effect == ChangeEffect::Change
            &&& has_all_nodes_quorum_set(
                new_fbas,
                node_id,
                threshold_spec(old_fbas.nodes@.len() as int, ThresholdPolicy::Default67Percent),
            )
        }
    }

    fn configure(&self, node_id: NodeId, fbas: &mut Fbas) -> (effect: ChangeEffect) {
        let n = fbas.nodes.len();
        let validators = build_all_nodes_validators(n);
        let threshold = calculate_threshold(n, &ThresholdPolicy::Default67Percent);
        let candidate = QuorumSet { validators, threshold };
        if fbas.nodes[node_id].quorum_set == candidate {
            ChangeEffect::NoChange
        } else {
            fbas.nodes[node_id] = Node { quorum_set: candidate };
            ChangeEffect::Change
        }
    }
}

} // verus!
