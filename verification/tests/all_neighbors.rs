use fbas_qsc::all_neighbors::AllNeighborsQsc;
use fbas_qsc::fbas::Fbas;
use fbas_qsc::graph::Graph;
use fbas_qsc::safe::{IdealQsc, SuperSafeQsc};
use fbas_qsc::{ChangeEffect, QuorumSetConfigurator};

/// Runs one configuration pass over a fresh FBAS of `n` nodes.
fn simulate<Q: QuorumSetConfigurator>(qsc: &Q, n: usize) -> Fbas {
    let mut fbas = Fbas::new_unconfigured(n);
    for node_id in 0..n {
        qsc.configure(node_id, &mut fbas);
    }
    fbas
}

#[test]
fn all_neighbors_qsc_can_be_like_super_safe() {
    let n = 10;
    let all_neighbors_qsc = AllNeighborsQsc::new_relative(Graph::new_full_mesh(n), 1, 1);
    let super_safe_qsc = SuperSafeQsc::new();

    let actual = simulate(&all_neighbors_qsc, n);
    let expected = simulate(&super_safe_qsc, n);
    assert_eq!(expected, actual);
}

#[test]
fn all_neighbors_qsc_can_be_like_ideal_safe() {
    let n = 10;
    let all_neighbors_qsc = AllNeighborsQsc::new_67p(Graph::new_full_mesh(n));
    let ideal_qsc = IdealQsc::new();

    let actual = simulate(&all_neighbors_qsc, n);
    let expected = simulate(&ideal_qsc, n);
    assert_eq!(expected, actual);
}

#[test]
fn configure_yields_change_then_no_change() {
    let qsc = AllNeighborsQsc::new_67p(Graph::new_full_mesh(4));
    let mut fbas = Fbas::new_unconfigured(4);

    assert_eq!(qsc.configure(1, &mut fbas), ChangeEffect::Change);
    let first_validators = fbas.nodes[1].quorum_set.validators.clone();
    let first_threshold = fbas.nodes[1].quorum_set.threshold;

    assert_eq!(qsc.configure(1, &mut fbas), ChangeEffect::NoChange);
    assert_eq!(fbas.nodes[1].quorum_set.validators, first_validators);
    assert_eq!(fbas.nodes[1].quorum_set.threshold, first_threshold);
}

#[test]
fn neighbors_plus_self_sorted_with_majority_threshold() {
    let graph = Graph::new(vec![vec![2, 1], vec![0], vec![]]);
    let qsc = AllNeighborsQsc::new_67p(graph);
    let mut fbas = Fbas::new_unconfigured(3);

    assert_eq!(qsc.configure(0, &mut fbas), ChangeEffect::Change);
    assert_eq!(fbas.nodes[0].quorum_set.validators, vec![0, 1, 2]);
    assert_eq!(fbas.nodes[0].quorum_set.threshold, 3);
}

#[test]
fn node_with_only_incoming_edges_is_configured_with_itself() {
    let graph = Graph::new(vec![vec![2], vec![], vec![]]);
    let qsc = AllNeighborsQsc::new_67p(graph);
    let mut fbas = Fbas::new_unconfigured(3);

    assert_eq!(qsc.configure(2, &mut fbas), ChangeEffect::Change);
    assert_eq!(fbas.nodes[2].quorum_set.validators, vec![2]);
    assert_eq!(fbas.nodes[2].quorum_set.threshold, 1);
}

#[test]
fn isolated_node_is_left_unconfigured() {
    let graph = Graph::new(vec![vec![1], vec![0], vec![]]);
    let qsc = AllNeighborsQsc::new_67p(graph);
    let mut fbas = Fbas::new_unconfigured(3);

    assert_eq!(qsc.configure(2, &mut fbas), ChangeEffect::NoChange);
    assert!(fbas.nodes[2].quorum_set.is_empty());
    assert_eq!(qsc.configure(2, &mut fbas), ChangeEffect::NoChange);
}

#[test]
fn already_configured_node_is_left_alone() {
    let graph = Graph::new(vec![vec![1], vec![0]]);
    let qsc = AllNeighborsQsc::new_relative(graph, 1, 2);
    let mut fbas = Fbas::new_unconfigured(2);

    assert_eq!(qsc.configure(0, &mut fbas), ChangeEffect::Change);
    assert_eq!(fbas.nodes[0].quorum_set.validators, vec![0, 1]);
    assert_eq!(fbas.nodes[0].quorum_set.threshold, 1);

    assert_eq!(qsc.configure(0, &mut fbas), ChangeEffect::NoChange);
    assert_eq!(fbas.nodes[0].quorum_set.validators, vec![0, 1]);
    assert_eq!(fbas.nodes[0].quorum_set.threshold, 1);
}

#[test]
fn self_link_and_duplicate_neighbors_are_not_duplicated() {
    let graph = Graph::new(vec![vec![0, 1, 1], vec![0]]);
    let qsc = AllNeighborsQsc::new_67p(graph);
    let mut fbas = Fbas::new_unconfigured(2);

    assert_eq!(qsc.configure(0, &mut fbas), ChangeEffect::Change);
    assert_eq!(fbas.nodes[0].quorum_set.validators, vec![0, 1]);
    assert_eq!(fbas.nodes[0].quorum_set.threshold, 2);
}

#[test]
fn single_node_mesh_has_no_edges_and_stays_unconfigured() {
    let qsc = AllNeighborsQsc::new_67p(Graph::new_full_mesh(1));
    let mut fbas = Fbas::new_unconfigured(1);

    assert_eq!(qsc.configure(0, &mut fbas), ChangeEffect::NoChange);
    assert!(fbas.nodes[0].quorum_set.is_empty());
}

#[test]
fn repeated_runs_produce_identical_configurations() {
    let graph_a = Graph::new(vec![vec![2, 1], vec![0], vec![0, 1]]);
    let graph_b = Graph::new(vec![vec![2, 1], vec![0], vec![0, 1]]);
    let run_a = simulate(&AllNeighborsQsc::new_67p(graph_a), 3);
    let run_b = simulate(&AllNeighborsQsc::new_67p(graph_b), 3);
    assert_eq!(run_a, run_b);
}

#[test]
fn configuring_one_node_leaves_the_others_untouched() {
    let qsc = AllNeighborsQsc::new_67p(Graph::new_full_mesh(5));
    let mut fbas = Fbas::new_unconfigured(5);

    assert_eq!(qsc.configure(3, &mut fbas), ChangeEffect::Change);
    for node_id in 0..5 {
        if node_id != 3 {
            assert!(fbas.nodes[node_id].quorum_set.is_empty());
        }
    }
}
