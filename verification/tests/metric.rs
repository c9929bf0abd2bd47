use pywr_core::aggregated_node::AggregatedNodeIndex;
use pywr_core::aggregated_storage_node::AggregatedStorageNodeIndex;
use pywr_core::edge::EdgeIndex;
use pywr_core::error::{EntityKind, PywrError};
use pywr_core::metric::{Metric, VolumeBetweenControlCurves};
use pywr_core::network::Network;
use pywr_core::node::{ConstraintValue, NodeIndex, StorageInitialVolume};
use pywr_core::parameters::{MultiValueParameterIndex, ParameterIndex};
use pywr_core::run::blank_state;
use pywr_core::state::State;
use pywr_core::virtual_storage::{VirtualStorageIndex, VirtualStorageReset};

fn v(x: f64) -> i64 {
    (x * 1e9).round() as i64
}

/// Two links, two storages of greatest volume 100 and 300, an aggregated node
/// over the links and an aggregated storage node over the storages.
fn example() -> (Network, State) {
    let mut network = Network::new();
    let a = network.add_link_node("a", None).unwrap();
    let b = network.add_link_node("b", None).unwrap();
    let s = network
        .add_storage_node(
            "s",
            None,
            StorageInitialVolume::Absolute(v(50.0)),
            ConstraintValue::Scalar(0),
            ConstraintValue::Scalar(v(100.0)),
        )
        .unwrap();
    let t = network
        .add_storage_node(
            "t",
            None,
            StorageInitialVolume::Absolute(v(150.0)),
            ConstraintValue::Scalar(0),
            ConstraintValue::Scalar(v(300.0)),
        )
        .unwrap();
    network.connect(a, b).unwrap();
    network.add_aggregated_node("links", None, &[a, b], None).unwrap();
    network.add_aggregated_storage_node("stores", None, vec![s, t]).unwrap();
    network.set_node_max_flow("a", None, ConstraintValue::Scalar(v(10.0))).unwrap();
    network
        .add_virtual_storage_node(
            "licence",
            None,
            &[a],
            None,
            StorageInitialVolume::Absolute(v(40.0)),
            ConstraintValue::Scalar(0),
            ConstraintValue::Scalar(v(80.0)),
            VirtualStorageReset::Never,
            ConstraintValue::Scalar(0),
        )
        .unwrap();
    let mut state = blank_state(&network);
    state.network_state.node_in_flows = vec![v(3.0), v(4.0), v(1.0), 0];
    state.network_state.node_out_flows = vec![v(3.5), v(4.5), 0, v(2.0)];
    state.network_state.node_volumes = vec![0, 0, v(50.0), v(150.0)];
    state.network_state.edge_flows = vec![v(7.0)];
    state.network_state.virtual_storage_volumes = vec![v(20.0)];
    (network, state)
}

#[test]
fn flows_and_volumes_are_what_the_state_holds() {
    let (network, state) = example();
    assert_eq!(Metric::NodeInFlow(NodeIndex(1)).get_value(&network, &state), Ok(v(4.0)));
    assert_eq!(Metric::NodeOutFlow(NodeIndex(0)).get_value(&network, &state), Ok(v(3.5)));
    assert_eq!(Metric::NodeVolume(NodeIndex(2)).get_value(&network, &state), Ok(v(50.0)));
    assert_eq!(Metric::EdgeFlow(EdgeIndex(0)).get_value(&network, &state), Ok(v(7.0)));
    assert_eq!(
        Metric::VirtualStorageVolume(VirtualStorageIndex(0)).get_value(&network, &state),
        Ok(v(20.0))
    );
    assert_eq!(Metric::Constant(v(2.5)).get_value(&network, &state), Ok(v(2.5)));
}

#[test]
fn a_handle_that_is_not_there_is_not_found() {
    let (network, state) = example();
    assert_eq!(
        Metric::NodeInFlow(NodeIndex(9)).get_value(&network, &state),
        Err(PywrError::NotFoundAt(EntityKind::Node, 9))
    );
    assert_eq!(
        Metric::EdgeFlow(EdgeIndex(3)).get_value(&network, &state),
        Err(PywrError::NotFoundAt(EntityKind::Edge, 3))
    );
    assert_eq!(
        Metric::ParameterValue(ParameterIndex(0)).get_value(&network, &state),
        Err(PywrError::NotFoundAt(EntityKind::Parameter, 0))
    );
    assert_eq!(
        Metric::AggregatedNodeInFlow(AggregatedNodeIndex(4)).get_value(&network, &state),
        Err(PywrError::NotFoundAt(EntityKind::AggregatedNode, 4))
    );
    assert_eq!(
        Metric::AggregatedNodeVolume(AggregatedStorageNodeIndex(4)).get_value(&network, &state),
        Err(PywrError::NotFoundAt(EntityKind::AggregatedStorageNode, 4))
    );
    assert_eq!(
        Metric::VirtualStorageProportionalVolume(VirtualStorageIndex(2))
            .get_value(&network, &state),
        Err(PywrError::NotFoundAt(EntityKind::VirtualStorage, 2))
    );
}

#[test]
fn the_flow_of_a_set_is_the_sum_over_its_members() {
    let (network, state) = example();
    assert_eq!(
        Metric::AggregatedNodeInFlow(AggregatedNodeIndex(0)).get_value(&network, &state),
        Ok(v(7.0))
    );
    assert_eq!(
        Metric::AggregatedNodeOutFlow(AggregatedNodeIndex(0)).get_value(&network, &state),
        Ok(v(8.0))
    );
    assert_eq!(
        Metric::AggregatedNodeVolume(AggregatedStorageNodeIndex(0)).get_value(&network, &state),
        Ok(v(200.0))
    );
    let multi = Metric::MultiNodeInFlow {
        indices: vec![NodeIndex(0), NodeIndex(1), NodeIndex(2)],
        name: "all".to_string(),
        sub_name: None,
    };
    assert_eq!(multi.get_value(&network, &state), Ok(v(8.0)));
    let broken = Metric::MultiNodeInFlow {
        indices: vec![NodeIndex(0), NodeIndex(11), NodeIndex(12)],
        name: "all".to_string(),
        sub_name: None,
    };
    assert_eq!(
        broken.get_value(&network, &state),
        Err(PywrError::NotFoundAt(EntityKind::Node, 11))
    );
}

#[test]
fn proportional_volume_is_volume_over_max_volume() {
    let (network, state) = example();
    assert_eq!(
        Metric::NodeProportionalVolume(NodeIndex(2)).get_value(&network, &state),
        Ok(v(0.5))
    );
    assert_eq!(
        Metric::VirtualStorageProportionalVolume(VirtualStorageIndex(0))
            .get_value(&network, &state),
        Ok(v(0.25))
    );
    // (50 + 150) / (100 + 300)
    assert_eq!(
        Metric::AggregatedNodeProportionalVolume(AggregatedStorageNodeIndex(0))
            .get_value(&network, &state),
        Ok(v(0.5))
    );
}

#[test]
fn proportional_volume_with_max_volume_zero_is_zero() {
    let (mut network, state) = example();
    network.set_node_max_volume("s", None, ConstraintValue::Scalar(0)).unwrap();
    assert_eq!(Metric::NodeProportionalVolume(NodeIndex(2)).get_value(&network, &state), Ok(0));
}

#[test]
fn aggregated_proportional_volume_of_nothing_is_a_division_by_zero() {
    let (mut network, state) = example();
    network.set_node_max_volume("s", None, ConstraintValue::Scalar(0)).unwrap();
    network.set_node_max_volume("t", None, ConstraintValue::Scalar(0)).unwrap();
    assert_eq!(
        Metric::AggregatedNodeProportionalVolume(AggregatedStorageNodeIndex(0))
            .get_value(&network, &state),
        Err(PywrError::DivisionByZero)
    );
}

#[test]
fn deficit_is_the_raw_difference() {
    let (mut network, state) = example();
    // max_flow 10, in_flow 3
    assert_eq!(Metric::NodeInFlowDeficit(NodeIndex(0)).get_value(&network, &state), Ok(v(7.0)));
    // Below zero where the inflow is greater than the greatest flow.
    network.set_node_max_flow("a", None, ConstraintValue::Scalar(v(1.0))).unwrap();
    assert_eq!(Metric::NodeInFlowDeficit(NodeIndex(0)).get_value(&network, &state), Ok(v(-2.0)));
}

#[test]
fn volume_between_control_curves() {
    let (network, state) = example();
    let whole = VolumeBetweenControlCurves::new(Metric::Constant(v(100.0)), None, None);
    assert_eq!(
        Metric::VolumeBetweenControlCurves(whole).get_value(&network, &state),
        Ok(v(100.0))
    );
    let part = VolumeBetweenControlCurves::new(
        Metric::Constant(v(100.0)),
        Some(Metric::Constant(v(0.8))),
        Some(Metric::Constant(v(0.3))),
    );
    assert_eq!(Metric::VolumeBetweenControlCurves(part).get_value(&network, &state), Ok(v(50.0)));
    // An upper curve below the lower curve gives a negative volume.
    let upside_down = VolumeBetweenControlCurves::new(
        Metric::Constant(v(100.0)),
        Some(Metric::Constant(v(0.2))),
        Some(Metric::Constant(v(0.5))),
    );
    assert_eq!(
        Metric::VolumeBetweenControlCurves(upside_down).get_value(&network, &state),
        Ok(v(-30.0))
    );
}

#[test]
fn parameter_values_are_read_from_the_state() {
    let (network, mut state) = example();
    state.parameter_values = vec![v(1.0), v(2.0)];
    state.multi_parameter_values =
        vec![vec![("a".to_string(), v(5.0)), ("b".to_string(), v(6.0))]];
    assert_eq!(Metric::ParameterValue(ParameterIndex(1)).get_value(&network, &state), Ok(v(2.0)));
    assert_eq!(
        Metric::MultiParameterValue(MultiValueParameterIndex(0), "b".to_string())
            .get_value(&network, &state),
        Ok(v(6.0))
    );
    assert_eq!(
        Metric::MultiParameterValue(MultiValueParameterIndex(0), "c".to_string())
            .get_value(&network, &state),
        Err(PywrError::NotFound(EntityKind::MultiValueKey, "c".to_string()))
    );
    assert_eq!(
        Metric::MultiParameterValue(MultiValueParameterIndex(3), "a".to_string())
            .get_value(&network, &state),
        Err(PywrError::NotFoundAt(EntityKind::MultiValueParameter, 3))
    );
}

#[test]
fn constraints_that_lead_into_each_other_are_reported() {
    let (mut network, state) = example();
    // The greatest volume of each storage is the proportional volume of the other.
    network
        .set_node_max_volume(
            "s",
            None,
            ConstraintValue::Metric(Metric::NodeProportionalVolume(NodeIndex(3))),
        )
        .unwrap();
    network
        .set_node_max_volume(
            "t",
            None,
            ConstraintValue::Metric(Metric::NodeProportionalVolume(NodeIndex(2))),
        )
        .unwrap();
    let r = Metric::NodeProportionalVolume(NodeIndex(2)).get_value(&network, &state);
    assert!(matches!(r, Err(PywrError::CyclicDependency(_))));
}

#[test]
fn current_bounds_of_a_node() {
    let (mut network, mut state) = example();
    state.parameter_values = vec![v(12.0)];
    network
        .set_node_min_flow("b", None, ConstraintValue::Metric(Metric::ParameterValue(ParameterIndex(0))))
        .unwrap();
    let node = network.get_node(&NodeIndex(1)).unwrap();
    assert_eq!(node.get_current_min_flow(&network, &state), Ok(v(12.0)));
    assert_eq!(node.get_current_max_flow(&network, &state), Ok(i64::MAX));
    assert_eq!(node.get_current_cost(&network, &state), Ok(0));
    let storage = network.get_node(&NodeIndex(2)).unwrap();
    assert_eq!(storage.get_current_max_volume(&network, &state), Ok(v(100.0)));
    assert_eq!(storage.get_current_min_volume(&network, &state), Ok(0));
}

#[test]
fn a_copy_of_a_metric_is_equal_to_it() {
    let nested = Metric::VolumeBetweenControlCurves(VolumeBetweenControlCurves::new(
        Metric::NodeVolume(NodeIndex(1)),
        Some(Metric::Constant(v(0.5))),
        None,
    ));
    assert_eq!(nested.clone(), nested);
    let multi = Metric::MultiNodeInFlow {
        indices: vec![NodeIndex(0)],
        name: "n".to_string(),
        sub_name: Some("s".to_string()),
    };
    assert_eq!(multi.clone(), multi);
}
