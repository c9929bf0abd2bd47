use pywr_core::aggregated_node::{AggregatedNodeIndex, Factors};
use pywr_core::edge::EdgeIndex;
use pywr_core::error::{EntityKind, PywrError};
use pywr_core::metric::Metric;
use pywr_core::network::Network;
use pywr_core::node::{ConstraintValue, NodeIndex, NodeKind, StorageInitialVolume};
use pywr_core::virtual_storage::{VirtualStorageIndex, VirtualStorageReset};

fn v(x: f64) -> i64 {
    (x * 1e9).round() as i64
}

#[test]
fn handles_are_positions_in_order_of_insertion() {
    let mut network = Network::new();
    assert_eq!(network.add_input_node("a", None), Ok(NodeIndex(0)));
    assert_eq!(network.add_link_node("b", None), Ok(NodeIndex(1)));
    assert_eq!(network.add_output_node("c", None), Ok(NodeIndex(2)));
    assert_eq!(
        network.add_storage_node(
            "d",
            None,
            StorageInitialVolume::Absolute(v(50.0)),
            ConstraintValue::Scalar(0),
            ConstraintValue::Scalar(v(100.0)),
        ),
        Ok(NodeIndex(3))
    );
    assert_eq!(network.nodes.len(), 4);
    assert_eq!(network.nodes[0].kind, NodeKind::Input);
    assert_eq!(network.nodes[1].kind, NodeKind::Link);
    assert_eq!(network.nodes[2].kind, NodeKind::Output);
    assert_eq!(network.nodes[3].kind, NodeKind::Storage);
    assert_eq!(network.nodes[3].max_volume, ConstraintValue::Scalar(v(100.0)));
    assert_eq!(network.nodes[0].max_flow, ConstraintValue::Unbounded);
}

#[test]
fn a_name_is_taken_once_per_sub_name() {
    let mut network = Network::new();
    assert_eq!(network.add_link_node("works", Some("net")), Ok(NodeIndex(0)));
    assert_eq!(network.add_link_node("works", Some("loss")), Ok(NodeIndex(1)));
    assert_eq!(network.add_link_node("works", None), Ok(NodeIndex(2)));
    assert_eq!(network.add_input_node("works", Some("net")), Err(PywrError::DuplicateName));
    assert_eq!(network.add_output_node("works", None), Err(PywrError::DuplicateName));
    assert_eq!(network.nodes.len(), 3);
}

#[test]
fn lookup_by_name() {
    let mut network = Network::new();
    network.add_input_node("a", None).unwrap();
    network.add_link_node("b", Some("x")).unwrap();
    assert_eq!(network.get_node_index_by_name("b", Some("x")), Ok(NodeIndex(1)));
    assert_eq!(
        network.get_node_index_by_name("b", None),
        Err(PywrError::NotFound(EntityKind::Node, "b".to_string()))
    );
    assert_eq!(
        network.get_node(&NodeIndex(7)).err(),
        Some(PywrError::NotFoundAt(EntityKind::Node, 7))
    );
    assert_eq!(network.get_node(&NodeIndex(0)).unwrap().name, "a");
}

#[test]
fn connect_gives_the_handle_of_the_edge() {
    let mut network = Network::new();
    let a = network.add_input_node("a", None).unwrap();
    let b = network.add_link_node("b", None).unwrap();
    let c = network.add_output_node("c", None).unwrap();
    assert_eq!(network.connect(a, b), Ok(EdgeIndex(0)));
    assert_eq!(network.connect(b, c), Ok(EdgeIndex(1)));
    assert_eq!(network.edges[1].from_node, b);
    assert_eq!(network.edges[1].to_node, c);
}

#[test]
fn connect_refuses_what_cannot_be_an_edge() {
    let mut network = Network::new();
    let a = network.add_input_node("a", None).unwrap();
    let b = network.add_link_node("b", None).unwrap();
    let c = network.add_output_node("c", None).unwrap();
    assert_eq!(network.connect(b, b), Err(PywrError::EdgeWouldCreateSelfLoop));
    assert_eq!(network.connect(c, b), Err(PywrError::InvalidEdge));
    assert_eq!(network.connect(b, a), Err(PywrError::InvalidEdge));
    assert_eq!(
        network.connect(NodeIndex(9), b),
        Err(PywrError::NotFoundAt(EntityKind::Node, 9))
    );
    assert_eq!(
        network.connect(a, NodeIndex(10)),
        Err(PywrError::NotFoundAt(EntityKind::Node, 10))
    );
    assert_eq!(network.edges.len(), 0);
}

#[test]
fn setters_reach_the_named_node() {
    let mut network = Network::new();
    network.add_input_node("a", None).unwrap();
    network.add_link_node("b", None).unwrap();
    assert_eq!(network.set_node_max_flow("b", None, ConstraintValue::Scalar(v(10.0))), Ok(()));
    assert_eq!(network.set_node_min_flow("b", None, ConstraintValue::Scalar(v(1.0))), Ok(()));
    assert_eq!(network.set_node_cost("a", None, ConstraintValue::Scalar(v(-10.0))), Ok(()));
    assert_eq!(network.nodes[1].max_flow, ConstraintValue::Scalar(v(10.0)));
    assert_eq!(network.nodes[1].min_flow, ConstraintValue::Scalar(v(1.0)));
    assert_eq!(network.nodes[0].cost, ConstraintValue::Scalar(v(-10.0)));
    assert_eq!(network.nodes[0].max_flow, ConstraintValue::Unbounded);
    assert_eq!(
        network.set_node_cost("z", None, ConstraintValue::Unbounded),
        Err(PywrError::NotFound(EntityKind::Node, "z".to_string()))
    );
}

#[test]
fn volumes_belong_to_storages_only() {
    let mut network = Network::new();
    network.add_link_node("b", None).unwrap();
    network
        .add_storage_node(
            "s",
            None,
            StorageInitialVolume::Proportional(v(0.5)),
            ConstraintValue::Unbounded,
            ConstraintValue::Unbounded,
        )
        .unwrap();
    assert_eq!(
        network.set_node_max_volume("b", None, ConstraintValue::Scalar(v(1.0))),
        Err(PywrError::StorageOnNonStorageNode)
    );
    assert_eq!(
        network.set_node_min_volume("b", None, ConstraintValue::Scalar(v(1.0))),
        Err(PywrError::StorageOnNonStorageNode)
    );
    assert_eq!(network.set_node_max_volume("s", None, ConstraintValue::Scalar(v(9.0))), Ok(()));
    assert_eq!(network.nodes[1].max_volume, ConstraintValue::Scalar(v(9.0)));
    assert_eq!(
        network.get_storage_node_metric("s", None, true),
        Ok(Metric::NodeProportionalVolume(NodeIndex(1)))
    );
    assert_eq!(
        network.get_storage_node_metric("s", None, false),
        Ok(Metric::NodeVolume(NodeIndex(1)))
    );
    assert_eq!(
        network.get_storage_node_metric("b", None, true),
        Err(PywrError::StorageOnNonStorageNode)
    );
    assert_eq!(
        network.get_storage_node_metric("q", None, true),
        Err(PywrError::NotFound(EntityKind::Node, "q".to_string()))
    );
}

#[test]
fn aggregated_nodes_hold_nodes_of_the_network() {
    let mut network = Network::new();
    let a = network.add_link_node("a", None).unwrap();
    let b = network.add_link_node("b", None).unwrap();
    assert_eq!(
        network.add_aggregated_node("agg", None, &[a, b], None),
        Ok(AggregatedNodeIndex(0))
    );
    assert_eq!(
        network.add_aggregated_node("agg", None, &[a], None),
        Err(PywrError::DuplicateName)
    );
    assert_eq!(
        network.add_aggregated_node("other", None, &[a, NodeIndex(5), NodeIndex(6)], None),
        Err(PywrError::NotFoundAt(EntityKind::Node, 5))
    );
    assert_eq!(
        network.add_aggregated_node(
            "third",
            None,
            &[a, b],
            Some(Factors::Ratio(vec![Metric::Constant(v(1.0))]))
        ),
        Err(PywrError::FactorCountMismatch)
    );
    assert_eq!(network.aggregated_nodes.len(), 1);
    assert_eq!(
        network.set_aggregated_node_factors(
            "agg",
            None,
            Some(Factors::Ratio(vec![Metric::Constant(v(1.0)), Metric::Constant(v(2.0))]))
        ),
        Ok(())
    );
    assert_eq!(
        network.set_aggregated_node_factors(
            "agg",
            None,
            Some(Factors::Ratio(vec![Metric::Constant(v(1.0))]))
        ),
        Err(PywrError::FactorCountMismatch)
    );
    assert_eq!(
        network.set_aggregated_node_factors("none", None, None),
        Err(PywrError::NotFound(EntityKind::AggregatedNode, "none".to_string()))
    );
    assert_eq!(network.aggregated_nodes[0].factors.as_ref().map(|f| f.len()), Some(2));
}

#[test]
fn aggregated_storage_nodes_hold_storages() {
    let mut network = Network::new();
    let a = network.add_link_node("a", None).unwrap();
    let s = network
        .add_storage_node(
            "s",
            None,
            StorageInitialVolume::Absolute(0),
            ConstraintValue::Unbounded,
            ConstraintValue::Unbounded,
        )
        .unwrap();
    assert_eq!(
        network.add_aggregated_storage_node("all", None, vec![s, a]),
        Err(PywrError::StorageOnNonStorageNode)
    );
    assert_eq!(network.add_aggregated_storage_node("all", None, vec![s]).map(|i| i.0), Ok(0));
    assert_eq!(
        network.add_aggregated_storage_node("all", None, vec![s]),
        Err(PywrError::DuplicateName)
    );
}

#[test]
fn virtual_storages_hold_nodes_with_factors() {
    let mut network = Network::new();
    let a = network.add_link_node("a", None).unwrap();
    let b = network.add_link_node("b", None).unwrap();
    let added = network.add_virtual_storage_node(
        "licence",
        None,
        &[a, b],
        Some(&[v(1.0), v(2.0)]),
        StorageInitialVolume::Absolute(v(100.0)),
        ConstraintValue::Scalar(0),
        ConstraintValue::Scalar(v(100.0)),
        VirtualStorageReset::Never,
        ConstraintValue::Scalar(0),
    );
    assert_eq!(added, Ok(VirtualStorageIndex(0)));
    assert_eq!(network.virtual_storage_nodes[0].factors, Some(vec![v(1.0), v(2.0)]));
    let mismatch = network.add_virtual_storage_node(
        "other",
        None,
        &[a, b],
        Some(&[v(1.0)]),
        StorageInitialVolume::Absolute(v(100.0)),
        ConstraintValue::Scalar(0),
        ConstraintValue::Unbounded,
        VirtualStorageReset::Never,
        ConstraintValue::Scalar(0),
    );
    assert_eq!(mismatch, Err(PywrError::FactorCountMismatch));
    assert_eq!(
        network.get_virtual_storage_node_index_by_name("licence", None),
        Ok(VirtualStorageIndex(0))
    );
}
