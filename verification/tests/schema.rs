use pywr_core::aggregated_node::Factors;
use pywr_core::error::{EntityKind, PywrError};
use pywr_core::metric::Metric;
use pywr_core::model::{Model, RecorderFormat};
use pywr_core::network::Network;
use pywr_core::node::{ConstraintValue, NodeIndex, NodeKind, StorageInitialVolume};
use pywr_core::parameters::asymmetric::IndexValue;
use pywr_core::parameters::{
    ConstantParameter, IndexParameterIndex, IndexParameterKind, ParameterIndex, ParameterKind,
};
use pywr_core::run::{finish_step, initial_state, prepare_step, REJECTED};
use pywr_core::schema::data_tables::{LoadedTable, LoadedTableCollection};
use pywr_core::schema::model::{Edge, PywrModel};
use pywr_core::schema::nodes::{
    AggregatedNode, AggregatedStorageNode, CatchmentNode, CoreNode, CustomNode, InputNode,
    LinkNode, Node, NodeMeta, OutputNode, StorageNode, VirtualStorageNode, WaterTreatmentWorks,
};
use pywr_core::schema::outputs::{CsvOutput, Hdf5Output, Output};
use pywr_core::schema::parameters::asymmetric_switch::AsymmetricSwitchIndexParameter;
use pywr_core::schema::parameters::control_curves::{
    ControlCurveIndexParameter, ControlCurveInterpolatedParameter, ControlCurveParameter,
    ControlCurvePiecewiseInterpolatedParameter,
};
use pywr_core::schema::parameters::{
    DynamicFloatValue, DynamicFloatValueType, DynamicIndexValue, ParameterMeta,
};
use pywr_core::schema::timeseries::{
    LoadedTimeseries, LoadedTimeseriesCollection, Timeseries, TimeseriesProvider,
};
use pywr_core::scenario::ScenarioIndex;
use pywr_core::timestep::{Date, Timestep};
use pywr_core::virtual_storage::VirtualStorageReset;

fn v(x: f64) -> i64 {
    (x * 1e9).round() as i64
}

fn constant(x: f64) -> Option<DynamicFloatValue> {
    Some(DynamicFloatValue::from_value(v(x)))
}

fn no_tables() -> LoadedTableCollection {
    LoadedTableCollection::new()
}

fn meta(name: &str) -> ParameterMeta {
    ParameterMeta { name: name.to_string(), comment: None }
}

fn wtw(name: &str) -> WaterTreatmentWorks {
    WaterTreatmentWorks {
        meta: NodeMeta::new(name),
        loss_factor: None,
        min_flow: None,
        max_flow: None,
        soft_min_flow: None,
        soft_min_flow_cost: None,
        cost: None,
    }
}

#[test]
fn test_wtw_schema_load() {
    let node = WaterTreatmentWorks {
        meta: NodeMeta { name: "My WTW".to_string(), comment: None, position: None },
        loss_factor: Some(DynamicFloatValue::Table {
            table: "loss_factors".to_string(),
            index: "My WTW".to_string(),
        }),
        min_flow: None,
        max_flow: Some(DynamicFloatValue::Parameter { name: "My WTW max flow".to_string() }),
        soft_min_flow: constant(105.0),
        soft_min_flow_cost: Some(DynamicFloatValue::Parameter {
            name: "my_min_flow_cost".to_string(),
        }),
        cost: constant(2.29),
    };

    assert_eq!(node.meta.name, "My WTW");
    let core = CoreNode::WaterTreatmentWorks(node);
    assert_eq!(core.name(), "My WTW");
    assert_eq!(core.node_type(), "WaterTreatmentWorks");
}

/// input1 → wtw1(max_flow=10, loss_factor=0.1) → demand1(max_flow=15, cost=−10)
fn model_definition() -> PywrModel {
    PywrModel {
        nodes: vec![
            Node::Core(CoreNode::Input(InputNode {
                meta: NodeMeta::new("input1"),
                max_flow: None,
                min_flow: None,
                cost: None,
            })),
            Node::Core(CoreNode::WaterTreatmentWorks(WaterTreatmentWorks {
                max_flow: constant(10.0),
                loss_factor: constant(0.1),
                ..wtw("wtw1")
            })),
            Node::Core(CoreNode::Output(OutputNode {
                meta: NodeMeta::new("demand1"),
                max_flow: constant(15.0),
                min_flow: None,
                cost: constant(-10.0),
            })),
        ],
        edges: vec![
            Edge { from_node: "input1".to_string(), to_node: "wtw1".to_string(), from_slot: None },
            Edge {
                from_node: "wtw1".to_string(),
                to_node: "demand1".to_string(),
                from_slot: None,
            },
        ],
        outputs: vec![],
    }
}

#[test]
fn test_model_schema() {
    let schema = model_definition();

    assert_eq!(schema.nodes.len(), 3);
    assert_eq!(schema.edges.len(), 2);
}

#[test]
fn test_model_run() {
    let schema = model_definition();
    let model = schema.build_model(&no_tables()).unwrap();
    let network = &model.network;

    assert_eq!(network.nodes.len(), 6);
    assert_eq!(network.edges.len(), 6);

    // The edges, in the order in which they were joined:
    // input1 → net, input1 → loss, net → soft, net → above, soft → demand1, above → demand1.
    let input = network.get_node_index_by_name("input1", None).unwrap();
    let demand = network.get_node_index_by_name("demand1", None).unwrap();
    let net = network.get_node_index_by_name("wtw1", Some("net")).unwrap();
    let loss = network.get_node_index_by_name("wtw1", Some("loss")).unwrap();
    assert_eq!(network.nodes[loss.0].kind, NodeKind::Output);
    let joins = |from: NodeIndex, to: NodeIndex| {
        network.edges.iter().position(|e| e.from_node == from && e.to_node == to).unwrap()
    };
    let soft = network.get_node_index_by_name("wtw1", Some("net_soft_min_flow")).unwrap();
    let above = network.get_node_index_by_name("wtw1", Some("net_above_soft_min_flow")).unwrap();

    let mut state = initial_state(network).unwrap();
    let daily = |index: usize| {
        Timestep::new(index, Date::new(2015, 1, 1, 1, false).unwrap(), 1)
    };
    for index in 0..365 {
        let (bounds, lp) = prepare_step(network, &state, &daily(index)).unwrap();
        assert_eq!(lp.columns, 6);
        // The net flow of the works is at most 10, and the loss is a tenth of the net flow.
        let mut solution = vec![0i64; 6];
        solution[joins(input, net)] = v(10.0);
        solution[joins(input, loss)] = v(1.0);
        solution[joins(net, soft)] = v(4.0);
        solution[joins(net, above)] = v(6.0);
        solution[joins(soft, demand)] = v(4.0);
        solution[joins(above, demand)] = v(6.0);
        assert_eq!(finish_step(network, &bounds, &mut state, &daily(index), &solution), Ok(()));
        assert_eq!(
            Metric::NodeOutFlow(input).get_value(network, &state),
            Ok(v(11.0))
        );
        assert_eq!(
            Metric::NodeInFlow(demand).get_value(network, &state),
            Ok(v(10.0))
        );
        if index == 0 {
            // Without the loss, or with more net flow than 10, the flows are no solution.
            let mut without_loss = solution.clone();
            without_loss[joins(input, loss)] = 0;
            assert_eq!(
                finish_step(network, &bounds, &mut state, &daily(index), &without_loss),
                Err(PywrError::SolverBackendError(REJECTED.to_string()))
            );
            let mut more = solution.clone();
            more[joins(input, net)] = v(11.0);
            more[joins(input, loss)] = v(1.1);
            more[joins(net, above)] = v(7.0);
            more[joins(above, demand)] = v(7.0);
            assert_eq!(
                finish_step(network, &bounds, &mut state, &daily(index), &more),
                Err(PywrError::SolverBackendError(REJECTED.to_string()))
            );
        }
    }
}

#[test]
fn a_works_is_built_of_links_and_a_loss() {
    let mut network = Network::new();
    let node = WaterTreatmentWorks { loss_factor: constant(0.1), ..wtw("works") };
    assert_eq!(node.add_to_model(&mut network), Ok(()));
    let labels: Vec<(String, Option<String>, NodeKind)> = network
        .nodes
        .iter()
        .map(|n| (n.name.clone(), n.sub_name.clone(), n.kind))
        .collect();
    assert_eq!(
        labels,
        vec![
            ("works".to_string(), Some("net".to_string()), NodeKind::Link),
            ("works".to_string(), Some("net_soft_min_flow".to_string()), NodeKind::Link),
            ("works".to_string(), Some("net_above_soft_min_flow".to_string()), NodeKind::Link),
            ("works".to_string(), Some("loss".to_string()), NodeKind::Output),
        ]
    );
    assert_eq!(network.edges.len(), 2);
    assert_eq!(network.edges[0].from_node, NodeIndex(0));
    assert_eq!(network.edges[0].to_node, NodeIndex(1));
    assert_eq!(network.edges[1].from_node, NodeIndex(0));
    assert_eq!(network.edges[1].to_node, NodeIndex(2));
    assert_eq!(network.aggregated_nodes.len(), 1);
    assert_eq!(network.aggregated_nodes[0].nodes, vec![NodeIndex(0), NodeIndex(3)]);
    assert_eq!(network.aggregated_nodes[0].sub_name, Some("agg".to_string()));
    assert_eq!(network.aggregated_nodes[0].factors, None);
    // A second works of the same name finds the labels taken.
    assert_eq!(node.add_to_model(&mut network), Err(PywrError::DuplicateName));
}

#[test]
fn a_works_without_loss_factor_has_no_loss() {
    let mut network = Network::new();
    let node = wtw("works");
    assert_eq!(node.add_to_model(&mut network), Ok(()));
    assert_eq!(network.nodes.len(), 3);
    assert_eq!(network.aggregated_nodes.len(), 0);
    assert_eq!(
        node.input_connectors(),
        vec![("works", Some("net".to_string()))]
    );
    let with_loss = WaterTreatmentWorks { loss_factor: constant(0.1), ..wtw("works") };
    assert_eq!(
        with_loss.input_connectors(),
        vec![("works", Some("net".to_string())), ("works", Some("loss".to_string()))]
    );
    assert_eq!(
        node.output_connectors(),
        vec![
            ("works", Some("net_soft_min_flow".to_string())),
            ("works", Some("net_above_soft_min_flow".to_string())),
        ]
    );
    assert_eq!(node.default_metric(&network), Ok(Metric::NodeOutFlow(NodeIndex(0))));
    assert_eq!(
        wtw("other").default_metric(&network),
        Err(PywrError::NotFound(EntityKind::Node, "other".to_string()))
    );
}

#[test]
fn the_constraints_of_a_works() {
    let mut network = Network::new();
    network
        .add_parameter(ParameterKind::Constant(ConstantParameter::new("my_min_flow_cost", v(-5.0))))
        .unwrap();
    let mut tables = LoadedTableCollection::new();
    tables.add(LoadedTable {
        name: "loss_factors".to_string(),
        entries: vec![("Other".to_string(), v(0.3)), ("My WTW".to_string(), v(0.2))],
    });
    let node = WaterTreatmentWorks {
        meta: NodeMeta::new("My WTW"),
        loss_factor: Some(DynamicFloatValue::Table {
            table: "loss_factors".to_string(),
            index: "My WTW".to_string(),
        }),
        min_flow: constant(1.0),
        max_flow: constant(10.0),
        soft_min_flow: constant(105.0),
        soft_min_flow_cost: Some(DynamicFloatValue::Parameter {
            name: "my_min_flow_cost".to_string(),
        }),
        cost: constant(2.29),
    };
    node.add_to_model(&mut network).unwrap();
    assert_eq!(node.set_constraints(&mut network, &tables), Ok(()));
    let net = &network.nodes[0];
    assert_eq!(net.cost, ConstraintValue::Scalar(v(2.29)));
    assert_eq!(net.max_flow, ConstraintValue::Scalar(v(10.0)));
    assert_eq!(net.min_flow, ConstraintValue::Scalar(v(1.0)));
    let soft = &network.nodes[1];
    assert_eq!(
        soft.cost,
        ConstraintValue::Metric(Metric::ParameterValue(ParameterIndex(0)))
    );
    assert_eq!(soft.max_flow, ConstraintValue::Scalar(v(105.0)));
    assert_eq!(network.nodes[2].max_flow, ConstraintValue::Unbounded);
    assert_eq!(
        network.aggregated_nodes[0].factors,
        Some(Factors::Ratio(vec![Metric::Constant(v(1.0)), Metric::Constant(v(0.2))]))
    );
}

#[test]
fn a_loss_factor_of_zero_sets_no_factors() {
    let mut network = Network::new();
    let node = WaterTreatmentWorks { loss_factor: constant(0.0), ..wtw("works") };
    node.add_to_model(&mut network).unwrap();
    assert_eq!(node.set_constraints(&mut network, &no_tables()), Ok(()));
    assert_eq!(network.aggregated_nodes[0].factors, None);
    // One billionth is not zero.
    let tiny = WaterTreatmentWorks {
        loss_factor: Some(DynamicFloatValue::from_value(1)),
        ..wtw("works")
    };
    assert_eq!(tiny.set_constraints(&mut network, &no_tables()), Ok(()));
    assert_eq!(
        network.aggregated_nodes[0].factors,
        Some(Factors::Ratio(vec![Metric::Constant(v(1.0)), Metric::Constant(1)]))
    );
}

#[test]
fn the_constraints_of_a_works_fail_with_the_first_failure() {
    let mut network = Network::new();
    let node = WaterTreatmentWorks {
        cost: constant(1.0),
        max_flow: Some(DynamicFloatValue::Parameter { name: "missing".to_string() }),
        soft_min_flow: Some(DynamicFloatValue::Table {
            table: "none".to_string(),
            index: "x".to_string(),
        }),
        ..wtw("works")
    };
    // Before the works is built its parts are not found.
    assert_eq!(
        node.set_constraints(&mut network, &no_tables()),
        Err(PywrError::NotFound(EntityKind::Node, "works".to_string()))
    );
    node.add_to_model(&mut network).unwrap();
    assert_eq!(
        node.set_constraints(&mut network, &no_tables()),
        Err(PywrError::NotFound(EntityKind::Parameter, "missing".to_string()))
    );
    // What was set before the failure stays set.
    assert_eq!(network.nodes[0].cost, ConstraintValue::Scalar(v(1.0)));
    let other = WaterTreatmentWorks {
        soft_min_flow: Some(DynamicFloatValue::Table {
            table: "none".to_string(),
            index: "x".to_string(),
        }),
        ..wtw("works")
    };
    assert_eq!(
        other.set_constraints(&mut network, &no_tables()),
        Err(PywrError::NotFound(EntityKind::Table, "none".to_string()))
    );
}

#[test]
fn tables_are_looked_up_by_name_and_key() {
    let mut tables = LoadedTableCollection::new();
    tables.add(LoadedTable {
        name: "t".to_string(),
        entries: vec![("a".to_string(), v(1.0)), ("b".to_string(), v(2.0))],
    });
    assert_eq!(tables.get_scalar("t", "b"), Ok(v(2.0)));
    assert_eq!(
        tables.get_scalar("t", "c"),
        Err(PywrError::NotFound(EntityKind::Column, "c".to_string()))
    );
    assert_eq!(
        tables.get_scalar("u", "a"),
        Err(PywrError::NotFound(EntityKind::Table, "u".to_string()))
    );
}

fn virtual_storage(name: &str) -> VirtualStorageNode {
    VirtualStorageNode {
        meta: NodeMeta::new(name),
        nodes: vec!["a".to_string(), "b".to_string()],
        factors: Some(vec![v(1.0), v(2.0)]),
        max_volume: constant(100.0),
        min_volume: None,
        cost: None,
        initial_volume: None,
        initial_volume_pc: Some(v(0.5)),
    }
}

fn two_links() -> Network {
    let mut network = Network::new();
    network.add_link_node("a", None).unwrap();
    network.add_link_node("b", None).unwrap();
    network
}

#[test]
fn a_virtual_storage_is_added_with_its_parts() {
    let mut network = two_links();
    let node = virtual_storage("licence");
    assert_eq!(node.add_to_model(&mut network, &no_tables()), Ok(()));
    let made = &network.virtual_storage_nodes[0];
    assert_eq!(made.name, "licence");
    assert_eq!(made.nodes, vec![NodeIndex(0), NodeIndex(1)]);
    assert_eq!(made.factors, Some(vec![v(1.0), v(2.0)]));
    assert_eq!(made.initial_volume, StorageInitialVolume::Proportional(v(0.5)));
    assert_eq!(made.min_volume, ConstraintValue::Scalar(0));
    assert_eq!(made.max_volume, ConstraintValue::Scalar(v(100.0)));
    assert_eq!(made.cost, ConstraintValue::Scalar(0));
    assert_eq!(made.reset, VirtualStorageReset::Never);
    assert_eq!(
        node.default_metric(&network),
        Ok(Metric::VirtualStorageVolume(pywr_core::virtual_storage::VirtualStorageIndex(0)))
    );
    assert!(node.input_connectors().is_empty());
    assert!(node.output_connectors().is_empty());
    assert_eq!(node.add_to_model(&mut network, &no_tables()), Err(PywrError::DuplicateName));
}

#[test]
fn an_absolute_initial_volume_goes_before_a_proportional_one() {
    let mut network = two_links();
    let node = VirtualStorageNode {
        initial_volume: Some(v(30.0)),
        max_volume: None,
        ..virtual_storage("licence")
    };
    node.add_to_model(&mut network, &no_tables()).unwrap();
    let made = &network.virtual_storage_nodes[0];
    assert_eq!(made.initial_volume, StorageInitialVolume::Absolute(v(30.0)));
    assert_eq!(made.max_volume, ConstraintValue::Unbounded);
}

#[test]
fn a_virtual_storage_needs_an_initial_volume() {
    let mut network = two_links();
    let node = VirtualStorageNode { initial_volume_pc: None, ..virtual_storage("licence") };
    assert_eq!(
        node.add_to_model(&mut network, &no_tables()),
        Err(PywrError::MissingInitialVolume("licence".to_string()))
    );
    assert_eq!(network.virtual_storage_nodes.len(), 0);
}

#[test]
fn a_virtual_storage_needs_its_nodes_and_factors() {
    let mut network = two_links();
    let missing = VirtualStorageNode {
        nodes: vec!["a".to_string(), "z".to_string()],
        ..virtual_storage("licence")
    };
    assert_eq!(
        missing.add_to_model(&mut network, &no_tables()),
        Err(PywrError::NotFound(EntityKind::Node, "z".to_string()))
    );
    let short = VirtualStorageNode { factors: Some(vec![v(1.0)]), ..virtual_storage("licence") };
    assert_eq!(
        short.add_to_model(&mut network, &no_tables()),
        Err(PywrError::FactorCountMismatch)
    );
    let costly = VirtualStorageNode {
        cost: Some(DynamicFloatValue::Parameter { name: "none".to_string() }),
        ..virtual_storage("licence")
    };
    assert_eq!(
        costly.add_to_model(&mut network, &no_tables()),
        Err(PywrError::NotFound(EntityKind::Parameter, "none".to_string()))
    );
}

#[test]
fn nodes_by_type() {
    let input = CoreNode::Input(InputNode {
        meta: NodeMeta::new("in"),
        max_flow: constant(5.0),
        min_flow: None,
        cost: constant(1.0),
    });
    let link = CoreNode::Link(LinkNode {
        meta: NodeMeta::new("link"),
        max_flow: None,
        min_flow: None,
        cost: None,
    });
    let storage = CoreNode::Storage(StorageNode {
        meta: NodeMeta::new("store"),
        max_volume: constant(100.0),
        min_volume: None,
        cost: None,
        initial_volume: Some(v(10.0)),
        initial_volume_pc: None,
    });
    let catchment = CoreNode::Catchment(CatchmentNode {
        meta: NodeMeta::new("rain"),
        flow: constant(3.0),
        cost: None,
    });
    let aggregated = CoreNode::Aggregated(AggregatedNode {
        meta: NodeMeta::new("agg"),
        nodes: vec!["in".to_string(), "link".to_string()],
        max_flow: constant(7.0),
        min_flow: None,
        factors: Some(vec![
            DynamicFloatValue::from_value(v(1.0)),
            DynamicFloatValue::from_value(v(3.0)),
        ]),
    });
    let stores = CoreNode::AggregatedStorage(AggregatedStorageNode {
        meta: NodeMeta::new("stores"),
        storage_nodes: vec!["store".to_string()],
    });
    assert_eq!(input.node_type(), "Input");
    assert_eq!(link.node_type(), "Link");
    assert_eq!(storage.node_type(), "Storage");
    assert_eq!(catchment.node_type(), "Catchment");
    assert_eq!(aggregated.node_type(), "Aggregated");
    assert_eq!(stores.node_type(), "AggregatedStorage");
    assert_eq!(input.position(), None);
    assert_eq!(input.meta().name, "in");

    let names: Vec<&str> = input.parameters().iter().map(|p| p.0).collect();
    assert_eq!(names, vec!["max_flow", "cost"]);
    assert_eq!(storage.parameters().len(), 1);
    assert_eq!(storage.parameters()[0].0, "max_volume");
    assert!(aggregated.parameters().is_empty());

    let tables = no_tables();
    let mut network = Network::new();
    for node in [&input, &link, &storage, &catchment, &aggregated, &stores] {
        assert_eq!(node.add_to_model(&mut network, &tables), Ok(()));
    }
    for node in [&input, &link, &storage, &catchment, &aggregated, &stores] {
        assert_eq!(node.set_constraints(&mut network, &tables), Ok(()));
    }
    assert_eq!(network.nodes.len(), 4);
    assert_eq!(network.nodes[0].max_flow, ConstraintValue::Scalar(v(5.0)));
    assert_eq!(network.nodes[0].cost, ConstraintValue::Scalar(v(1.0)));
    assert_eq!(network.nodes[2].kind, NodeKind::Storage);
    assert_eq!(network.nodes[2].initial_volume, Some(StorageInitialVolume::Absolute(v(10.0))));
    assert_eq!(network.nodes[2].max_volume, ConstraintValue::Scalar(v(100.0)));
    assert_eq!(network.nodes[2].min_volume, ConstraintValue::Scalar(0));
    assert_eq!(network.nodes[3].kind, NodeKind::Input);
    assert_eq!(network.nodes[3].min_flow, ConstraintValue::Scalar(v(3.0)));
    assert_eq!(network.nodes[3].max_flow, ConstraintValue::Scalar(v(3.0)));
    assert_eq!(network.aggregated_nodes[0].max_flow, ConstraintValue::Scalar(v(7.0)));
    assert_eq!(
        network.aggregated_nodes[0].factors,
        Some(Factors::Ratio(vec![Metric::Constant(v(1.0)), Metric::Constant(v(3.0))]))
    );
    assert_eq!(network.aggregated_storage_nodes[0].nodes, vec![NodeIndex(2)]);

    assert_eq!(input.default_metric(&network), Ok(Metric::NodeOutFlow(NodeIndex(0))));
    assert_eq!(storage.default_metric(&network), Ok(Metric::NodeVolume(NodeIndex(2))));
    assert_eq!(input.input_connectors(), vec![("in", None)]);
    assert_eq!(link.output_connectors(None), vec![("link", None)]);
    assert!(stores.input_connectors().is_empty());
}

#[test]
fn a_storage_needs_an_initial_volume() {
    let storage = StorageNode {
        meta: NodeMeta::new("store"),
        max_volume: None,
        min_volume: None,
        cost: None,
        initial_volume: None,
        initial_volume_pc: None,
    };
    let mut network = Network::new();
    assert_eq!(
        storage.add_to_model(&mut network, &no_tables()),
        Err(PywrError::MissingInitialVolume("store".to_string()))
    );
}

#[test]
fn a_node_of_an_unknown_type_keeps_what_it_was_given() {
    let node = Node::Custom(CustomNode {
        ty: "Reservoir2000".to_string(),
        meta: NodeMeta::new("odd"),
        attributes: vec![("depth".to_string(), "12.5".to_string())],
    });
    assert_eq!(node.name(), "odd");
    assert_eq!(node.node_type(), "Reservoir2000");
    assert_eq!(node.position(), None);
    assert!(node.parameters().is_empty());
    let known = Node::Core(CoreNode::Link(LinkNode {
        meta: NodeMeta::new("link"),
        max_flow: None,
        min_flow: constant(1.0),
        cost: None,
    }));
    assert_eq!(known.name(), "link");
    assert_eq!(known.node_type(), "Link");
    assert_eq!(known.parameters().len(), 1);
    assert_eq!(known.input_connectors(), vec![("link", None)]);
    assert_eq!(known.output_connectors(None), vec![("link", None)]);
    let mut network = Network::new();
    assert_eq!(known.add_to_model(&mut network, &no_tables()), Ok(()));
    assert_eq!(known.set_constraints(&mut network, &no_tables()), Ok(()));
    assert_eq!(known.default_metric(&network), Ok(Metric::NodeOutFlow(NodeIndex(0))));
}

#[test]
fn test_control_curve_piecewise_interpolated() {
    let param = ControlCurvePiecewiseInterpolatedParameter {
        meta: ParameterMeta {
            name: "My control curve".to_string(),
            comment: Some("A witty comment".to_string()),
        },
        storage_node: "Reservoir".to_string(),
        control_curves: vec![
            DynamicFloatValue::Parameter { name: "reservoir_cc".to_string() },
            DynamicFloatValue::from_value(v(0.2)),
        ],
        values: Some(vec![
            [v(-0.1), v(-1.0)],
            [v(-100.0), v(-200.0)],
            [v(-300.0), v(-400.0)],
        ]),
        minimum: Some(v(0.05)),
        maximum: None,
    };

    assert_eq!(param.node_references().len(), 1);
    let reference = param.node_references().into_iter().find(|r| r.0 == "storage_node");
    assert_eq!(reference.map(|r| r.1), Some("Reservoir"));

    assert_eq!(param.parameters().len(), 1);
    match param.parameters().into_iter().find(|p| p.0 == "control_curves").unwrap().1 {
        DynamicFloatValueType::List(p) => assert_eq!(p.len(), 2),
        _ => panic!("Wrong variant for control_curves."),
    };
}

fn reservoir_network() -> Network {
    let mut network = Network::new();
    network
        .add_storage_node(
            "Reservoir",
            None,
            StorageInitialVolume::Absolute(v(50.0)),
            ConstraintValue::Scalar(0),
            ConstraintValue::Scalar(v(100.0)),
        )
        .unwrap();
    network.add_link_node("River", None).unwrap();
    network
        .add_parameter(ParameterKind::Constant(ConstantParameter::new("reservoir_cc", v(0.8))))
        .unwrap();
    network
}

#[test]
fn control_curve_definitions_are_added_as_parameters() {
    let mut network = reservoir_network();
    let curves = vec![
        DynamicFloatValue::Parameter { name: "reservoir_cc".to_string() },
        DynamicFloatValue::from_value(v(0.2)),
    ];
    let loaded_curves =
        vec![Metric::ParameterValue(ParameterIndex(0)), Metric::Constant(v(0.2))];
    let storage = Metric::NodeProportionalVolume(NodeIndex(0));

    let piecewise = ControlCurvePiecewiseInterpolatedParameter {
        meta: meta("piecewise"),
        storage_node: "Reservoir".to_string(),
        control_curves: curves.clone(),
        values: Some(vec![[v(-0.1), v(-1.0)], [v(-100.0), v(-200.0)], [v(-300.0), v(-400.0)]]),
        minimum: Some(v(0.05)),
        maximum: None,
    };
    assert_eq!(piecewise.add_to_model(&mut network, &no_tables()), Ok(ParameterIndex(1)));
    match &network.parameters[1] {
        ParameterKind::PiecewiseInterpolated(p) => {
            assert_eq!(p.meta.name, "piecewise");
            assert_eq!(p.metric, storage);
            assert_eq!(p.control_curves, loaded_curves);
            assert_eq!(p.values.len(), 3);
            assert_eq!(p.maximum, v(1.0));
            assert_eq!(p.minimum, v(0.05));
        }
        _ => panic!("Wrong kind of parameter."),
    }
    assert_eq!(
        piecewise.add_to_model(&mut network, &no_tables()),
        Err(PywrError::DuplicateName)
    );

    let interpolated = ControlCurveInterpolatedParameter {
        meta: meta("interpolated"),
        control_curves: curves.clone(),
        storage_node: "Reservoir".to_string(),
        values: vec![
            DynamicFloatValue::from_value(v(3.0)),
            DynamicFloatValue::from_value(v(2.0)),
            DynamicFloatValue::from_value(v(1.0)),
            DynamicFloatValue::from_value(v(0.0)),
        ],
    };
    assert_eq!(interpolated.node_references(), vec![("storage_node", "Reservoir")]);
    assert_eq!(interpolated.parameters().len(), 1);
    assert_eq!(interpolated.add_to_model(&mut network, &no_tables()), Ok(ParameterIndex(2)));
    match &network.parameters[2] {
        ParameterKind::Interpolated(p) => {
            assert_eq!(p.control_curves, loaded_curves);
            assert_eq!(p.values.len(), 4);
            assert_eq!(p.values[0], Metric::Constant(v(3.0)));
        }
        _ => panic!("Wrong kind of parameter."),
    }

    let stepped = ControlCurveParameter {
        meta: meta("stepped"),
        control_curves: curves.clone(),
        storage_node: "Reservoir".to_string(),
        values: vec![
            DynamicFloatValue::from_value(v(3.0)),
            DynamicFloatValue::from_value(v(2.0)),
            DynamicFloatValue::from_value(v(1.0)),
        ],
    };
    assert_eq!(stepped.node_references(), vec![("storage_node", "Reservoir")]);
    let attributes = stepped.parameters();
    assert_eq!(attributes.len(), 2);
    assert_eq!(attributes[0].0, "control_curves");
    assert_eq!(attributes[0].1, DynamicFloatValueType::List(&stepped.control_curves));
    assert_eq!(attributes[1].0, "values");
    assert_eq!(attributes[1].1, DynamicFloatValueType::List(&stepped.values));
    assert_eq!(stepped.add_to_model(&mut network, &no_tables()), Ok(ParameterIndex(3)));
    assert!(matches!(network.parameters[3], ParameterKind::ControlCurve(_)));

    let index = ControlCurveIndexParameter {
        meta: meta("index"),
        control_curves: curves,
        values: None,
        storage_node: "Reservoir".to_string(),
    };
    assert_eq!(index.node_references(), vec![("storage_node", "Reservoir")]);
    assert_eq!(index.parameters().len(), 1);
    assert_eq!(index.add_to_model(&mut network, &no_tables()), Ok(IndexParameterIndex(0)));
    match &network.index_parameters[0] {
        IndexParameterKind::ControlCurveIndex(p) => {
            assert_eq!(p.metric, storage);
            assert_eq!(p.control_curves, loaded_curves);
        }
        _ => panic!("Wrong kind of parameter."),
    }
    // The parameters that were added can be ordered and computed.
    let order = network.evaluation_order().unwrap();
    let mut state = initial_state(&network).unwrap();
    let step = Timestep::new(0, Date::new(2021, 1, 1, 1, false).unwrap(), 1);
    let progress = pywr_core::evaluation::compute_parameters(
        &network,
        &order,
        0,
        &step,
        &ScenarioIndex::new(0, vec![0]),
        &mut state,
    );
    assert_eq!(progress, Ok(pywr_core::evaluation::Progress::Done));
    // The storage holds half of its greatest volume: the region between 0.8 and 0.2.
    assert_eq!(state.index_parameter_values, vec![1]);
    assert_eq!(state.parameter_values, vec![v(0.8), v(-150.0), v(1.5), v(2.0)]);
}

#[test]
fn control_curve_definitions_need_a_storage_and_their_parameters() {
    let mut network = reservoir_network();
    let on_link = ControlCurveParameter {
        meta: meta("p"),
        control_curves: vec![],
        storage_node: "River".to_string(),
        values: vec![],
    };
    assert_eq!(
        on_link.add_to_model(&mut network, &no_tables()),
        Err(PywrError::StorageOnNonStorageNode)
    );
    let nowhere = ControlCurveInterpolatedParameter {
        meta: meta("p"),
        control_curves: vec![],
        storage_node: "Lake".to_string(),
        values: vec![],
    };
    assert_eq!(
        nowhere.add_to_model(&mut network, &no_tables()),
        Err(PywrError::NotFound(EntityKind::Node, "Lake".to_string()))
    );
    let unknown_curve = ControlCurveIndexParameter {
        meta: meta("p"),
        control_curves: vec![DynamicFloatValue::Parameter { name: "none".to_string() }],
        values: None,
        storage_node: "Reservoir".to_string(),
    };
    assert_eq!(
        unknown_curve.add_to_model(&mut network, &no_tables()),
        Err(PywrError::NotFound(EntityKind::Parameter, "none".to_string()))
    );
    assert_eq!(network.parameters.len(), 1);
    assert_eq!(network.index_parameters.len(), 0);
}

#[test]
fn an_asymmetric_switch_is_added_as_an_index_parameter() {
    let mut network = Network::new();
    let first = AsymmetricSwitchIndexParameter {
        meta: meta("first"),
        on_index_parameter: DynamicIndexValue::Constant(1),
        off_index_parameter: DynamicIndexValue::Constant(0),
    };
    assert!(first.node_references().is_empty());
    assert!(first.parameters().is_empty());
    assert_eq!(first.add_to_model(&mut network), Ok(IndexParameterIndex(0)));
    let second = AsymmetricSwitchIndexParameter {
        meta: meta("second"),
        on_index_parameter: DynamicIndexValue::Parameter { name: "first".to_string() },
        off_index_parameter: DynamicIndexValue::Constant(0),
    };
    assert_eq!(second.add_to_model(&mut network), Ok(IndexParameterIndex(1)));
    match &network.index_parameters[1] {
        IndexParameterKind::AsymmetricSwitch(p) => {
            assert_eq!(p.on_parameter, IndexValue::Dynamic(IndexParameterIndex(0)));
            assert_eq!(p.off_parameter, IndexValue::Constant(0));
        }
        _ => panic!("Wrong kind of parameter."),
    }
    assert_eq!(second.add_to_model(&mut network), Err(PywrError::DuplicateName));
    let third = AsymmetricSwitchIndexParameter {
        meta: meta("third"),
        on_index_parameter: DynamicIndexValue::Constant(0),
        off_index_parameter: DynamicIndexValue::Parameter { name: "none".to_string() },
    };
    assert_eq!(
        third.add_to_model(&mut network),
        Err(PywrError::NotFound(EntityKind::IndexParameter, "none".to_string()))
    );
}

#[test]
fn outputs_record_the_metrics_of_the_nodes() {
    let schema = model_definition();
    let mut model = schema.build_model(&no_tables()).unwrap();
    let csv = Output::CSV(CsvOutput { name: "flows".to_string(), filename: "flows.csv".to_string() });
    let hdf = Output::HDF5(Hdf5Output { name: "all".to_string(), filename: "all.h5".to_string() });
    assert_eq!(csv.add_to_model(&mut model, &schema), Ok(()));
    assert_eq!(hdf.add_to_model(&mut model, &schema), Ok(()));
    assert_eq!(csv.add_to_model(&mut model, &schema), Err(PywrError::DuplicateName));
    assert_eq!(model.recorders.len(), 2);
    assert_eq!(model.recorders[0].name, "flows");
    assert_eq!(model.recorders[0].filename, "flows.csv");
    assert_eq!(model.recorders[0].format, RecorderFormat::Csv);
    assert_eq!(model.recorders[1].format, RecorderFormat::Hdf5);
    assert_eq!(
        model.recorders[0].metrics,
        vec![
            Metric::NodeOutFlow(NodeIndex(0)),
            Metric::NodeOutFlow(NodeIndex(1)),
            Metric::NodeInFlow(NodeIndex(5)),
        ]
    );
    let mut empty = Model::new(Network::new());
    assert_eq!(
        csv.add_to_model(&mut empty, &schema),
        Err(PywrError::NotFound(EntityKind::Node, "input1".to_string()))
    );
}

#[test]
fn a_model_with_outputs_is_built_with_its_recorders() {
    let mut schema = model_definition();
    schema.outputs = vec![Output::CSV(CsvOutput {
        name: "flows".to_string(),
        filename: "flows.csv".to_string(),
    })];
    let model = schema.build_model(&no_tables()).unwrap();
    assert_eq!(model.recorders.len(), 1);
    assert_eq!(model.recorders[0].metrics.len(), 3);
}

#[test]
fn a_model_with_an_edge_to_nowhere_is_not_built() {
    let mut schema = model_definition();
    schema.edges.push(Edge {
        from_node: "demand1".to_string(),
        to_node: "nowhere".to_string(),
        from_slot: None,
    });
    assert_eq!(
        schema.build_model(&no_tables()).err(),
        Some(PywrError::NotFound(EntityKind::Node, "nowhere".to_string()))
    );
    let mut backwards = model_definition();
    backwards.edges.push(Edge {
        from_node: "demand1".to_string(),
        to_node: "input1".to_string(),
        from_slot: None,
    });
    assert_eq!(backwards.build_model(&no_tables()).err(), Some(PywrError::InvalidEdge));
    let mut twice = model_definition();
    twice.nodes.push(Node::Core(CoreNode::Link(LinkNode {
        meta: NodeMeta::new("input1"),
        max_flow: None,
        min_flow: None,
        cost: None,
    })));
    assert_eq!(twice.build_model(&no_tables()).err(), Some(PywrError::DuplicateName));
}

fn series() -> LoadedTimeseriesCollection {
    LoadedTimeseriesCollection::from_schema(vec![
        LoadedTimeseries {
            name: "inflow".to_string(),
            columns: vec![("old".to_string(), vec![v(9.0)])],
        },
        LoadedTimeseries {
            name: "inflow".to_string(),
            columns: vec![
                ("dry".to_string(), vec![v(1.0), v(2.0), v(3.0)]),
                ("wet".to_string(), vec![v(10.0), v(20.0), v(30.0)]),
            ],
        },
    ])
}

#[test]
fn a_timeseries_names_its_provider() {
    let timeseries = Timeseries {
        meta: meta("inflow"),
        provider: TimeseriesProvider::Polars { url: "inflow.csv".to_string(), time_col: None },
    };
    assert_eq!(timeseries.meta.name, "inflow");
    assert_ne!(timeseries.provider, TimeseriesProvider::Pandas);
}

#[test]
fn a_column_of_a_timeseries_becomes_a_parameter() {
    let mut network = Network::new();
    let collection = series();
    let idx = collection.load_column(&mut network, "inflow", "wet").unwrap();
    assert_eq!(idx, ParameterIndex(0));
    assert_eq!(network.parameters[0].name(), "inflow_wet");
    let state = initial_state(&network).unwrap();
    let at = |index: usize| {
        let step = Timestep::new(index, Date::new(2021, 1, 1, 1, false).unwrap(), 1);
        network.parameters[0].compute(&step, &ScenarioIndex::new(0, vec![0]), &network, &state)
    };
    assert_eq!(at(0), Ok(Some(v(10.0))));
    assert_eq!(at(2), Ok(Some(v(30.0))));
    assert_eq!(at(3), Err(PywrError::TimestepIndexOutOfRange));
    // The time series that was read last stands for its name.
    assert_eq!(
        collection.load_column(&mut network, "inflow", "old"),
        Err(PywrError::NotFound(EntityKind::Column, "old".to_string()))
    );
    assert_eq!(
        collection.load_column(&mut network, "outflow", "wet"),
        Err(PywrError::NotFound(EntityKind::Timeseries, "outflow".to_string()))
    );
    assert_eq!(
        collection.load_column(&mut network, "inflow", "wet"),
        Err(PywrError::DuplicateName)
    );
}

#[test]
fn a_timeseries_becomes_a_parameter_with_a_column_for_each_scenario() {
    let mut network = Network::new();
    let collection = series();
    let groups = vec!["climate".to_string(), "demand".to_string()];
    let idx = collection.load_df(&mut network, "inflow", &groups, "demand").unwrap();
    assert_eq!(network.parameters[idx.0].name(), "inflow_demand");
    let state = initial_state(&network).unwrap();
    let at = |index: usize, scenario: usize| {
        let step = Timestep::new(index, Date::new(2021, 1, 1, 1, false).unwrap(), 1);
        // The scenario in the group "demand" picks the column.
        let scenario_index = ScenarioIndex::new(scenario, vec![0, scenario]);
        network.parameters[0].compute(&step, &scenario_index, &network, &state)
    };
    assert_eq!(at(0, 0), Ok(Some(v(1.0))));
    assert_eq!(at(0, 1), Ok(Some(v(10.0))));
    assert_eq!(at(2, 0), Ok(Some(v(3.0))));
    assert_eq!(at(2, 1), Ok(Some(v(30.0))));
    assert_eq!(at(3, 0), Err(PywrError::TimestepIndexOutOfRange));
    assert_eq!(at(0, 2), Err(PywrError::TimestepIndexOutOfRange));
    assert_eq!(
        collection.load_df(&mut network, "inflow", &groups, "weather"),
        Err(PywrError::NotFound(EntityKind::ScenarioGroup, "weather".to_string()))
    );
    assert_eq!(
        collection.load_df(&mut network, "outflow", &groups, "demand"),
        Err(PywrError::NotFound(EntityKind::Timeseries, "outflow".to_string()))
    );
}
