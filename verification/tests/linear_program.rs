use pywr_core::aggregated_node::Factors;
use pywr_core::metric::Metric;
use pywr_core::network::Network;
use pywr_core::node::{ConstraintValue, StorageInitialVolume};
use pywr_core::run::initial_state;
use pywr_core::solvers::bounds::StepBounds;
use pywr_core::solvers::builder::{build_lp, row_layout, Row, RowKind};
use pywr_core::timestep::{Date, Timestep};
use pywr_core::value::UNIT;

fn v(x: f64) -> i64 {
    (x * 1e9).round() as i64
}

fn step(days: u32) -> Timestep {
    Timestep::new(0, Date::new(2021, 1, 1, 1, false).unwrap(), days)
}

/// input → link → store → output, with input and link in an aggregated node.
fn network() -> Network {
    let mut network = Network::new();
    let input = network.add_input_node("input", None).unwrap();
    let link = network.add_link_node("link", None).unwrap();
    let store = network
        .add_storage_node(
            "store",
            None,
            StorageInitialVolume::Absolute(v(50.0)),
            ConstraintValue::Scalar(v(10.0)),
            ConstraintValue::Scalar(v(100.0)),
        )
        .unwrap();
    let output = network.add_output_node("output", None).unwrap();
    network.connect(input, link).unwrap();
    network.connect(link, store).unwrap();
    network.connect(store, output).unwrap();
    network.set_node_max_flow("input", None, ConstraintValue::Scalar(v(5.0))).unwrap();
    network.set_node_min_flow("link", None, ConstraintValue::Scalar(v(1.0))).unwrap();
    network.set_node_cost("input", None, ConstraintValue::Scalar(v(2.0))).unwrap();
    network.set_node_cost("link", None, ConstraintValue::Scalar(v(3.0))).unwrap();
    network.set_node_cost("store", None, ConstraintValue::Scalar(v(7.0))).unwrap();
    network.set_node_cost("output", None, ConstraintValue::Scalar(v(-10.0))).unwrap();
    network
        .add_aggregated_node(
            "agg",
            None,
            &[input, link],
            Some(Factors::Ratio(vec![Metric::Constant(v(1.0)), Metric::Constant(v(0.5))])),
        )
        .unwrap();
    network
        .set_aggregated_node_flow_bounds(
            "agg",
            None,
            ConstraintValue::Unbounded,
            ConstraintValue::Scalar(v(8.0)),
        )
        .unwrap();
    network
}

#[test]
fn the_rows_follow_the_nodes_and_the_aggregated_nodes() {
    let network = network();
    assert_eq!(
        row_layout(&network),
        vec![
            RowKind::Flow(0),
            RowKind::Balance(1),
            RowKind::Flow(1),
            RowKind::Storage(2),
            RowKind::Flow(3),
            RowKind::AggregatedFlow(0),
            RowKind::Factor(0, 1),
        ]
    );
}

#[test]
fn the_linear_program_of_a_step() {
    let network = network();
    let state = initial_state(&network).unwrap();
    let bounds = StepBounds::evaluate(&network, &state).unwrap();
    let lp = build_lp(&network, &bounds, &state, &step(2));
    assert_eq!(lp.columns, 3);
    // input → link: cost of the input and of the link; link → store: nothing, a link costs on
    // what enters it; store → output: cost of the storage and of the output.
    assert_eq!(lp.objective, vec![v(5.0), 0, v(-3.0)]);
    assert_eq!(lp.kinds, row_layout(&network));
    let expected = vec![
        // The flow out of the input is at most 5.
        Row { entries: vec![(0, UNIT)], lower: None, upper: Some(v(5.0)) },
        // What enters the link leaves it.
        Row { entries: vec![(0, UNIT), (1, -UNIT)], lower: Some(0), upper: Some(0) },
        // The flow into the link is at least 1.
        Row { entries: vec![(0, UNIT)], lower: Some(v(1.0)), upper: None },
        // Over two days the storage of 50 stays between 10 and 100.
        Row {
            entries: vec![(1, UNIT), (2, -UNIT)],
            lower: Some(v(-20.0)),
            upper: Some(v(25.0)),
        },
        // The output is not bounded.
        Row { entries: vec![(2, UNIT)], lower: None, upper: None },
        // Input and link carry at most 8 together.
        Row { entries: vec![(0, UNIT), (0, UNIT)], lower: None, upper: Some(v(8.0)) },
        // The input times the factor of the link is the link times the factor of the input.
        Row { entries: vec![(0, v(0.5)), (0, v(-1.0))], lower: Some(0), upper: Some(0) },
    ];
    assert_eq!(lp.rows, expected);
}

#[test]
fn the_bounds_of_a_storage_are_rounded_into_its_range() {
    let network = network();
    let mut state = initial_state(&network).unwrap();
    state.network_state.node_volumes[2] = v(50.0) + 1;
    let bounds = StepBounds::evaluate(&network, &state).unwrap();
    let lp = build_lp(&network, &bounds, &state, &step(3));
    // (10 − 50.000000001) / 3 rounded up, (100 − 50.000000001) / 3 rounded down.
    assert_eq!(lp.rows[3].lower, Some(-13_333_333_333));
    assert_eq!(lp.rows[3].upper, Some(16_666_666_666));
    // A step without length does not bind the storage.
    let none = build_lp(&network, &bounds, &state, &step(0));
    assert_eq!(none.rows[3].lower, None);
    assert_eq!(none.rows[3].upper, None);
}
