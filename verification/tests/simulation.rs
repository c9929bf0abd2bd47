use pywr_core::aggregated_node::Factors;
use pywr_core::error::{EntityKind, PywrError};
use pywr_core::evaluation::{compute_parameter, compute_parameters, Progress};
use pywr_core::metric::Metric;
use pywr_core::network::Network;
use pywr_core::node::{ConstraintValue, NodeIndex, StorageInitialVolume};
use pywr_core::parameters::asymmetric::{AsymmetricSwitchIndexParameter, IndexValue};
use pywr_core::parameters::simple_wasm::SimpleWasmParameter;
use pywr_core::parameters::{
    AggFunc, AggregatedParameter, ConstantParameter, IndexParameterIndex, IndexParameterKind,
    MonthlyProfileParameter, NegativeParameter, ParameterIndex, ParameterKind, ParameterType,
    VectorParameter,
};
use pywr_core::run::{
    blank_state, finish_step, initial_state, initialise, prepare_step, REJECTED,
};
use pywr_core::scenario::ScenarioIndex;
use pywr_core::solvers::bounds::StepBounds;
use pywr_core::solvers::feasibility::check_flows;
use pywr_core::timestep::{Date, Timestep};
use pywr_core::virtual_storage::VirtualStorageReset;

fn v(x: f64) -> i64 {
    (x * 1e9).round() as i64
}

fn day(index: usize) -> Timestep {
    Timestep::new(index, Date::new(2021, 1, 1 + index as u8, 1 + index as u16, false).unwrap(), 1)
}

fn scenario() -> ScenarioIndex {
    ScenarioIndex::new(0, vec![0])
}

fn rejected() -> Result<(), PywrError> {
    Err(PywrError::SolverBackendError(REJECTED.to_string()))
}

/// input(max_flow=5) → store(max_volume=100, init=50) → output(max_flow=5, cost=−1)
fn storage_network() -> Network {
    let mut network = Network::new();
    let input = network.add_input_node("input", None).unwrap();
    let store = network
        .add_storage_node(
            "store",
            None,
            StorageInitialVolume::Absolute(v(50.0)),
            ConstraintValue::Scalar(0),
            ConstraintValue::Scalar(v(100.0)),
        )
        .unwrap();
    let output = network.add_output_node("output", None).unwrap();
    network.connect(input, store).unwrap();
    network.connect(store, output).unwrap();
    network.set_node_max_flow("input", None, ConstraintValue::Scalar(v(5.0))).unwrap();
    network.set_node_max_flow("output", None, ConstraintValue::Scalar(v(5.0))).unwrap();
    network.set_node_cost("output", None, ConstraintValue::Scalar(v(-1.0))).unwrap();
    network
}

#[test]
fn a_run_starts_with_the_initial_volumes() {
    let network = storage_network();
    let state = initial_state(&network).unwrap();
    assert_eq!(state.network_state.node_volumes, vec![0, v(50.0), 0]);
    assert_eq!(state.network_state.edge_flows, vec![0, 0]);
    assert_eq!(state.network_state.node_in_flows, vec![0, 0, 0]);
    assert_eq!(state.network_state.node_out_flows, vec![0, 0, 0]);
}

#[test]
fn a_proportional_initial_volume_is_a_share_of_the_greatest_volume() {
    let mut network = Network::new();
    let node = network
        .add_storage_node(
            "store",
            None,
            StorageInitialVolume::Proportional(v(0.25)),
            ConstraintValue::Scalar(0),
            ConstraintValue::Scalar(v(80.0)),
        )
        .unwrap();
    network
        .add_virtual_storage_node(
            "licence",
            None,
            &[node],
            None,
            StorageInitialVolume::Proportional(v(0.5)),
            ConstraintValue::Scalar(0),
            ConstraintValue::Scalar(v(30.0)),
            VirtualStorageReset::Never,
            ConstraintValue::Scalar(0),
        )
        .unwrap();
    let state = initial_state(&network).unwrap();
    assert_eq!(state.network_state.node_volumes, vec![v(20.0)]);
    assert_eq!(state.network_state.virtual_storage_volumes, vec![v(15.0)]);
}

#[test]
fn a_start_that_cannot_read_a_greatest_volume_fails_and_changes_nothing() {
    let mut network = Network::new();
    network
        .add_storage_node(
            "store",
            None,
            StorageInitialVolume::Proportional(v(0.25)),
            ConstraintValue::Scalar(0),
            ConstraintValue::Metric(Metric::ParameterValue(ParameterIndex(3))),
        )
        .unwrap();
    let mut state = blank_state(&network);
    let before = state.clone();
    assert_eq!(
        initialise(&network, &mut state),
        Err(PywrError::NotFoundAt(EntityKind::Parameter, 3))
    );
    assert_eq!(state, before);
}

#[test]
fn simple_storage_is_drawn_down_by_the_output() {
    let network = storage_network();
    let mut state = initial_state(&network).unwrap();
    // Nothing flows in and the output takes all that it can: five a day for ten days.
    for t in 0..10 {
        let (bounds, lp) = prepare_step(&network, &state, &day(t)).unwrap();
        assert_eq!(lp.columns, 2);
        let solution = [0, v(5.0)];
        assert_eq!(finish_step(&network, &bounds, &mut state, &day(t), &solution), Ok(()));
        assert_eq!(state.network_state.node_in_flows[2], v(5.0));
        assert_eq!(state.network_state.node_volumes[1], v(50.0 - 5.0 * (t as f64 + 1.0)));
    }
    assert_eq!(state.network_state.node_volumes[1], 0);
}

#[test]
fn storage_follows_its_recurrence_over_longer_steps() {
    let network = storage_network();
    let mut state = initial_state(&network).unwrap();
    let week = Timestep::new(0, Date::new(2021, 1, 1, 1, false).unwrap(), 7);
    let bounds = StepBounds::evaluate(&network, &state).unwrap();
    // Five in and three out for seven days.
    assert_eq!(finish_step(&network, &bounds, &mut state, &week, &[v(5.0), v(3.0)]), Ok(()));
    assert_eq!(state.network_state.node_volumes[1], v(64.0));
}

#[test]
fn flows_beyond_the_bounds_are_rejected() {
    let network = storage_network();
    let mut state = initial_state(&network).unwrap();
    let bounds = StepBounds::evaluate(&network, &state).unwrap();
    // The output takes at most five.
    assert_eq!(finish_step(&network, &bounds, &mut state, &day(0), &[0, v(6.0)]), rejected());
    // The volumes stay as they are.
    assert_eq!(state.network_state.node_volumes[1], v(50.0));
    // Within a millionth of the bound the flow is taken.
    assert_eq!(finish_step(&network, &bounds, &mut state, &day(0), &[0, v(5.0) + 1_000]), Ok(()));
    let mut other = initial_state(&network).unwrap();
    assert_eq!(
        finish_step(&network, &bounds, &mut other, &day(0), &[0, v(5.0) + 1_001]),
        rejected()
    );
}

#[test]
fn negative_flows_are_rejected() {
    let network = storage_network();
    let mut state = initial_state(&network).unwrap();
    let bounds = StepBounds::evaluate(&network, &state).unwrap();
    assert_eq!(finish_step(&network, &bounds, &mut state, &day(0), &[-1, 0]), rejected());
}

#[test]
fn a_solution_needs_one_flow_for_each_edge() {
    let network = storage_network();
    let mut state = initial_state(&network).unwrap();
    let bounds = StepBounds::evaluate(&network, &state).unwrap();
    assert_eq!(finish_step(&network, &bounds, &mut state, &day(0), &[0]), rejected());
    assert_eq!(finish_step(&network, &bounds, &mut state, &day(0), &[0, 0, 0]), rejected());
    assert_eq!(finish_step(&network, &bounds, &mut state, &day(0), &[0, 0]), Ok(()));
}

/// input → link → output
fn chain() -> Network {
    let mut network = Network::new();
    let input = network.add_input_node("input", None).unwrap();
    let link = network.add_link_node("link", None).unwrap();
    let output = network.add_output_node("output", None).unwrap();
    network.connect(input, link).unwrap();
    network.connect(link, output).unwrap();
    network
}

#[test]
fn mass_is_conserved_at_links() {
    let network = chain();
    let mut state = initial_state(&network).unwrap();
    let bounds = StepBounds::evaluate(&network, &state).unwrap();
    assert_eq!(finish_step(&network, &bounds, &mut state, &day(0), &[v(3.0), v(3.0)]), Ok(()));
    assert_eq!(state.network_state.node_in_flows, vec![0, v(3.0), v(3.0)]);
    assert_eq!(state.network_state.node_out_flows, vec![v(3.0), v(3.0), 0]);
    // A link that loses water is no solution.
    assert_eq!(
        finish_step(&network, &bounds, &mut state, &day(0), &[v(3.0), v(2.0)]),
        rejected()
    );
    // A difference of a millionth is within the tolerance.
    assert_eq!(
        finish_step(&network, &bounds, &mut state, &day(0), &[v(3.0), v(3.0) - 1_000]),
        Ok(())
    );
    assert_eq!(
        finish_step(&network, &bounds, &mut state, &day(0), &[v(3.0), v(3.0) - 1_001]),
        rejected()
    );
}

/// Two inputs into one output, tied by an aggregated node with the ratio 1 : 2
/// and a greatest total flow of 30.
fn ratio_network() -> Network {
    let mut network = Network::new();
    let first = network.add_input_node("member1", None).unwrap();
    let second = network.add_input_node("member2", None).unwrap();
    let output = network.add_output_node("output", None).unwrap();
    network.connect(first, output).unwrap();
    network.connect(second, output).unwrap();
    network
        .add_aggregated_node(
            "agg",
            None,
            &[first, second],
            Some(Factors::Ratio(vec![Metric::Constant(v(1.0)), Metric::Constant(v(2.0))])),
        )
        .unwrap();
    network
        .set_aggregated_node_flow_bounds(
            "agg",
            None,
            ConstraintValue::Unbounded,
            ConstraintValue::Scalar(v(30.0)),
        )
        .unwrap();
    network
}

#[test]
fn aggregated_factors_tie_the_flows_of_the_members() {
    let network = ratio_network();
    let mut state = initial_state(&network).unwrap();
    let bounds = StepBounds::evaluate(&network, &state).unwrap();
    assert_eq!(bounds.aggregated_nodes[0].factors, Some(vec![v(1.0), v(2.0)]));
    assert_eq!(bounds.aggregated_nodes[0].max_flow, v(30.0));
    // member1 = 10 and member2 = 20 use the whole of the 30 in the ratio 1 : 2.
    assert_eq!(finish_step(&network, &bounds, &mut state, &day(0), &[v(10.0), v(20.0)]), Ok(()));
    assert_eq!(state.network_state.node_out_flows[0], v(10.0));
    assert_eq!(state.network_state.node_out_flows[1], v(20.0));
    // Other shares of the 30 are not in the ratio.
    assert_eq!(
        finish_step(&network, &bounds, &mut state, &day(0), &[v(15.0), v(15.0)]),
        rejected()
    );
    assert_eq!(
        finish_step(&network, &bounds, &mut state, &day(0), &[v(20.0), v(10.0)]),
        rejected()
    );
    // More than 30 in all is beyond the bound of the aggregated node.
    assert_eq!(
        finish_step(&network, &bounds, &mut state, &day(0), &[v(11.0), v(22.0)]),
        rejected()
    );
}

#[test]
fn check_flows_reads_a_state() {
    let network = ratio_network();
    let mut state = initial_state(&network).unwrap();
    let bounds = StepBounds::evaluate(&network, &state).unwrap();
    assert!(check_flows(&network, &bounds, &state.network_state));
    state.network_state.commit_lp_result(&network.edges, network.nodes.len(), &[v(1.0), v(3.0)]);
    assert!(!check_flows(&network, &bounds, &state.network_state));
    state.network_state.commit_lp_result(&network.edges, network.nodes.len(), &[v(1.0), v(2.0)]);
    assert!(check_flows(&network, &bounds, &state.network_state));
}

fn licence(reset: VirtualStorageReset, factors: Option<&[i64]>) -> Network {
    let mut network = chain();
    network
        .add_virtual_storage_node(
            "licence",
            None,
            &[NodeIndex(0), NodeIndex(1)],
            factors,
            StorageInitialVolume::Absolute(v(100.0)),
            ConstraintValue::Scalar(0),
            ConstraintValue::Scalar(v(100.0)),
            reset,
            ConstraintValue::Scalar(0),
        )
        .unwrap();
    network
}

#[test]
fn a_virtual_storage_is_drawn_down_by_the_flows_of_its_nodes() {
    let network = licence(VirtualStorageReset::Never, Some(&[v(1.0), v(0.5)]));
    let mut state = initial_state(&network).unwrap();
    assert_eq!(state.network_state.virtual_storage_volumes, vec![v(100.0)]);
    let mut last = v(100.0);
    for t in 0..5 {
        let bounds = StepBounds::evaluate(&network, &state).unwrap();
        let flow = v(2.0 * t as f64);
        assert_eq!(finish_step(&network, &bounds, &mut state, &day(t), &[flow, flow]), Ok(()));
        let volume = state.network_state.virtual_storage_volumes[0];
        // 1 × the flow out of the input and 0.5 × the flow into the link
        assert_eq!(volume, last - flow - flow / 2);
        assert!(volume <= last);
        last = volume;
    }
    assert_eq!(last, v(70.0));
}

#[test]
fn a_virtual_storage_without_factors_counts_each_flow_once() {
    let network = licence(VirtualStorageReset::Never, None);
    let mut state = initial_state(&network).unwrap();
    let bounds = StepBounds::evaluate(&network, &state).unwrap();
    assert_eq!(finish_step(&network, &bounds, &mut state, &day(0), &[v(4.0), v(4.0)]), Ok(()));
    assert_eq!(state.network_state.virtual_storage_volumes[0], v(92.0));
}

#[test]
fn a_virtual_storage_resets_before_the_step_is_taken_from_it() {
    let network = licence(VirtualStorageReset::Periodic { length: 3, offset: 1 }, None);
    let mut state = initial_state(&network).unwrap();
    let mut volumes = vec![];
    for t in 0..6 {
        let bounds = StepBounds::evaluate(&network, &state).unwrap();
        assert_eq!(
            finish_step(&network, &bounds, &mut state, &day(t), &[v(5.0), v(5.0)]),
            Ok(())
        );
        volumes.push(state.network_state.virtual_storage_volumes[0]);
    }
    // Steps 1 and 4 start from the initial volume.
    assert_eq!(volumes, vec![v(90.0), v(90.0), v(80.0), v(70.0), v(90.0), v(80.0)]);
}

#[test]
fn reset_policies() {
    let never = VirtualStorageReset::Never;
    let yearly = VirtualStorageReset::Annual { month: 4, day: 1 };
    let monthly = VirtualStorageReset::Monthly { day: 1 };
    let periodic = VirtualStorageReset::Periodic { length: 0, offset: 0 };
    let on = |month, day, index| {
        Timestep::new(index, Date::new(2021, month, day, 1, false).unwrap(), 1)
    };
    assert!(!never.is_due(&on(4, 1, 0)));
    assert!(yearly.is_due(&on(4, 1, 90)));
    assert!(!yearly.is_due(&on(5, 1, 120)));
    assert!(!yearly.is_due(&on(4, 2, 91)));
    assert!(monthly.is_due(&on(5, 1, 120)));
    assert!(!monthly.is_due(&on(5, 2, 121)));
    assert!(!periodic.is_due(&on(1, 1, 0)));
    let weekly = VirtualStorageReset::Periodic { length: 7, offset: 2 };
    assert!(!weekly.is_due(&on(1, 1, 0)));
    assert!(weekly.is_due(&on(1, 3, 2)));
    assert!(weekly.is_due(&on(1, 10, 9)));
    assert!(!weekly.is_due(&on(1, 11, 10)));
}

#[test]
fn the_same_inputs_give_the_same_states() {
    let run = || {
        let network = licence(VirtualStorageReset::Monthly { day: 3 }, Some(&[v(0.3), v(0.7)]));
        let mut state = initial_state(&network).unwrap();
        let mut states = vec![];
        for t in 0..8 {
            let (bounds, _) = prepare_step(&network, &state, &day(t)).unwrap();
            let flow = v(0.1 * t as f64);
            finish_step(&network, &bounds, &mut state, &day(t), &[flow, flow]).unwrap();
            states.push(state.clone());
        }
        states
    };
    assert_eq!(run(), run());
}

fn constant(name: &str, value: f64) -> ParameterKind {
    ParameterKind::Constant(ConstantParameter::new(name, v(value)))
}

#[test]
fn parameters_are_computed_after_those_that_they_read() {
    let mut network = Network::new();
    // The sum is added first and reads two parameters that are added after it.
    let sum = network
        .add_parameter(ParameterKind::Aggregated(AggregatedParameter::new(
            "sum",
            vec![ParameterIndex(1), ParameterIndex(2)],
            AggFunc::Sum,
        )))
        .unwrap();
    let a = network.add_parameter(constant("a", 10.0)).unwrap();
    let negative = network
        .add_parameter(ParameterKind::Negative(NegativeParameter::new(
            "negative",
            Metric::ParameterValue(a),
        )))
        .unwrap();
    assert_eq!(network.add_parameter(constant("a", 1.0)), Err(PywrError::DuplicateName));
    let order = network.evaluation_order().unwrap();
    assert_eq!(order.len(), 3);
    let place = |p: ParameterIndex| {
        order.iter().position(|entry| *entry == ParameterType::Parameter(p)).unwrap()
    };
    assert!(place(a) < place(negative));
    assert!(place(negative) < place(sum));
    let mut state = initial_state(&network).unwrap();
    assert_eq!(
        compute_parameters(&network, &order, 0, &day(0), &scenario(), &mut state),
        Ok(Progress::Done)
    );
    assert_eq!(state.parameter_values, vec![0, v(10.0), v(-10.0)]);
    assert_eq!(state.get_parameter_value(sum), Ok(0));
}

#[test]
fn index_parameters_come_first_where_nothing_says_otherwise() {
    let mut network = Network::new();
    network.add_parameter(constant("a", 1.0)).unwrap();
    network.add_multi_value_parameter("m").unwrap();
    network
        .add_index_parameter(IndexParameterKind::AsymmetricSwitch(
            AsymmetricSwitchIndexParameter::new(
                "switch",
                IndexValue::Constant(1),
                IndexValue::Constant(0),
            ),
        ))
        .unwrap();
    let order = network.evaluation_order().unwrap();
    assert_eq!(
        order,
        vec![
            ParameterType::Index(IndexParameterIndex(0)),
            ParameterType::Multi(pywr_core::parameters::MultiValueParameterIndex(0)),
            ParameterType::Parameter(ParameterIndex(0)),
        ]
    );
}

#[test]
fn a_cycle_of_parameters_has_no_order() {
    let mut network = Network::new();
    network
        .add_parameter(ParameterKind::Negative(NegativeParameter::new(
            "first",
            Metric::ParameterValue(ParameterIndex(1)),
        )))
        .unwrap();
    network
        .add_parameter(ParameterKind::Negative(NegativeParameter::new(
            "second",
            Metric::ParameterValue(ParameterIndex(0)),
        )))
        .unwrap();
    network.add_parameter(constant("free", 1.0)).unwrap();
    assert_eq!(
        network.evaluation_order(),
        Err(PywrError::CyclicDependency("first".to_string()))
    );
}

#[test]
fn a_parameter_that_reads_itself_has_no_order() {
    let mut network = Network::new();
    network
        .add_parameter(ParameterKind::Negative(NegativeParameter::new(
            "self",
            Metric::ParameterValue(ParameterIndex(0)),
        )))
        .unwrap();
    assert_eq!(
        network.evaluation_order(),
        Err(PywrError::CyclicDependency("self".to_string()))
    );
}

#[test]
fn a_parameter_that_reads_one_that_is_not_there_has_no_order() {
    let mut network = Network::new();
    network
        .add_parameter(ParameterKind::Negative(NegativeParameter::new(
            "lonely",
            Metric::ParameterValue(ParameterIndex(5)),
        )))
        .unwrap();
    assert_eq!(
        network.evaluation_order(),
        Err(PywrError::NotFoundAt(EntityKind::Parameter, 5))
    );
}

#[test]
fn a_parameter_that_is_computed_elsewhere_is_waited_for() {
    let mut network = Network::new();
    let a = network.add_parameter(constant("a", 3.0)).unwrap();
    let wasm = network
        .add_parameter(ParameterKind::SimpleWasm(SimpleWasmParameter::new(
            "wasm",
            vec![],
            vec![a, a],
        )))
        .unwrap();
    let negative = network
        .add_parameter(ParameterKind::Negative(NegativeParameter::new(
            "negative",
            Metric::ParameterValue(wasm),
        )))
        .unwrap();
    let order = network.evaluation_order().unwrap();
    let mut state = initial_state(&network).unwrap();
    let progress = compute_parameters(&network, &order, 0, &day(0), &scenario(), &mut state);
    assert_eq!(
        progress,
        Ok(Progress::Pending {
            position: 1,
            parameter: ParameterType::Parameter(wasm),
            arguments: vec![v(3.0), v(3.0)],
        })
    );
    // What was computed elsewhere is put into the state, and computing goes on.
    state.set_parameter_value(wasm, v(6.0)).unwrap();
    assert_eq!(
        compute_parameters(&network, &order, 2, &day(0), &scenario(), &mut state),
        Ok(Progress::Done)
    );
    assert_eq!(state.get_parameter_value(negative), Ok(v(-6.0)));
}

#[test]
fn a_parameter_that_fails_ends_the_computing() {
    let mut network = Network::new();
    network.add_parameter(constant("a", 3.0)).unwrap();
    network
        .add_parameter(ParameterKind::Vector(VectorParameter::new("short", vec![v(1.0)])))
        .unwrap();
    let order = network.evaluation_order().unwrap();
    let mut state = initial_state(&network).unwrap();
    assert_eq!(
        compute_parameters(&network, &order, 0, &day(0), &scenario(), &mut state),
        Ok(Progress::Done)
    );
    assert_eq!(
        compute_parameters(&network, &order, 0, &day(1), &scenario(), &mut state),
        Err(PywrError::TimestepIndexOutOfRange)
    );
    assert_eq!(
        compute_parameter(
            &network,
            ParameterType::Parameter(ParameterIndex(9)),
            &day(0),
            &scenario(),
            &mut state
        ),
        Err(PywrError::NotFoundAt(EntityKind::Parameter, 9))
    );
}

#[test]
fn a_switch_keeps_its_position_between_steps() {
    let mut network = Network::new();
    let switch = network
        .add_index_parameter(IndexParameterKind::AsymmetricSwitch(
            AsymmetricSwitchIndexParameter::new(
                "switch",
                IndexValue::Dynamic(IndexParameterIndex(1)),
                IndexValue::Dynamic(IndexParameterIndex(2)),
            ),
        ))
        .unwrap();
    assert_eq!(switch, IndexParameterIndex(0));
    let mut state = blank_state(&network);
    state.index_parameter_values = vec![0, 0, 0];
    state.index_parameter_internal = vec![None, None, None];
    initialise(&network, &mut state).unwrap();
    assert_eq!(state.index_parameter_internal[0], Some(0));
    let on_values = [0usize, 1, 0, 0, 1];
    let off_values = [0usize, 0, 0, 1, 0];
    let expected = [0usize, 1, 1, 0, 1];
    for t in 0..5 {
        state.index_parameter_values[1] = on_values[t];
        state.index_parameter_values[2] = off_values[t];
        let r = compute_parameter(
            &network,
            ParameterType::Index(switch),
            &day(t),
            &scenario(),
            &mut state,
        );
        assert_eq!(r, Ok(None));
        assert_eq!(state.get_index_parameter_value(switch), Ok(expected[t]));
    }
}

#[test]
fn an_output_bounded_by_a_monthly_profile_takes_the_value_of_the_month() {
    let mut network = chain();
    let mut values = [0i64; 12];
    for (k, value) in values.iter_mut().enumerate() {
        *value = v((k + 1) as f64);
    }
    let profile = network
        .add_parameter(ParameterKind::MonthlyProfile(MonthlyProfileParameter::new(
            "profile", values,
        )))
        .unwrap();
    network
        .set_node_max_flow(
            "output",
            None,
            ConstraintValue::Metric(Metric::ParameterValue(profile)),
        )
        .unwrap();
    network.set_node_cost("output", None, ConstraintValue::Scalar(v(-1.0))).unwrap();
    let order = network.evaluation_order().unwrap();
    let mut state = initial_state(&network).unwrap();
    let first_days = [(1u8, 1u16), (2, 32), (3, 60), (7, 182), (12, 335)];
    for (index, (month, day_of_year)) in first_days.into_iter().enumerate() {
        let step =
            Timestep::new(index, Date::new(2021, month, 1, day_of_year, false).unwrap(), 1);
        compute_parameters(&network, &order, 0, &step, &scenario(), &mut state).unwrap();
        let (bounds, lp) = prepare_step(&network, &state, &step).unwrap();
        assert_eq!(bounds.nodes[2].max_flow, v(month as f64));
        // The cost of the output stands on the edge that enters it.
        assert_eq!(lp.objective, vec![0, v(-1.0)]);
        let flow = v(month as f64);
        assert_eq!(finish_step(&network, &bounds, &mut state, &step, &[flow, flow]), Ok(()));
        assert_eq!(state.network_state.node_in_flows[2], v(month as f64));
        // More than the month allows is no solution.
        let more = flow + v(0.5);
        assert_eq!(
            finish_step(&network, &bounds, &mut state, &step, &[more, more]),
            rejected()
        );
    }
}

#[test]
fn the_bounds_of_a_step_fail_with_the_first_failure() {
    let mut network = Network::new();
    let first = network.add_input_node("first", None).unwrap();
    let second = network.add_link_node("second", None).unwrap();
    network.connect(first, second).unwrap();
    // The greatest flow of the first node, and the cost of the second, read
    // parameters that are not there.
    network
        .set_node_max_flow(
            "first",
            None,
            ConstraintValue::Metric(Metric::ParameterValue(ParameterIndex(7))),
        )
        .unwrap();
    network
        .set_node_cost(
            "second",
            None,
            ConstraintValue::Metric(Metric::ParameterValue(ParameterIndex(9))),
        )
        .unwrap();
    let state = blank_state(&network);
    assert_eq!(
        StepBounds::evaluate(&network, &state),
        Err(PywrError::NotFoundAt(EntityKind::Parameter, 7))
    );
    assert_eq!(
        prepare_step(&network, &state, &day(0)).map(|_| ()),
        Err(PywrError::NotFoundAt(EntityKind::Parameter, 7))
    );
    // Within a node the least flow is read before the cost.
    network
        .set_node_max_flow("first", None, ConstraintValue::Scalar(v(1.0)))
        .unwrap();
    network
        .set_node_min_flow(
            "second",
            None,
            ConstraintValue::Metric(Metric::EdgeFlow(pywr_core::edge::EdgeIndex(5))),
        )
        .unwrap();
    assert_eq!(
        StepBounds::evaluate(&network, &state),
        Err(PywrError::NotFoundAt(EntityKind::Edge, 5))
    );
}

#[test]
fn a_start_fails_with_the_first_volume_that_cannot_be_read() {
    let mut network = Network::new();
    for (name, parameter) in [("one", 4usize), ("two", 6usize)] {
        network
            .add_storage_node(
                name,
                None,
                StorageInitialVolume::Proportional(v(0.5)),
                ConstraintValue::Scalar(0),
                ConstraintValue::Metric(Metric::ParameterValue(ParameterIndex(parameter))),
            )
            .unwrap();
    }
    assert_eq!(
        initial_state(&network),
        Err(PywrError::NotFoundAt(EntityKind::Parameter, 4))
    );
}
