use pywr_core::error::{EntityKind, PywrError};
use pywr_core::metric::Metric;
use pywr_core::network::Network;
use pywr_core::node::{ConstraintValue, NodeIndex, StorageInitialVolume};
use pywr_core::parameters::aggregated::apply;
use pywr_core::parameters::aggregated_index::apply_index;
use pywr_core::parameters::array::{Array1, Array2};
use pywr_core::parameters::asymmetric::{AsymmetricSwitchIndexParameter, IndexValue};
use pywr_core::parameters::control_curves::{
    interpolate, ControlCurveIndexParameter, ControlCurveParameter, InterpolatedParameter,
    PiecewiseInterpolatedParameter,
};
use pywr_core::parameters::indexed_array::IndexedArrayParameter;
use pywr_core::parameters::simple_wasm::SimpleWasmParameter;
use pywr_core::parameters::{
    AggFunc, AggIndexFunc, AggregatedIndexParameter, AggregatedParameter, Array1Parameter,
    Array2Parameter, ConstantParameter, DailyProfileParameter, IndexParameter,
    IndexParameterIndex, InternalParameterState, MaxParameter, MonthlyProfileParameter,
    NegativeParameter, Parameter, ParameterIndex, ParameterMeta, Polynomial1DParameter,
    Predicate, ThresholdParameter, UniformDrawdownProfileParameter, VectorParameter,
};
use pywr_core::run::blank_state;
use pywr_core::scenario::ScenarioIndex;
use pywr_core::state::State;
use pywr_core::timestep::{days_before, is_leap, Date, Timestep};

fn v(x: f64) -> i64 {
    (x * 1e9).round() as i64
}

fn step(index: usize) -> Timestep {
    Timestep::new(index, Date::new(2020, 1, 1 + index as u8, 1 + index as u16, true).unwrap(), 1)
}

fn on(month: u8, day: u8, day_of_year: u16, leap_year: bool) -> Timestep {
    Timestep::new(0, Date::new(2021, month, day, day_of_year, leap_year).unwrap(), 1)
}

fn scenario() -> ScenarioIndex {
    ScenarioIndex::new(0, vec![0])
}

fn empty() -> (Network, State) {
    let network = Network::new();
    let state = blank_state(&network);
    (network, state)
}

/// A storage of greatest volume 100 that holds `volume`.
fn reservoir(volume: f64) -> (Network, State) {
    let mut network = Network::new();
    network
        .add_storage_node(
            "Reservoir",
            None,
            StorageInitialVolume::Absolute(v(volume)),
            ConstraintValue::Scalar(0),
            ConstraintValue::Scalar(v(100.0)),
        )
        .unwrap();
    let mut state = blank_state(&network);
    state.network_state.node_volumes = vec![v(volume)];
    (network, state)
}

#[test]
fn handles_keep_their_number() {
    assert_eq!(ParameterIndex::new(3).0, 3);
    assert_eq!(IndexParameterIndex::new(4).0, 4);
    assert_eq!(ParameterIndex::new(3), ParameterIndex(3));
}

#[test]
fn meta_has_the_name_and_no_comment() {
    let meta = ParameterMeta::new("my-parameter");
    assert_eq!(meta.name, "my-parameter");
    assert_eq!(meta.comment, "");
}

#[test]
fn internal_parameter_state_holds_one_value_per_scenario() {
    let mut state: InternalParameterState<usize> = InternalParameterState::new();
    assert_eq!(state.state.len(), 0);
    state.setup(3, 7);
    assert_eq!(state.state, vec![7, 7, 7]);
    state.set(1, 9);
    assert_eq!(*state.get(0), 7);
    assert_eq!(*state.get(1), 9);
    assert_eq!(*state.get(2), 7);
    state.setup(1, 0);
    assert_eq!(state.state, vec![0]);
}

#[test]
fn test_constant_parameter() {
    let (network, state) = empty();
    let param = ConstantParameter::new("my-parameter", v(3.14159));
    assert_eq!(param.name(), "my-parameter");
    for index in 0..15 {
        assert_eq!(param.compute(&step(index), &scenario(), &network, &state), Ok(v(3.14159)));
    }
}

#[test]
fn vector_parameter_gives_the_value_of_the_step() {
    let (network, state) = empty();
    let param = VectorParameter::new("v", vec![v(1.0), v(2.0), v(3.0)]);
    assert_eq!(param.compute(&step(0), &scenario(), &network, &state), Ok(v(1.0)));
    assert_eq!(param.compute(&step(2), &scenario(), &network, &state), Ok(v(3.0)));
    assert_eq!(
        param.compute(&step(3), &scenario(), &network, &state),
        Err(PywrError::TimestepIndexOutOfRange)
    );
}

#[test]
fn array1_parameter_reads_the_array() {
    let (network, state) = empty();
    let array = Array1::from_vec(vec![v(10.0), v(20.0), v(30.0)]);
    assert_eq!(array.len(), 3);
    assert_eq!(array.get(1), Some(v(20.0)));
    assert_eq!(array.get(3), None);
    let param = Array1Parameter::new("a", array);
    assert_eq!(param.compute(&step(0), &scenario(), &network, &state), Ok(v(10.0)));
    assert_eq!(param.compute(&step(2), &scenario(), &network, &state), Ok(v(30.0)));
    assert_eq!(
        param.compute(&step(3), &scenario(), &network, &state),
        Err(PywrError::TimestepIndexOutOfRange)
    );
}

#[test]
fn test_array2_parameter() {
    let (network, state) = empty();
    // One row for each step, one column for each scenario of the group.
    let data: Vec<i64> = (0..6).map(|k| v(k as f64)).collect();
    let array = Array2::from_shape_vec(3, 2, data).unwrap();
    assert_eq!(array.get(0, 0), Some(v(0.0)));
    assert_eq!(array.get(0, 1), Some(v(1.0)));
    assert_eq!(array.get(2, 1), Some(v(5.0)));
    assert_eq!(array.get(3, 0), None);
    assert_eq!(array.get(0, 2), None);
    let param = Array2Parameter::new("my-array-parameter", array, 0);
    let second = ScenarioIndex::new(1, vec![1]);
    assert_eq!(param.compute(&step(1), &scenario(), &network, &state), Ok(v(2.0)));
    assert_eq!(param.compute(&step(1), &second, &network, &state), Ok(v(3.0)));
    assert_eq!(
        param.compute(&step(3), &scenario(), &network, &state),
        Err(PywrError::TimestepIndexOutOfRange)
    );
    let no_group = ScenarioIndex::new(0, vec![]);
    assert_eq!(
        param.compute(&step(0), &no_group, &network, &state),
        Err(PywrError::NotFoundAt(EntityKind::ScenarioGroup, 0))
    );
}

#[test]
fn array2_needs_as_many_values_as_its_shape_holds() {
    assert!(Array2::from_shape_vec(2, 2, vec![1, 2, 3]).is_none());
    assert!(Array2::from_shape_vec(0, 2, vec![]).is_none());
    assert!(Array2::from_shape_vec(2, 0, vec![]).is_none());
    assert!(Array2::from_shape_vec(1, 3, vec![1, 2, 3]).is_some());
}

#[test]
fn negative_parameter_turns_the_sign() {
    let (network, state) = empty();
    let param = NegativeParameter::new("n", Metric::Constant(v(2.5)));
    assert_eq!(param.compute(&step(0), &scenario(), &network, &state), Ok(v(-2.5)));
    let failing = NegativeParameter::new("n", Metric::NodeInFlow(NodeIndex(0)));
    assert_eq!(
        failing.compute(&step(0), &scenario(), &network, &state),
        Err(PywrError::NotFoundAt(EntityKind::Node, 0))
    );
}

#[test]
fn monthly_profile_gives_the_value_of_the_month() {
    let (network, state) = empty();
    let mut values = [0i64; 12];
    for (k, value) in values.iter_mut().enumerate() {
        *value = v((k + 1) as f64);
    }
    let param = MonthlyProfileParameter::new("m", values);
    assert_eq!(param.compute(&on(1, 1, 1, false), &scenario(), &network, &state), Ok(v(1.0)));
    assert_eq!(param.compute(&on(6, 15, 166, false), &scenario(), &network, &state), Ok(v(6.0)));
    assert_eq!(
        param.compute(&on(12, 31, 365, false), &scenario(), &network, &state),
        Ok(v(12.0))
    );
}

#[test]
fn a_date_outside_the_calendar_is_no_date() {
    assert!(Date::new(2021, 0, 1, 1, false).is_none());
    assert!(Date::new(2021, 13, 1, 1, false).is_none());
    assert!(Date::new(2021, 1, 0, 1, false).is_none());
    assert!(Date::new(2021, 1, 1, 0, false).is_none());
    assert!(Date::new(2021, 12, 31, 366, false).is_none());
    assert!(Date::new(2020, 12, 31, 366, true).is_some());
}

#[test]
fn daily_profile_skips_29_february_in_a_common_year() {
    let (network, state) = empty();
    let values: Vec<i64> = (0..366).map(|k| v(k as f64)).collect();
    let param = DailyProfileParameter::new("d", values);
    // 28 February is day 59 of the year, at place 58.
    assert_eq!(param.compute(&on(2, 28, 59, false), &scenario(), &network, &state), Ok(v(58.0)));
    // 1 March of a common year is day 60 of the year, at place 60: place 59 is passed over.
    assert_eq!(param.compute(&on(3, 1, 60, false), &scenario(), &network, &state), Ok(v(60.0)));
    assert_eq!(
        param.compute(&on(12, 31, 365, false), &scenario(), &network, &state),
        Ok(v(365.0))
    );
    // In a leap year 29 February is day 60 of the year, at place 59.
    assert_eq!(param.compute(&on(2, 29, 60, true), &scenario(), &network, &state), Ok(v(59.0)));
    assert_eq!(param.compute(&on(3, 1, 61, true), &scenario(), &network, &state), Ok(v(60.0)));
    assert_eq!(
        param.compute(&on(12, 31, 366, true), &scenario(), &network, &state),
        Ok(v(365.0))
    );
}

#[test]
fn daily_profile_that_is_too_short_fails() {
    let (network, state) = empty();
    let param = DailyProfileParameter::new("d", vec![v(1.0); 100]);
    assert_eq!(
        param.compute(&on(12, 31, 365, false), &scenario(), &network, &state),
        Err(PywrError::TimestepIndexOutOfRange)
    );
}

#[test]
fn polynomial_by_horner() {
    let (network, state) = empty();
    // 1 + 2x + 3x², at x = 2
    let param = Polynomial1DParameter::new(
        "p",
        Metric::Constant(v(2.0)),
        vec![v(1.0), v(2.0), v(3.0)],
    );
    assert_eq!(param.compute(&step(0), &scenario(), &network, &state), Ok(v(17.0)));
    let none = Polynomial1DParameter::new("p", Metric::Constant(v(2.0)), vec![]);
    assert_eq!(none.compute(&step(0), &scenario(), &network, &state), Ok(0));
}

fn aggregated(func: AggFunc) -> Result<i64, PywrError> {
    let (network, mut state) = empty();
    // Parameters 0 and 1 have values of 10.0 and 2.0 respectively.
    state.parameter_values = vec![v(10.0), v(2.0)];
    let param =
        AggregatedParameter::new("my-aggregation", vec![ParameterIndex(0), ParameterIndex(1)], func);
    param.compute(&step(0), &scenario(), &network, &state)
}

#[test]
fn test_aggregated_parameter_sum() {
    assert_eq!(aggregated(AggFunc::Sum), Ok(v(12.0)));
}

#[test]
fn test_aggregated_parameter_mean() {
    assert_eq!(aggregated(AggFunc::Mean), Ok(v(6.0)));
}

#[test]
fn test_aggregated_parameter_max() {
    assert_eq!(aggregated(AggFunc::Max), Ok(v(10.0)));
}

#[test]
fn test_aggregated_parameter_min() {
    assert_eq!(aggregated(AggFunc::Min), Ok(v(2.0)));
}

#[test]
fn test_aggregated_parameter_product() {
    assert_eq!(aggregated(AggFunc::Product), Ok(v(20.0)));
}

#[test]
fn aggregations_of_nothing() {
    assert_eq!(apply(AggFunc::Sum, &vec![]), Ok(0));
    assert_eq!(apply(AggFunc::Mean, &vec![]), Err(PywrError::DivisionByZero));
    assert_eq!(apply(AggFunc::Max, &vec![]), Ok(i64::MIN));
    assert_eq!(apply(AggFunc::Min, &vec![]), Ok(i64::MAX));
    assert_eq!(apply(AggFunc::Product, &vec![]), Ok(v(1.0)));
}

#[test]
fn aggregated_parameter_needs_its_parameters() {
    let (network, mut state) = empty();
    state.parameter_values = vec![v(10.0)];
    let param = AggregatedParameter::new(
        "agg",
        vec![ParameterIndex(0), ParameterIndex(4), ParameterIndex(5)],
        AggFunc::Sum,
    );
    assert_eq!(
        param.compute(&step(0), &scenario(), &network, &state),
        Err(PywrError::NotFoundAt(EntityKind::Parameter, 4))
    );
}

#[test]
fn aggregated_index_functions() {
    let values = vec![3usize, 0, 2];
    assert_eq!(apply_index(AggIndexFunc::Sum, &values), 5);
    assert_eq!(apply_index(AggIndexFunc::Product, &values), 0);
    assert_eq!(apply_index(AggIndexFunc::Product, &vec![3, 2]), 6);
    assert_eq!(apply_index(AggIndexFunc::Min, &values), 0);
    assert_eq!(apply_index(AggIndexFunc::Max, &values), 3);
    assert_eq!(apply_index(AggIndexFunc::Any, &values), 1);
    assert_eq!(apply_index(AggIndexFunc::All, &values), 0);
    assert_eq!(apply_index(AggIndexFunc::All, &vec![1, 4]), 1);
    assert_eq!(apply_index(AggIndexFunc::Any, &vec![0, 0]), 0);
    assert_eq!(apply_index(AggIndexFunc::Sum, &vec![usize::MAX, 1]), usize::MAX);
    assert_eq!(apply_index(AggIndexFunc::Product, &vec![usize::MAX, 2]), usize::MAX);
    assert_eq!(apply_index(AggIndexFunc::Sum, &vec![]), 0);
    assert_eq!(apply_index(AggIndexFunc::Product, &vec![]), 1);
    assert_eq!(apply_index(AggIndexFunc::Min, &vec![]), usize::MAX);
    assert_eq!(apply_index(AggIndexFunc::Max, &vec![]), 0);
    assert_eq!(apply_index(AggIndexFunc::Any, &vec![]), 0);
    assert_eq!(apply_index(AggIndexFunc::All, &vec![]), 1);
}

#[test]
fn aggregated_index_parameter_reads_the_state() {
    let (network, mut state) = empty();
    state.index_parameter_values = vec![2, 5];
    let param = AggregatedIndexParameter::new(
        "agg",
        vec![IndexParameterIndex(0), IndexParameterIndex(1)],
        AggIndexFunc::Max,
    );
    let mut internal = None;
    assert_eq!(param.compute(&step(0), &scenario(), &network, &state, &mut internal), Ok(5));
    assert_eq!(internal, None);
    let missing =
        AggregatedIndexParameter::new("agg", vec![IndexParameterIndex(2)], AggIndexFunc::Sum);
    assert_eq!(
        missing.compute(&step(0), &scenario(), &network, &state, &mut internal),
        Err(PywrError::NotFoundAt(EntityKind::IndexParameter, 2))
    );
}

#[test]
fn max_parameter_is_the_greater_of_metric_and_threshold() {
    let (network, state) = empty();
    let above = MaxParameter::new("m", Metric::Constant(v(5.0)), v(2.0));
    let below = MaxParameter::new("m", Metric::Constant(v(-5.0)), v(2.0));
    assert_eq!(above.compute(&step(0), &scenario(), &network, &state), Ok(v(5.0)));
    assert_eq!(below.compute(&step(0), &scenario(), &network, &state), Ok(v(2.0)));
}

#[test]
fn threshold_parameter_picks_by_predicate() {
    let (network, state) = empty();
    let cases = [
        (Predicate::LT, 1.0, true),
        (Predicate::LT, 2.0, false),
        (Predicate::LE, 2.0, true),
        (Predicate::LE, 3.0, false),
        (Predicate::EQ, 2.0, true),
        (Predicate::EQ, 1.0, false),
        (Predicate::GE, 2.0, true),
        (Predicate::GE, 1.0, false),
        (Predicate::GT, 3.0, true),
        (Predicate::GT, 2.0, false),
    ];
    for (predicate, x, holds) in cases {
        let param = ThresholdParameter::new(
            "t",
            Metric::Constant(v(x)),
            v(2.0),
            predicate,
            [v(-1.0), v(1.0)],
        );
        let expected = if holds { v(1.0) } else { v(-1.0) };
        assert_eq!(param.compute(&step(0), &scenario(), &network, &state), Ok(expected));
    }
}

#[test]
fn indexed_array_picks_a_parameter() {
    let (network, mut state) = empty();
    state.parameter_values = vec![v(10.0), v(20.0), v(30.0)];
    state.index_parameter_values = vec![1];
    let param = IndexedArrayParameter::new(
        "i",
        IndexParameterIndex(0),
        vec![ParameterIndex(2), ParameterIndex(0)],
    );
    assert_eq!(param.compute(&step(0), &scenario(), &network, &state), Ok(v(10.0)));
    state.index_parameter_values = vec![0];
    assert_eq!(param.compute(&step(0), &scenario(), &network, &state), Ok(v(30.0)));
    state.index_parameter_values = vec![2];
    assert_eq!(
        param.compute(&step(0), &scenario(), &network, &state),
        Err(PywrError::NotFoundAt(EntityKind::Choice, 2))
    );
}

#[test]
fn interpolate_between_two_bounds() {
    assert_eq!(interpolate(v(0.5), v(0.0), v(1.0), v(10.0), v(20.0)), v(15.0));
    assert_eq!(interpolate(v(0.25), v(0.0), v(1.0), v(-400.0), v(-300.0)), v(-375.0));
    // At and beyond the bounds the values of the bounds are given.
    assert_eq!(interpolate(v(0.0), v(0.0), v(1.0), v(10.0), v(20.0)), v(10.0));
    assert_eq!(interpolate(v(-1.0), v(0.0), v(1.0), v(10.0), v(20.0)), v(10.0));
    assert_eq!(interpolate(v(1.0), v(0.0), v(1.0), v(10.0), v(20.0)), v(20.0));
    assert_eq!(interpolate(v(2.0), v(0.0), v(1.0), v(10.0), v(20.0)), v(20.0));
    // Bounds that fall together give the lower value.
    assert_eq!(interpolate(v(0.5), v(0.5), v(0.5), v(10.0), v(20.0)), v(10.0));
}

#[test]
fn control_curve_index_gives_the_region() {
    let curves = || vec![Metric::Constant(v(0.8)), Metric::Constant(v(0.5))];
    let param = ControlCurveIndexParameter::new(
        "cc",
        Metric::NodeProportionalVolume(NodeIndex(0)),
        curves(),
    );
    let mut internal = None;
    for (volume, region) in [(100.0, 0), (80.0, 0), (79.0, 1), (50.0, 1), (49.0, 2), (0.0, 2)] {
        let (network, state) = reservoir(volume);
        assert_eq!(
            param.compute(&step(0), &scenario(), &network, &state, &mut internal),
            Ok(region)
        );
    }
}

#[test]
fn control_curve_gives_the_value_of_the_region() {
    let param = ControlCurveParameter::new(
        "cc",
        Metric::NodeProportionalVolume(NodeIndex(0)),
        vec![Metric::Constant(v(0.8)), Metric::Constant(v(0.5))],
        vec![Metric::Constant(v(1.0)), Metric::Constant(v(2.0)), Metric::Constant(v(3.0))],
    );
    for (volume, value) in [(90.0, 1.0), (80.0, 1.0), (60.0, 2.0), (50.0, 2.0), (10.0, 3.0)] {
        let (network, state) = reservoir(volume);
        assert_eq!(param.compute(&step(0), &scenario(), &network, &state), Ok(v(value)));
    }
    let short = ControlCurveParameter::new(
        "cc",
        Metric::NodeProportionalVolume(NodeIndex(0)),
        vec![Metric::Constant(v(0.8))],
        vec![Metric::Constant(v(1.0))],
    );
    let (network, state) = reservoir(10.0);
    assert_eq!(
        short.compute(&step(0), &scenario(), &network, &state),
        Err(PywrError::NotFoundAt(EntityKind::Choice, 1))
    );
}

#[test]
fn control_curve_interpolated_between_the_values_at_the_curves() {
    // Values at the maximum (1), at the curve (0.5) and at the minimum (0).
    let param = InterpolatedParameter::new(
        "cc",
        Metric::NodeProportionalVolume(NodeIndex(0)),
        vec![Metric::Constant(v(0.5))],
        vec![Metric::Constant(v(10.0)), Metric::Constant(v(5.0)), Metric::Constant(v(0.0))],
    );
    for (volume, value) in
        [(100.0, 10.0), (75.0, 7.5), (50.0, 5.0), (25.0, 2.5), (10.0, 1.0), (0.0, 0.0)]
    {
        let (network, state) = reservoir(volume);
        assert_eq!(param.compute(&step(0), &scenario(), &network, &state), Ok(v(value)));
    }
}

#[test]
fn control_curve_piecewise_interpolated_values() {
    // control_curves = [0.8, 0.2], values = [[-0.1, -1.0], [-100, -200], [-300, -400]],
    // minimum = 0.05, maximum = 1.
    let param = PiecewiseInterpolatedParameter::new(
        "My control curve",
        Metric::NodeProportionalVolume(NodeIndex(0)),
        vec![Metric::Constant(v(0.8)), Metric::Constant(v(0.2))],
        vec![[v(-0.1), v(-1.0)], [v(-100.0), v(-200.0)], [v(-300.0), v(-400.0)]],
        v(1.0),
        v(0.05),
    );
    let value = |volume: f64| {
        let (network, state) = reservoir(volume);
        param.compute(&step(0), &scenario(), &network, &state)
    };
    // At the maximum: the first amount of the first piece.
    assert_eq!(value(100.0), Ok(v(-0.1)));
    // In the middle piece, half way between its ends 0.2 and 0.8.
    assert_eq!(value(50.0), Ok(v(-150.0)));
    // On the lower end of the middle piece: its second amount.
    assert_eq!(value(20.0), Ok(v(-200.0)));
    // On the first control curve: the lower end of the first piece, its second amount.
    assert_eq!(value(80.0), Ok(v(-1.0)));
    // In the lowest piece, a third of the way from 0.05 up to 0.2.
    assert_eq!(value(10.0), Ok(-400_000_000_000 + 33_333_333_333));
    // At and below the minimum: the second amount of the lowest piece.
    assert_eq!(value(5.0), Ok(v(-400.0)));
    assert_eq!(value(0.0), Ok(v(-400.0)));
}

#[test]
fn asymmetric_switch_follows_its_two_parameters() {
    let (network, mut state) = empty();
    let param = AsymmetricSwitchIndexParameter::new(
        "switch",
        IndexValue::Dynamic(IndexParameterIndex(0)),
        IndexValue::Dynamic(IndexParameterIndex(1)),
    );
    let on_values = [0usize, 1, 0, 0, 1];
    let off_values = [0usize, 0, 0, 1, 0];
    let expected = [0usize, 1, 1, 0, 1];
    let mut internal = param.setup(&vec![], &scenario()).unwrap();
    assert_eq!(internal, Some(0));
    for k in 0..5 {
        state.index_parameter_values = vec![on_values[k], off_values[k]];
        let r = param.compute(&step(k), &scenario(), &network, &state, &mut internal);
        assert_eq!(r, Ok(expected[k]));
        assert_eq!(internal, Some(expected[k]));
    }
}

#[test]
fn asymmetric_switch_needs_its_parameters() {
    let (network, state) = empty();
    let param = AsymmetricSwitchIndexParameter::new(
        "switch",
        IndexValue::Constant(1),
        IndexValue::Dynamic(IndexParameterIndex(3)),
    );
    let mut internal = Some(0);
    assert_eq!(
        param.compute(&step(0), &scenario(), &network, &state, &mut internal),
        Err(PywrError::NotFoundAt(EntityKind::IndexParameter, 3))
    );
    assert_eq!(internal, Some(0));
}

#[test]
fn simple_wasm_parameter_hands_over_the_values_of_its_parameters() {
    let (_, mut state) = empty();
    state.parameter_values = vec![v(1.0), v(2.0), v(3.0)];
    let param = SimpleWasmParameter::new(
        "wasm",
        vec![0, 97, 115, 109],
        vec![ParameterIndex(2), ParameterIndex(0)],
    );
    assert_eq!(param.meta().name, "wasm");
    assert_eq!(param.src, vec![0, 97, 115, 109]);
    assert_eq!(param.arguments(&state), Ok(vec![v(3.0), v(1.0)]));
    let missing = SimpleWasmParameter::new("wasm", vec![], vec![ParameterIndex(7)]);
    assert_eq!(
        missing.arguments(&state),
        Err(PywrError::NotFoundAt(EntityKind::Parameter, 7))
    );
}

fn day(year: i32, month: u8, day: u8, day_of_year: u16) -> Timestep {
    Timestep::new(0, Date::new(year, month, day, day_of_year, is_leap(year)).unwrap(), 1)
}

#[test]
fn leap_years_follow_the_gregorian_rule() {
    assert!(is_leap(2016));
    assert!(is_leap(2000));
    assert!(!is_leap(1900));
    assert!(!is_leap(2015));
    assert!(is_leap(-4));
    assert!(!is_leap(-1));
    assert!(is_leap(0));
    assert!(!is_leap(i32::MAX));
    assert!(is_leap(i32::MIN));
}

#[test]
fn the_days_before_a_month_count_a_29_february() {
    assert_eq!(days_before(1, false), 0);
    assert_eq!(days_before(2, true), 31);
    assert_eq!(days_before(3, false), 59);
    assert_eq!(days_before(3, true), 60);
    assert_eq!(days_before(10, false), 273);
    assert_eq!(days_before(12, false), 334);
    assert_eq!(days_before(12, true), 335);
}

#[test]
fn uniform_drawdown_falls_evenly_from_the_reset() {
    let (network, state) = empty();
    let param = UniformDrawdownProfileParameter::new("drawdown", 1, 1, 0);
    assert_eq!(param.name(), "drawdown");
    let value = |t: Timestep| param.compute(&t, &scenario(), &network, &state);
    // On the day of the reset nothing has gone.
    assert_eq!(value(day(2015, 1, 1, 1)), Ok(v(1.0)));
    // A day later one of 365 days has gone.
    assert_eq!(value(day(2015, 1, 2, 2)), Ok(997_260_274));
    // On the last day of the period one day's share is left.
    assert_eq!(value(day(2015, 12, 31, 365)), Ok(2_739_727));
    // A leap year makes a period of 366 days.
    assert_eq!(value(day(2016, 12, 31, 366)), Ok(1_000_000_000 - 997_267_759));
}

#[test]
fn uniform_drawdown_runs_over_the_turn_of_the_year() {
    let (network, state) = empty();
    // Reset on 1 October, with the share of thirty days left at the end.
    let param = UniformDrawdownProfileParameter::new("drawdown", 1, 10, 30);
    let value = |t: Timestep| param.compute(&t, &scenario(), &network, &state);
    assert_eq!(value(day(2015, 10, 1, 274)), Ok(v(1.0)));
    // From 1 October 2015 to 1 January 2016 are 92 days, of a period of 366 days
    // that ends on 30 September 2016.
    assert_eq!(value(day(2016, 1, 1, 1)), Ok(769_237_661));
    // The day before the next reset.
    assert_eq!(value(day(2016, 9, 30, 274)), Ok(1_000_000_000 - 915_524_500));
    assert_eq!(value(day(2016, 10, 1, 275)), Ok(v(1.0)));
}

#[test]
fn uniform_drawdown_with_more_residual_days_than_the_period_rises() {
    let (network, state) = empty();
    let param = UniformDrawdownProfileParameter::new("drawdown", 1, 1, 730);
    assert_eq!(
        param.compute(&day(2015, 4, 11, 101), &scenario(), &network, &state),
        Ok(1_273_972_602)
    );
}

#[test]
fn uniform_drawdown_fails_outside_the_calendar() {
    let (network, state) = empty();
    let no_month = UniformDrawdownProfileParameter::new("drawdown", 1, 13, 0);
    assert_eq!(
        no_month.compute(&day(2015, 1, 1, 1), &scenario(), &network, &state),
        Err(PywrError::TimestepIndexOutOfRange)
    );
    let no_day = UniformDrawdownProfileParameter::new("drawdown", 0, 1, 0);
    assert_eq!(
        no_day.compute(&day(2015, 1, 1, 1), &scenario(), &network, &state),
        Err(PywrError::TimestepIndexOutOfRange)
    );
    // The year 2015 has no day 366, whatever the date says of itself.
    let param = UniformDrawdownProfileParameter::new("drawdown", 1, 1, 0);
    let date = Date::new(2015, 12, 31, 366, true).unwrap();
    assert_eq!(
        param.compute(&Timestep::new(0, date, 1), &scenario(), &network, &state),
        Err(PywrError::TimestepIndexOutOfRange)
    );
}
