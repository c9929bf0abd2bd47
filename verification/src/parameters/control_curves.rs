//! Parameters that depend on where a metric, most often the proportional
//! volume of a storage, stands among control curves.
//!
//! The curves are read from the first on. The region of a metric `x` is the
//! position of the first curve that `x` reaches; below all curves it is their
//! number. With curves that fall from the first to the last, region 0 lies on
//! and above the first curve, region `i` from curve `i + 1` up to, but not on,
//! curve `i`, and the last region below the last curve.

use vstd::prelude::*;
use crate::error::{EntityKind, ErrorView, PywrError};
use crate::metric::{get_values, metric_value, metric_values, Metric};
use crate::network::Network;
use crate::parameters::{IndexParameter, Internal, Parameter, ParameterMeta};
use crate::scenario::ScenarioIndex;
use crate::state::State;
use crate::timestep::Timestep;
use crate::value::{clamp, divide, minus, narrow, quotient, Value, UNIT};

verus! {

/// The position, from `from` on, of the first curve that `x` reaches, or the
/// number of curves where it reaches none.
pub open spec fn region_from(x: Value, curves: Seq<Value>, from: int) -> int
    decreases curves.len() - from,
{
    if from < 0 || from >= curves.len() {
        curves.len() as int
    } else if x >= curves[from] {
        from
    } else {
        region_from(x, curves, from + 1)
    }
}

/// The region of `x` among the curves.
pub open spec fn region(x: Value, curves: Seq<Value>) -> int {
    region_from(x, curves, 0)
}

/// The region of `x` among the curves.
pub fn find_region(x: Value, curves: &Vec<Value>) -> (r: usize)
    ensures
        r == region(x, curves@),
        r <= curves.len(),
{
    let mut i: usize = 0;
    while i < curves.len()
        invariant
            i <= curves.len(),
            region(x, curves@) == region_from(x, curves@, i as int),
        decreases curves.len() - i,
    {
        if x >= curves[i] {
            return i;
        }
        i += 1;
    }
    i
}

/// The amount on the line through `lower_value` at `lower_bound` and
/// `upper_value` at `upper_bound`: `lower_value` at and below `lower_bound`,
/// `upper_value` at and above `upper_bound`, and between them `lower_value`
/// plus the share of the way from one bound to the other, rounded towards zero,
/// of the difference of the values.
pub open spec fn interpolated(
    x: Value,
    lower_bound: Value,
    upper_bound: Value,
    lower_value: Value,
    upper_value: Value,
) -> Value {
    if x <= lower_bound {
        lower_value
    } else if x >= upper_bound {
        upper_value
    } else {
        clamp(
            lower_value + quotient(
                clamp(upper_value - lower_value) * (x - lower_bound),
                upper_bound - lower_bound,
            ),
        ) as i64
    }
}

/// The amount on the line through `lower_value` at `lower_bound` and
/// `upper_value` at `upper_bound`.
pub fn interpolate(
    x: Value,
    lower_bound: Value,
    upper_bound: Value,
    lower_value: Value,
    upper_value: Value,
) -> (r: Value)
    ensures
        r == interpolated(x, lower_bound, upper_bound, lower_value, upper_value),
{
    if x <= lower_bound {
        lower_value
    } else if x >= upper_bound {
        upper_value
    } else {
        let rise: i128 = minus(upper_value, lower_value) as i128;
        let run: i128 = x as i128 - lower_bound as i128;
        let span: i128 = upper_bound as i128 - lower_bound as i128;
        assert(-0x8000_0000_0000_0000_0000_0000_0000_0000 + 0x8000_0000_0000_0000 <= rise * run
            <= 0x8000_0000_0000_0000_0000_0000_0000_0000 - 0x8000_0000_0000_0000)
            by (nonlinear_arith)
            requires
                -0x8000_0000_0000_0000 <= rise <= 0x7fff_ffff_ffff_ffff,
                0 < run <= 0xffff_ffff_ffff_ffff,
        ;
        let scaled: i128 = rise * run;
        let share: i128 = divide(scaled, span);
        assert(magnitude_le(share as int, scaled as int, span as int)) by {
            lemma_quotient_bound(scaled as int, span as int);
        }
        narrow(lower_value as i128 + share)
    }
}

/// Whether a quotient is no greater in size than what was divided.
pub open spec fn magnitude_le(q: int, a: int, b: int) -> bool {
    if a >= 0 {
        0 <= q <= a
    } else {
        a <= q <= 0
    }
}

/// Dividing by a positive number brings a number no further from zero.
pub proof fn lemma_quotient_bound(a: int, b: int)
    requires
        b > 0,
    ensures
        magnitude_le(quotient(a, b), a, b),
{
    if a >= 0 {
        assert(0 <= a / b <= a) by (nonlinear_arith)
            requires
                a >= 0,
                b > 0,
        ;
    } else {
        assert(0 <= (-a) / b <= -a) by (nonlinear_arith)
            requires
                a < 0,
                b > 0,
        ;
    }
}

/// A parameter that gives the region of a metric among control curves.
#[derive(Clone, Debug, PartialEq, Eq)]
pub struct ControlCurveIndexParameter {
    pub meta: ParameterMeta,
    pub metric: Metric,
    pub control_curves: Vec<Metric>,
}

impl ControlCurveIndexParameter {
    pub fn new(name: &str, metric: Metric, control_curves: Vec<Metric>) -> (r: Self)
        ensures
            r.meta.name@ == name@,
            r.metric == metric,
            r.control_curves == control_curves,
    {
        Self { meta: ParameterMeta::new(name), metric, control_curves }
    }
}

/// The region of the value of a metric among the values of control curves. The
/// metric is read first, then the curves in their order; the first failure to
/// read is the failure.
pub open spec fn curve_region(
    metric: Metric,
    control_curves: Seq<Metric>,
    network: Network,
    state: State,
) -> Result<(Value, Seq<Value>, int), ErrorView> {
    match metric_value(metric, network, state, network.evaluation_depth()) {
        Err(e) => Err(e),
        Ok(x) => match metric_values(control_curves, network, state) {
            Err(e) => Err(e),
            Ok(curves) => Ok((x, curves, region(x, curves))),
        },
    }
}

/// The value of a metric, the values of the curves and the region of the one
/// among the others.
fn locate(metric: &Metric, control_curves: &Vec<Metric>, network: &Network, state: &State) -> (r:
    Result<(Value, Vec<Value>, usize), PywrError>)
    ensures
        match r {
            Ok((x, curves, at)) => curve_region(*metric, control_curves@, *network, *state) == Ok::<
                (Value, Seq<Value>, int),
                ErrorView,
            >((x, curves@, at as int)) && at <= curves.len() && curves.len()
                == control_curves.len() && at == region(x, curves@),
            Err(e) => curve_region(*metric, control_curves@, *network, *state) == Err::<
                (Value, Seq<Value>, int),
                ErrorView,
            >(e@),
        },
{
    match metric.get_value(network, state) {
        Err(e) => Err(e),
        Ok(x) => match get_values(control_curves, network, state) {
            Err(e) => Err(e),
            Ok(curves) => {
                let at = find_region(x, &curves);
                Ok((x, curves, at))
            },
        },
    }
}

impl IndexParameter for ControlCurveIndexParameter {
    open spec fn initial(&self) -> Option<Internal> {
        None
    }

    open spec fn value(
        &self,
        timestep: Timestep,
        scenario_index: ScenarioIndex,
        network: Network,
        state: State,
        internal_state: Option<Internal>,
    ) -> (Result<usize, ErrorView>, Option<Internal>) {
        (
            match curve_region(self.metric, self.control_curves@, network, state) {
                Err(e) => Err(e),
                Ok((x, curves, at)) => Ok(at as usize),
            },
            internal_state,
        )
    }

    open spec fn meta_of(&self) -> ParameterMeta {
        self.meta
    }

    fn meta(&self) -> (r: &ParameterMeta) {
        &self.meta
    }

    fn setup(&self, timesteps: &Vec<Timestep>, scenario_index: &ScenarioIndex) -> (r: Result<
        Option<Internal>,
        PywrError,
    >) {
        Ok(None)
    }

    fn compute(
        &self,
        timestep: &Timestep,
        scenario_index: &ScenarioIndex,
        network: &Network,
        state: &State,
        internal_state: &mut Option<Internal>,
    ) -> (r: Result<usize, PywrError>) {
        match locate(&self.metric, &self.control_curves, network, state) {
            Err(e) => Err(e),
            Ok((_, _, at)) => Ok(at),
        }
    }
}

/// A parameter that gives, for each region of a metric among control curves,
/// the value of one metric: the first above the first curve, the last below the
/// last.
#[derive(Clone, Debug, PartialEq, Eq)]
pub struct ControlCurveParameter {
    pub meta: ParameterMeta,
    pub metric: Metric,
    pub control_curves: Vec<Metric>,
    pub values: Vec<Metric>,
}

impl ControlCurveParameter {
    pub fn new(name: &str, metric: Metric, control_curves: Vec<Metric>, values: Vec<Metric>) -> (r:
        Self)
        ensures
            r.meta.name@ == name@,
            r.metric == metric,
            r.control_curves == control_curves,
            r.values == values,
    {
        Self { meta: ParameterMeta::new(name), metric, control_curves, values }
    }
}

impl Parameter for ControlCurveParameter {
    /// The value of the metric of the region. A region without a metric fails
    /// with `NotFoundAt`, as a `Choice`.
    open spec fn value(
        &self,
        timestep: Timestep,
        scenario_index: ScenarioIndex,
        network: Network,
        state: State,
    ) -> Result<Value, ErrorView> {
        match curve_region(self.metric, self.control_curves@, network, state) {
            Err(e) => Err(e),
            Ok((x, curves, at)) => if at >= self.values.len() {
                Err(ErrorView::NotFoundAt(EntityKind::Choice, at as usize))
            } else {
                metric_value(self.values[at], network, state, network.evaluation_depth())
            },
        }
    }

    open spec fn meta_of(&self) -> ParameterMeta {
        self.meta
    }

    fn meta(&self) -> (r: &ParameterMeta) {
        &self.meta
    }

    fn compute(
        &self,
        timestep: &Timestep,
        scenario_index: &ScenarioIndex,
        network: &Network,
        state: &State,
    ) -> (r: Result<Value, PywrError>) {
        match locate(&self.metric, &self.control_curves, network, state) {
            Err(e) => Err(e),
            Ok((_, _, at)) => {
                if at >= self.values.len() {
                    Err(PywrError::NotFoundAt(EntityKind::Choice, at))
                } else {
                    self.values[at].get_value(network, state)
                }
            },
        }
    }
}

/// The upper end of a region: the maximum for the first, else the curve above.
pub open spec fn upper_break(curves: Seq<Value>, at: int, maximum: Value) -> Value {
    if at <= 0 || at > curves.len() {
        maximum
    } else {
        curves[at - 1]
    }
}

/// The lower end of a region: the minimum for the last, else the curve below.
pub open spec fn lower_break(curves: Seq<Value>, at: int, minimum: Value) -> Value {
    if at < 0 || at >= curves.len() {
        minimum
    } else {
        curves[at]
    }
}

/// The upper and the lower end of a region.
fn breaks(curves: &Vec<Value>, at: usize, maximum: Value, minimum: Value) -> (r: (Value, Value))
    requires
        at <= curves.len(),
    ensures
        r.0 == upper_break(curves@, at as int, maximum),
        r.1 == lower_break(curves@, at as int, minimum),
{
    let upper = if at == 0 {
        maximum
    } else {
        curves[at - 1]
    };
    let lower = if at >= curves.len() {
        minimum
    } else {
        curves[at]
    };
    (upper, lower)
}

/// A parameter that gives an amount on the line between the values at the two
/// ends of the region of a metric. There is one value for the maximum, one for
/// each curve and one for the minimum, in this order.
#[derive(Clone, Debug, PartialEq, Eq)]
pub struct InterpolatedParameter {
    pub meta: ParameterMeta,
    pub metric: Metric,
    pub control_curves: Vec<Metric>,
    pub values: Vec<Metric>,
    /// The upper end of the first region; one, unless it is set.
    pub maximum: Value,
    /// The lower end of the last region; zero, unless it is set.
    pub minimum: Value,
}

impl InterpolatedParameter {
    pub fn new(name: &str, metric: Metric, control_curves: Vec<Metric>, values: Vec<Metric>) -> (r:
        Self)
        ensures
            r.meta.name@ == name@,
            r.metric == metric,
            r.control_curves == control_curves,
            r.values == values,
            r.maximum == UNIT,
            r.minimum == 0,
    {
        Self {
            meta: ParameterMeta::new(name),
            metric,
            control_curves,
            values,
            maximum: UNIT,
            minimum: 0,
        }
    }
}

impl Parameter for InterpolatedParameter {
    /// In region `i`, the amount on the line through value `i` at the upper end
    /// and value `i + 1` at the lower end. A region without its two values
    /// fails with `NotFoundAt`, as a `Choice`.
    open spec fn value(
        &self,
        timestep: Timestep,
        scenario_index: ScenarioIndex,
        network: Network,
        state: State,
    ) -> Result<Value, ErrorView> {
        match curve_region(self.metric, self.control_curves@, network, state) {
            Err(e) => Err(e),
            Ok((x, curves, at)) => if at + 1 >= self.values.len() {
                Err(ErrorView::NotFoundAt(EntityKind::Choice, at as usize))
            } else {
                match metric_value(self.values[at], network, state, network.evaluation_depth()) {
                    Err(e) => Err(e),
                    Ok(upper_value) => match metric_value(
                        self.values[at + 1],
                        network,
                        state,
                        network.evaluation_depth(),
                    ) {
                        Err(e) => Err(e),
                        Ok(lower_value) => Ok(
                            interpolated(
                                x,
                                lower_break(curves, at, self.minimum),
                                upper_break(curves, at, self.maximum),
                                lower_value,
                                upper_value,
                            ),
                        ),
                    },
                }
            },
        }
    }

    open spec fn meta_of(&self) -> ParameterMeta {
        self.meta
    }

    fn meta(&self) -> (r: &ParameterMeta) {
        &self.meta
    }

    fn compute(
        &self,
        timestep: &Timestep,
        scenario_index: &ScenarioIndex,
        network: &Network,
        state: &State,
    ) -> (r: Result<Value, PywrError>) {
        match locate(&self.metric, &self.control_curves, network, state) {
            Err(e) => Err(e),
            Ok((x, curves, at)) => {
                if at >= self.values.len() || at + 1 >= self.values.len() {
                    return Err(PywrError::NotFoundAt(EntityKind::Choice, at));
                }
                let upper_value = match self.values[at].get_value(network, state) {
                    Err(e) => {
                        return Err(e);
                    },
                    Ok(v) => v,
                };
                let lower_value = match self.values[at + 1].get_value(network, state) {
                    Err(e) => {
                        return Err(e);
                    },
                    Ok(v) => v,
                };
                let (upper, lower) = breaks(&curves, at, self.maximum, self.minimum);
                Ok(interpolate(x, lower, upper, lower_value, upper_value))
            },
        }
    }
}

/// A parameter that gives, in each region of a metric among control curves, an
/// amount on the line between the two amounts of the region: the first at the
/// upper end, the second at the lower end.
#[derive(Clone, Debug, PartialEq, Eq)]
pub struct PiecewiseInterpolatedParameter {
    pub meta: ParameterMeta,
    pub metric: Metric,
    pub control_curves: Vec<Metric>,
    pub values: Vec<[Value; 2]>,
    /// The upper end of the first region.
    pub maximum: Value,
    /// The lower end of the last region.
    pub minimum: Value,
}

impl PiecewiseInterpolatedParameter {
    pub fn new(
        name: &str,
        metric: Metric,
        control_curves: Vec<Metric>,
        values: Vec<[Value; 2]>,
        maximum: Value,
        minimum: Value,
    ) -> (r: Self)
        ensures
            r.meta.name@ == name@,
            r.metric == metric,
            r.control_curves == control_curves,
            r.values == values,
            r.maximum == maximum,
            r.minimum == minimum,
    {
        Self { meta: ParameterMeta::new(name), metric, control_curves, values, maximum, minimum }
    }
}

impl Parameter for PiecewiseInterpolatedParameter {
    /// A region without its two amounts fails with `NotFoundAt`, as a `Choice`.
    open spec fn value(
        &self,
        timestep: Timestep,
        scenario_index: ScenarioIndex,
        network: Network,
        state: State,
    ) -> Result<Value, ErrorView> {
        match curve_region(self.metric, self.control_curves@, network, state) {
            Err(e) => Err(e),
            Ok((x, curves, at)) => if at >= self.values.len() {
                Err(ErrorView::NotFoundAt(EntityKind::Choice, at as usize))
            } else {
                Ok(
                    interpolated(
                        x,
                        lower_break(curves, at, self.minimum),
                        upper_break(curves, at, self.maximum),
                        self.values[at][1],
                        self.values[at][0],
                    ),
                )
            },
        }
    }

    open spec fn meta_of(&self) -> ParameterMeta {
        self.meta
    }

    fn meta(&self) -> (r: &ParameterMeta) {
        &self.meta
    }

    fn compute(
        &self,
        timestep: &Timestep,
        scenario_index: &ScenarioIndex,
        network: &Network,
        state: &State,
    ) -> (r: Result<Value, PywrError>) {
        match locate(&self.metric, &self.control_curves, network, state) {
            Err(e) => Err(e),
            Ok((x, curves, at)) => {
                if at >= self.values.len() {
                    return Err(PywrError::NotFoundAt(EntityKind::Choice, at));
                }
                let (upper, lower) = breaks(&curves, at, self.maximum, self.minimum);
                let pair = &self.values[at];
                Ok(interpolate(x, lower, upper, pair[1], pair[0]))
            },
        }
    }
}

} // verus!
