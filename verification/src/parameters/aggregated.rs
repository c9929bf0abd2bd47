//! One amount made of the amounts of several parameters.

use vstd::prelude::*;
use crate::error::{outcome, ErrorView, PywrError};
use crate::network::Network;
use crate::parameters::{gather, values_of, Parameter, ParameterIndex, ParameterMeta};
use crate::scenario::ScenarioIndex;
use crate::state::State;
use crate::timestep::Timestep;
use crate::value::{
    clamp,
    divide,
    lemma_total_bounds,
    narrow,
    product,
    quotient,
    sum,
    times,
    total,
    Value,
    UNIT,
};

verus! {

/// How the amounts are made into one.
#[derive(Clone, Copy, Debug, PartialEq, Eq, Structural)]
pub enum AggFunc {
    Sum,
    Mean,
    Max,
    Min,
    Product,
}

/// The greatest of the amounts; the least amount there is where there are none.
pub open spec fn greatest(s: Seq<Value>) -> Value
    decreases s.len(),
{
    if s.len() == 0 {
        i64::MIN
    } else if greatest(s.drop_last()) >= s.last() {
        greatest(s.drop_last())
    } else {
        s.last()
    }
}

/// The least of the amounts; the greatest amount there is where there are none.
pub open spec fn least(s: Seq<Value>) -> Value
    decreases s.len(),
{
    if s.len() == 0 {
        i64::MAX
    } else if least(s.drop_last()) <= s.last() {
        least(s.drop_last())
    } else {
        s.last()
    }
}

/// The fixed-point product of the amounts, taken from the first on; one where
/// there are none.
pub open spec fn product_of(s: Seq<Value>) -> Value
    decreases s.len(),
{
    if s.len() == 0 {
        UNIT
    } else {
        product(product_of(s.drop_last()) as int, s.last() as int) as i64
    }
}

/// What an aggregation makes of the amounts. The mean of no amounts fails.
pub open spec fn aggregate(func: AggFunc, s: Seq<Value>) -> Result<Value, ErrorView> {
    match func {
        AggFunc::Sum => Ok(clamp(total(s)) as i64),
        AggFunc::Mean => if s.len() == 0 {
            Err(ErrorView::DivisionByZero)
        } else {
            Ok(clamp(quotient(total(s), s.len() as int)) as i64)
        },
        AggFunc::Max => Ok(greatest(s)),
        AggFunc::Min => Ok(least(s)),
        AggFunc::Product => Ok(product_of(s)),
    }
}

/// A parameter that gives the sum, the mean, the greatest, the least or the
/// product of the amounts of other parameters.
#[derive(Clone, Debug, PartialEq, Eq)]
pub struct AggregatedParameter {
    pub meta: ParameterMeta,
    pub parameters: Vec<ParameterIndex>,
    pub agg_func: AggFunc,
}

impl AggregatedParameter {
    pub fn new(name: &str, parameters: Vec<ParameterIndex>, agg_func: AggFunc) -> (r: Self)
        ensures
            r.meta.name@ == name@,
            r.parameters == parameters,
            r.agg_func == agg_func,
    {
        Self { meta: ParameterMeta::new(name), parameters, agg_func }
    }
}

/// What an aggregation makes of the amounts.
pub fn apply(func: AggFunc, values: &Vec<Value>) -> (r: Result<Value, PywrError>)
    ensures
        outcome(r) == aggregate(func, values@),
{
    match func {
        AggFunc::Sum => Ok(sum(values)),
        AggFunc::Mean => {
            if values.len() == 0 {
                return Err(PywrError::DivisionByZero);
            }
            let mut acc: i128 = 0;
            let mut i: usize = 0;
            while i < values.len()
                invariant
                    i <= values.len(),
                    acc == total(values@.take(i as int)),
                decreases values.len() - i,
            {
                proof {
                    lemma_total_bounds(values@.take(i as int));
                    assert(values@.take(i + 1).drop_last() =~= values@.take(i as int));
                }
                acc = acc + values[i] as i128;
                i += 1;
            }
            proof {
                assert(values@.take(i as int) =~= values@);
                lemma_total_bounds(values@);
            }
            Ok(narrow(divide(acc, values.len() as i128)))
        },
        AggFunc::Max => {
            let mut best: Value = i64::MIN;
            let mut i: usize = 0;
            while i < values.len()
                invariant
                    i <= values.len(),
                    best == greatest(values@.take(i as int)),
                decreases values.len() - i,
            {
                proof {
                    assert(values@.take(i + 1).drop_last() =~= values@.take(i as int));
                }
                if values[i] > best {
                    best = values[i];
                }
                i += 1;
            }
            assert(values@.take(i as int) =~= values@);
            Ok(best)
        },
        AggFunc::Min => {
            let mut best: Value = i64::MAX;
            let mut i: usize = 0;
            while i < values.len()
                invariant
                    i <= values.len(),
                    best == least(values@.take(i as int)),
                decreases values.len() - i,
            {
                proof {
                    assert(values@.take(i + 1).drop_last() =~= values@.take(i as int));
                }
                if values[i] < best {
                    best = values[i];
                }
                i += 1;
            }
            assert(values@.take(i as int) =~= values@);
            Ok(best)
        },
        AggFunc::Product => {
            let mut acc: Value = UNIT;
            let mut i: usize = 0;
            while i < values.len()
                invariant
                    i <= values.len(),
                    acc == product_of(values@.take(i as int)),
                decreases values.len() - i,
            {
                proof {
                    assert(values@.take(i + 1).drop_last() =~= values@.take(i as int));
                }
                acc = times(acc, values[i]);
                i += 1;
            }
            assert(values@.take(i as int) =~= values@);
            Ok(acc)
        },
    }
}

impl Parameter for AggregatedParameter {
    open spec fn value(
        &self,
        timestep: Timestep,
        scenario_index: ScenarioIndex,
        network: Network,
        state: State,
    ) -> Result<Value, ErrorView> {
        match gather(state.parameter_values@, self.parameters@) {
            Err(e) => Err(e),
            Ok(values) => aggregate(self.agg_func, values),
        }
    }

    open spec fn meta_of(&self) -> ParameterMeta {
        self.meta
    }

    fn meta(&self) -> (r: &ParameterMeta) {
        &self.meta
    }

    fn compute(
        &self,
        timestep: &Timestep,
        scenario_index: &ScenarioIndex,
        network: &Network,
        state: &State,
    ) -> (r: Result<Value, PywrError>) {
        match values_of(state, &self.parameters) {
            Err(e) => Err(e),
            Ok(values) => apply(self.agg_func, &values),
        }
    }
}

} // verus!
