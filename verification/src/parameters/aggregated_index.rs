//! One whole number made of the numbers of several index parameters.

use vstd::prelude::*;
use crate::error::{EntityKind, ErrorView, PywrError};
use crate::network::Network;
use crate::parameters::{IndexParameter, IndexParameterIndex, Internal, ParameterMeta};
use crate::scenario::ScenarioIndex;
use crate::state::State;
use crate::timestep::Timestep;

verus! {

/// How the numbers are made into one.
#[derive(Clone, Copy, Debug, PartialEq, Eq, Structural)]
pub enum AggIndexFunc {
    Sum,
    Product,
    Min,
    Max,
    Any,
    All,
}

/// The numbers that the state holds for the index parameters, in their order,
/// or the failure to find the first of them that the state does not hold.
pub open spec fn gather_index(values: Seq<usize>, indices: Seq<IndexParameterIndex>) -> Result<
    Seq<usize>,
    ErrorView,
>
    decreases indices.len(),
{
    if indices.len() == 0 {
        Ok(Seq::empty())
    } else {
        match gather_index(values, indices.drop_last()) {
            Err(e) => Err(e),
            Ok(head) => if indices.last().0 < values.len() {
                Ok(head.push(values[indices.last().0 as int]))
            } else {
                Err(ErrorView::NotFoundAt(EntityKind::IndexParameter, indices.last().0))
            },
        }
    }
}

/// A failure among the first `n` index parameters is the failure of all.
pub proof fn lemma_gather_index_fails_in_prefix(
    values: Seq<usize>,
    indices: Seq<IndexParameterIndex>,
    n: int,
)
    requires
        0 <= n <= indices.len(),
        gather_index(values, indices.take(n)).is_err(),
    ensures
        gather_index(values, indices) == gather_index(values, indices.take(n)),
    decreases indices.len() - n,
{
    if n < indices.len() {
        assert(indices.take(n + 1).drop_last() =~= indices.take(n));
        lemma_gather_index_fails_in_prefix(values, indices, n + 1);
    } else {
        assert(indices.take(n) =~= indices);
    }
}

/// A number, or the greatest number there is where it lies beyond that.
pub open spec fn capped(x: int) -> usize {
    if x > usize::MAX {
        usize::MAX
    } else {
        x as usize
    }
}

/// What an aggregation makes of the numbers, taken from the first on. A sum or
/// a product stays at the greatest number there is once it has reached it. The
/// least of no numbers is the greatest number there is, the greatest of none is
/// zero. `Any` is one where some number is not zero, `All` where none is zero;
/// else they are zero.
pub open spec fn aggregate_index(func: AggIndexFunc, s: Seq<usize>) -> usize
    decreases s.len(),
{
    if s.len() == 0 {
        match func {
            AggIndexFunc::Sum => 0,
            AggIndexFunc::Product => 1,
            AggIndexFunc::Min => usize::MAX,
            AggIndexFunc::Max => 0,
            AggIndexFunc::Any => 0,
            AggIndexFunc::All => 1,
        }
    } else {
        let before = aggregate_index(func, s.drop_last());
        let x = s.last();
        match func {
            AggIndexFunc::Sum => capped(before + x),
            AggIndexFunc::Product => capped(before * x),
            AggIndexFunc::Min => if x < before {
                x
            } else {
                before
            },
            AggIndexFunc::Max => if x > before {
                x
            } else {
                before
            },
            AggIndexFunc::Any => if x != 0 {
                1
            } else {
                before
            },
            AggIndexFunc::All => if x == 0 {
                0
            } else {
                before
            },
        }
    }
}

/// A parameter that gives one number made of the numbers of other index
/// parameters.
#[derive(Clone, Debug, PartialEq, Eq)]
pub struct AggregatedIndexParameter {
    pub meta: ParameterMeta,
    pub parameters: Vec<IndexParameterIndex>,
    pub agg_func: AggIndexFunc,
}

impl AggregatedIndexParameter {
    pub fn new(name: &str, parameters: Vec<IndexParameterIndex>, agg_func: AggIndexFunc) -> (r:
        Self)
        ensures
            r.meta.name@ == name@,
            r.parameters == parameters,
            r.agg_func == agg_func,
    {
        Self { meta: ParameterMeta::new(name), parameters, agg_func }
    }
}

/// The numbers that the state holds for the index parameters, in their order.
pub fn index_values_of(state: &State, indices: &Vec<IndexParameterIndex>) -> (r: Result<
    Vec<usize>,
    PywrError,
>)
    ensures
        match r {
            Ok(v) => gather_index(state.index_parameter_values@, indices@) == Ok::<
                Seq<usize>,
                ErrorView,
            >(v@),
            Err(e) => gather_index(state.index_parameter_values@, indices@) == Err::<
                Seq<usize>,
                ErrorView,
            >(e@),
        },
{
    let mut out: Vec<usize> = Vec::new();
    let mut i: usize = 0;
    while i < indices.len()
        invariant
            i <= indices.len(),
            gather_index(state.index_parameter_values@, indices@.take(i as int)) == Ok::<
                Seq<usize>,
                ErrorView,
            >(out@),
        decreases indices.len() - i,
    {
        proof {
            assert(indices@.take(i + 1).drop_last() =~= indices@.take(i as int));
        }
        match state.get_index_parameter_value(indices[i]) {
            Err(e) => {
                proof {
                    lemma_gather_index_fails_in_prefix(
                        state.index_parameter_values@,
                        indices@,
                        i + 1,
                    );
                }
                return Err(e);
            },
            Ok(v) => {
                out.push(v);
            },
        }
        i += 1;
    }
    assert(indices@.take(i as int) =~= indices@);
    Ok(out)
}

/// What an aggregation makes of the numbers.
pub fn apply_index(func: AggIndexFunc, values: &Vec<usize>) -> (r: usize)
    ensures
        r == aggregate_index(func, values@),
{
    let mut acc: usize = match func {
        AggIndexFunc::Sum => 0,
        AggIndexFunc::Product => 1,
        AggIndexFunc::Min => usize::MAX,
        AggIndexFunc::Max => 0,
        AggIndexFunc::Any => 0,
        AggIndexFunc::All => 1,
    };
    let mut i: usize = 0;
    assert(values@.take(0).len() == 0);
    while i < values.len()
        invariant
            i <= values.len(),
            acc == aggregate_index(func, values@.take(i as int)),
        decreases values.len() - i,
    {
        proof {
            assert(values@.take(i + 1).drop_last() =~= values@.take(i as int));
            assert(values@.take(i + 1).last() == values@[i as int]);
        }
        let x: usize = values[i];
        acc = match func {
            AggIndexFunc::Sum => {
                if acc > usize::MAX - x {
                    usize::MAX
                } else {
                    acc + x
                }
            },
            AggIndexFunc::Product => {
                let wide_acc: u128 = acc as u128;
                let wide_x: u128 = x as u128;
                assert(wide_acc * wide_x <= 0xffff_ffff_ffff_ffff * 0xffff_ffff_ffff_ffff)
                    by (nonlinear_arith)
                    requires
                        0 <= wide_acc <= 0xffff_ffff_ffff_ffff,
                        0 <= wide_x <= 0xffff_ffff_ffff_ffff,
                ;
                let wide: u128 = wide_acc * wide_x;
                if wide > usize::MAX as u128 {
                    usize::MAX
                } else {
                    wide as usize
                }
            },
            AggIndexFunc::Min => {
                if x < acc {
                    x
                } else {
                    acc
                }
            },
            AggIndexFunc::Max => {
                if x > acc {
                    x
                } else {
                    acc
                }
            },
            AggIndexFunc::Any => {
                if x != 0 {
                    1
                } else {
                    acc
                }
            },
            AggIndexFunc::All => {
                if x == 0 {
                    0
                } else {
                    acc
                }
            },
        };
        i += 1;
    }
    assert(values@.take(i as int) =~= values@);
    acc
}

impl IndexParameter for AggregatedIndexParameter {
    open spec fn initial(&self) -> Option<Internal> {
        None
    }

    open spec fn value(
        &self,
        timestep: Timestep,
        scenario_index: ScenarioIndex,
        network: Network,
        state: State,
        internal_state: Option<Internal>,
    ) -> (Result<usize, ErrorView>, Option<Internal>) {
        (
            match gather_index(state.index_parameter_values@, self.parameters@) {
                Err(e) => Err(e),
                Ok(values) => Ok(aggregate_index(self.agg_func, values)),
            },
            internal_state,
        )
    }

    open spec fn meta_of(&self) -> ParameterMeta {
        self.meta
    }

    fn meta(&self) -> (r: &ParameterMeta) {
        &self.meta
    }

    fn setup(&self, timesteps: &Vec<Timestep>, scenario_index: &ScenarioIndex) -> (r: Result<
        Option<Internal>,
        PywrError,
    >) {
        Ok(None)
    }

    fn compute(
        &self,
        timestep: &Timestep,
        scenario_index: &ScenarioIndex,
        network: &Network,
        state: &State,
        internal_state: &mut Option<Internal>,
    ) -> (r: Result<usize, PywrError>) {
        match index_values_of(state, &self.parameters) {
            Err(e) => Err(e),
            Ok(values) => Ok(apply_index(self.agg_func, &values)),
        }
    }
}

} // verus!
