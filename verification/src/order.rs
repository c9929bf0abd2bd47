//! The order in which the parameters of a network are computed: every
//! parameter after those whose values it reads.

use vstd::prelude::*;
use crate::error::{EntityKind, ErrorView, PywrError};
use crate::network::Network;
use crate::parameters::{
    IndexParameterIndex, MultiValueParameterIndex, ParameterIndex, ParameterType,
};

verus! {

/// Which parameters of each kind have a place in the order.
pub struct Placed {
    pub parameters: Vec<bool>,
    pub index_parameters: Vec<bool>,
    pub multi_parameters: Vec<bool>,
}

impl Network {
    /// Whether the network holds the parameter with this handle.
    pub open spec fn holds(&self, p: ParameterType) -> bool {
        match p {
            ParameterType::Parameter(idx) => idx.0 < self.parameters.len(),
            ParameterType::Index(idx) => idx.0 < self.index_parameters.len(),
            ParameterType::Multi(idx) => idx.0 < self.multi_parameters.len(),
        }
    }

    /// The parameters whose values a parameter reads. A multi-value parameter is
    /// computed outside this library and reads none here.
    pub open spec fn dependencies_of(&self, p: ParameterType) -> Seq<ParameterType> {
        match p {
            ParameterType::Parameter(idx) => self.parameters[idx.0 as int].dependencies_of(),
            ParameterType::Index(idx) => self.index_parameters[idx.0 as int].dependencies_of(),
            ParameterType::Multi(idx) => Seq::empty(),
        }
    }

    /// The name of a parameter.
    pub open spec fn name_of(&self, p: ParameterType) -> Seq<char> {
        match p {
            ParameterType::Parameter(idx) => self.parameters[idx.0 as int].meta_of().name@,
            ParameterType::Index(idx) => self.index_parameters[idx.0 as int].meta_of().name@,
            ParameterType::Multi(idx) => self.multi_parameters[idx.0 as int].name@,
        }
    }

    /// Whether an order is one in which the parameters can be computed: every
    /// parameter of the network stands in it once, and after every parameter
    /// that it reads.
    pub open spec fn valid_order(&self, order: Seq<ParameterType>) -> bool {
        &&& order.no_duplicates()
        &&& forall|k: int| 0 <= k < order.len() ==> self.holds(#[trigger] order[k])
        &&& forall|p: ParameterType| self.holds(p) ==> #[trigger] order.contains(p)
        &&& self.respects(order)
    }

    /// Whether every parameter in an order stands after every parameter that it
    /// reads.
    pub open spec fn respects(&self, order: Seq<ParameterType>) -> bool {
        forall|k: int, d: int|
            0 <= k < order.len() && 0 <= d < self.dependencies_of(order[k]).len()
                ==> #[trigger] precedes(
                order,
                k,
                self.dependencies_of(order[k])[d],
            )
    }

    /// The parameters that a parameter of the network reads.
    fn dependencies(&self, p: ParameterType) -> (r: Vec<ParameterType>)
        requires
            self.holds(p),
        ensures
            r@ == self.dependencies_of(p),
    {
        match p {
            ParameterType::Parameter(idx) => self.parameters[idx.0].dependencies(),
            ParameterType::Index(idx) => self.index_parameters[idx.0].dependencies(),
            ParameterType::Multi(_) => Vec::new(),
        }
    }

    /// Whether the network holds the parameter with this handle.
    fn has(&self, p: ParameterType) -> (r: bool)
        ensures
            r == self.holds(p),
    {
        match p {
            ParameterType::Parameter(idx) => idx.0 < self.parameters.len(),
            ParameterType::Index(idx) => idx.0 < self.index_parameters.len(),
            ParameterType::Multi(idx) => idx.0 < self.multi_parameters.len(),
        }
    }

    /// The name of a parameter of the network.
    fn name(&self, p: ParameterType) -> (r: String)
        requires
            self.holds(p),
        ensures
            r@ == self.name_of(p),
    {
        match p {
            ParameterType::Parameter(idx) => self.parameters[idx.0].meta().name.clone(),
            ParameterType::Index(idx) => self.index_parameters[idx.0].meta().name.clone(),
            ParameterType::Multi(idx) => self.multi_parameters[idx.0].name.clone(),
        }
    }

    /// Whether every parameter reads only parameters that the network holds.
    pub open spec fn closed(&self) -> bool {
        forall|p: ParameterType, d: int|
            self.holds(p) && 0 <= d < self.dependencies_of(p).len() ==> self.holds(
                #[trigger] self.dependencies_of(p)[d],
            )
    }
}

/// Whether a parameter stands in an order before the position `k`.
pub open spec fn precedes(order: Seq<ParameterType>, k: int, p: ParameterType) -> bool {
    exists|j: int| 0 <= j < k && j < order.len() && #[trigger] order[j] == p
}

impl Placed {
    /// Whether there is a flag for every parameter of the network.
    pub open spec fn covers(&self, network: Network) -> bool {
        &&& self.parameters.len() == network.parameters.len()
        &&& self.index_parameters.len() == network.index_parameters.len()
        &&& self.multi_parameters.len() == network.multi_parameters.len()
    }

    /// Whether a parameter has a place.
    pub open spec fn has(&self, p: ParameterType) -> bool {
        match p {
            ParameterType::Parameter(idx) => self.parameters[idx.0 as int],
            ParameterType::Index(idx) => self.index_parameters[idx.0 as int],
            ParameterType::Multi(idx) => self.multi_parameters[idx.0 as int],
        }
    }

    /// The number of parameters without a place.
    pub open spec fn missing(&self) -> nat {
        unset(self.parameters@) + unset(self.index_parameters@) + unset(self.multi_parameters@)
    }

    /// Whether a parameter has a place.
    fn is_placed(&self, p: ParameterType) -> (r: bool)
        requires
            match p {
                ParameterType::Parameter(idx) => idx.0 < self.parameters.len(),
                ParameterType::Index(idx) => idx.0 < self.index_parameters.len(),
                ParameterType::Multi(idx) => idx.0 < self.multi_parameters.len(),
            },
        ensures
            r == self.has(p),
    {
        match p {
            ParameterType::Parameter(idx) => self.parameters[idx.0],
            ParameterType::Index(idx) => self.index_parameters[idx.0],
            ParameterType::Multi(idx) => self.multi_parameters[idx.0],
        }
    }
}

/// The number of flags that are not set.
pub open spec fn unset(flags: Seq<bool>) -> nat
    decreases flags.len(),
{
    if flags.len() == 0 {
        0
    } else {
        unset(flags.drop_last()) + if flags.last() {
            0nat
        } else {
            1nat
        }
    }
}

/// Setting a flag that was not set leaves one fewer unset.
pub proof fn lemma_unset_after_set(flags: Seq<bool>, at: int)
    requires
        0 <= at < flags.len(),
        !flags[at],
    ensures
        unset(flags.update(at, true)) + 1 == unset(flags),
    decreases flags.len(),
{
    if at == flags.len() - 1 {
        assert(flags.update(at, true).drop_last() =~= flags.drop_last());
    } else {
        lemma_unset_after_set(flags.drop_last(), at);
        assert(flags.update(at, true).drop_last() =~= flags.drop_last().update(at, true));
    }
}

/// A list of `n` flags, none of them set.
fn cleared(n: usize) -> (r: Vec<bool>)
    ensures
        r.len() == n,
        forall|i: int| 0 <= i < n ==> !r[i],
{
    let mut out: Vec<bool> = Vec::new();
    let mut i: usize = 0;
    while i < n
        invariant
            i <= n,
            out.len() == i,
            forall|k: int| 0 <= k < i ==> !out[k],
        decreases n - i,
    {
        out.push(false);
        i += 1;
    }
    out
}

/// Whether every parameter that `p` reads has a place.
fn is_ready(network: &Network, placed: &Placed, p: ParameterType) -> (r: bool)
    requires
        network.holds(p),
        network.closed(),
        placed.covers(*network),
    ensures
        r == forall|d: int|
            0 <= d < network.dependencies_of(p).len() ==> placed.has(
                #[trigger] network.dependencies_of(p)[d],
            ),
{
    let dependencies = network.dependencies(p);
    let mut d: usize = 0;
    while d < dependencies.len()
        invariant
            d <= dependencies.len(),
            dependencies@ == network.dependencies_of(p),
            network.holds(p),
            network.closed(),
            placed.covers(*network),
            forall|k: int| 0 <= k < d ==> placed.has(#[trigger] dependencies[k]),
        decreases dependencies.len() - d,
    {
        assert(network.holds(network.dependencies_of(p)[d as int]));
        if !placed.is_placed(dependencies[d]) {
            return false;
        }
        d += 1;
    }
    true
}

/// Whether one parameter goes before another where both could come next: an
/// index parameter before a multi-value parameter, that before a parameter that
/// gives an amount, and among those of one kind the one with the lower handle.
pub open spec fn goes_before(p: ParameterType, q: ParameterType) -> bool {
    match (p, q) {
        (ParameterType::Index(a), ParameterType::Index(b)) => a.0 < b.0,
        (ParameterType::Index(_), _) => true,
        (ParameterType::Multi(_), ParameterType::Index(_)) => false,
        (ParameterType::Multi(a), ParameterType::Multi(b)) => a.0 < b.0,
        (ParameterType::Multi(_), ParameterType::Parameter(_)) => true,
        (ParameterType::Parameter(a), ParameterType::Parameter(b)) => a.0 < b.0,
        (ParameterType::Parameter(_), _) => false,
    }
}

/// Whether a parameter could stand at the position `k` of an order: the
/// network holds it, it does not stand before `k`, and every parameter that it
/// reads does.
pub open spec fn could_stand(
    network: Network,
    order: Seq<ParameterType>,
    k: int,
    p: ParameterType,
) -> bool {
    &&& network.holds(p)
    &&& !precedes(order, k, p)
    &&& forall|d: int|
        0 <= d < network.dependencies_of(p).len() ==> precedes(
            order,
            k,
            #[trigger] network.dependencies_of(p)[d],
        )
}

/// Whether every position of an order holds the parameter that goes before all
/// others that could stand there.
pub open spec fn first_come(network: Network, order: Seq<ParameterType>) -> bool {
    forall|k: int, q: ParameterType|
        0 <= k < order.len() && goes_before(q, order[k]) ==> !#[trigger] could_stand(
            network,
            order,
            k,
            q,
        )
}

/// Whether a parameter without a place can be given one: it has none, and
/// every parameter that it reads has one.
pub open spec fn placeable(network: Network, placed: Placed, p: ParameterType) -> bool {
    &&& network.holds(p)
    &&& !placed.has(p)
    &&& forall|d: int|
        0 <= d < network.dependencies_of(p).len() ==> placed.has(
            #[trigger] network.dependencies_of(p)[d],
        )
}

/// The first parameter that can be given a place: an index parameter before a
/// multi-value parameter, and that before a parameter that gives an amount.
fn next_placeable(network: &Network, placed: &Placed) -> (r: Option<ParameterType>)
    requires
        network.closed(),
        placed.covers(*network),
    ensures
        match r {
            Some(p) => placeable(*network, *placed, p) && forall|q: ParameterType|
                goes_before(q, p) ==> !#[trigger] placeable(*network, *placed, q),
            None => forall|p: ParameterType| !placeable(*network, *placed, p),
        },
{
    let mut i: usize = 0;
    while i < network.index_parameters.len()
        invariant
            i <= network.index_parameters.len(),
            network.closed(),
            placed.covers(*network),
            forall|p: ParameterType|
                p matches ParameterType::Index(idx) && idx.0 < i ==> !#[trigger] placeable(
                    *network,
                    *placed,
                    p,
                ),
        decreases network.index_parameters.len() - i,
    {
        let p = ParameterType::Index(IndexParameterIndex(i));
        if !placed.index_parameters[i] && is_ready(network, placed, p) {
            return Some(p);
        }
        i += 1;
    }
    let mut m: usize = 0;
    while m < network.multi_parameters.len()
        invariant
            m <= network.multi_parameters.len(),
            network.closed(),
            placed.covers(*network),
            forall|p: ParameterType|
                p is Index ==> !#[trigger] placeable(*network, *placed, p),
            forall|p: ParameterType|
                p matches ParameterType::Multi(idx) && idx.0 < m ==> !#[trigger] placeable(
                    *network,
                    *placed,
                    p,
                ),
        decreases network.multi_parameters.len() - m,
    {
        let p = ParameterType::Multi(MultiValueParameterIndex(m));
        if !placed.multi_parameters[m] && is_ready(network, placed, p) {
            return Some(p);
        }
        m += 1;
    }
    let mut n: usize = 0;
    while n < network.parameters.len()
        invariant
            n <= network.parameters.len(),
            network.closed(),
            placed.covers(*network),
            forall|p: ParameterType|
                p is Index ==> !#[trigger] placeable(*network, *placed, p),
            forall|p: ParameterType|
                p is Multi ==> !#[trigger] placeable(*network, *placed, p),
            forall|p: ParameterType|
                p matches ParameterType::Parameter(idx) && idx.0 < n ==> !#[trigger] placeable(
                    *network,
                    *placed,
                    p,
                ),
        decreases network.parameters.len() - n,
    {
        let p = ParameterType::Parameter(ParameterIndex(n));
        if !placed.parameters[n] && is_ready(network, placed, p) {
            return Some(p);
        }
        n += 1;
    }
    None
}

/// The first parameter without a place.
fn first_unplaced(network: &Network, placed: &Placed) -> (r: Option<ParameterType>)
    requires
        placed.covers(*network),
    ensures
        match r {
            Some(p) => network.holds(p) && !placed.has(p),
            None => forall|p: ParameterType| network.holds(p) ==> placed.has(p),
        },
{
    let mut i: usize = 0;
    while i < placed.index_parameters.len()
        invariant
            i <= placed.index_parameters.len(),
            placed.covers(*network),
            forall|k: int| 0 <= k < i ==> placed.index_parameters[k],
        decreases placed.index_parameters.len() - i,
    {
        if !placed.index_parameters[i] {
            return Some(ParameterType::Index(IndexParameterIndex(i)));
        }
        i += 1;
    }
    let mut m: usize = 0;
    while m < placed.multi_parameters.len()
        invariant
            m <= placed.multi_parameters.len(),
            placed.covers(*network),
            forall|k: int| 0 <= k < m ==> placed.multi_parameters[k],
        decreases placed.multi_parameters.len() - m,
    {
        if !placed.multi_parameters[m] {
            return Some(ParameterType::Multi(MultiValueParameterIndex(m)));
        }
        m += 1;
    }
    let mut n: usize = 0;
    while n < placed.parameters.len()
        invariant
            n <= placed.parameters.len(),
            placed.covers(*network),
            forall|k: int| 0 <= k < n ==> placed.parameters[k],
        decreases placed.parameters.len() - n,
    {
        if !placed.parameters[n] {
            return Some(ParameterType::Parameter(ParameterIndex(n)));
        }
        n += 1;
    }
    None
}

/// The first parameter that reads a parameter which the network does not hold,
/// with what it reads.
fn first_open(network: &Network) -> (r: Option<ParameterType>)
    ensures
        match r {
            Some(missing) => !network.holds(missing) && exists|p: ParameterType, d: int|
                network.holds(p) && 0 <= d < network.dependencies_of(p).len()
                    && #[trigger] network.dependencies_of(p)[d] == missing,
            None => network.closed(),
        },
{
    let mut i: usize = 0;
    while i < network.index_parameters.len()
        invariant
            i <= network.index_parameters.len(),
            forall|q: ParameterType, d: int|
                q matches ParameterType::Index(idx) && idx.0 < i && 0 <= d
                    < network.dependencies_of(q).len() ==> network.holds(
                    #[trigger] network.dependencies_of(q)[d],
                ),
        decreases network.index_parameters.len() - i,
    {
        let p = ParameterType::Index(IndexParameterIndex(i));
        match first_missing(network, p) {
            Some(missing) => {
                return Some(missing);
            },
            None => {},
        }
        i += 1;
    }
    let mut n: usize = 0;
    while n < network.parameters.len()
        invariant
            n <= network.parameters.len(),
            forall|q: ParameterType, d: int|
                q is Index && network.holds(q) && 0 <= d < network.dependencies_of(q).len()
                    ==> network.holds(#[trigger] network.dependencies_of(q)[d]),
            forall|q: ParameterType, d: int|
                q matches ParameterType::Parameter(idx) && idx.0 < n && 0 <= d
                    < network.dependencies_of(q).len() ==> network.holds(
                    #[trigger] network.dependencies_of(q)[d],
                ),
        decreases network.parameters.len() - n,
    {
        let p = ParameterType::Parameter(ParameterIndex(n));
        match first_missing(network, p) {
            Some(missing) => {
                return Some(missing);
            },
            None => {},
        }
        n += 1;
    }
    None
}

/// The first parameter that `p` reads and the network does not hold.
fn first_missing(network: &Network, p: ParameterType) -> (r: Option<ParameterType>)
    requires
        network.holds(p),
    ensures
        match r {
            Some(missing) => !network.holds(missing) && exists|d: int|
                0 <= d < network.dependencies_of(p).len() && #[trigger] network.dependencies_of(
                    p,
                )[d] == missing,
            None => forall|d: int|
                0 <= d < network.dependencies_of(p).len() ==> network.holds(
                    #[trigger] network.dependencies_of(p)[d],
                ),
        },
{
    let dependencies = network.dependencies(p);
    let mut d: usize = 0;
    while d < dependencies.len()
        invariant
            d <= dependencies.len(),
            dependencies@ == network.dependencies_of(p),
            forall|k: int| 0 <= k < d ==> network.holds(#[trigger] dependencies[k]),
        decreases dependencies.len() - d,
    {
        if !network.has(dependencies[d]) {
            assert(network.dependencies_of(p)[d as int] == dependencies[d as int]);
            return Some(dependencies[d]);
        }
        d += 1;
    }
    None
}

/// Whether a parameter could stand at a position depends on what stands before
/// the position alone.
pub proof fn lemma_could_stand_in_prefix(
    network: Network,
    a: Seq<ParameterType>,
    b: Seq<ParameterType>,
    k: int,
    p: ParameterType,
)
    requires
        0 <= k <= a.len(),
        k <= b.len(),
        forall|j: int| 0 <= j < k ==> a[j] == b[j],
    ensures
        could_stand(network, a, k, p) == could_stand(network, b, k, p),
{
    assert forall|q: ParameterType| precedes(a, k, q) == precedes(b, k, q) by {
        if precedes(a, k, q) {
            let j = choose|j: int| 0 <= j < k && j < a.len() && #[trigger] a[j] == q;
            assert(b[j] == q);
        }
        if precedes(b, k, q) {
            let j = choose|j: int| 0 <= j < k && j < b.len() && #[trigger] b[j] == q;
            assert(a[j] == q);
        }
    }
}

/// Where some parameter has no place and none can be given one, no order is one
/// in which the parameters can be computed: along any such order every
/// parameter would have a place.
pub proof fn lemma_stuck(network: Network, placed: Placed, order: Seq<ParameterType>, upto: int)
    requires
        placed.covers(network),
        network.valid_order(order),
        forall|p: ParameterType| !placeable(network, placed, p),
        0 <= upto <= order.len(),
    ensures
        forall|k: int| 0 <= k < upto ==> placed.has(#[trigger] order[k]),
    decreases upto,
{
    if upto > 0 {
        lemma_stuck(network, placed, order, upto - 1);
        let p = order[upto - 1];
        if !placed.has(p) {
            assert(!placeable(network, placed, p));
            let d = choose|d: int|
                0 <= d < network.dependencies_of(p).len() && !placed.has(
                    #[trigger] network.dependencies_of(p)[d],
                );
            assert(precedes(order, upto - 1, network.dependencies_of(order[upto - 1])[d]));
            let j = choose|j: int|
                0 <= j < upto - 1 && j < order.len() && #[trigger] order[j]
                    == network.dependencies_of(order[upto - 1])[d];
            assert(placed.has(order[j]));
        }
    }
}

impl Network {
    /// An order in which the parameters can be computed.
    ///
    /// Where several parameters could come next, an index parameter comes before
    /// a multi-value parameter, that before a parameter that gives an amount,
    /// and among those of one kind the one that was added first.
    ///
    /// It fails exactly where there is no such order: with `NotFoundAt` where a
    /// parameter reads one that the network does not hold, and else with
    /// `CyclicDependency` and the name of a parameter that reads itself,
    /// directly or through others.
    pub fn evaluation_order(&self) -> (r: Result<Vec<ParameterType>, PywrError>)
        ensures
            match r {
                Ok(order) => self.valid_order(order@) && first_come(*self, order@),
                Err(e) => (forall|order: Seq<ParameterType>| !self.valid_order(order)) && (
                exists|p: ParameterType|
                    #![auto]
                    (self.holds(p) && e@ == ErrorView::CyclicDependency(self.name_of(p))) || (
                    !self.holds(p) && e@ == match p {
                        ParameterType::Parameter(idx) => ErrorView::NotFoundAt(
                            EntityKind::Parameter,
                            idx.0,
                        ),
                        ParameterType::Index(idx) => ErrorView::NotFoundAt(
                            EntityKind::IndexParameter,
                            idx.0,
                        ),
                        ParameterType::Multi(idx) => ErrorView::NotFoundAt(
                            EntityKind::MultiValueParameter,
                            idx.0,
                        ),
                    })),
            },
    {
        match first_open(self) {
            Some(missing) => {
                proof {
                    let (p, d) = choose|p: ParameterType, d: int|
                        self.holds(p) && 0 <= d < self.dependencies_of(p).len()
                            && #[trigger] self.dependencies_of(p)[d] == missing;
                    assert forall|order: Seq<ParameterType>| !self.valid_order(order) by {
                        if self.valid_order(order) {
                            assert(order.contains(p));
                            let k = choose|k: int| 0 <= k < order.len() && order[k] == p;
                            assert(precedes(order, k, self.dependencies_of(order[k])[d]));
                            let j = choose|j: int|
                                0 <= j < k && j < order.len() && #[trigger] order[j]
                                    == self.dependencies_of(order[k])[d];
                            assert(self.holds(order[j]));
                        }
                    }
                }
                return Err(
                    match missing {
                        ParameterType::Parameter(idx) => PywrError::NotFoundAt(
                            EntityKind::Parameter,
                            idx.0,
                        ),
                        ParameterType::Index(idx) => PywrError::NotFoundAt(
                            EntityKind::IndexParameter,
                            idx.0,
                        ),
                        ParameterType::Multi(idx) => PywrError::NotFoundAt(
                            EntityKind::MultiValueParameter,
                            idx.0,
                        ),
                    },
                );
            },
            None => {},
        }
        let mut placed = Placed {
            parameters: cleared(self.parameters.len()),
            index_parameters: cleared(self.index_parameters.len()),
            multi_parameters: cleared(self.multi_parameters.len()),
        };
        let mut order: Vec<ParameterType> = Vec::new();
        loop
            invariant
                self.closed(),
                placed.covers(*self),
                order@.no_duplicates(),
                forall|k: int| 0 <= k < order@.len() ==> self.holds(#[trigger] order@[k]),
                forall|p: ParameterType|
                    self.holds(p) ==> (placed.has(p) <==> #[trigger] order@.contains(p)),
                self.respects(order@),
                first_come(*self, order@),
            ensures
                forall|p: ParameterType| !placeable(*self, placed, p),
            decreases placed.missing(),
        {
            let p = match next_placeable(self, &placed) {
                None => {
                    break;
                },
                Some(p) => p,
            };
            let ghost before = placed;
            let ghost listed = order@;
            assert(self.respects(listed));
            match p {
                ParameterType::Parameter(idx) => {
                    proof {
                        lemma_unset_after_set(placed.parameters@, idx.0 as int);
                    }
                    placed.parameters.set(idx.0, true);
                },
                ParameterType::Index(idx) => {
                    proof {
                        lemma_unset_after_set(placed.index_parameters@, idx.0 as int);
                    }
                    placed.index_parameters.set(idx.0, true);
                },
                ParameterType::Multi(idx) => {
                    proof {
                        lemma_unset_after_set(placed.multi_parameters@, idx.0 as int);
                    }
                    placed.multi_parameters.set(idx.0, true);
                },
            }
            order.push(p);
            proof {
                assert(!listed.contains(p));
                assert forall|q: ParameterType| self.holds(q) implies (placed.has(q)
                    <==> #[trigger] order@.contains(q)) by {
                    if q == p {
                        assert(order@[listed.len() as int] == p);
                    } else {
                        assert(placed.has(q) == before.has(q));
                        if listed.contains(q) {
                            let k = choose|k: int| 0 <= k < listed.len() && listed[k] == q;
                            assert(order@[k] == q);
                        }
                        if order@.contains(q) {
                            let k = choose|k: int| 0 <= k < order@.len() && order@[k] == q;
                            assert(listed[k] == q);
                        }
                    }
                }
                let after = order@;
                assert forall|k: int, d: int|
                    0 <= k < after.len() && 0 <= d < self.dependencies_of(
                        after[k],
                    ).len() implies #[trigger] precedes(
                    after,
                    k,
                    self.dependencies_of(after[k])[d],
                ) by {
                    let read = self.dependencies_of(after[k])[d];
                    if k < listed.len() {
                        assert(after[k] == listed[k]);
                        assert(precedes(listed, k, self.dependencies_of(listed[k])[d]));
                        let j = choose|j: int|
                            0 <= j < k && j < listed.len() && #[trigger] listed[j] == read;
                        assert(after[j] == read);
                    } else {
                        assert(read == self.dependencies_of(p)[d]);
                        assert(before.has(read));
                        assert(self.holds(read));
                        assert(listed.contains(read));
                        let j = choose|j: int| 0 <= j < listed.len() && listed[j] == read;
                        assert(after[j] == read);
                    }
                }
                assert forall|k: int, q: ParameterType|
                    0 <= k < after.len() && goes_before(q, after[k])
                        implies !#[trigger] could_stand(
                    *self,
                    after,
                    k,
                    q,
                ) by {
                    if k < listed.len() {
                        assert(after[k] == listed[k]);
                        assert(!could_stand(*self, listed, k, q));
                        lemma_could_stand_in_prefix(*self, listed, after, k, q);
                    } else {
                        assert(!placeable(*self, before, q));
                        if could_stand(*self, after, k, q) {
                            lemma_could_stand_in_prefix(*self, after, listed, k, q);
                            assert(!precedes(listed, k, q));
                            if before.has(q) {
                                assert(listed.contains(q));
                                let at = choose|at: int| 0 <= at < listed.len() && listed[at] == q;
                                assert(precedes(listed, k, q));
                            }
                            assert forall|d: int|
                                0 <= d < self.dependencies_of(q).len() implies before.has(
                                #[trigger] self.dependencies_of(q)[d],
                            ) by {
                                let read = self.dependencies_of(q)[d];
                                assert(precedes(listed, k, read));
                                let at = choose|at: int|
                                    0 <= at < k && at < listed.len() && #[trigger] listed[at]
                                        == read;
                                assert(listed.contains(read));
                                assert(self.holds(read));
                            }
                            assert(placeable(*self, before, q));
                        }
                    }
                }
                assert forall|i: int, j: int|
                    0 <= i < order@.len() && 0 <= j < order@.len() && i != j implies order@[i]
                    != order@[j] by {
                    if i < listed.len() && j < listed.len() {
                        assert(listed[i] != listed[j]);
                    } else if i < listed.len() {
                        assert(listed.contains(listed[i]));
                    } else {
                        assert(listed.contains(listed[j]));
                    }
                }
            }
        }
        match first_unplaced(self, &placed) {
            None => {
                proof {
                    assert forall|p: ParameterType| self.holds(p)
                        implies #[trigger] order@.contains(
                        p,
                    ) by {
                        assert(placed.has(p));
                    }
                }
                Ok(order)
            },
            Some(p) => {
                proof {
                    assert forall|any: Seq<ParameterType>| !self.valid_order(any) by {
                        if self.valid_order(any) {
                            lemma_stuck(*self, placed, any, any.len() as int);
                            assert(any.contains(p));
                            let k = choose|k: int| 0 <= k < any.len() && any[k] == p;
                            assert(placed.has(any[k]));
                        }
                    }
                }
                Err(PywrError::CyclicDependency(self.name(p)))
            },
        }
    }
}

/// Of two different parameters one goes before the other.
pub proof fn lemma_goes_before_is_total(p: ParameterType, q: ParameterType)
    ensures
        p == q || goes_before(p, q) || goes_before(q, p),
{
}

/// The order of a network is determined: two orders in which the parameters can
/// be computed, each holding at every position the parameter that goes before
/// all others that could stand there, are the same order.
pub proof fn lemma_order_is_determined(
    network: Network,
    a: Seq<ParameterType>,
    b: Seq<ParameterType>,
)
    requires
        network.valid_order(a),
        first_come(network, a),
        network.valid_order(b),
        first_come(network, b),
    ensures
        a == b,
{
    a.unique_seq_to_set();
    b.unique_seq_to_set();
    assert(a.to_set() =~= b.to_set()) by {
        assert forall|p: ParameterType| a.to_set().contains(p) == b.to_set().contains(p) by {
            if a.contains(p) {
                let k = choose|k: int| 0 <= k < a.len() && a[k] == p;
                assert(network.holds(a[k]));
                assert(b.contains(p));
            }
            if b.contains(p) {
                let k = choose|k: int| 0 <= k < b.len() && b[k] == p;
                assert(network.holds(b[k]));
                assert(a.contains(p));
            }
        }
    }
    lemma_same_upto(network, a, b, a.len() as int);
    assert(a =~= b);
}

/// A parameter of an order in which the parameters can be computed could stand
/// where it stands.
pub proof fn lemma_stands_where_it_could(network: Network, order: Seq<ParameterType>, k: int)
    requires
        network.valid_order(order),
        0 <= k < order.len(),
    ensures
        could_stand(network, order, k, order[k]),
{
    if precedes(order, k, order[k]) {
        let j = choose|j: int| 0 <= j < k && j < order.len() && #[trigger] order[j] == order[k];
        assert(order[j] != order[k]);
    }
    assert forall|d: int| 0 <= d < network.dependencies_of(order[k]).len() implies precedes(
        order,
        k,
        #[trigger] network.dependencies_of(order[k])[d],
    ) by {
        assert(precedes(order, k, network.dependencies_of(order[k])[d]));
    }
}

/// Two determined orders of one network agree on their first `upto` positions.
pub proof fn lemma_same_upto(
    network: Network,
    a: Seq<ParameterType>,
    b: Seq<ParameterType>,
    upto: int,
)
    requires
        network.valid_order(a),
        first_come(network, a),
        network.valid_order(b),
        first_come(network, b),
        a.len() == b.len(),
        0 <= upto <= a.len(),
    ensures
        forall|k: int| 0 <= k < upto ==> a[k] == b[k],
    decreases upto,
{
    if upto > 0 {
        lemma_same_upto(network, a, b, upto - 1);
        let k = upto - 1;
        lemma_stands_where_it_could(network, a, k);
        lemma_stands_where_it_could(network, b, k);
        lemma_could_stand_in_prefix(network, a, b, k, a[k]);
        lemma_could_stand_in_prefix(network, b, a, k, b[k]);
        lemma_goes_before_is_total(a[k], b[k]);
        if goes_before(a[k], b[k]) {
            assert(!could_stand(network, b, k, a[k]));
        }
        if goes_before(b[k], a[k]) {
            assert(!could_stand(network, a, k, b[k]));
        }
    }
}

} // verus!
