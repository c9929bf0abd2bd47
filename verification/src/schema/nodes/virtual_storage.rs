//! The definition of a virtual storage.

use vstd::prelude::*;
use crate::error::{outcome, EntityKind, ErrorView, PywrError};
use crate::metric::Metric;
use crate::network::{first_label, Network, Part};
use crate::node::{ConstraintValue, NodeIndex, StorageInitialVolume};
use crate::schema::data_tables::LoadedTableCollection;
use crate::schema::nodes::{as_constraint, into_constraint, NodeMeta};
use crate::schema::parameters::DynamicFloatValue;
use crate::value::Value;
use crate::virtual_storage::{VirtualStorageIndex, VirtualStorageReset};

verus! {

/// A virtual storage over named nodes, which never resets.
#[derive(Clone, Debug, PartialEq, Eq)]
pub struct VirtualStorageNode {
    pub meta: NodeMeta,
    pub nodes: Vec<String>,
    pub factors: Option<Vec<Value>>,
    pub max_volume: Option<DynamicFloatValue>,
    pub min_volume: Option<DynamicFloatValue>,
    pub cost: Option<DynamicFloatValue>,
    pub initial_volume: Option<Value>,
    pub initial_volume_pc: Option<Value>,
}

/// The handles of the nodes with these names and no sub-name, in their order,
/// or the failure to find the first that is not in the network.
pub open spec fn resolved(network: Network, names: Seq<String>) -> Result<
    Seq<NodeIndex>,
    ErrorView,
>
    decreases names.len(),
{
    if names.len() == 0 {
        Ok(Seq::empty())
    } else {
        match resolved(network, names.drop_last()) {
            Err(e) => Err(e),
            Ok(head) => match first_label(network.node_labels(), (names.last()@, None)) {
                Some(i) => Ok(head.push(NodeIndex(i as usize))),
                None => Err(ErrorView::NotFound(EntityKind::Node, names.last()@)),
            },
        }
    }
}

/// A failure among the first `n` names is the failure of all.
pub proof fn lemma_resolve_fails_in_prefix(network: Network, names: Seq<String>, n: int)
    requires
        0 <= n <= names.len(),
        resolved(network, names.take(n)).is_err(),
    ensures
        resolved(network, names) == resolved(network, names.take(n)),
    decreases names.len() - n,
{
    if n < names.len() {
        assert(names.take(n + 1).drop_last() =~= names.take(n));
        lemma_resolve_fails_in_prefix(network, names, n + 1);
    } else {
        assert(names.take(n) =~= names);
    }
}

/// The handles of the nodes with these names and no sub-name, in their order.
pub fn resolve(network: &Network, names: &Vec<String>) -> (r: Result<Vec<NodeIndex>, PywrError>)
    ensures
        match r {
            Ok(v) => resolved(*network, names@) == Ok::<Seq<NodeIndex>, ErrorView>(v@),
            Err(e) => resolved(*network, names@) == Err::<Seq<NodeIndex>, ErrorView>(e@),
        },
{
    let mut out: Vec<NodeIndex> = Vec::new();
    let mut i: usize = 0;
    while i < names.len()
        invariant
            i <= names.len(),
            resolved(*network, names@.take(i as int)) == Ok::<Seq<NodeIndex>, ErrorView>(out@),
        decreases names.len() - i,
    {
        proof {
            assert(names@.take(i + 1).drop_last() =~= names@.take(i as int));
        }
        match network.get_node_index_by_name(names[i].as_str(), None) {
            Err(e) => {
                proof {
                    lemma_resolve_fails_in_prefix(*network, names@, i + 1);
                }
                return Err(e);
            },
            Ok(idx) => {
                out.push(idx);
            },
        }
        i += 1;
    }
    assert(names@.take(i as int) =~= names@);
    Ok(out)
}

/// The bound or cost that an optional amount of a definition gives, or
/// `default` where there is none.
pub open spec fn constraint_or(
    value: Option<DynamicFloatValue>,
    default: ConstraintValue,
    network: Network,
    tables: LoadedTableCollection,
) -> Result<ConstraintValue, ErrorView> {
    match value {
        None => Ok(default),
        Some(v) => match v.loaded(network, tables) {
            Ok(m) => Ok(as_constraint(m)),
            Err(e) => Err(e),
        },
    }
}

/// The bound or cost that an optional amount of a definition gives, or
/// `default` where there is none.
pub fn load_constraint_or(
    value: &Option<DynamicFloatValue>,
    default: ConstraintValue,
    network: &Network,
    tables: &LoadedTableCollection,
) -> (r: Result<ConstraintValue, PywrError>)
    ensures
        outcome(r) == constraint_or(*value, default, *network, *tables),
{
    match value {
        None => Ok(default),
        Some(v) => match v.load(network, tables) {
            Ok(m) => Ok(into_constraint(m)),
            Err(e) => Err(e),
        },
    }
}

/// What a virtual storage is built from.
pub struct VirtualStorageParts {
    pub initial_volume: StorageInitialVolume,
    pub cost: ConstraintValue,
    pub min_volume: ConstraintValue,
    pub max_volume: ConstraintValue,
    pub nodes: Seq<NodeIndex>,
}

impl VirtualStorageNode {
    /// The initial volume: the absolute one where it is given, else the
    /// proportional one.
    pub open spec fn initial(&self) -> Option<StorageInitialVolume> {
        match self.initial_volume {
            Some(iv) => Some(StorageInitialVolume::Absolute(iv)),
            None => match self.initial_volume_pc {
                Some(pc) => Some(StorageInitialVolume::Proportional(pc)),
                None => None,
            },
        }
    }

    /// What the virtual storage is built from, or the first failure to get a
    /// part: without an initial volume `MissingInitialVolume`, then the
    /// failures to load the cost, the least and the greatest volume, then the
    /// failure to find a node. Without a cost the cost is zero, without a least
    /// volume that is zero, and without a greatest volume there is none.
    pub open spec fn parts(&self, network: Network, tables: LoadedTableCollection) -> Result<
        VirtualStorageParts,
        ErrorView,
    > {
        match self.initial() {
            None => Err(ErrorView::MissingInitialVolume(self.meta.name@)),
            Some(initial_volume) => match constraint_or(
                self.cost,
                ConstraintValue::Scalar(0),
                network,
                tables,
            ) {
                Err(e) => Err(e),
                Ok(cost) => match constraint_or(
                    self.min_volume,
                    ConstraintValue::Scalar(0),
                    network,
                    tables,
                ) {
                    Err(e) => Err(e),
                    Ok(min_volume) => match constraint_or(
                        self.max_volume,
                        ConstraintValue::Unbounded,
                        network,
                        tables,
                    ) {
                        Err(e) => Err(e),
                        Ok(max_volume) => match resolved(network, self.nodes@) {
                            Err(e) => Err(e),
                            Ok(nodes) => Ok(
                                VirtualStorageParts {
                                    initial_volume,
                                    cost,
                                    min_volume,
                                    max_volume,
                                    nodes,
                                },
                            ),
                        },
                    },
                },
            },
        }
    }

    /// Whether the network holds a virtual storage with the name of this one
    /// and no sub-name.
    pub open spec fn name_taken(&self, network: Network) -> bool {
        exists|j: int|
            0 <= j < network.virtual_storage_nodes.len() && (
            #[trigger] network.virtual_storage_nodes[j]).label()
                == (self.meta.name@, None::<Seq<char>>)
    }

    /// What adding the virtual storage gives: the first failure to get a part;
    /// else `DuplicateName` where the name is taken; else
    /// `FactorCountMismatch` where the factors are not as many as the nodes.
    pub open spec fn add_outcome(&self, network: Network, tables: LoadedTableCollection) -> Result<
        (),
        ErrorView,
    > {
        match self.parts(network, tables) {
            Err(e) => Err(e),
            Ok(parts) => if self.name_taken(network) {
                Err(ErrorView::DuplicateName)
            } else if self.factors.is_some() && self.factors.unwrap().len() != self.nodes.len() {
                Err(ErrorView::FactorCountMismatch)
            } else {
                Ok(())
            },
        }
    }

    /// What adding the virtual storage does to a network and when it fails.
    pub open spec fn added(
        &self,
        before: Network,
        after: Network,
        tables: LoadedTableCollection,
        r: Result<(), PywrError>,
    ) -> bool {
        &&& after.same_but(&before, Part::VirtualStorageNodes)
        &&& outcome(r) == self.add_outcome(before, tables)
        &&& r.is_err() ==> after.virtual_storage_nodes@ == before.virtual_storage_nodes@
        &&& r.is_ok() ==> {
                let made = after.virtual_storage_nodes@.last();
                let parts = self.parts(before, tables)->Ok_0;
                &&& after.virtual_storage_nodes@.len() == before.virtual_storage_nodes@.len() + 1
                &&& after.virtual_storage_nodes@.drop_last() == before.virtual_storage_nodes@
                &&& made.label() == (self.meta.name@, None::<Seq<char>>)
                &&& made.nodes@ == parts.nodes
                &&& made.factors.is_some() == self.factors.is_some()
                &&& self.factors.is_some() ==> made.factors.unwrap()@ == self.factors.unwrap()@
                &&& made.initial_volume == parts.initial_volume
                &&& made.min_volume == parts.min_volume
                &&& made.max_volume == parts.max_volume
                &&& made.cost == parts.cost
                &&& made.reset == VirtualStorageReset::Never
            }
    }

    /// Adds the virtual storage to a network: after those that are there, under
    /// its name, over its nodes with their factors, with its parts, and never
    /// reset. A failure leaves the network as it is.
    pub fn add_to_model(&self, network: &mut Network, tables: &LoadedTableCollection) -> (r: Result<
        (),
        PywrError,
    >)
        ensures
            self.added(*old(network), *final(network), *tables, r),
            old(network).wf() ==> final(network).wf(),
    {
        let initial_volume = if let Some(iv) = self.initial_volume {
            StorageInitialVolume::Absolute(iv)
        } else if let Some(pc) = self.initial_volume_pc {
            StorageInitialVolume::Proportional(pc)
        } else {
            return Err(PywrError::MissingInitialVolume(self.meta.name.clone()));
        };
        let cost = match load_constraint_or(
            &self.cost,
            ConstraintValue::Scalar(0),
            network,
            tables,
        ) {
            Err(e) => {
                return Err(e);
            },
            Ok(v) => v,
        };
        let min_volume = match load_constraint_or(
            &self.min_volume,
            ConstraintValue::Scalar(0),
            network,
            tables,
        ) {
            Err(e) => {
                return Err(e);
            },
            Ok(v) => v,
        };
        let max_volume = match load_constraint_or(
            &self.max_volume,
            ConstraintValue::Unbounded,
            network,
            tables,
        ) {
            Err(e) => {
                return Err(e);
            },
            Ok(v) => v,
        };
        let node_idxs = match resolve(network, &self.nodes) {
            Err(e) => {
                return Err(e);
            },
            Ok(v) => v,
        };
        // A virtual storage that is defined in this way never resets.
        let reset = VirtualStorageReset::Never;
        proof {
            lemma_resolved_known(*network, self.nodes@);
            network.lemma_first_unknown(node_idxs@);
        }
        let factors: Option<&[Value]> = match &self.factors {
            Some(f) => Some(f.as_slice()),
            None => None,
        };
        match network.add_virtual_storage_node(
            self.meta.name.as_str(),
            None,
            node_idxs.as_slice(),
            factors,
            initial_volume,
            min_volume,
            max_volume,
            reset,
            cost,
        ) {
            Err(e) => Err(e),
            Ok(_) => Ok(()),
        }
    }

    /// A virtual storage takes no water from upstream.
    pub fn input_connectors(&self) -> (r: Vec<(&str, Option<String>)>)
        ensures
            r.len() == 0,
    {
        Vec::new()
    }

    /// A virtual storage hands no water downstream.
    pub fn output_connectors(&self) -> (r: Vec<(&str, Option<String>)>)
        ensures
            r.len() == 0,
    {
        Vec::new()
    }

    /// The metric that stands for the virtual storage: its volume.
    pub fn default_metric(&self, network: &Network) -> (r: Result<Metric, PywrError>)
        ensures
            match r {
                Ok(metric) => exists|i: int|
                    0 <= i < network.virtual_storage_nodes.len() && metric
                        == Metric::VirtualStorageVolume(VirtualStorageIndex(i as usize)) && (
                    #[trigger] network.virtual_storage_nodes[i]).label() == (
                        self.meta.name@,
                        None::<Seq<char>>,
                    ) && forall|j: int|
                        0 <= j < i ==> (#[trigger] network.virtual_storage_nodes[j]).label() != (
                            self.meta.name@,
                            None::<Seq<char>>,
                        ),
                Err(e) => e@ == ErrorView::NotFound(EntityKind::VirtualStorage, self.meta.name@)
                    && !self.name_taken(*network),
            },
    {
        match network.get_virtual_storage_node_index_by_name(self.meta.name.as_str(), None) {
            Ok(idx) => Ok(Metric::VirtualStorageVolume(idx)),
            Err(e) => Err(e),
        }
    }
}

/// The handles that names resolve to are handles of nodes of the network.
pub proof fn lemma_resolved_known(network: Network, names: Seq<String>)
    ensures
        match resolved(network, names) {
            Ok(nodes) => network.members_known(nodes) && nodes.len() == names.len(),
            Err(_) => true,
        },
    decreases names.len(),
{
    if names.len() > 0 {
        lemma_resolved_known(network, names.drop_last());
        match resolved(network, names.drop_last()) {
            Err(_) => {},
            Ok(head) => {
                crate::network::lemma_first_label(
                    network.node_labels(),
                    (names.last()@, None::<Seq<char>>),
                );
                match resolved(network, names) {
                    Ok(nodes) => {
                        assert forall|k: int| 0 <= k < nodes.len() implies (#[trigger] nodes[k]).0
                            < network.nodes.len() by {
                            if k < head.len() {
                                assert(nodes[k] == head[k]);
                            }
                        }
                    },
                    Err(_) => {},
                }
            },
        }
    }
}

} // verus!
