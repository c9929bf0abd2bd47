//! Definitions of what is written about a run.

use vstd::prelude::*;
use crate::error::{ErrorView, PywrError};
use crate::metric::Metric;
use crate::model::{Model, Recorder, RecorderFormat};
use crate::network::Network;
use crate::schema::nodes::Node;
use crate::schema::model::PywrModel;

verus! {

/// A file of comma-separated values.
#[derive(Clone, Debug, PartialEq, Eq)]
pub struct CsvOutput {
    pub name: String,
    pub filename: String,
}

/// A file in the HDF5 format.
#[derive(Clone, Debug, PartialEq, Eq)]
pub struct Hdf5Output {
    pub name: String,
    pub filename: String,
}

/// The definition of a file that is written during a run.
#[derive(Clone, Debug, PartialEq, Eq)]
pub enum Output {
    CSV(CsvOutput),
    HDF5(Hdf5Output),
}

/// Whether a node of a definition has a metric that stands for it in a
/// network.
pub open spec fn metric_found(node: Node, network: Network) -> bool {
    exists|metric: Metric| #[trigger] node->Core_0.stands_for(network, Ok(metric))
}

/// Whether each of the first `upto` nodes of a definition has a metric that
/// stands for it in a network.
pub open spec fn metrics_found(schema: PywrModel, network: Network, upto: int) -> bool {
    forall|k: int|
        0 <= k < upto && k < schema.nodes.len() ==> metric_found(
            #[trigger] schema.nodes[k],
            network,
        )
}

/// What adding an output does to a model. Where every node of the definition
/// has its metric and the name is free, a recorder is added after those that
/// are there, with the name, the file, the format, and the metrics that stand
/// for the nodes, in the order of the nodes. Else the model stays as it is, and
/// the failure is that of the first node without its metric, or, where every
/// node has its metric, `DuplicateName`.
pub open spec fn recorder_added(
    before: Model,
    after: Model,
    r: Result<(), PywrError>,
    schema: PywrModel,
    name: Seq<char>,
    filename: Seq<char>,
    format: RecorderFormat,
) -> bool {
    &&& after.network == before.network
    &&& match r {
        Ok(()) => {
            let made = after.recorders@.last();
            &&& !before.recorder_names().contains(name)
            &&& after.recorders.len() == before.recorders.len() + 1
            &&& after.recorders@.drop_last() == before.recorders@
            &&& made.name@ == name
            &&& made.filename@ == filename
            &&& made.format == format
            &&& made.metrics.len() == schema.nodes.len()
            &&& forall|k: int|
                0 <= k < schema.nodes.len() ==> (#[trigger] schema.nodes[k])->Core_0.stands_for(
                    before.network,
                    Ok(made.metrics[k]),
                )
        },
        Err(e) => {
            &&& after.recorders@ == before.recorders@
            &&& (e@ == ErrorView::DuplicateName && before.recorder_names().contains(name)
                && metrics_found(schema, before.network, schema.nodes.len() as int))
                || exists|k: int|
                0 <= k < schema.nodes.len() && metrics_found(schema, before.network, k) && (
                #[trigger] schema.nodes[k])->Core_0.stands_for(before.network, Err(e))
        },
    }
}

/// Adds a recorder of the metrics that stand for the nodes of a definition.
fn add_recorder_of_nodes(
    model: &mut Model,
    schema: &PywrModel,
    name: &String,
    filename: &String,
    format: RecorderFormat,
) -> (r: Result<(), PywrError>)
    requires
        forall|k: int| 0 <= k < schema.nodes.len() ==> (#[trigger] schema.nodes[k]) is Core,
    ensures
        recorder_added(*old(model), *final(model), r, *schema, name@, filename@, format),
{
    let mut metrics: Vec<Metric> = Vec::new();
    let mut i: usize = 0;
    while i < schema.nodes.len()
        invariant
            i <= schema.nodes.len(),
            *model == *old(model),
            metrics.len() == i,
            metrics_found(*schema, model.network, i as int),
            forall|k: int| 0 <= k < schema.nodes.len() ==> (#[trigger] schema.nodes[k]) is Core,
            forall|k: int|
                0 <= k < i ==> (#[trigger] schema.nodes[k])->Core_0.stands_for(
                    model.network,
                    Ok(metrics[k]),
                ),
        decreases schema.nodes.len() - i,
    {
        match schema.nodes[i].default_metric(&model.network) {
            Err(e) => {
                return Err(e);
            },
            Ok(metric) => {
                metrics.push(metric);
            },
        }
        i += 1;
    }
    let recorder = Recorder { name: name.clone(), format, filename: filename.clone(), metrics };
    match model.add_recorder(recorder) {
        Err(e) => Err(e),
        Ok(_) => {
            assert(model.recorders@.drop_last() =~= old(model).recorders@);
            Ok(())
        },
    }
}

/// What adding an output does to a model: it adds the recorder of its name,
/// file and format.
pub open spec fn output_added(
    output: Output,
    before: Model,
    after: Model,
    r: Result<(), PywrError>,
    schema: PywrModel,
) -> bool {
    match output {
        Output::CSV(o) => recorder_added(
            before,
            after,
            r,
            schema,
            o.name@,
            o.filename@,
            RecorderFormat::Csv,
        ),
        Output::HDF5(o) => recorder_added(
            before,
            after,
            r,
            schema,
            o.name@,
            o.filename@,
            RecorderFormat::Hdf5,
        ),
    }
}

impl Output {
    /// Adds to a model the recorder that writes the file: one of the metrics
    /// that stand for the nodes of the definition.
    pub fn add_to_model(&self, model: &mut Model, schema: &PywrModel) -> (r: Result<(), PywrError>)
        requires
            forall|k: int| 0 <= k < schema.nodes.len() ==> (#[trigger] schema.nodes[k]) is Core,
        ensures
            output_added(*self, *old(model), *final(model), r, *schema),
    {
        match self {
            Output::CSV(o) => add_recorder_of_nodes(
                model,
                schema,
                &o.name,
                &o.filename,
                RecorderFormat::Csv,
            ),
            Output::HDF5(o) => add_recorder_of_nodes(
                model,
                schema,
                &o.name,
                &o.filename,
                RecorderFormat::Hdf5,
            ),
        }
    }
}

} // verus!
