//! Definitions of the parameters that depend on the proportional volume of a
//! storage and on control curves.

use vstd::prelude::*;
use crate::error::{outcome, ErrorView, PywrError};
use crate::metric::Metric;
use crate::network::{Network, Part};
use crate::parameters::control_curves::{
    ControlCurveIndexParameter as CoreControlCurveIndexParameter,
    ControlCurveParameter as CoreControlCurveParameter, InterpolatedParameter,
    PiecewiseInterpolatedParameter,
};
use crate::parameters::{IndexParameterIndex, IndexParameterKind, ParameterIndex, ParameterKind};
use crate::schema::data_tables::LoadedTableCollection;
use crate::schema::parameters::{
    load_all, loaded_all, DynamicFloatValue, DynamicFloatValueType, ParameterMeta,
};
use crate::value::{Value, UNIT};

verus! {

/// The one reference to a node that a definition with a storage holds: the
/// storage, under the name of the attribute.
pub fn storage_reference(storage_node: &String) -> (r: Vec<(&'static str, &str)>)
    ensures
        r.len() == 1,
        r[0].0@ == "storage_node"@,
        r[0].1@ == storage_node@,
{
    let mut out: Vec<(&'static str, &str)> = Vec::new();
    out.push(("storage_node", storage_node.as_str()));
    out
}

/// The control curves of a definition, under the name of the attribute.
pub fn curves_attribute(control_curves: &Vec<DynamicFloatValue>) -> (r: Vec<
    (&'static str, DynamicFloatValueType<'_>),
>)
    ensures
        r.len() == 1,
        r[0].0@ == "control_curves"@,
        r[0].1 == DynamicFloatValueType::List(control_curves),
{
    let mut attributes: Vec<(&'static str, DynamicFloatValueType<'_>)> = Vec::new();
    attributes.push(("control_curves", DynamicFloatValueType::List(control_curves)));
    attributes
}

/// What a parameter over control curves is built from: the metric of the
/// proportional volume of the storage, the metrics of the control curves and
/// the metrics of the values; or the first failure to get one of them, in this
/// order.
pub open spec fn curve_parts(
    network: Network,
    tables: LoadedTableCollection,
    storage_node: Seq<char>,
    control_curves: Seq<DynamicFloatValue>,
    values: Seq<DynamicFloatValue>,
) -> Result<(Metric, Seq<Metric>, Seq<Metric>), ErrorView> {
    match network.storage_metric((storage_node, None), true) {
        Err(e) => Err(e),
        Ok(metric) => match loaded_all(control_curves, network, tables) {
            Err(e) => Err(e),
            Ok(curves) => match loaded_all(values, network, tables) {
                Err(e) => Err(e),
                Ok(loaded) => Ok((metric, curves, loaded)),
            },
        },
    }
}

/// What a parameter over control curves is built from.
fn load_parts(
    network: &Network,
    tables: &LoadedTableCollection,
    storage_node: &String,
    control_curves: &Vec<DynamicFloatValue>,
    values: &Vec<DynamicFloatValue>,
) -> (r: Result<(Metric, Vec<Metric>, Vec<Metric>), PywrError>)
    ensures
        match r {
            Ok((metric, curves, loaded)) => curve_parts(
                *network,
                *tables,
                storage_node@,
                control_curves@,
                values@,
            ) == Ok::<(Metric, Seq<Metric>, Seq<Metric>), ErrorView>((metric, curves@, loaded@)),
            Err(e) => curve_parts(*network, *tables, storage_node@, control_curves@, values@)
                == Err::<(Metric, Seq<Metric>, Seq<Metric>), ErrorView>(e@),
        },
{
    let metric = match network.get_storage_node_metric(storage_node.as_str(), None, true) {
        Err(e) => {
            return Err(e);
        },
        Ok(m) => m,
    };
    let curves = match load_all(control_curves, network, tables) {
        Err(e) => {
            return Err(e);
        },
        Ok(v) => v,
    };
    let loaded = match load_all(values, network, tables) {
        Err(e) => {
            return Err(e);
        },
        Ok(v) => v,
    };
    Ok((metric, curves, loaded))
}

/// What adding a parameter that gives an amount does to a network: it fails
/// with `failure` where there is one, else with `DuplicateName` where the name
/// is taken, and then the network stays as it is; else the parameter is added
/// after those that are there and its handle is its position.
pub open spec fn parameter_added(
    before: Network,
    after: Network,
    r: Result<ParameterIndex, PywrError>,
    failure: Option<ErrorView>,
    name: Seq<char>,
) -> bool {
    &&& after.same_but(&before, Part::Parameters)
    &&& match failure {
        Some(e) => outcome(r) == Err::<ParameterIndex, ErrorView>(e) && after.parameters@
            == before.parameters@,
        None => if before.parameter_names().contains(name) {
            outcome(r) == Err::<ParameterIndex, ErrorView>(ErrorView::DuplicateName)
                && after.parameters@ == before.parameters@
        } else {
            &&& r == Ok::<ParameterIndex, PywrError>(ParameterIndex(before.parameters.len()))
            &&& after.parameters.len() == before.parameters.len() + 1
            &&& after.parameters@.drop_last() == before.parameters@
            &&& after.parameters@.last().meta_of().name@ == name
        },
    }
}

/// The failure of a result, if it is one.
pub open spec fn failure_of<T>(r: Result<T, ErrorView>) -> Option<ErrorView> {
    match r {
        Ok(_) => None,
        Err(e) => Some(e),
    }
}

/// The definition of a parameter that interpolates between values along the
/// proportional volume of a storage.
#[derive(Clone, Debug, PartialEq, Eq)]
pub struct ControlCurveInterpolatedParameter {
    pub meta: ParameterMeta,
    pub control_curves: Vec<DynamicFloatValue>,
    pub storage_node: String,
    pub values: Vec<DynamicFloatValue>,
}

impl ControlCurveInterpolatedParameter {
    pub fn node_references(&self) -> (r: Vec<(&'static str, &str)>)
        ensures
            r.len() == 1,
            r[0].0@ == "storage_node"@,
            r[0].1@ == self.storage_node@,
    {
        storage_reference(&self.storage_node)
    }

    pub fn parameters(&self) -> (r: Vec<(&'static str, DynamicFloatValueType<'_>)>)
        ensures
            r.len() == 1,
            r[0].0@ == "control_curves"@,
            r[0].1 == DynamicFloatValueType::List(&self.control_curves),
    {
        curves_attribute(&self.control_curves)
    }

    /// Adds the parameter to a network. It reads the proportional volume of the
    /// storage; its region ends are the control curves between one and zero.
    pub fn add_to_model(&self, network: &mut Network, tables: &LoadedTableCollection) -> (r: Result<
        ParameterIndex,
        PywrError,
    >)
        ensures
            parameter_added(
                *old(network),
                *final(network),
                r,
                failure_of(
                    curve_parts(
                        *old(network),
                        *tables,
                        self.storage_node@,
                        self.control_curves@,
                        self.values@,
                    ),
                ),
                self.meta.name@,
            ),
            r.is_ok() ==> (final(network).parameters@.last() matches ParameterKind::Interpolated(p)
                && Ok::<(Metric, Seq<Metric>, Seq<Metric>), ErrorView>(
                (p.metric, p.control_curves@, p.values@),
            ) == curve_parts(
                *old(network),
                *tables,
                self.storage_node@,
                self.control_curves@,
                self.values@,
            ) && p.maximum == UNIT && p.minimum == 0),
            old(network).wf() ==> final(network).wf(),
    {
        let (metric, control_curves, values) = match load_parts(
            network,
            tables,
            &self.storage_node,
            &self.control_curves,
            &self.values,
        ) {
            Err(e) => {
                return Err(e);
            },
            Ok(parts) => parts,
        };
        let p = InterpolatedParameter::new(
            self.meta.name.as_str(),
            metric,
            control_curves,
            values,
        );
        let r = network.add_parameter(ParameterKind::Interpolated(p));
        proof {
            if r.is_ok() {
                assert(network.parameters@.drop_last() =~= old(network).parameters@);
            }
        }
        r
    }
}

/// The definition of a parameter that gives the region of the proportional
/// volume of a storage among control curves.
#[derive(Clone, Debug, PartialEq, Eq)]
pub struct ControlCurveIndexParameter {
    pub meta: ParameterMeta,
    pub control_curves: Vec<DynamicFloatValue>,
    pub values: Option<Vec<DynamicFloatValue>>,
    pub storage_node: String,
}

impl ControlCurveIndexParameter {
    pub fn node_references(&self) -> (r: Vec<(&'static str, &str)>)
        ensures
            r.len() == 1,
            r[0].0@ == "storage_node"@,
            r[0].1@ == self.storage_node@,
    {
        storage_reference(&self.storage_node)
    }

    pub fn parameters(&self) -> (r: Vec<(&'static str, DynamicFloatValueType<'_>)>)
        ensures
            r.len() == 1,
            r[0].0@ == "control_curves"@,
            r[0].1 == DynamicFloatValueType::List(&self.control_curves),
    {
        curves_attribute(&self.control_curves)
    }

    /// Adds the index parameter to a network. It fails with the first failure
    /// to get the metric of the storage or of a control curve, else with
    /// `DuplicateName` where the name is taken, and then the network stays as
    /// it is; else the parameter is added after the index parameters that are
    /// there and its handle is its position.
    pub fn add_to_model(&self, network: &mut Network, tables: &LoadedTableCollection) -> (r: Result<
        IndexParameterIndex,
        PywrError,
    >)
        ensures
            final(network).same_but(old(network), Part::IndexParameters),
            match curve_parts(
                *old(network),
                *tables,
                self.storage_node@,
                self.control_curves@,
                Seq::empty(),
            ) {
                Err(e) => outcome(r) == Err::<IndexParameterIndex, ErrorView>(e)
                    && final(network).index_parameters@ == old(network).index_parameters@,
                Ok((metric, curves, _)) => if old(network).index_parameter_names().contains(
                    self.meta.name@,
                ) {
                    outcome(r) == Err::<IndexParameterIndex, ErrorView>(ErrorView::DuplicateName)
                        && final(network).index_parameters@ == old(network).index_parameters@
                } else {
                    &&& r == Ok::<IndexParameterIndex, PywrError>(
                        IndexParameterIndex(old(network).index_parameters.len()),
                    )
                    &&& final(network).index_parameters.len()
                        == old(network).index_parameters.len() + 1
                    &&& final(network).index_parameters@.drop_last()
                        == old(network).index_parameters@
                    &&& final(network).index_parameters@.last() matches IndexParameterKind::ControlCurveIndex(
                        p,
                    ) && p.meta.name@ == self.meta.name@ && p.metric == metric
                        && p.control_curves@ == curves
                },
            },
            old(network).wf() ==> final(network).wf(),
    {
        let none: Vec<DynamicFloatValue> = Vec::new();
        let (metric, control_curves, _) = match load_parts(
            network,
            tables,
            &self.storage_node,
            &self.control_curves,
            &none,
        ) {
            Err(e) => {
                return Err(e);
            },
            Ok(parts) => parts,
        };
        let p = CoreControlCurveIndexParameter::new(
            self.meta.name.as_str(),
            metric,
            control_curves,
        );
        network.add_index_parameter(IndexParameterKind::ControlCurveIndex(p))
    }
}

/// The definition of a parameter that gives one value for each region of the
/// proportional volume of a storage among control curves.
#[derive(Clone, Debug, PartialEq, Eq)]
pub struct ControlCurveParameter {
    pub meta: ParameterMeta,
    pub control_curves: Vec<DynamicFloatValue>,
    pub storage_node: String,
    pub values: Vec<DynamicFloatValue>,
}

impl ControlCurveParameter {
    pub fn node_references(&self) -> (r: Vec<(&'static str, &str)>)
        ensures
            r.len() == 1,
            r[0].0@ == "storage_node"@,
            r[0].1@ == self.storage_node@,
    {
        storage_reference(&self.storage_node)
    }

    pub fn parameters(&self) -> (r: Vec<(&'static str, DynamicFloatValueType<'_>)>)
        ensures
            r.len() == 2,
            r[0].0@ == "control_curves"@,
            r[0].1 == DynamicFloatValueType::List(&self.control_curves),
            r[1].0@ == "values"@,
            r[1].1 == DynamicFloatValueType::List(&self.values),
    {
        let mut attributes: Vec<(&'static str, DynamicFloatValueType<'_>)> = Vec::new();
        attributes.push(("control_curves", DynamicFloatValueType::List(&self.control_curves)));
        attributes.push(("values", DynamicFloatValueType::List(&self.values)));
        attributes
    }

    /// Adds the parameter to a network.
    pub fn add_to_model(&self, network: &mut Network, tables: &LoadedTableCollection) -> (r: Result<
        ParameterIndex,
        PywrError,
    >)
        ensures
            parameter_added(
                *old(network),
                *final(network),
                r,
                failure_of(
                    curve_parts(
                        *old(network),
                        *tables,
                        self.storage_node@,
                        self.control_curves@,
                        self.values@,
                    ),
                ),
                self.meta.name@,
            ),
            r.is_ok() ==> (final(network).parameters@.last() matches ParameterKind::ControlCurve(p)
                && Ok::<(Metric, Seq<Metric>, Seq<Metric>), ErrorView>(
                (p.metric, p.control_curves@, p.values@),
            ) == curve_parts(
                *old(network),
                *tables,
                self.storage_node@,
                self.control_curves@,
                self.values@,
            )),
            old(network).wf() ==> final(network).wf(),
    {
        let (metric, control_curves, values) = match load_parts(
            network,
            tables,
            &self.storage_node,
            &self.control_curves,
            &self.values,
        ) {
            Err(e) => {
                return Err(e);
            },
            Ok(parts) => parts,
        };
        let p = CoreControlCurveParameter::new(
            self.meta.name.as_str(),
            metric,
            control_curves,
            values,
        );
        let r = network.add_parameter(ParameterKind::ControlCurve(p));
        proof {
            if r.is_ok() {
                assert(network.parameters@.drop_last() =~= old(network).parameters@);
            }
        }
        r
    }
}

/// The definition of a parameter that interpolates, in each region of the
/// proportional volume of a storage among control curves, between the two
/// amounts of the region.
#[derive(Clone, Debug, PartialEq, Eq)]
pub struct ControlCurvePiecewiseInterpolatedParameter {
    pub meta: ParameterMeta,
    pub control_curves: Vec<DynamicFloatValue>,
    pub storage_node: String,
    pub values: Option<Vec<[Value; 2]>>,
    pub minimum: Option<Value>,
    pub maximum: Option<Value>,
}

/// A copy of a list of pairs of amounts.
pub fn copy_pairs(pairs: &Vec<[Value; 2]>) -> (r: Vec<[Value; 2]>)
    ensures
        r@ == pairs@,
{
    let mut out: Vec<[Value; 2]> = Vec::new();
    let mut i: usize = 0;
    while i < pairs.len()
        invariant
            i <= pairs.len(),
            out@ == pairs@.take(i as int),
        decreases pairs.len() - i,
    {
        out.push(pairs[i]);
        i += 1;
        assert(out@ =~= pairs@.take(i as int));
    }
    assert(pairs@.take(i as int) =~= pairs@);
    out
}

impl ControlCurvePiecewiseInterpolatedParameter {
    pub fn node_references(&self) -> (r: Vec<(&'static str, &str)>)
        ensures
            r.len() == 1,
            r[0].0@ == "storage_node"@,
            r[0].1@ == self.storage_node@,
    {
        storage_reference(&self.storage_node)
    }

    pub fn parameters(&self) -> (r: Vec<(&'static str, DynamicFloatValueType<'_>)>)
        ensures
            r.len() == 1,
            r[0].0@ == "control_curves"@,
            r[0].1 == DynamicFloatValueType::List(&self.control_curves),
    {
        curves_attribute(&self.control_curves)
    }

    /// Adds the parameter to a network. Without pairs of amounts it has none;
    /// without a maximum that is one, and without a minimum that is zero.
    pub fn add_to_model(&self, network: &mut Network, tables: &LoadedTableCollection) -> (r: Result<
        ParameterIndex,
        PywrError,
    >)
        ensures
            parameter_added(
                *old(network),
                *final(network),
                r,
                failure_of(
                    curve_parts(
                        *old(network),
                        *tables,
                        self.storage_node@,
                        self.control_curves@,
                        Seq::empty(),
                    ),
                ),
                self.meta.name@,
            ),
            r.is_ok() ==> (final(network).parameters@.last() matches ParameterKind::PiecewiseInterpolated(
                p,
            ) && Ok::<(Metric, Seq<Metric>, Seq<Metric>), ErrorView>(
                (p.metric, p.control_curves@, Seq::empty()),
            ) == curve_parts(
                *old(network),
                *tables,
                self.storage_node@,
                self.control_curves@,
                Seq::empty(),
            ) && p.values@ == (match self.values {
                Some(v) => v@,
                None => Seq::empty(),
            }) && p.maximum == (match self.maximum {
                Some(v) => v,
                None => UNIT,
            }) && p.minimum == (match self.minimum {
                Some(v) => v,
                None => 0,
            })),
            old(network).wf() ==> final(network).wf(),
    {
        let none: Vec<DynamicFloatValue> = Vec::new();
        let (metric, control_curves, _) = match load_parts(
            network,
            tables,
            &self.storage_node,
            &self.control_curves,
            &none,
        ) {
            Err(e) => {
                return Err(e);
            },
            Ok(parts) => parts,
        };
        let values = match &self.values {
            None => Vec::new(),
            Some(values) => copy_pairs(values),
        };
        let maximum = match self.maximum {
            Some(v) => v,
            None => UNIT,
        };
        let minimum = match self.minimum {
            Some(v) => v,
            None => 0,
        };
        let p = PiecewiseInterpolatedParameter::new(
            self.meta.name.as_str(),
            metric,
            control_curves,
            values,
            maximum,
            minimum,
        );
        let r = network.add_parameter(ParameterKind::PiecewiseInterpolated(p));
        proof {
            if r.is_ok() {
                assert(network.parameters@.drop_last() =~= old(network).parameters@);
            }
        }
        r
    }
}

/// What a definition in version 1 of the schema without control curves is told: the type and the
/// name of the parameter, and that it has no control curves.
pub open spec fn no_curves_message(kind: Seq<char>, name: Seq<char>) -> Seq<char> {
    kind + " '"@ + name + "' has no control curves defined."@
}

/// What a definition in version 1 of the schema without values is told.
pub const NO_VALUES: &'static str = "No `values` or `parameters` curves defined.";

/// The control curves of a definition in version 1 of the schema: its list of control curves
/// where it has one, else its single control curve; without either it cannot
/// be taken over.
pub open spec fn chosen_curves(
    kind: Seq<char>,
    name: Seq<char>,
    control_curves: Option<Vec<DynamicFloatValue>>,
    control_curve: Option<DynamicFloatValue>,
) -> Result<Seq<DynamicFloatValue>, ErrorView> {
    match control_curves {
        Some(list) => Ok(list@),
        None => match control_curve {
            Some(single) => Ok(seq![single]),
            None => Err(ErrorView::V1SchemaConversion(no_curves_message(kind, name))),
        },
    }
}

/// The control curves of a definition in version 1 of the schema.
pub fn choose_curves(
    kind: &str,
    name: &str,
    control_curves: Option<Vec<DynamicFloatValue>>,
    control_curve: Option<DynamicFloatValue>,
) -> (r: Result<Vec<DynamicFloatValue>, PywrError>)
    ensures
        match r {
            Ok(curves) => chosen_curves(kind@, name@, control_curves, control_curve) == Ok::<
                Seq<DynamicFloatValue>,
                ErrorView,
            >(curves@),
            Err(e) => chosen_curves(kind@, name@, control_curves, control_curve) == Err::<
                Seq<DynamicFloatValue>,
                ErrorView,
            >(e@),
        },
{
    match control_curves {
        Some(list) => Ok(list),
        None => match control_curve {
            Some(single) => {
                let mut curves: Vec<DynamicFloatValue> = Vec::new();
                curves.push(single);
                assert(curves@ =~= seq![single]);
                Ok(curves)
            },
            None => {
                let mut message = kind.to_string();
                message.append(" '");
                message.append(name);
                message.append("' has no control curves defined.");
                Err(PywrError::V1SchemaConversion(message))
            },
        },
    }
}

/// Amounts that are written out, as amounts of a definition.
pub open spec fn written_out(values: Seq<Value>) -> Seq<DynamicFloatValue> {
    Seq::new(values.len(), |i: int| DynamicFloatValue::Constant(values[i]))
}

/// Amounts that are written out, as amounts of a definition.
pub fn write_out(values: &Vec<Value>) -> (r: Vec<DynamicFloatValue>)
    ensures
        r@ == written_out(values@),
{
    let mut out: Vec<DynamicFloatValue> = Vec::new();
    let mut i: usize = 0;
    while i < values.len()
        invariant
            i <= values.len(),
            out@ == written_out(values@.take(i as int)),
        decreases values.len() - i,
    {
        out.push(DynamicFloatValue::from_value(values[i]));
        i += 1;
        assert(out@ =~= written_out(values@.take(i as int)));
    }
    assert(values@.take(i as int) =~= values@);
    out
}

impl ControlCurveInterpolatedParameter {
    /// The definition that a definition in version 1 of the schema becomes: with its list of
    /// control curves, or else its single control curve, and with its values
    /// written out. Without control curves it cannot be taken over.
    pub fn try_from_v1_parameter(
        meta: ParameterMeta,
        control_curves: Option<Vec<DynamicFloatValue>>,
        control_curve: Option<DynamicFloatValue>,
        storage_node: String,
        values: Vec<Value>,
    ) -> (r: Result<Self, PywrError>)
        ensures
            match r {
                Ok(p) => chosen_curves(
                    "ControlCurveInterpolatedParameter"@,
                    meta.name@,
                    control_curves,
                    control_curve,
                ) == Ok::<Seq<DynamicFloatValue>, ErrorView>(p.control_curves@) && p.meta == meta
                    && p.storage_node == storage_node && p.values@ == written_out(values@),
                Err(e) => chosen_curves(
                    "ControlCurveInterpolatedParameter"@,
                    meta.name@,
                    control_curves,
                    control_curve,
                ) == Err::<Seq<DynamicFloatValue>, ErrorView>(e@),
            },
    {
        let control_curves = match choose_curves(
            "ControlCurveInterpolatedParameter",
            meta.name.as_str(),
            control_curves,
            control_curve,
        ) {
            Err(e) => {
                return Err(e);
            },
            Ok(curves) => curves,
        };
        let values = write_out(&values);
        Ok(Self { meta, control_curves, storage_node, values })
    }
}

impl ControlCurveIndexParameter {
    /// The definition that a definition in version 1 of the schema becomes: with its control
    /// curves, and with its parameters, where it has any, as its values.
    pub fn try_from_v1_parameter(
        meta: ParameterMeta,
        control_curves: Vec<DynamicFloatValue>,
        storage_node: String,
        parameters: Option<Vec<DynamicFloatValue>>,
    ) -> (r: Result<Self, PywrError>)
        ensures
            r == Ok::<Self, PywrError>(
                ControlCurveIndexParameter { meta, control_curves, values: parameters, storage_node },
            ),
    {
        Ok(Self { meta, control_curves, storage_node, values: parameters })
    }
}

/// The values of a definition of a control curve parameter in version 1 of the schema: its
/// values written out where it has values, else its parameters; without either
/// it cannot be taken over.
pub open spec fn chosen_values(
    values: Option<Vec<Value>>,
    parameters: Option<Vec<DynamicFloatValue>>,
) -> Result<Seq<DynamicFloatValue>, ErrorView> {
    match values {
        Some(v) => Ok(written_out(v@)),
        None => match parameters {
            Some(p) => Ok(p@),
            None => Err(ErrorView::V1SchemaConversion(NO_VALUES@)),
        },
    }
}

impl ControlCurveParameter {
    /// What a definition in version 1 of the schema becomes, or why it cannot be taken over: the
    /// control curves are chosen first, then the values.
    pub open spec fn taken_over(
        name: Seq<char>,
        control_curves: Option<Vec<DynamicFloatValue>>,
        control_curve: Option<DynamicFloatValue>,
        values: Option<Vec<Value>>,
        parameters: Option<Vec<DynamicFloatValue>>,
    ) -> Result<(Seq<DynamicFloatValue>, Seq<DynamicFloatValue>), ErrorView> {
        match chosen_curves("ControlCurveParameter"@, name, control_curves, control_curve) {
            Err(e) => Err(e),
            Ok(curves) => match chosen_values(values, parameters) {
                Err(e) => Err(e),
                Ok(chosen) => Ok((curves, chosen)),
            },
        }
    }

    /// The definition that a definition in version 1 of the schema becomes: with its list of
    /// control curves, or else its single control curve, and with its values
    /// written out, or else its parameters.
    pub fn try_from_v1_parameter(
        meta: ParameterMeta,
        control_curves: Option<Vec<DynamicFloatValue>>,
        control_curve: Option<DynamicFloatValue>,
        storage_node: String,
        values: Option<Vec<Value>>,
        parameters: Option<Vec<DynamicFloatValue>>,
    ) -> (r: Result<Self, PywrError>)
        ensures
            match r {
                Ok(p) => Self::taken_over(
                    meta.name@,
                    control_curves,
                    control_curve,
                    values,
                    parameters,
                ) == Ok::<(Seq<DynamicFloatValue>, Seq<DynamicFloatValue>), ErrorView>(
                    (p.control_curves@, p.values@),
                ) && p.meta == meta && p.storage_node == storage_node,
                Err(e) => Self::taken_over(
                    meta.name@,
                    control_curves,
                    control_curve,
                    values,
                    parameters,
                ) == Err::<(Seq<DynamicFloatValue>, Seq<DynamicFloatValue>), ErrorView>(e@),
            },
    {
        let control_curves = match choose_curves(
            "ControlCurveParameter",
            meta.name.as_str(),
            control_curves,
            control_curve,
        ) {
            Err(e) => {
                return Err(e);
            },
            Ok(curves) => curves,
        };
        let values = if let Some(values) = values {
            write_out(&values)
        } else if let Some(parameters) = parameters {
            parameters
        } else {
            return Err(PywrError::V1SchemaConversion(NO_VALUES.to_string()));
        };
        Ok(Self { meta, control_curves, storage_node, values })
    }
}

impl ControlCurvePiecewiseInterpolatedParameter {
    /// The definition that a definition in version 1 of the schema becomes: with its list of
    /// control curves, or else its single control curve, with its pairs of
    /// amounts and its minimum, and without a maximum.
    pub fn try_from_v1_parameter(
        meta: ParameterMeta,
        control_curves: Option<Vec<DynamicFloatValue>>,
        control_curve: Option<DynamicFloatValue>,
        storage_node: String,
        values: Option<Vec<[Value; 2]>>,
        minimum: Option<Value>,
    ) -> (r: Result<Self, PywrError>)
        ensures
            match r {
                Ok(p) => chosen_curves(
                    "ControlCurvePiecewiseInterpolatedParameter"@,
                    meta.name@,
                    control_curves,
                    control_curve,
                ) == Ok::<Seq<DynamicFloatValue>, ErrorView>(p.control_curves@) && p.meta == meta
                    && p.storage_node == storage_node && p.values == values && p.minimum
                    == minimum && p.maximum.is_none(),
                Err(e) => chosen_curves(
                    "ControlCurvePiecewiseInterpolatedParameter"@,
                    meta.name@,
                    control_curves,
                    control_curve,
                ) == Err::<Seq<DynamicFloatValue>, ErrorView>(e@),
            },
    {
        let control_curves = match choose_curves(
            "ControlCurvePiecewiseInterpolatedParameter",
            meta.name.as_str(),
            control_curves,
            control_curve,
        ) {
            Err(e) => {
                return Err(e);
            },
            Ok(curves) => curves,
        };
        Ok(Self { meta, control_curves, storage_node, values, minimum, maximum: None })
    }
}

} // verus!
