//! The failures that the kernel reports.

use vstd::prelude::*;

verus! {

/// The kinds of thing that a lookup can fail to find.
#[derive(Clone, Copy, Debug, PartialEq, Eq, Structural)]
pub enum EntityKind {
    Node,
    Edge,
    Parameter,
    IndexParameter,
    MultiValueParameter,
    MultiValueKey,
    AggregatedNode,
    AggregatedStorageNode,
    VirtualStorage,
    Table,
    Timeseries,
    Column,
    ScenarioGroup,
    /// One of the amounts or parameters that a parameter chooses among.
    Choice,
}

/// Why an operation failed.
#[derive(Clone, Debug, PartialEq, Eq)]
pub enum PywrError {
    /// Nothing of this kind has this name.
    NotFound(EntityKind, String),
    /// Nothing of this kind has this handle.
    NotFoundAt(EntityKind, usize),
    /// The name, with its sub-name, is taken.
    DuplicateName,
    /// The named parameter depends on itself, directly or through others, or a
    /// constraint of the named node does.
    CyclicDependency(String),
    /// The named storage has neither an absolute nor a proportional initial
    /// volume.
    MissingInitialVolume(String),
    /// An edge names a node that the network does not hold, or one that cannot
    /// take that end of an edge.
    InvalidEdge,
    /// An edge would leave and enter the same node.
    EdgeWouldCreateSelfLoop,
    /// A volume was given to a node that stores nothing.
    StorageOnNonStorageNode,
    /// A set of nodes was given more or fewer factors than it has members.
    FactorCountMismatch,
    /// A parameter holds no value for the time step.
    TimestepIndexOutOfRange,
    /// A proportion was asked of a total of zero.
    DivisionByZero,
    /// No flows meet the constraints.
    InfeasibleLP,
    /// The objective has no lower end.
    UnboundedLP,
    /// The solver failed, with its message.
    SolverBackendError(String),
    /// The solver ran out of time.
    SolverTimeout,
    /// The named parameter could not be computed, with the reason.
    ParameterComputeFailed(String, String),
    /// A definition in version 1 of the schema cannot be taken over, with the
    /// reason.
    V1SchemaConversion(String),
}

/// What a failure says, with its texts as sequences of characters.
pub enum ErrorView {
    NotFound(EntityKind, Seq<char>),
    NotFoundAt(EntityKind, usize),
    DuplicateName,
    CyclicDependency(Seq<char>),
    MissingInitialVolume(Seq<char>),
    InvalidEdge,
    EdgeWouldCreateSelfLoop,
    StorageOnNonStorageNode,
    FactorCountMismatch,
    TimestepIndexOutOfRange,
    DivisionByZero,
    InfeasibleLP,
    UnboundedLP,
    SolverBackendError(Seq<char>),
    SolverTimeout,
    ParameterComputeFailed(Seq<char>, Seq<char>),
    V1SchemaConversion(Seq<char>),
}

impl View for PywrError {
    type V = ErrorView;

    open spec fn view(&self) -> ErrorView {
        match self {
            PywrError::NotFound(kind, name) => ErrorView::NotFound(*kind, name@),
            PywrError::NotFoundAt(kind, at) => ErrorView::NotFoundAt(*kind, *at),
            PywrError::DuplicateName => ErrorView::DuplicateName,
            PywrError::CyclicDependency(name) => ErrorView::CyclicDependency(name@),
            PywrError::MissingInitialVolume(name) => ErrorView::MissingInitialVolume(name@),
            PywrError::InvalidEdge => ErrorView::InvalidEdge,
            PywrError::EdgeWouldCreateSelfLoop => ErrorView::EdgeWouldCreateSelfLoop,
            PywrError::StorageOnNonStorageNode => ErrorView::StorageOnNonStorageNode,
            PywrError::FactorCountMismatch => ErrorView::FactorCountMismatch,
            PywrError::TimestepIndexOutOfRange => ErrorView::TimestepIndexOutOfRange,
            PywrError::DivisionByZero => ErrorView::DivisionByZero,
            PywrError::InfeasibleLP => ErrorView::InfeasibleLP,
            PywrError::UnboundedLP => ErrorView::UnboundedLP,
            PywrError::SolverBackendError(message) => ErrorView::SolverBackendError(message@),
            PywrError::SolverTimeout => ErrorView::SolverTimeout,
            PywrError::ParameterComputeFailed(name, cause) => ErrorView::ParameterComputeFailed(
                name@,
                cause@,
            ),
            PywrError::V1SchemaConversion(reason) => ErrorView::V1SchemaConversion(reason@),
        }
    }
}

/// A result with its failure, if any, taken by its view.
pub open spec fn outcome<T>(r: Result<T, PywrError>) -> Result<T, ErrorView> {
    match r {
        Ok(v) => Ok(v),
        Err(e) => Err(e@),
    }
}

} // verus!
