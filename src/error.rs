//! Errors of registration and of a run.
use vstd::prelude::*;

verus! {

/// What went wrong. Registration errors leave the registry and the dataset
/// context unchanged; a provider error marks only the affected view's
/// histograms as incomplete.
#[derive(Clone, Copy, Debug, PartialEq, Eq, Structural)]
pub enum HistError {
    /// A histogram, column or view name is already taken.
    DuplicateName,
    /// A derived column, filter or histogram names a column that does not exist.
    UnknownColumn,
    /// A bin count of zero, or a range whose low end is not below its high end.
    InvalidBinSpec,
    /// A view identifier that the dataset context did not hand out.
    UnknownView,
    /// The columnar query provider failed while scanning a view.
    Provider,
}

} // verus!
