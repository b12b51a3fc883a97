use vstd::prelude::*;

verus! {

/// Error taxonomy of the library.
///
/// `EnergyOutOfRange` is part of the taxonomy but unused by the core:
/// energy ranges are clamped, never rejected.  `DataError` covers
/// precondition failures such as bad Miller-index parity, mismatched
/// array lengths, or an empty gas mixture.
#[derive(Debug)]
pub enum XrayDbError {
    UnknownElement(String),
    UnknownEdge { element: String, edge: String },
    UnknownIon(String),
    UnknownGas(String),
    EnergyOutOfRange,
    InvalidFormula(String),
    DataError(String),
}

} // verus!
