//! Embedded, read-only X-ray reference library.
//!
//! The verified core covers the chemical-formula parser, the element
//! registry and its resolution chain, the tabulated-data lookups, and the
//! structural helpers of the numeric and optics layers.  Floating-point
//! evaluation (interpolation, splines, reflectivity) is built on top of
//! these lookups by unverified callers; the tables store each
//! double-precision datum as its IEEE-754 bit pattern, which orders like
//! the underlying value for the non-negative data held here.  Formula
//! counts are exact decimals, rounded in decimal with a saturating
//! exponent only when a count outgrows the representation.

pub mod blob;
pub mod error;
pub mod formula;
pub mod laws;
pub mod materials;
pub mod numeric;
pub mod optics;
pub mod records;
pub mod registry;
pub mod symbols;
pub mod tables;

pub use error::XrayDbError;
pub use formula::chemparse;
pub use formula::validate_formula;
pub use optics::Polarization;
pub use records::XrayDatabase;
pub use registry::XrayDb;
pub use tables::ChantlerKind;
pub use tables::CrossSectionKind;
pub use tables::XrayEdge;
pub use tables::XrayLine;
