//! Laws of the engine: what holds of its fees, its conversions and its
//! operations on every input.

pub mod fees;
pub mod history;
pub mod instructions;
pub mod rounding;
pub mod solvency;
pub mod staleness;
