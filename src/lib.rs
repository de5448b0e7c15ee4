//! Parametric cube parts with an optional cylindrical bore and an engraved
//! diameter label: the composition plan of each part, the sweep over
//! diameters, and the deterministic naming of the exported artifacts.
//!
//! Lengths are fixed-point integers: a `u64` or `i64` length counts
//! millionths of the model unit (micro-units); plan coordinates count
//! billionths (nano-units), so that halves of micro-unit lengths stay exact.
pub mod text;
pub mod naming;
pub mod sweep;
pub mod part;
pub mod driver;
