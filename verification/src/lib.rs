//! Turn resolution for a two-player combat game played with weighted wheels.
//!
//! Every item is verified with Verus. The few calls into the `rand` crate are
//! gathered in [`engine::dice`]; everything else is proved against the
//! mathematical model that the contracts speak of.

pub mod engine;
