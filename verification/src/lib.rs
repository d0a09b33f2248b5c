//! Verified core of a low-accuracy moonrise / moonset computation.
//!
//! The periodic-term tables, the eccentricity-correction selector and the
//! event tag live here with proved contracts; the floating-point solver that
//! consumes them is ordinary Rust outside this crate.

pub mod event;
pub mod terms;
