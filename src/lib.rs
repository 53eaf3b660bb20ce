//! Structural and control logic of an atmospheric microwave radiative-transfer
//! model: input validation, surface-level search and profile layout, and the
//! decisions of the parallel batch engine.

pub mod batch;
pub mod error;
pub mod params;
pub mod profile;
pub mod schedule;
pub mod shape;

pub use error::RtmError;
