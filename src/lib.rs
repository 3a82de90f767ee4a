//! Host-facing facades over the molecular simulation engine's particle and
//! cell values: an access cell that lends the owned value to one operation
//! at a time, the conversion of host sequences into three-component
//! vectors, and the single error kind that reports malformed input.
pub mod cell;
pub mod error;
pub mod marshal;
pub mod particle;
pub mod text;
pub mod traits;
