//! The probes, one module for each monitored operation.

pub mod renameat;
pub mod writer_helpers;
