//! Why a probe gave up. No error alters the observed kernel operation: a
//! probe that fails only produces no event.

use vstd::prelude::*;

verus! {

/// The reason for which a probe invocation was abandoned.
#[derive(Clone, Copy, Debug, PartialEq, Eq, Structural)]
pub enum ProbeError {
    /// A link between kernel structures could not be read; carries the code
    /// of the failed read.
    KernelStructureMissing(i64),
    /// The operation store is full, or no scratch buffer is available.
    ResourceExhausted,
    /// The scratch buffer cannot hold the next parameter.
    EncodingOverflow,
    /// The scratch buffer holds no record that the probe may write to: none
    /// was started, or the one that an earlier probe was to leave open was
    /// finished, abandoned or overwritten.
    RecordNotOpen,
}

} // verus!
