//! Probe logic of a runtime security monitor: what the probes on the kernel's
//! file operations decide, and the events that they assemble.
//!
//! - [`files`] resolves the identity of an open file: device, inode and
//!   overlay layer.
//! - [`event`] is the wire format of an event, [`scap`] holds values as the
//!   format writes them, and [`auxbuf`] is the scratch buffer in which an
//!   event is written.
//! - [`shared_state`] is what the probes share between their runs: the
//!   operation of each thread that has one in flight, the feature gate's
//!   answer, and the scratch buffer.
//! - [`operations`] holds the probes themselves. A probe takes the shared
//!   state and the values that were read from the kernel, and returns the
//!   finished event, if there is one, for its caller to submit.
//!
//! No probe fails the kernel operation that it observes: an error, of the
//! kinds in [`error`], only means that no event is produced.

pub mod auxbuf;
pub mod error;
pub mod event;
pub mod files;
pub mod operations;
pub mod scap;
pub mod shared_state;
