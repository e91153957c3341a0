//! The state that the probes share: the operation store, the feature gate's
//! answer and the scratch buffer of the processor that runs the probe.

use crate::auxbuf::{AuxiliaryBuffer, Record};
use crate::shared_state::op_info::{Entries, OpInfoStore};
use vstd::prelude::*;

pub mod op_info;

verus! {

/// The state that the probes share, as contracts see it.
pub ghost struct State {
    /// The operation store.
    pub op_info: Entries,
    /// Whether events for renames that come in as plain system calls are
    /// wanted.
    pub renameat_syscall_enabled: bool,
    /// The scratch region of this processor, if it has one.
    pub auxbuf: Option<Record>,
}

impl State {
    /// The store and the scratch region keep within their bounds.
    pub open spec fn wf(self) -> bool {
        &&& self.op_info.wf()
        &&& self.auxbuf is Some ==> self.auxbuf->Some_0.wf()
    }
}

/// The state that the probes share.
pub struct SharedState {
    /// The operation store.
    pub op_info: OpInfoStore,
    /// The feature gate's answer for renames that come in as plain system
    /// calls. It is set before any probe runs and no probe changes it.
    pub renameat_syscall_enabled: bool,
    /// The scratch buffer of this processor; `None` where none can be had.
    pub auxbuf: Option<AuxiliaryBuffer>,
}

impl View for SharedState {
    type V = State;

    open spec fn view(&self) -> State {
        State {
            op_info: self.op_info@,
            renameat_syscall_enabled: self.renameat_syscall_enabled,
            auxbuf: match self.auxbuf {
                Some(auxbuf) => Some(auxbuf@),
                None => None,
            },
        }
    }
}

} // verus!
