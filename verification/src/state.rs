//! The VM lifecycle state machine: the finite set of states and the legal
//! transition graph between them.

use vstd::prelude::*;

verus! {

/// Lifecycle states a virtual machine can be observed in.
#[derive(Debug, Clone, Copy, PartialEq, Eq, Hash, Structural)]
pub enum VmState {
    Requested,
    Allocated,
    Booting,
    Running,
    Stopping,
    Stopped,
    Destroyed,
    Failed,
}

/// The legal transition graph of the VM lifecycle. `Destroyed` is terminal:
/// it has no outgoing edges. Every other state may fall to `Failed`.
pub open spec fn can_transition_spec(from: VmState, to: VmState) -> bool {
    match from {
        VmState::Requested => to == VmState::Allocated || to == VmState::Failed,
        VmState::Allocated => to == VmState::Booting || to == VmState::Failed,
        VmState::Booting => to == VmState::Running || to == VmState::Failed,
        VmState::Running => to == VmState::Stopping || to == VmState::Failed,
        VmState::Stopping => to == VmState::Stopped || to == VmState::Failed,
        VmState::Stopped => to == VmState::Destroyed || to == VmState::Failed,
        VmState::Destroyed => false,
        VmState::Failed => to == VmState::Allocated || to == VmState::Failed,
    }
}

/// Answers whether the lifecycle graph has a directed edge `from -> to`.
pub fn can_transition(from: VmState, to: VmState) -> (r: bool)
    ensures
        r == can_transition_spec(from, to),
{
    match from {
        VmState::Requested => to == VmState::Allocated || to == VmState::Failed,
        VmState::Allocated => to == VmState::Booting || to == VmState::Failed,
        VmState::Booting => to == VmState::Running || to == VmState::Failed,
        VmState::Running => to == VmState::Stopping || to == VmState::Failed,
        VmState::Stopping => to == VmState::Stopped || to == VmState::Failed,
        VmState::Stopped => to == VmState::Destroyed || to == VmState::Failed,
        VmState::Destroyed => false,
        VmState::Failed => to == VmState::Allocated || to == VmState::Failed,
    }
}

} // verus!
