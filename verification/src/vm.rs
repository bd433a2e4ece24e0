//! The per-VM records the reconciler works on: the declared desired
//! configuration and the mutable observed record.

use vstd::prelude::*;
use crate::state::VmState;

verus! {

/// Immutable per-tick input: the configuration a VM should converge to.
/// `cpu` and `memory_mb` are expected to be positive.
#[derive(Debug, Clone)]
pub struct DesiredVm {
    pub id: u64,
    pub cpu: u8,
    pub memory_mb: u32,
    pub target_state: VmState,
}

/// Mutable observed record of a VM, matched to a `DesiredVm` by `id` and
/// mutated exclusively by the action executor. `cpu` and `memory_mb` are the
/// resources actually reserved for this VM, remembered from the allocation
/// step rather than re-read from the desired record.
#[derive(Debug, Clone)]
pub struct ActualVm {
    pub id: u64,
    pub state: VmState,
    pub host_id: Option<u64>,
    pub cpu: u8,
    pub memory_mb: u32,
}

/// Per-record invariant: the reserved resources are zero exactly when no
/// host backs the VM.
pub open spec fn vm_wf(vm: ActualVm) -> bool {
    vm.host_id is None <==> (vm.cpu == 0 && vm.memory_mb == 0)
}

} // verus!
