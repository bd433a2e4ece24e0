//! The reconciliation engine: the action planner, which decides the single
//! next step toward a VM's desired state, and the action executor, which
//! applies that step to the observed record and the host accounting.

use vstd::prelude::*;
use rand::Rng;
use crate::host::{
    find_host_index, find_placement, find_placement_spec, host_index_spec, hosts_wf, Host,
};
use crate::state::VmState;
use crate::vm::{ActualVm, DesiredVm};

verus! {

/// Boot outcomes are drawn at random: a boot fails with probability
/// `BOOT_FAIL_NUM / BOOT_FAIL_DENOM`.
pub const BOOT_FAIL_NUM: u32 = 3;
pub const BOOT_FAIL_DENOM: u32 = 10;

/// The single next step the planner chose for one VM.
#[derive(Debug, Clone, Copy, PartialEq, Eq, Structural)]
pub enum Action {
    AllocateHost { host_id: u64 },
    BootVm,
    StopVm,
    ReleaseResources,
    NoOp,
}

/// The planning policy, evaluated in priority order, first match wins:
/// converged VMs get `NoOp`; `Requested` VMs, and `Failed` VMs aimed at
/// `Running`, attempt placement; `Allocated` aimed at `Running` boots;
/// `Running` aimed at `Stopped` stops; anything else aimed at `Destroyed`
/// releases; every unhandled pair degenerates to `NoOp`.
pub open spec fn plan_spec(desired: DesiredVm, actual: ActualVm, hosts: Seq<Host>) -> Action {
    if actual.state == desired.target_state {
        Action::NoOp
    } else if actual.state == VmState::Requested
        || (actual.state == VmState::Failed && desired.target_state == VmState::Running) {
        match find_placement_spec(hosts, desired) {
            Some(host_id) => Action::AllocateHost { host_id },
            None => Action::NoOp,
        }
    } else if actual.state == VmState::Allocated && desired.target_state == VmState::Running {
        Action::BootVm
    } else if actual.state == VmState::Running && desired.target_state == VmState::Stopped {
        Action::StopVm
    } else if desired.target_state == VmState::Destroyed {
        Action::ReleaseResources
    } else {
        Action::NoOp
    }
}

/// The observed record after `action` is applied to `vm`. Allocation is
/// guarded: a VM already backed by a host is left untouched. A boot resolves
/// to `Failed` when `boot_fails` holds and to `Running` otherwise.
pub open spec fn apply_vm_spec(
    action: Action,
    vm: ActualVm,
    desired: DesiredVm,
    hosts: Seq<Host>,
    boot_fails: bool,
) -> ActualVm {
    match action {
        Action::AllocateHost { host_id } => {
            if vm.host_id is None && host_index_spec(hosts, host_id) is Some {
                ActualVm {
                    state: VmState::Allocated,
                    host_id: Some(host_id),
                    cpu: desired.cpu,
                    memory_mb: desired.memory_mb,
                    ..vm
                }
            } else {
                vm
            }
        },
        Action::BootVm => ActualVm {
            state: if boot_fails { VmState::Failed } else { VmState::Running },
            ..vm
        },
        Action::StopVm => ActualVm { state: VmState::Stopped, ..vm },
        Action::ReleaseResources => ActualVm {
            state: VmState::Destroyed,
            host_id: None,
            cpu: 0,
            memory_mb: 0,
            ..vm
        },
        Action::NoOp => vm,
    }
}

/// The host pool after `action` is applied on behalf of `vm`: allocation
/// reserves the desired resources on the named host, release gives the
/// record's remembered resources back to its backing host, and every other
/// action leaves the pool untouched.
pub open spec fn apply_hosts_spec(
    action: Action,
    vm: ActualVm,
    desired: DesiredVm,
    hosts: Seq<Host>,
) -> Seq<Host> {
    match action {
        Action::AllocateHost { host_id } => {
            if vm.host_id is None {
                match host_index_spec(hosts, host_id) {
                    Some(i) => hosts.update(i, hosts[i].reserved(desired.cpu, desired.memory_mb)),
                    None => hosts,
                }
            } else {
                hosts
            }
        },
        Action::ReleaseResources => match vm.host_id {
            Some(hid) => match host_index_spec(hosts, hid) {
                Some(i) => hosts.update(i, hosts[i].released(vm.cpu, vm.memory_mb)),
                None => hosts,
            },
            None => hosts,
        },
        _ => hosts,
    }
}

/// An `AllocateHost` step is only applied after placement confirmed the
/// capacity: the named host is present and still has room.
pub open spec fn allocate_pre(hosts: Seq<Host>, host_id: u64, desired: DesiredVm) -> bool {
    match host_index_spec(hosts, host_id) {
        Some(i) => {
            &&& hosts[i].used_cpu + desired.cpu <= hosts[i].total_cpu
            &&& hosts[i].used_memory_mb + desired.memory_mb <= hosts[i].total_memory_mb
        },
        None => false,
    }
}

/// A record's backing host, if it names one, is present in the pool.
pub open spec fn release_pre(hosts: Seq<Host>, vm: ActualVm) -> bool {
    vm.host_id matches Some(hid) ==> host_index_spec(hosts, hid) is Some
}

/// Draws one boot outcome.
/// Relies on rand's `thread_rng` and `Rng::gen_ratio`: the call returns
/// `true` with probability `num / denom` and panics only when `denom == 0`
/// or `num > denom`. Nothing is promised of any single outcome.
#[verifier::external_body]
fn random_chance(num: u32, denom: u32) -> (b: bool)
    requires
        0 < denom,
        num <= denom,
{
    let mut rng = rand::thread_rng();
    rng.gen_ratio(num, denom)
}

/// The engine's aggregate state: the declared desired specs, the observed
/// records, and the host pool, owned explicitly so the engine stays
/// reentrant and testable.
#[derive(Debug)]
pub struct ControlPlane {
    pub desired_vms: Vec<DesiredVm>,
    pub actual_vms: Vec<ActualVm>,
    pub hosts: Vec<Host>,
}

impl ControlPlane {
    /// An engine seeded with one live 8-CPU / 16384-MB host and no VMs.
    pub fn new() -> (cp: ControlPlane)
        ensures
            cp.desired_vms@.len() == 0,
            cp.actual_vms@.len() == 0,
            cp.hosts@.len() == 1,
            cp.hosts@[0] == (Host {
                id: 1,
                total_cpu: 8,
                used_cpu: 0,
                total_memory_mb: 16384,
                used_memory_mb: 0,
                is_alive: true,
            }),
            crate::laws::sys_wf(cp.hosts@, cp.actual_vms@),
    {
        let mut hosts: Vec<Host> = Vec::new();
        hosts.push(Host {
            id: 1,
            total_cpu: 8,
            used_cpu: 0,
            total_memory_mb: 16384,
            used_memory_mb: 0,
            is_alive: true,
        });
        let cp = ControlPlane { desired_vms: Vec::new(), actual_vms: Vec::new(), hosts };
        proof {
            crate::laws::lemma_sys_wf_empty_vms(cp.hosts@, cp.actual_vms@);
        }
        cp
    }

    /// Plans the single next step toward `desired.target_state` for one VM:
    /// never more than one lifecycle step per tick, even when the desired
    /// state is several steps away.
    pub fn reconcile_vm(desired: &DesiredVm, actual: &ActualVm, hosts: &Vec<Host>) -> (action:
        Action)
        requires
            hosts_wf(hosts@),
        ensures
            action == plan_spec(*desired, *actual, hosts@),
    {
        if actual.state == desired.target_state {
            return Action::NoOp;
        }
        if actual.state == VmState::Requested
            || (actual.state == VmState::Failed && desired.target_state == VmState::Running) {
            match find_placement(hosts, desired) {
                Some(host_id) => {
                    return Action::AllocateHost { host_id };
                },
                None => {
                    return Action::NoOp;
                },
            }
        }
        if actual.state == VmState::Allocated && desired.target_state == VmState::Running {
            return Action::BootVm;
        }
        if actual.state == VmState::Running && desired.target_state == VmState::Stopped {
            return Action::StopVm;
        }
        if desired.target_state == VmState::Destroyed {
            return Action::ReleaseResources;
        }
        Action::NoOp
    }

    /// Applies `action` to the observed record and the host accounting, with
    /// the boot outcome supplied by the caller, so tests can pin either
    /// resolution deterministically.
    pub fn apply_action_with(
        action: Action,
        actual: &mut ActualVm,
        desired: &DesiredVm,
        hosts: &mut Vec<Host>,
        boot_fails: bool,
    )
        requires
            action matches Action::AllocateHost { host_id } ==> (old(actual).host_id is None
                ==> allocate_pre(old(hosts)@, host_id, *desired)),
            action is ReleaseResources ==> release_pre(old(hosts)@, *old(actual)),
        ensures
            *final(actual) == apply_vm_spec(action, *old(actual), *desired, old(hosts)@, boot_fails),
            final(hosts)@ == apply_hosts_spec(action, *old(actual), *desired, old(hosts)@),
    {
        match action {
            Action::AllocateHost { host_id } => {
                if actual.host_id.is_none() {
                    match find_host_index(hosts, host_id) {
                        Some(i) => {
                            let h = &mut hosts[i];
                            h.reserve(desired.cpu, desired.memory_mb);
                            actual.host_id = Some(host_id);
                            actual.cpu = desired.cpu;
                            actual.memory_mb = desired.memory_mb;
                            actual.state = VmState::Allocated;
                        },
                        None => {},
                    }
                }
            },
            Action::BootVm => {
                actual.state = VmState::Booting;
                if boot_fails {
                    actual.state = VmState::Failed;
                } else {
                    actual.state = VmState::Running;
                }
            },
            Action::StopVm => {
                actual.state = VmState::Stopping;
                actual.state = VmState::Stopped;
            },
            Action::ReleaseResources => {
                match actual.host_id {
                    Some(hid) => {
                        match find_host_index(hosts, hid) {
                            Some(i) => {
                                let h = &mut hosts[i];
                                let _ = h.release(actual.cpu, actual.memory_mb);
                            },
                            None => {},
                        }
                    },
                    None => {},
                }
                actual.host_id = None;
                actual.cpu = 0;
                actual.memory_mb = 0;
                actual.state = VmState::Destroyed;
            },
            Action::NoOp => {},
        }
    }

    /// Applies `action` as the driver loop does, drawing the boot outcome at
    /// random. Whatever the draw, the host accounting moves exactly as the
    /// deterministic executor says, and the record lands on one of the two
    /// documented resolutions.
    pub fn apply_action(
        action: Action,
        actual: &mut ActualVm,
        desired: &DesiredVm,
        hosts: &mut Vec<Host>,
    )
        requires
            action matches Action::AllocateHost { host_id } ==> (old(actual).host_id is None
                ==> allocate_pre(old(hosts)@, host_id, *desired)),
            action is ReleaseResources ==> release_pre(old(hosts)@, *old(actual)),
        ensures
            exists|boot_fails: bool|
                *final(actual) == apply_vm_spec(
                    action,
                    *old(actual),
                    *desired,
                    old(hosts)@,
                    boot_fails,
                ),
            final(hosts)@ == apply_hosts_spec(action, *old(actual), *desired, old(hosts)@),
    {
        let boot_fails = random_chance(BOOT_FAIL_NUM, BOOT_FAIL_DENOM);
        Self::apply_action_with(action, actual, desired, hosts, boot_fails);
    }
}

} // verus!
