//! System-wide invariants and the laws of the engine: resource conservation,
//! single-step advancement, idempotence of `NoOp`, terminal-state stability,
//! and placement determinism.

use vstd::prelude::*;
use crate::engine::{apply_hosts_spec, apply_vm_spec, plan_spec, Action};
use crate::host::{
    distinct_host_ids, find_placement_spec, first_fit_from, host_index_from, host_index_spec,
    hosts_wf, lemma_first_fit_witness, lemma_host_index_finds, Host,
};
use crate::state::{can_transition_spec, VmState};
use crate::vm::{vm_wf, ActualVm, DesiredVm};

verus! {

/// CPU this record holds reserved on the host with identifier `hid`.
pub open spec fn vm_cpu_on(vm: ActualVm, hid: u64) -> int {
    if vm.host_id == Some(hid) {
        vm.cpu as int
    } else {
        0
    }
}

/// Memory this record holds reserved on the host with identifier `hid`.
pub open spec fn vm_mem_on(vm: ActualVm, hid: u64) -> int {
    if vm.host_id == Some(hid) {
        vm.memory_mb as int
    } else {
        0
    }
}

/// Total CPU reserved on host `hid` by the records in `vms`.
pub open spec fn sum_cpu_on(vms: Seq<ActualVm>, hid: u64) -> int
    decreases vms.len(),
{
    if vms.len() == 0 {
        0
    } else {
        vm_cpu_on(vms[0], hid) + sum_cpu_on(vms.drop_first(), hid)
    }
}

/// Total memory reserved on host `hid` by the records in `vms`.
pub open spec fn sum_mem_on(vms: Seq<ActualVm>, hid: u64) -> int
    decreases vms.len(),
{
    if vms.len() == 0 {
        0
    } else {
        vm_mem_on(vms[0], hid) + sum_mem_on(vms.drop_first(), hid)
    }
}

/// A host with identifier `hid` stands somewhere in the pool.
pub open spec fn host_present(hosts: Seq<Host>, hid: u64) -> bool {
    exists|i: int| 0 <= i < hosts.len() && (#[trigger] hosts[i]).id == hid
}

/// System-level well-formedness: host identifiers are distinct, every host's
/// used resources equal the sum reserved by the records pointing at it and
/// stay within its totals, every record's backing host is present, and each
/// record's reserved resources are zero exactly when it has no backing host.
pub open spec fn sys_wf(hosts: Seq<Host>, vms: Seq<ActualVm>) -> bool {
    &&& distinct_host_ids(hosts)
    &&& hosts_wf(hosts)
    &&& (forall|k: int| 0 <= k < vms.len() ==> vm_wf(#[trigger] vms[k]))
    &&& (forall|k: int|
        0 <= k < vms.len() ==> ((#[trigger] vms[k]).host_id matches Some(hid) ==> host_present(
            hosts,
            hid,
        )))
    &&& (forall|i: int|
        0 <= i < hosts.len() ==> (#[trigger] hosts[i]).used_cpu as int == sum_cpu_on(
            vms,
            hosts[i].id,
        ))
    &&& (forall|i: int|
        0 <= i < hosts.len() ==> (#[trigger] hosts[i]).used_memory_mb as int == sum_mem_on(
            vms,
            hosts[i].id,
        ))
}

/// With no records, each sum is zero.
proof fn lemma_sum_empty(vms: Seq<ActualVm>, hid: u64)
    requires
        vms.len() == 0,
    ensures
        sum_cpu_on(vms, hid) == 0,
        sum_mem_on(vms, hid) == 0,
{
}

/// A pool of distinct, well-formed, unused hosts with no records satisfies
/// the system invariant.
pub proof fn lemma_sys_wf_empty_vms(hosts: Seq<Host>, vms: Seq<ActualVm>)
    requires
        vms.len() == 0,
        distinct_host_ids(hosts),
        hosts_wf(hosts),
        forall|i: int| 0 <= i < hosts.len() ==> (#[trigger] hosts[i]).used_cpu == 0,
        forall|i: int| 0 <= i < hosts.len() ==> (#[trigger] hosts[i]).used_memory_mb == 0,
    ensures
        sys_wf(hosts, vms),
{
    assert forall|i: int| 0 <= i < hosts.len() implies (#[trigger] hosts[i]).used_cpu as int
        == sum_cpu_on(vms, hosts[i].id) by {
        lemma_sum_empty(vms, hosts[i].id);
    }
    assert forall|i: int| 0 <= i < hosts.len() implies (#[trigger] hosts[i]).used_memory_mb as int
        == sum_mem_on(vms, hosts[i].id) by {
        lemma_sum_empty(vms, hosts[i].id);
    }
}

/// Both sums are non-negative.
proof fn lemma_sum_nonneg(vms: Seq<ActualVm>, hid: u64)
    ensures
        sum_cpu_on(vms, hid) >= 0,
        sum_mem_on(vms, hid) >= 0,
    decreases vms.len(),
{
    if vms.len() > 0 {
        lemma_sum_nonneg(vms.drop_first(), hid);
    }
}

/// Replacing one record changes each sum by the difference of that record's
/// contributions.
proof fn lemma_sum_update(vms: Seq<ActualVm>, k: int, v: ActualVm, hid: u64)
    requires
        0 <= k < vms.len(),
    ensures
        sum_cpu_on(vms.update(k, v), hid) == sum_cpu_on(vms, hid) - vm_cpu_on(vms[k], hid)
            + vm_cpu_on(v, hid),
        sum_mem_on(vms.update(k, v), hid) == sum_mem_on(vms, hid) - vm_mem_on(vms[k], hid)
            + vm_mem_on(v, hid),
    decreases vms.len(),
{
    if k == 0 {
        assert(vms.update(0, v).drop_first() =~= vms.drop_first());
        assert(vms.update(0, v)[0] == v);
    } else {
        assert(vms.update(k, v).drop_first() =~= vms.drop_first().update(k - 1, v));
        assert(vms.update(k, v)[0] == vms[0]);
        lemma_sum_update(vms.drop_first(), k - 1, v, hid);
    }
}

/// One record's contribution never exceeds the sum it enters.
proof fn lemma_sum_elem_bound(vms: Seq<ActualVm>, k: int, hid: u64)
    requires
        0 <= k < vms.len(),
    ensures
        vm_cpu_on(vms[k], hid) <= sum_cpu_on(vms, hid),
        vm_mem_on(vms[k], hid) <= sum_mem_on(vms, hid),
    decreases vms.len(),
{
    if k == 0 {
        lemma_sum_nonneg(vms.drop_first(), hid);
    } else {
        lemma_sum_elem_bound(vms.drop_first(), k - 1, hid);
        assert(vms.drop_first()[k - 1] == vms[k]);
    }
}

/// Replacing one record by another with the same backing host and the same
/// reserved resources, with the host pool unchanged, preserves the system
/// invariant.
proof fn lemma_same_footprint(hosts: Seq<Host>, vms: Seq<ActualVm>, k: int, v2: ActualVm)
    requires
        sys_wf(hosts, vms),
        0 <= k < vms.len(),
        v2.host_id == vms[k].host_id,
        v2.cpu == vms[k].cpu,
        v2.memory_mb == vms[k].memory_mb,
    ensures
        sys_wf(hosts, vms.update(k, v2)),
{
    let vms2 = vms.update(k, v2);
    assert(vm_wf(vms[k]));
    assert forall|k2: int| 0 <= k2 < vms2.len() implies vm_wf(#[trigger] vms2[k2]) by {
        if k2 != k {
            assert(vm_wf(vms[k2]));
        }
    }
    assert forall|k2: int|
        0 <= k2 < vms2.len() implies ((#[trigger] vms2[k2]).host_id matches Some(hid)
        ==> host_present(hosts, hid)) by {
        if k2 != k {
            assert(vms2[k2] == vms[k2]);
        }
    }
    assert forall|i: int| 0 <= i < hosts.len() implies (#[trigger] hosts[i]).used_cpu as int
        == sum_cpu_on(vms2, hosts[i].id) by {
        lemma_sum_update(vms, k, v2, hosts[i].id);
    }
    assert forall|i: int| 0 <= i < hosts.len() implies (#[trigger] hosts[i]).used_memory_mb as int
        == sum_mem_on(vms2, hosts[i].id) by {
        lemma_sum_update(vms, k, v2, hosts[i].id);
    }
}

/// Resource conservation: one planned-and-applied reconciliation step, for
/// either boot outcome, keeps every host's used CPU and memory equal to the
/// sum reserved by the records pointing at it and within its totals, and
/// preserves the rest of the system invariant. Iterating this lemma covers
/// every sequence of allocate/release steps the engine can take.
pub proof fn lemma_step_preserves_accounting(
    desired: DesiredVm,
    vms: Seq<ActualVm>,
    k: int,
    hosts: Seq<Host>,
    boot_fails: bool,
)
    requires
        sys_wf(hosts, vms),
        0 <= k < vms.len(),
        desired.cpu > 0,
        desired.memory_mb > 0,
    ensures
        ({
            let action = plan_spec(desired, vms[k], hosts);
            sys_wf(
                apply_hosts_spec(action, vms[k], desired, hosts),
                vms.update(k, apply_vm_spec(action, vms[k], desired, hosts, boot_fails)),
            )
        }),
{
    let action = plan_spec(desired, vms[k], hosts);
    let vm = vms[k];
    let vm2 = apply_vm_spec(action, vm, desired, hosts, boot_fails);
    let hosts2 = apply_hosts_spec(action, vm, desired, hosts);
    let vms2 = vms.update(k, vm2);
    assert(vm_wf(vm));
    match action {
        Action::NoOp => {
            lemma_same_footprint(hosts, vms, k, vm2);
        },
        Action::BootVm => {
            lemma_same_footprint(hosts, vms, k, vm2);
        },
        Action::StopVm => {
            lemma_same_footprint(hosts, vms, k, vm2);
        },
        Action::AllocateHost { host_id } => {
            if vm.host_id is Some {
                lemma_same_footprint(hosts, vms, k, vm2);
            } else {
                match host_index_spec(hosts, host_id) {
                    None => {
                        lemma_same_footprint(hosts, vms, k, vm2);
                    },
                    Some(j) => {
                        lemma_allocate_preserves(desired, vms, k, hosts, host_id, j);
                    },
                }
            }
        },
        Action::ReleaseResources => {
            match vm.host_id {
                None => {
                    lemma_same_footprint(hosts, vms, k, vm2);
                },
                Some(hid) => {
                    lemma_release_preserves(desired, vms, k, hosts, hid, boot_fails);
                },
            }
        },
    }
}

/// The allocation step of the conservation proof: reserving the planner's
/// confirmed placement on the named host keeps the accounting exact.
proof fn lemma_allocate_preserves(
    desired: DesiredVm,
    vms: Seq<ActualVm>,
    k: int,
    hosts: Seq<Host>,
    host_id: u64,
    j: int,
)
    requires
        sys_wf(hosts, vms),
        0 <= k < vms.len(),
        desired.cpu > 0,
        desired.memory_mb > 0,
        vms[k].host_id is None,
        plan_spec(desired, vms[k], hosts) == (Action::AllocateHost { host_id }),
        host_index_spec(hosts, host_id) == Some(j),
    ensures
        ({
            let action = Action::AllocateHost { host_id };
            sys_wf(
                apply_hosts_spec(action, vms[k], desired, hosts),
                vms.update(k, apply_vm_spec(action, vms[k], desired, hosts, true)),
            )
        }),
        ({
            let action = Action::AllocateHost { host_id };
            apply_vm_spec(action, vms[k], desired, hosts, true) == apply_vm_spec(
                action,
                vms[k],
                desired,
                hosts,
                false,
            )
        }),
{
    let action = Action::AllocateHost { host_id };
    let vm = vms[k];
    let vm2 = apply_vm_spec(action, vm, desired, hosts, true);
    let hosts2 = apply_hosts_spec(action, vm, desired, hosts);
    let vms2 = vms.update(k, vm2);
    assert(vm_wf(vm));

    // The planner only names a host that placement found, so some host in
    // the pool carries `host_id` and has capacity; with distinct identifiers
    // it is exactly the host at the first matching position `j`.
    assert(find_placement_spec(hosts, desired) == Some(host_id));
    lemma_first_fit_witness(hosts, desired, 0, host_id);
    let j0 = choose|j0: int|
        0 <= j0 < hosts.len() && (#[trigger] hosts[j0]).has_capacity(desired) && hosts[j0].id
            == host_id;
    crate::host::lemma_host_index_props(hosts, host_id, 0, j);
    if j0 != j {
        assert(hosts[j0].id != hosts[j].id);
    }
    assert(hosts[j].has_capacity(desired));
    assert(hosts[j].used_cpu + desired.cpu <= hosts[j].total_cpu);
    assert(hosts[j].used_memory_mb + desired.memory_mb <= hosts[j].total_memory_mb);

    let hr = hosts[j].reserved(desired.cpu, desired.memory_mb);
    assert(hosts2 == hosts.update(j, hr));
    assert(hr.id == host_id);
    assert(hr.used_cpu as int == hosts[j].used_cpu + desired.cpu);
    assert(hr.used_memory_mb as int == hosts[j].used_memory_mb + desired.memory_mb);

    assert(distinct_host_ids(hosts2)) by {
        assert forall|a: int, b: int| 0 <= a < b < hosts2.len() implies (#[trigger] hosts2[a]).id
            != (#[trigger] hosts2[b]).id by {
            assert(hosts2[a].id == hosts[a].id);
            assert(hosts2[b].id == hosts[b].id);
        }
    }
    assert(hosts_wf(hosts2)) by {
        assert forall|i: int| 0 <= i < hosts2.len() implies (#[trigger] hosts2[i]).wf() by {
            if i != j {
                assert(hosts2[i] == hosts[i]);
                assert(hosts[i].wf());
            }
        }
    }
    assert forall|k2: int| 0 <= k2 < vms2.len() implies vm_wf(#[trigger] vms2[k2]) by {
        if k2 != k {
            assert(vm_wf(vms[k2]));
        }
    }
    assert forall|k2: int|
        0 <= k2 < vms2.len() implies ((#[trigger] vms2[k2]).host_id matches Some(hid)
        ==> host_present(hosts2, hid)) by {
        if k2 == k {
            assert(hosts2[j].id == host_id);
        } else {
            assert(vms2[k2] == vms[k2]);
            if vms[k2].host_id is Some {
                let hid = vms[k2].host_id->Some_0;
                assert(host_present(hosts, hid));
                let w = choose|w: int| 0 <= w < hosts.len() && (#[trigger] hosts[w]).id == hid;
                assert(hosts2[w].id == hid);
            }
        }
    }
    assert forall|i: int| 0 <= i < hosts2.len() implies (#[trigger] hosts2[i]).used_cpu as int
        == sum_cpu_on(vms2, hosts2[i].id) by {
        lemma_sum_update(vms, k, vm2, hosts[i].id);
        if i == j {
            assert(vm_cpu_on(vm, host_id) == 0);
            assert(vm_cpu_on(vm2, host_id) == desired.cpu as int);
        } else {
            assert(hosts[i].id != hosts[j].id);
            assert(hosts2[i] == hosts[i]);
            assert(vm_cpu_on(vm, hosts[i].id) == 0);
            assert(vm_cpu_on(vm2, hosts[i].id) == 0);
        }
    }
    assert forall|i: int| 0 <= i < hosts2.len() implies (#[trigger] hosts2[i]).used_memory_mb as int
        == sum_mem_on(vms2, hosts2[i].id) by {
        lemma_sum_update(vms, k, vm2, hosts[i].id);
        if i == j {
            assert(vm_mem_on(vm, host_id) == 0);
            assert(vm_mem_on(vm2, host_id) == desired.memory_mb as int);
        } else {
            assert(hosts[i].id != hosts[j].id);
            assert(hosts2[i] == hosts[i]);
            assert(vm_mem_on(vm, hosts[i].id) == 0);
            assert(vm_mem_on(vm2, hosts[i].id) == 0);
        }
    }
}

/// The release step of the conservation proof: the accounting invariant
/// bounds the record's reservation by the host's used counters, so the
/// defensive clamp never engages and the sums stay exact.
proof fn lemma_release_preserves(
    desired: DesiredVm,
    vms: Seq<ActualVm>,
    k: int,
    hosts: Seq<Host>,
    hid: u64,
    boot_fails: bool,
)
    requires
        sys_wf(hosts, vms),
        0 <= k < vms.len(),
        vms[k].host_id == Some(hid),
    ensures
        ({
            let action = Action::ReleaseResources;
            sys_wf(
                apply_hosts_spec(action, vms[k], desired, hosts),
                vms.update(k, apply_vm_spec(action, vms[k], desired, hosts, boot_fails)),
            )
        }),
{
    let action = Action::ReleaseResources;
    let vm = vms[k];
    let vm2 = apply_vm_spec(action, vm, desired, hosts, boot_fails);
    let vms2 = vms.update(k, vm2);
    assert(vm_wf(vm));

    // The invariant puts the backing host in the pool; with distinct
    // identifiers its position is the first match.
    assert(host_present(hosts, hid));
    let w = choose|w: int| 0 <= w < hosts.len() && (#[trigger] hosts[w]).id == hid;
    assert forall|k2: int| 0 <= k2 < w implies (#[trigger] hosts[k2]).id != hid by {
        assert(hosts[k2].id != hosts[w].id);
    }
    lemma_host_index_finds(hosts, hid, 0, w);

    let hr = hosts[w].released(vm.cpu, vm.memory_mb);
    let hosts2 = apply_hosts_spec(action, vm, desired, hosts);
    assert(hosts2 == hosts.update(w, hr));

    // The record's reservation never exceeds the host's used counters.
    lemma_sum_elem_bound(vms, k, hid);
    assert(vm_cpu_on(vm, hid) == vm.cpu as int);
    assert(vm_mem_on(vm, hid) == vm.memory_mb as int);
    assert(vm.cpu <= hosts[w].used_cpu);
    assert(vm.memory_mb <= hosts[w].used_memory_mb);
    assert(hr.used_cpu as int == hosts[w].used_cpu - vm.cpu);
    assert(hr.used_memory_mb as int == hosts[w].used_memory_mb - vm.memory_mb);

    assert(distinct_host_ids(hosts2)) by {
        assert forall|a: int, b: int| 0 <= a < b < hosts2.len() implies (#[trigger] hosts2[a]).id
            != (#[trigger] hosts2[b]).id by {
            assert(hosts2[a].id == hosts[a].id);
            assert(hosts2[b].id == hosts[b].id);
        }
    }
    assert(hosts_wf(hosts2)) by {
        assert forall|i: int| 0 <= i < hosts2.len() implies (#[trigger] hosts2[i]).wf() by {
            assert(hosts[i].wf());
            if i != w {
                assert(hosts2[i] == hosts[i]);
            }
        }
    }
    assert forall|k2: int| 0 <= k2 < vms2.len() implies vm_wf(#[trigger] vms2[k2]) by {
        if k2 != k {
            assert(vm_wf(vms[k2]));
        }
    }
    assert forall|k2: int|
        0 <= k2 < vms2.len() implies ((#[trigger] vms2[k2]).host_id matches Some(h2)
        ==> host_present(hosts2, h2)) by {
        if k2 != k {
            assert(vms2[k2] == vms[k2]);
            if vms[k2].host_id is Some {
                let h2 = vms[k2].host_id->Some_0;
                assert(host_present(hosts, h2));
                let w2 = choose|w2: int| 0 <= w2 < hosts.len() && (#[trigger] hosts[w2]).id == h2;
                assert(hosts2[w2].id == h2);
            }
        }
    }
    assert forall|i: int| 0 <= i < hosts2.len() implies (#[trigger] hosts2[i]).used_cpu as int
        == sum_cpu_on(vms2, hosts2[i].id) by {
        lemma_sum_update(vms, k, vm2, hosts[i].id);
        if i == w {
            assert(vm_cpu_on(vm2, hid) == 0);
        } else {
            assert(hosts[i].id != hosts[w].id);
            assert(hosts2[i] == hosts[i]);
            assert(vm_cpu_on(vm, hosts[i].id) == 0);
            assert(vm_cpu_on(vm2, hosts[i].id) == 0);
        }
    }
    assert forall|i: int| 0 <= i < hosts2.len() implies (#[trigger] hosts2[i]).used_memory_mb as int
        == sum_mem_on(vms2, hosts2[i].id) by {
        lemma_sum_update(vms, k, vm2, hosts[i].id);
        if i == w {
            assert(vm_mem_on(vm2, hid) == 0);
        } else {
            assert(hosts[i].id != hosts[w].id);
            assert(hosts2[i] == hosts[i]);
            assert(vm_mem_on(vm, hosts[i].id) == 0);
            assert(vm_mem_on(vm2, hosts[i].id) == 0);
        }
    }
}

/// Single-step advancement: wherever planning is asked to advance a VM
/// (`actual.state != desired.target_state`), applying the planned action
/// either leaves the observed state unchanged or moves it along one legal
/// edge of the transition graph. Three executor shortcuts land past the
/// transient states the graph records and stand outside this law, so its
/// premises exclude them: a successful boot lands on `Running` rather than
/// on the transient `Booting`, a stop lands on `Stopped` rather than on the
/// transient `Stopping`, and a release from any state other than `Stopped`
/// jumps straight to `Destroyed`.
pub proof fn lemma_single_step_advancement(
    desired: DesiredVm,
    actual: ActualVm,
    hosts: Seq<Host>,
    boot_fails: bool,
)
    requires
        actual.state != desired.target_state,
        !(actual.state == VmState::Allocated && desired.target_state == VmState::Running
            && !boot_fails),
        !(actual.state == VmState::Running && desired.target_state == VmState::Stopped),
        desired.target_state == VmState::Destroyed ==> actual.state == VmState::Stopped
            || actual.state == VmState::Requested,
    ensures
        ({
            let vm2 = apply_vm_spec(
                plan_spec(desired, actual, hosts),
                actual,
                desired,
                hosts,
                boot_fails,
            );
            vm2.state == actual.state || can_transition_spec(actual.state, vm2.state)
        }),
{
}

/// Idempotence of `NoOp`: planning on an already-converged VM yields `NoOp`,
/// and executing `NoOp` mutates neither the record nor the host pool.
pub proof fn lemma_noop_idempotent(
    desired: DesiredVm,
    actual: ActualVm,
    hosts: Seq<Host>,
    boot_fails: bool,
)
    requires
        actual.state == desired.target_state,
    ensures
        plan_spec(desired, actual, hosts) == Action::NoOp,
        apply_vm_spec(Action::NoOp, actual, desired, hosts, boot_fails) == actual,
        apply_hosts_spec(Action::NoOp, actual, desired, hosts) == hosts,
{
}

/// Terminal-state stability: once a record is `Destroyed`, planning yields
/// `NoOp` for every desired target, and applying that plan leaves the record
/// and the host pool untouched.
pub proof fn lemma_destroyed_terminal(
    desired: DesiredVm,
    actual: ActualVm,
    hosts: Seq<Host>,
    boot_fails: bool,
)
    requires
        actual.state == VmState::Destroyed,
    ensures
        plan_spec(desired, actual, hosts) == Action::NoOp,
        apply_vm_spec(plan_spec(desired, actual, hosts), actual, desired, hosts, boot_fails)
            == actual,
        apply_hosts_spec(plan_spec(desired, actual, hosts), actual, desired, hosts) == hosts,
{
}

/// Placement determinism: for a fixed host list order and fixed capacities,
/// any two placements of the same desired spec agree.
pub proof fn lemma_placement_deterministic(
    hosts: Seq<Host>,
    desired: DesiredVm,
    r1: Option<u64>,
    r2: Option<u64>,
)
    requires
        r1 == find_placement_spec(hosts, desired),
        r2 == find_placement_spec(hosts, desired),
    ensures
        r1 == r2,
{
}

} // verus!
