use vm_reconciler::engine::{Action, ControlPlane};
use vm_reconciler::host::{find_host_index, find_placement, Host};
use vm_reconciler::state::{can_transition, VmState};
use vm_reconciler::vm::{ActualVm, DesiredVm};

fn host(id: u64, total_cpu: u8, used_cpu: u8, total_mb: u32, used_mb: u32, alive: bool) -> Host {
    Host {
        id,
        total_cpu,
        used_cpu,
        total_memory_mb: total_mb,
        used_memory_mb: used_mb,
        is_alive: alive,
    }
}

fn desired(id: u64, cpu: u8, memory_mb: u32, target_state: VmState) -> DesiredVm {
    DesiredVm { id, cpu, memory_mb, target_state }
}

fn requested(id: u64) -> ActualVm {
    ActualVm { id, state: VmState::Requested, host_id: None, cpu: 0, memory_mb: 0 }
}

#[test]
fn scenario_requested_vm_allocates_then_boots() {
    let mut hosts = vec![host(1, 8, 0, 16384, 0, true)];
    let d = desired(1, 2, 2048, VmState::Running);
    let mut a = requested(1);

    // Tick 1: placement succeeds and the reservation is booked.
    let action = ControlPlane::reconcile_vm(&d, &a, &hosts);
    assert_eq!(action, Action::AllocateHost { host_id: 1 });
    ControlPlane::apply_action_with(action, &mut a, &d, &mut hosts, false);
    assert_eq!(a.state, VmState::Allocated);
    assert_eq!(a.host_id, Some(1));
    assert_eq!(a.cpu, 2);
    assert_eq!(a.memory_mb, 2048);
    assert_eq!(hosts[0].used_cpu, 2);
    assert_eq!(hosts[0].used_memory_mb, 2048);

    // Tick 2: the next step is a boot; pin the successful outcome.
    let action = ControlPlane::reconcile_vm(&d, &a, &hosts);
    assert_eq!(action, Action::BootVm);
    ControlPlane::apply_action_with(action, &mut a, &d, &mut hosts, false);
    assert_eq!(a.state, VmState::Running);
    // The boot touched no host accounting.
    assert_eq!(hosts[0].used_cpu, 2);
    assert_eq!(hosts[0].used_memory_mb, 2048);
}

#[test]
fn boot_failure_resolves_to_failed() {
    let mut hosts = vec![host(1, 8, 2, 16384, 2048, true)];
    let d = desired(1, 2, 2048, VmState::Running);
    let mut a = ActualVm {
        id: 1,
        state: VmState::Allocated,
        host_id: Some(1),
        cpu: 2,
        memory_mb: 2048,
    };
    let action = ControlPlane::reconcile_vm(&d, &a, &hosts);
    assert_eq!(action, Action::BootVm);
    ControlPlane::apply_action_with(action, &mut a, &d, &mut hosts, true);
    assert_eq!(a.state, VmState::Failed);
    assert_eq!(a.host_id, Some(1));
}

#[test]
fn scenario_no_capacity_keeps_vm_requested() {
    let mut hosts = vec![host(1, 1, 0, 16384, 0, true)];
    let d = desired(1, 2, 2048, VmState::Running);
    let mut a = requested(1);

    for _ in 0..3 {
        let action = ControlPlane::reconcile_vm(&d, &a, &hosts);
        assert_eq!(action, Action::NoOp);
        ControlPlane::apply_action_with(action, &mut a, &d, &mut hosts, false);
        assert_eq!(a.state, VmState::Requested);
        assert_eq!(a.host_id, None);
        assert_eq!(hosts[0].used_cpu, 0);
    }
}

#[test]
fn scenario_release_returns_resources_then_noop() {
    let mut hosts = vec![host(1, 8, 2, 16384, 2048, true)];
    let d = desired(1, 2, 2048, VmState::Destroyed);
    let mut a = ActualVm {
        id: 1,
        state: VmState::Running,
        host_id: Some(1),
        cpu: 2,
        memory_mb: 2048,
    };

    let action = ControlPlane::reconcile_vm(&d, &a, &hosts);
    assert_eq!(action, Action::ReleaseResources);
    ControlPlane::apply_action_with(action, &mut a, &d, &mut hosts, false);
    assert_eq!(hosts[0].used_cpu, 0);
    assert_eq!(hosts[0].used_memory_mb, 0);
    assert_eq!(a.host_id, None);
    assert_eq!(a.cpu, 0);
    assert_eq!(a.memory_mb, 0);
    assert_eq!(a.state, VmState::Destroyed);

    // Next tick with the same desired target: already converged.
    let action = ControlPlane::reconcile_vm(&d, &a, &hosts);
    assert_eq!(action, Action::NoOp);
}

#[test]
fn scenario_failed_vm_with_running_target_reallocates() {
    let hosts = vec![host(1, 8, 0, 16384, 0, true)];
    let d = desired(1, 2, 2048, VmState::Running);
    let a = ActualVm { id: 1, state: VmState::Failed, host_id: None, cpu: 0, memory_mb: 0 };

    // The Failed-with-Running-target branch takes priority: allocation, not boot.
    let action = ControlPlane::reconcile_vm(&d, &a, &hosts);
    assert_eq!(action, Action::AllocateHost { host_id: 1 });
}

#[test]
fn allocation_is_guarded_by_existing_host_reference() {
    // A Failed VM still backed by a host is planned an allocation, but the
    // executor's idempotency guard leaves the record and the pool untouched.
    let mut hosts = vec![host(1, 8, 2, 16384, 2048, true)];
    let d = desired(1, 2, 2048, VmState::Running);
    let mut a = ActualVm {
        id: 1,
        state: VmState::Failed,
        host_id: Some(1),
        cpu: 2,
        memory_mb: 2048,
    };
    let action = ControlPlane::reconcile_vm(&d, &a, &hosts);
    assert_eq!(action, Action::AllocateHost { host_id: 1 });
    ControlPlane::apply_action_with(action, &mut a, &d, &mut hosts, false);
    assert_eq!(a.state, VmState::Failed);
    assert_eq!(a.cpu, 2);
    assert_eq!(hosts[0].used_cpu, 2);
    assert_eq!(hosts[0].used_memory_mb, 2048);
}

#[test]
fn used_resources_equal_sum_of_backed_vms() {
    let mut hosts = vec![host(1, 8, 0, 16384, 0, true)];
    let d1 = desired(1, 2, 2048, VmState::Running);
    let d2 = desired(2, 3, 4096, VmState::Running);
    let mut a1 = requested(1);
    let mut a2 = requested(2);

    let act1 = ControlPlane::reconcile_vm(&d1, &a1, &hosts);
    ControlPlane::apply_action_with(act1, &mut a1, &d1, &mut hosts, false);
    let act2 = ControlPlane::reconcile_vm(&d2, &a2, &hosts);
    ControlPlane::apply_action_with(act2, &mut a2, &d2, &mut hosts, false);

    assert_eq!(hosts[0].used_cpu, a1.cpu + a2.cpu);
    assert_eq!(hosts[0].used_memory_mb, a1.memory_mb + a2.memory_mb);
    assert!(hosts[0].used_cpu <= hosts[0].total_cpu);
    assert!(hosts[0].used_memory_mb <= hosts[0].total_memory_mb);

    // Releasing one VM gives exactly its reservation back.
    let d1_gone = desired(1, 2, 2048, VmState::Destroyed);
    let act = ControlPlane::reconcile_vm(&d1_gone, &a1, &hosts);
    assert_eq!(act, Action::ReleaseResources);
    ControlPlane::apply_action_with(act, &mut a1, &d1_gone, &mut hosts, false);
    assert_eq!(hosts[0].used_cpu, a2.cpu);
    assert_eq!(hosts[0].used_memory_mb, a2.memory_mb);
}

#[test]
fn noop_on_converged_vm_mutates_nothing() {
    let mut hosts = vec![host(1, 8, 2, 16384, 2048, true)];
    let d = desired(1, 2, 2048, VmState::Running);
    let mut a = ActualVm {
        id: 1,
        state: VmState::Running,
        host_id: Some(1),
        cpu: 2,
        memory_mb: 2048,
    };
    let action = ControlPlane::reconcile_vm(&d, &a, &hosts);
    assert_eq!(action, Action::NoOp);
    ControlPlane::apply_action_with(action, &mut a, &d, &mut hosts, true);
    assert_eq!(a.state, VmState::Running);
    assert_eq!(a.host_id, Some(1));
    assert_eq!(a.cpu, 2);
    assert_eq!(a.memory_mb, 2048);
    assert_eq!(hosts[0], host(1, 8, 2, 16384, 2048, true));
}

#[test]
fn destroyed_vm_is_terminal_for_every_target() {
    let hosts = vec![host(1, 8, 0, 16384, 0, true)];
    let a = ActualVm { id: 1, state: VmState::Destroyed, host_id: None, cpu: 0, memory_mb: 0 };
    for target in [
        VmState::Requested,
        VmState::Allocated,
        VmState::Booting,
        VmState::Running,
        VmState::Stopping,
        VmState::Stopped,
        VmState::Destroyed,
        VmState::Failed,
    ] {
        let d = desired(1, 2, 2048, target);
        assert_eq!(ControlPlane::reconcile_vm(&d, &a, &hosts), Action::NoOp);
    }
}

#[test]
fn running_vm_with_stopped_target_stops() {
    let mut hosts = vec![host(1, 8, 2, 16384, 2048, true)];
    let d = desired(1, 2, 2048, VmState::Stopped);
    let mut a = ActualVm {
        id: 1,
        state: VmState::Running,
        host_id: Some(1),
        cpu: 2,
        memory_mb: 2048,
    };
    let action = ControlPlane::reconcile_vm(&d, &a, &hosts);
    assert_eq!(action, Action::StopVm);
    ControlPlane::apply_action_with(action, &mut a, &d, &mut hosts, false);
    assert_eq!(a.state, VmState::Stopped);
    assert_eq!(a.host_id, Some(1));
    assert_eq!(hosts[0].used_cpu, 2);
}

#[test]
fn unhandled_state_target_pair_degenerates_to_noop() {
    let hosts = vec![host(1, 8, 0, 16384, 0, true)];
    let d = desired(1, 2, 2048, VmState::Running);
    let a = ActualVm {
        id: 1,
        state: VmState::Stopping,
        host_id: Some(1),
        cpu: 2,
        memory_mb: 2048,
    };
    assert_eq!(ControlPlane::reconcile_vm(&d, &a, &hosts), Action::NoOp);
}

#[test]
fn requested_vm_with_destroyed_target_attempts_placement_first() {
    // Policy quirk, kept as designed: the Requested branch has priority over
    // the release rule, whatever the target.
    let hosts = vec![host(1, 8, 0, 16384, 0, true)];
    let d = desired(1, 2, 2048, VmState::Destroyed);
    let a = requested(1);
    assert_eq!(
        ControlPlane::reconcile_vm(&d, &a, &hosts),
        Action::AllocateHost { host_id: 1 }
    );
}

#[test]
fn placement_is_first_fit_and_deterministic() {
    let dead = host(7, 8, 0, 16384, 0, false);
    let full = host(8, 2, 2, 16384, 0, true);
    let fits_a = host(9, 8, 0, 16384, 0, true);
    let fits_b = host(10, 8, 0, 16384, 0, true);
    let hosts = vec![dead, full, fits_a, fits_b];
    let d = desired(1, 2, 2048, VmState::Running);

    // The first live host with room wins; dead and full hosts are skipped.
    assert_eq!(find_placement(&hosts, &d), Some(9));
    // Same inputs, same answer.
    assert_eq!(find_placement(&hosts, &d), Some(9));

    let no_room = desired(2, 9, 2048, VmState::Running);
    assert_eq!(find_placement(&hosts, &no_room), None);
}

#[test]
fn has_resources_for_is_exact_at_the_boundary() {
    let h = host(1, 8, 6, 16384, 14336, true);
    assert!(h.has_resources_for(&desired(1, 2, 2048, VmState::Running)));
    assert!(!h.has_resources_for(&desired(1, 3, 2048, VmState::Running)));
    assert!(!h.has_resources_for(&desired(1, 2, 2049, VmState::Running)));
}

#[test]
fn liveness_gates_placement_but_not_the_resource_check() {
    let h = host(1, 8, 0, 16384, 0, false);
    let d = desired(1, 2, 2048, VmState::Running);
    assert!(h.has_resources_for(&d));
    assert_eq!(find_placement(&vec![h], &d), None);
}

#[test]
fn reserve_and_release_book_exact_amounts() {
    let mut h = host(1, 8, 0, 16384, 0, true);
    h.reserve(2, 2048);
    assert_eq!(h.used_cpu, 2);
    assert_eq!(h.used_memory_mb, 2048);
    h.reserve(3, 4096);
    assert_eq!(h.used_cpu, 5);
    assert_eq!(h.used_memory_mb, 6144);
    let underflow = h.release(3, 4096);
    assert!(!underflow);
    assert_eq!(h.used_cpu, 2);
    assert_eq!(h.used_memory_mb, 2048);
}

#[test]
fn release_underflow_is_clamped_and_reported() {
    let mut h = host(1, 8, 2, 16384, 1024, true);
    let underflow = h.release(5, 4096);
    assert!(underflow);
    assert_eq!(h.used_cpu, 0);
    assert_eq!(h.used_memory_mb, 0);
    // A clean release reports nothing.
    let mut h2 = host(1, 8, 2, 16384, 1024, true);
    assert!(!h2.release(2, 1024));
}

#[test]
fn transition_graph_edges() {
    assert!(can_transition(VmState::Requested, VmState::Allocated));
    assert!(can_transition(VmState::Requested, VmState::Failed));
    assert!(can_transition(VmState::Allocated, VmState::Booting));
    assert!(can_transition(VmState::Booting, VmState::Running));
    assert!(can_transition(VmState::Running, VmState::Stopping));
    assert!(can_transition(VmState::Stopping, VmState::Stopped));
    assert!(can_transition(VmState::Stopped, VmState::Destroyed));
    assert!(can_transition(VmState::Failed, VmState::Allocated));
    assert!(can_transition(VmState::Failed, VmState::Failed));

    assert!(!can_transition(VmState::Requested, VmState::Running));
    assert!(!can_transition(VmState::Allocated, VmState::Running));
    assert!(!can_transition(VmState::Running, VmState::Stopped));
    assert!(!can_transition(VmState::Stopped, VmState::Requested));
    for to in [
        VmState::Requested,
        VmState::Allocated,
        VmState::Booting,
        VmState::Running,
        VmState::Stopping,
        VmState::Stopped,
        VmState::Destroyed,
        VmState::Failed,
    ] {
        assert!(!can_transition(VmState::Destroyed, to));
    }
}

#[test]
fn find_host_index_returns_first_match() {
    let hosts = vec![host(5, 1, 0, 1, 0, true), host(9, 1, 0, 1, 0, true)];
    assert_eq!(find_host_index(&hosts, 9), Some(1));
    assert_eq!(find_host_index(&hosts, 5), Some(0));
    assert_eq!(find_host_index(&hosts, 6), None);
}

#[test]
fn control_plane_new_seeds_one_idle_host() {
    let cp = ControlPlane::new();
    assert!(cp.desired_vms.is_empty());
    assert!(cp.actual_vms.is_empty());
    assert_eq!(cp.hosts.len(), 1);
    assert_eq!(cp.hosts[0], host(1, 8, 0, 16384, 0, true));
}

#[test]
fn randomized_boot_resolves_to_running_or_failed() {
    // The executor with an ambient randomness source: whatever the draw, a
    // boot lands on one of the two documented resolutions and the host
    // accounting is untouched.
    for _ in 0..20 {
        let mut hosts = vec![host(1, 8, 2, 16384, 2048, true)];
        let d = desired(1, 2, 2048, VmState::Running);
        let mut a = ActualVm {
            id: 1,
            state: VmState::Allocated,
            host_id: Some(1),
            cpu: 2,
            memory_mb: 2048,
        };
        ControlPlane::apply_action(Action::BootVm, &mut a, &d, &mut hosts);
        assert!(a.state == VmState::Running || a.state == VmState::Failed);
        assert_eq!(hosts[0].used_cpu, 2);
        assert_eq!(hosts[0].used_memory_mb, 2048);
    }
}

#[test]
fn release_of_unbacked_vm_only_marks_it_destroyed() {
    let mut hosts = vec![host(1, 8, 0, 16384, 0, true)];
    let d = desired(1, 2, 2048, VmState::Destroyed);
    let mut a = ActualVm { id: 1, state: VmState::Stopped, host_id: None, cpu: 0, memory_mb: 0 };
    let action = ControlPlane::reconcile_vm(&d, &a, &hosts);
    assert_eq!(action, Action::ReleaseResources);
    ControlPlane::apply_action_with(action, &mut a, &d, &mut hosts, false);
    assert_eq!(a.state, VmState::Destroyed);
    assert_eq!(hosts[0].used_cpu, 0);
    assert_eq!(hosts[0].used_memory_mb, 0);
}
