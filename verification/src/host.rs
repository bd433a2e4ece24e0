//! The host registry: compute hosts with finite CPU and memory capacity,
//! the capacity check, first-fit placement, and the reserve/release
//! bookkeeping operations.

use vstd::prelude::*;
use crate::vm::DesiredVm;

verus! {

/// A compute host with total and used CPU/memory counters and a liveness
/// flag. The liveness flag is a read-only input to placement.
#[derive(Debug, Clone, Copy, PartialEq, Eq, Hash, Structural)]
pub struct Host {
    pub id: u64,
    pub total_cpu: u8,
    pub used_cpu: u8,
    pub total_memory_mb: u32,
    pub used_memory_mb: u32,
    pub is_alive: bool,
}

impl Host {
    /// Capacity invariant: used never exceeds total, for either resource.
    pub open spec fn wf(self) -> bool {
        self.used_cpu <= self.total_cpu && self.used_memory_mb <= self.total_memory_mb
    }

    /// The free capacity covers the desired reservation (liveness is not
    /// considered here).
    pub open spec fn has_resources_spec(self, desired: DesiredVm) -> bool {
        &&& self.total_cpu - self.used_cpu >= desired.cpu
        &&& self.total_memory_mb - self.used_memory_mb >= desired.memory_mb
    }

    /// A host qualifies for placement when it is alive and has room.
    pub open spec fn has_capacity(self, desired: DesiredVm) -> bool {
        self.is_alive && self.has_resources_spec(desired)
    }

    /// Answers whether the host's free capacity covers `desired`.
    pub fn has_resources_for(&self, desired: &DesiredVm) -> (r: bool)
        requires
            self.wf(),
        ensures
            r == self.has_resources_spec(*desired),
    {
        self.total_cpu - self.used_cpu >= desired.cpu
            && self.total_memory_mb - self.used_memory_mb >= desired.memory_mb
    }

    /// The host after reserving `cpu`/`memory_mb` on it.
    pub open spec fn reserved(self, cpu: u8, memory_mb: u32) -> Host {
        Host {
            used_cpu: (self.used_cpu + cpu) as u8,
            used_memory_mb: (self.used_memory_mb + memory_mb) as u32,
            ..self
        }
    }

    /// Increments the used counters. The caller must have just confirmed
    /// capacity: reservation does not re-check it.
    pub fn reserve(&mut self, cpu: u8, memory_mb: u32)
        requires
            old(self).used_cpu + cpu <= old(self).total_cpu,
            old(self).used_memory_mb + memory_mb <= old(self).total_memory_mb,
        ensures
            *final(self) == old(self).reserved(cpu, memory_mb),
    {
        self.used_cpu = self.used_cpu + cpu;
        self.used_memory_mb = self.used_memory_mb + memory_mb;
    }

    /// The host after releasing `cpu`/`memory_mb`, clamped at zero.
    pub open spec fn released(self, cpu: u8, memory_mb: u32) -> Host {
        Host {
            used_cpu: if cpu <= self.used_cpu {
                (self.used_cpu - cpu) as u8
            } else {
                0
            },
            used_memory_mb: if memory_mb <= self.used_memory_mb {
                (self.used_memory_mb - memory_mb) as u32
            } else {
                0
            },
            ..self
        }
    }

    /// Decrements the used counters. A release that would drive a counter
    /// below zero indicates an accounting bug elsewhere; it is defensively
    /// clamped to zero and reported through the returned flag rather than
    /// allowed to underflow.
    pub fn release(&mut self, cpu: u8, memory_mb: u32) -> (underflow: bool)
        ensures
            *final(self) == old(self).released(cpu, memory_mb),
            underflow == (cpu > old(self).used_cpu || memory_mb > old(self).used_memory_mb),
    {
        let mut underflow = false;
        if cpu <= self.used_cpu {
            self.used_cpu = self.used_cpu - cpu;
        } else {
            self.used_cpu = 0;
            underflow = true;
        }
        if memory_mb <= self.used_memory_mb {
            self.used_memory_mb = self.used_memory_mb - memory_mb;
        } else {
            self.used_memory_mb = 0;
            underflow = true;
        }
        underflow
    }
}

/// All hosts satisfy the capacity invariant.
pub open spec fn hosts_wf(hosts: Seq<Host>) -> bool {
    forall|i: int| 0 <= i < hosts.len() ==> (#[trigger] hosts[i]).wf()
}

/// Host identifiers are pairwise distinct.
pub open spec fn distinct_host_ids(hosts: Seq<Host>) -> bool {
    forall|i: int, j: int|
        0 <= i < j < hosts.len() ==> (#[trigger] hosts[i]).id != (#[trigger] hosts[j]).id
}

/// The identifier of the first host at or after position `i` that qualifies
/// for `desired`.
pub open spec fn first_fit_from(hosts: Seq<Host>, desired: DesiredVm, i: int) -> Option<u64>
    decreases hosts.len() - i,
{
    if i < 0 || i >= hosts.len() {
        None
    } else if hosts[i].has_capacity(desired) {
        Some(hosts[i].id)
    } else {
        first_fit_from(hosts, desired, i + 1)
    }
}

/// First-fit placement: the identifier of the first live host, in registry
/// order, whose free capacity covers `desired`. A deliberate policy choice:
/// deterministic and simple, not an optimization target.
pub open spec fn find_placement_spec(hosts: Seq<Host>, desired: DesiredVm) -> Option<u64> {
    first_fit_from(hosts, desired, 0)
}

/// Scans the registry in order and returns the identifier of the first live
/// host with room for `desired`, or `None` when no host qualifies.
pub fn find_placement(hosts: &Vec<Host>, desired: &DesiredVm) -> (r: Option<u64>)
    requires
        hosts_wf(hosts@),
    ensures
        r == find_placement_spec(hosts@, *desired),
{
    let n: usize = hosts.len();
    let mut i: usize = 0;
    while i < n
        invariant
            0 <= i <= n,
            n == hosts.len(),
            hosts_wf(hosts@),
            find_placement_spec(hosts@, *desired) == first_fit_from(hosts@, *desired, i as int),
        decreases n - i,
    {
        if hosts[i].is_alive && hosts[i].has_resources_for(desired) {
            return Some(hosts[i].id);
        }
        i = i + 1;
    }
    None
}

/// The position of the first host at or after `i` with identifier `id`.
pub open spec fn host_index_from(hosts: Seq<Host>, id: u64, i: int) -> Option<int>
    decreases hosts.len() - i,
{
    if i < 0 || i >= hosts.len() {
        None
    } else if hosts[i].id == id {
        Some(i)
    } else {
        host_index_from(hosts, id, i + 1)
    }
}

/// The position of the first host with identifier `id`, if any.
pub open spec fn host_index_spec(hosts: Seq<Host>, id: u64) -> Option<int> {
    host_index_from(hosts, id, 0)
}

/// Scans the registry in order for the first host with identifier `id`.
pub fn find_host_index(hosts: &Vec<Host>, id: u64) -> (r: Option<usize>)
    ensures
        match r {
            Some(i) => i < hosts.len() && host_index_spec(hosts@, id) == Some(i as int),
            None => host_index_spec(hosts@, id) is None,
        },
{
    let n: usize = hosts.len();
    let mut i: usize = 0;
    while i < n
        invariant
            0 <= i <= n,
            n == hosts.len(),
            host_index_spec(hosts@, id) == host_index_from(hosts@, id, i as int),
        decreases n - i,
    {
        if hosts[i].id == id {
            return Some(i);
        }
        i = i + 1;
    }
    None
}

/// A successful first-fit names a host that is present in the scanned part
/// of the registry and has capacity for `desired`.
pub proof fn lemma_first_fit_witness(hosts: Seq<Host>, desired: DesiredVm, i: int, id: u64)
    requires
        0 <= i,
        first_fit_from(hosts, desired, i) == Some(id),
    ensures
        exists|j: int|
            i <= j < hosts.len() && (#[trigger] hosts[j]).has_capacity(desired)
                && hosts[j].id == id,
    decreases hosts.len() - i,
{
    if i < hosts.len() && hosts[i].has_capacity(desired) {
        assert(i <= i < hosts.len() && hosts[i].has_capacity(desired) && hosts[i].id == id);
    } else {
        lemma_first_fit_witness(hosts, desired, i + 1, id);
    }
}

/// The first matching position is in range and carries the identifier.
pub proof fn lemma_host_index_props(hosts: Seq<Host>, id: u64, i: int, j: int)
    requires
        0 <= i,
        host_index_from(hosts, id, i) == Some(j),
    ensures
        i <= j < hosts.len(),
        hosts[j].id == id,
    decreases hosts.len() - i,
{
    if i < hosts.len() && hosts[i].id != id {
        lemma_host_index_props(hosts, id, i + 1, j);
    }
}

/// A position whose host carries `id`, with no earlier match, is what the
/// scan finds.
pub proof fn lemma_host_index_finds(hosts: Seq<Host>, id: u64, i: int, j: int)
    requires
        0 <= i <= j < hosts.len(),
        hosts[j].id == id,
        forall|k: int| i <= k < j ==> (#[trigger] hosts[k]).id != id,
    ensures
        host_index_from(hosts, id, i) == Some(j),
    decreases j - i,
{
    if i < j {
        lemma_host_index_finds(hosts, id, i + 1, j);
    }
}

} // verus!
