//! The capability prober's view of the hardware. The binary enumerates the
//! physical adapters through the explicit API and records, for each, its name
//! and the capability flags and queue count of each queue family; the
//! selection logic here then works on those plain values.

use vstd::prelude::*;

verus! {

/// The capabilities of one queue family of an adapter.
#[derive(Clone, Copy, Debug, PartialEq, Eq, Structural)]
pub struct QueueFamily {
    /// Whether the family's queues can execute graphics commands.
    pub supports_graphics: bool,
    /// Whether the family's queues can dispatch compute work.
    pub supports_compute: bool,
    /// How many queues the family offers.
    pub queues_count: u32,
}

/// One hardware adapter, as the capability prober reports it.
#[derive(Clone, Debug)]
pub struct Adapter {
    /// The adapter's display name.
    pub name: String,
    /// The adapter's queue families, in enumeration order.
    pub queue_families: Vec<QueueFamily>,
}

/// Everything the capability prober found: the adapters in enumeration order.
#[derive(Clone, Debug)]
pub struct ProbeReport {
    /// The enumerated adapters; empty when the explicit API is unusable.
    pub adapters: Vec<Adapter>,
}

impl ProbeReport {
    /// How many adapters the prober found.
    pub fn adapter_count(&self) -> (n: usize)
        ensures
            n == self.adapters@.len(),
    {
        self.adapters.len()
    }
}

/// Whether some queue family of `adapter` can dispatch compute work.
pub open spec fn has_compute_family(adapter: Adapter) -> bool {
    exists|j: int|
        0 <= j < adapter.queue_families@.len()
            && (#[trigger] adapter.queue_families@[j]).supports_compute
}

/// Find the first queue family of `adapter` whose queues can dispatch compute
/// work: the returned index is the least compute-capable one, and `None` comes
/// back exactly when no family of the adapter supports compute.
pub fn select_queue_family(adapter: &Adapter) -> (r: Option<usize>)
    ensures
        match r {
            Some(i) => {
                &&& i < adapter.queue_families@.len()
                &&& adapter.queue_families@[i as int].supports_compute
                &&& forall|j: int|
                    0 <= j < i ==> !(#[trigger] adapter.queue_families@[j]).supports_compute
            },
            None => forall|j: int|
                0 <= j < adapter.queue_families@.len()
                    ==> !(#[trigger] adapter.queue_families@[j]).supports_compute,
        },
{
    let mut i: usize = 0;
    while i < adapter.queue_families.len()
        invariant
            i <= adapter.queue_families@.len(),
            forall|j: int|
                0 <= j < i ==> !(#[trigger] adapter.queue_families@[j]).supports_compute,
        decreases adapter.queue_families@.len() - i,
    {
        if adapter.queue_families[i].supports_compute {
            return Some(i);
        }
        i = i + 1;
    }
    None
}

} // verus!
