//! How many worker threads the proxy runs its sessions on.

use vstd::prelude::*;

verus! {

/// `num_cpus::get` counts the logical processors that this process may run
/// on, as scheduling affinity and control groups leave them to it. The count
/// depends on the machine: nothing is claimed of it.
pub assume_specification[ num_cpus::get ]() -> (processors: usize);

/// The workers for a machine of `processors` processors: one processor is
/// left to the loop that accepts clients, and there is at least one worker.
pub open spec fn workers_for(processors: usize) -> usize {
    if processors >= 2 {
        (processors - 1) as usize
    } else {
        1
    }
}

/// The workers for a machine of `processors` processors.
pub fn worker_threads_for(processors: usize) -> (workers: usize)
    ensures
        workers == workers_for(processors),
        workers >= 1,
{
    if processors >= 2 {
        processors - 1
    } else {
        1
    }
}

/// The workers for this machine.
pub fn worker_thread_count() -> (workers: usize)
    ensures
        workers >= 1,
{
    worker_threads_for(num_cpus::get())
}

} // verus!
