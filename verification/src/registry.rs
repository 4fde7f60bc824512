//! The worker registry: what the pool remembers of each worker it has met.
use vstd::prelude::*;
use crate::address::WorkerAddress;
use crate::assoc::AssocMap;

verus! {

/// How many times easier than the network's target a worker's first share
/// target is.
pub const INITIAL_SHARE_MULTIPLIER: u64 = 50;

/// Bookkeeping of one worker.
#[derive(Clone, Copy, Debug, PartialEq, Eq, Structural)]
pub struct WorkerInfo {
    /// Time of the worker's first contact or of its last credited share, in
    /// seconds since the epoch.
    pub last_submitted: i64,
    /// The difficulty target that a share of this worker has to clear.
    pub share_difficulty: u64,
    /// Shares credited to the worker since the counter was last reset.
    pub shares_since_reset: u32,
}

/// The share target of a worker at first contact: the network's target times
/// [`INITIAL_SHARE_MULTIPLIER`], held at the largest value where the product
/// does not fit.
pub open spec fn initial_share_difficulty(network_target: u64) -> u64 {
    if network_target * INITIAL_SHARE_MULTIPLIER > u64::MAX {
        u64::MAX
    } else {
        (network_target * INITIAL_SHARE_MULTIPLIER) as u64
    }
}

/// A share counter after one more share. It stays at its largest value.
pub open spec fn bumped(count: u32) -> u32 {
    if count == u32::MAX {
        count
    } else {
        (count + 1) as u32
    }
}

/// The row of a worker at first contact.
pub open spec fn first_contact(now: i64, network_target: u64) -> WorkerInfo {
    WorkerInfo {
        last_submitted: now,
        share_difficulty: initial_share_difficulty(network_target),
        shares_since_reset: 0,
    }
}

/// The registry once `worker` is known: a worker that has a row keeps it, a
/// new one gets the row of a first contact.
pub open spec fn with_worker(
    workers: Map<WorkerAddress, WorkerInfo>,
    worker: WorkerAddress,
    now: i64,
    network_target: u64,
) -> Map<WorkerAddress, WorkerInfo> {
    if workers.contains_key(worker) {
        workers
    } else {
        workers.insert(worker, first_contact(now, network_target))
    }
}

/// The registry after a share of `worker` was credited at time `now`.
pub open spec fn with_share(
    workers: Map<WorkerAddress, WorkerInfo>,
    worker: WorkerAddress,
    now: i64,
) -> Map<WorkerAddress, WorkerInfo> {
    workers.insert(
        worker,
        WorkerInfo {
            last_submitted: now,
            share_difficulty: workers[worker].share_difficulty,
            shares_since_reset: bumped(workers[worker].shares_since_reset),
        },
    )
}

/// Computes [`initial_share_difficulty`].
pub fn share_difficulty_for(network_target: u64) -> (difficulty: u64)
    ensures
        difficulty == initial_share_difficulty(network_target),
        difficulty >= network_target,
{
    if network_target > u64::MAX / INITIAL_SHARE_MULTIPLIER {
        u64::MAX
    } else {
        network_target * INITIAL_SHARE_MULTIPLIER
    }
}

/// Table of the workers that the pool has met.
pub struct WorkerRegistry {
    workers: AssocMap<WorkerAddress, WorkerInfo>,
}

impl View for WorkerRegistry {
    type V = Map<WorkerAddress, WorkerInfo>;

    closed spec fn view(&self) -> Map<WorkerAddress, WorkerInfo> {
        self.workers@
    }
}

impl WorkerRegistry {
    /// No worker has two rows.
    pub closed spec fn wf(&self) -> bool {
        self.workers.wf()
    }

    /// A registry without workers.
    pub fn new() -> (registry: Self)
        ensures
            registry.wf(),
            registry@ == Map::<WorkerAddress, WorkerInfo>::empty(),
    {
        WorkerRegistry { workers: AssocMap::new() }
    }

    /// The row of `worker`, if it has one.
    pub fn get(&self, worker: &WorkerAddress) -> (info: Option<WorkerInfo>)
        requires
            self.wf(),
        ensures
            info == if self@.contains_key(*worker) {
                Some(self@[*worker])
            } else {
                None::<WorkerInfo>
            },
    {
        match self.workers.get(worker) {
            Some(info) => Some(*info),
            None => None,
        }
    }

    /// Makes sure that `worker` has a row and returns its share difficulty.
    /// A worker met for the first time gets `now` as its time and the
    /// initial share difficulty for `network_target`.
    pub fn ensure(&mut self, worker: WorkerAddress, now: i64, network_target: u64) -> (difficulty:
        u64)
        requires
            old(self).wf(),
        ensures
            final(self).wf(),
            final(self)@ == with_worker(old(self)@, worker, now, network_target),
            difficulty == final(self)@[worker].share_difficulty,
    {
        match self.workers.get(&worker) {
            Some(info) => info.share_difficulty,
            None => {
                let difficulty = share_difficulty_for(network_target);
                self.workers.insert(
                    worker,
                    WorkerInfo {
                        last_submitted: now,
                        share_difficulty: difficulty,
                        shares_since_reset: 0,
                    },
                );
                difficulty
            },
        }
    }

    /// Books a credited share of `worker`: sets its time to `now` and counts
    /// the share.
    pub fn record_share(&mut self, worker: WorkerAddress, now: i64)
        requires
            old(self).wf(),
            old(self)@.contains_key(worker),
        ensures
            final(self).wf(),
            final(self)@ == with_share(old(self)@, worker, now),
    {
        if let Some(i) = self.workers.find(&worker) {
            let info = self.workers.values[i];
            let count: u32 = if info.shares_since_reset == u32::MAX {
                info.shares_since_reset
            } else {
                info.shares_since_reset + 1
            };
            self.workers.insert(
                worker,
                WorkerInfo {
                    last_submitted: now,
                    share_difficulty: info.share_difficulty,
                    shares_since_reset: count,
                },
            );
        }
    }
}

} // verus!
