//! Resource limits of containers: how much memory and how many table entries a container may
//! grow to, and the decisions on its requests to grow.

use vstd::prelude::*;

verus! {

/// The resources a container is allowed to use.
#[derive(Debug, Clone, Copy)]
pub struct ContainerResourceLimit {
    /// The maximum amount of memory (in bytes) that the container is allowed to use.
    pub memory: usize,
    /// The maximum number of entries in the resource table that the container is allowed to use.
    pub table: usize,
}

impl ContainerResourceLimit {
    /// 10 MiB of memory and 10 000 table entries.
    pub fn small_defaults() -> (limit: Self)
        ensures
            limit.memory == 10 * 1024 * 1024,
            limit.table == 10_000,
    {
        Self {
            memory: 10 * 1024 * 1024,  // 10 MiB
            table: 10_000,  // 10_000 entries
        }
    }
}

/// The resources a container uses, as last granted.
#[derive(Debug, Default)]
pub struct ContainerResourceStats {
    pub memory_usage: usize,
    pub table_usage: usize,
}

/// Decides a container's requests to grow its memory and its resource table against its limits,
/// and records what was granted.
#[derive(Debug)]
pub struct ContainerResourceLimiter {
    pub stats: ContainerResourceStats,
    pub limits: ContainerResourceLimit,
}

/// Whether the recorded usage lies within the limits.
pub open spec fn within_limits(stats: ContainerResourceStats, limits: ContainerResourceLimit) -> bool {
    stats.memory_usage <= limits.memory && stats.table_usage <= limits.table
}

impl ContainerResourceLimiter {
    /// A limiter that records into `stats` and decides by `limits`.
    pub fn new(stats: ContainerResourceStats, limits: ContainerResourceLimit) -> (limiter: Self)
        ensures
            limiter.stats == stats,
            limiter.limits == limits,
    {
        Self { stats, limits }
    }

    /// Decides a request to grow memory from `current` to `desired` bytes: granted (and recorded
    /// as the memory usage) unless `desired` exceeds the memory limit.
    pub fn memory_growing(&mut self, current: usize, desired: usize, maximum: Option<usize>) -> (granted: bool)
        ensures
            granted == (desired <= old(self).limits.memory),
            final(self).limits == old(self).limits,
            final(self).stats.table_usage == old(self).stats.table_usage,
            final(self).stats.memory_usage == if granted {
                desired
            } else {
                old(self).stats.memory_usage
            },
    {
        if desired > self.limits.memory {
            return false;
        }
        self.stats.memory_usage = desired;
        true
    }

    /// Decides a request to grow the resource table from `current` to `desired` entries: granted
    /// (and recorded as the table usage) unless `desired` exceeds the table limit.
    pub fn table_growing(&mut self, current: usize, desired: usize, maximum: Option<usize>) -> (granted: bool)
        ensures
            granted == (desired <= old(self).limits.table),
            final(self).limits == old(self).limits,
            final(self).stats.memory_usage == old(self).stats.memory_usage,
            final(self).stats.table_usage == if granted {
                desired
            } else {
                old(self).stats.table_usage
            },
    {
        if desired > self.limits.table {
            return false;
        }
        self.stats.table_usage = desired;
        true
    }
}

/// The recorded usage never exceeds the limits: a limiter within its limits stays within them
/// after any decision on memory or table growth.
pub proof fn lemma_usage_within_limits(
    stats: ContainerResourceStats,
    limits: ContainerResourceLimit,
    desired: usize,
)
    requires
        within_limits(stats, limits),
    ensures
        within_limits(
            ContainerResourceStats {
                memory_usage: if desired <= limits.memory {
                    desired
                } else {
                    stats.memory_usage
                },
                table_usage: stats.table_usage,
            },
            limits,
        ),
        within_limits(
            ContainerResourceStats {
                memory_usage: stats.memory_usage,
                table_usage: if desired <= limits.table {
                    desired
                } else {
                    stats.table_usage
                },
            },
            limits,
        ),
{
}

} // verus!
