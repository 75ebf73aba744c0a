//! Configuration for the worker threads that host the engine's tick loop.
//!
//! The threads themselves live outside this crate; what is verified here is
//! the configuration value and the rules it must satisfy before a host may
//! act on it.

use vstd::prelude::*;

verus! {

/// How worker threads are placed onto CPU cores.
#[derive(Clone, Copy, Debug, PartialEq, Eq, Structural)]
pub enum CoreAllocation {
    /// Use the OS default allocation (do not alter core affinity).
    OsDefault,
    /// Pin each thread to a core in the given range.
    PinnedCores { min: usize, max: usize },
    /// Pin all threads to a set of cores.
    DedicatedCoreSet { min: usize, max: usize },
}

/// Why a configuration was rejected.
#[derive(Clone, Copy, Debug, PartialEq, Eq, Structural)]
pub enum ConfigError {
    /// The thread budget is zero, so no work could ever run.
    ZeroMaxThreads,
    /// The stack is smaller than the minimum a worker may be given.
    StackTooSmall,
    /// A pinned core range is empty because its bounds are out of order.
    InvalidCoreRange,
}

/// The smallest stack a worker thread may be given.
pub const MIN_STACK_SIZE_BYTES: usize = 64 * 1024;

/// Configuration of a worker-thread host.
#[derive(Clone, Copy, Debug)]
pub struct Config {
    pub core_allocation: CoreAllocation,
    pub max_threads: usize,
    pub priority: u8,
    pub stack_size_bytes: usize,
}

/// A core-allocation choice is well-formed when its range is ordered.
pub open spec fn core_allocation_valid(allocation: CoreAllocation) -> bool {
    match allocation {
        CoreAllocation::OsDefault => true,
        CoreAllocation::PinnedCores { min, max } => min <= max,
        CoreAllocation::DedicatedCoreSet { min, max } => min <= max,
    }
}

impl Default for Config {
    /// A permissive default: OS thread placement, a small thread budget,
    /// default priority, and a 2 MiB stack. The default always validates.
    fn default() -> (c: Config)
        ensures
            c.core_allocation == CoreAllocation::OsDefault,
            c.max_threads == 8,
            c.priority == 0,
            c.stack_size_bytes == 2 * 1024 * 1024,
    {
        Config {
            core_allocation: CoreAllocation::OsDefault,
            max_threads: 8,
            priority: 0,
            stack_size_bytes: 2 * 1024 * 1024,
        }
    }
}

impl Config {
    /// Checks the configuration and reports the first violation found:
    /// there must be at least one thread, the stack must reach
    /// `MIN_STACK_SIZE_BYTES`, and a pinned core range must be ordered.
    pub fn validate(&self) -> (r: Result<(), ConfigError>)
        ensures
            r == (if self.max_threads == 0 {
                Result::<(), ConfigError>::Err(ConfigError::ZeroMaxThreads)
            } else if self.stack_size_bytes < MIN_STACK_SIZE_BYTES {
                Result::<(), ConfigError>::Err(ConfigError::StackTooSmall)
            } else if !core_allocation_valid(self.core_allocation) {
                Result::<(), ConfigError>::Err(ConfigError::InvalidCoreRange)
            } else {
                Result::<(), ConfigError>::Ok(())
            }),
    {
        if self.max_threads == 0 {
            return Err(ConfigError::ZeroMaxThreads);
        }
        if self.stack_size_bytes < MIN_STACK_SIZE_BYTES {
            return Err(ConfigError::StackTooSmall);
        }
        let range_ok: bool = match self.core_allocation {
            CoreAllocation::OsDefault => true,
            CoreAllocation::PinnedCores { min, max } => min <= max,
            CoreAllocation::DedicatedCoreSet { min, max } => min <= max,
        };
        if !range_ok {
            return Err(ConfigError::InvalidCoreRange);
        }
        Ok(())
    }
}

} // verus!
