use vstd::prelude::*;

verus! {

/// The settings of one fuzzing run: how many workers run concurrently, how
/// many iterations the run performs in total, and the exclusive upper bound
/// on the length of a generated input.
pub struct FuzzConfiguration {
    pub worker_count: u64,
    pub total_iterations: u64,
    pub max_input_bytes: usize,
}

/// A malformed configuration, rejected before any worker starts.
#[derive(Debug)]
pub enum ConfigurationError {
    /// `worker_count` was zero: no worker could run any iteration.
    ZeroWorkers,
    /// `max_input_bytes` was zero: not even the empty input could be drawn.
    ZeroMaxInputBytes,
}

impl FuzzConfiguration {
    /// A configuration is well formed when at least one worker runs and the
    /// input generator has a non-empty range of lengths to draw from.
    pub open spec fn well_formed(self) -> bool {
        self.worker_count > 0 && self.max_input_bytes > 0
    }

    /// Builds a configuration, rejecting one with zero workers or a zero
    /// input-length bound before any worker starts.
    pub fn new(worker_count: u64, total_iterations: u64, max_input_bytes: usize)
        -> (r: Result<FuzzConfiguration, ConfigurationError>)
        ensures
            worker_count == 0 <==> r matches Err(ConfigurationError::ZeroWorkers),
            (worker_count > 0 && max_input_bytes == 0)
                <==> r matches Err(ConfigurationError::ZeroMaxInputBytes),
            r matches Ok(c) ==> c.worker_count == worker_count
                && c.total_iterations == total_iterations
                && c.max_input_bytes == max_input_bytes
                && c.well_formed(),
            (worker_count > 0 && max_input_bytes > 0) <==> r is Ok,
    {
        if worker_count == 0 {
            Err(ConfigurationError::ZeroWorkers)
        } else if max_input_bytes == 0 {
            Err(ConfigurationError::ZeroMaxInputBytes)
        } else {
            Ok(FuzzConfiguration { worker_count, total_iterations, max_input_bytes })
        }
    }

    /// Each worker's share of the iteration budget: plain integer division,
    /// so a remainder of fewer than `worker_count` iterations is dropped from
    /// the run rather than redistributed.
    pub fn iterations_per_worker(&self) -> (r: u64)
        requires
            self.worker_count > 0,
        ensures
            r == self.total_iterations / self.worker_count,
    {
        self.total_iterations / self.worker_count
    }
}

/// The iteration budget is partitioned by integer division: the shares of all
/// workers together never exceed the configured total, and what is dropped is
/// smaller than one further share per worker could absorb.
pub proof fn lemma_partition_drops_remainder(total: u64, workers: u64)
    requires
        workers > 0,
    ensures
        (total / workers) * workers <= total,
        total - (total / workers) * workers < workers,
{
    assert((total / workers) * workers <= total && total - (total / workers) * workers < workers)
        by (nonlinear_arith)
        requires workers > 0;
}

} // verus!
