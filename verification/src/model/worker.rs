use vstd::prelude::*;

verus! {

/// The most recent load a worker reported.
///
/// A worker measures its CPU and memory usage as percentages in IEEE-754
/// double precision. The register never computes with these numbers; it only
/// stores and forwards them, so each one is held here as the 64-bit pattern
/// of the double (`f64::to_bits`), which round-trips without loss.
#[derive(Clone, Copy, Debug, PartialEq, Eq, Structural)]
pub struct Load {
    pub cpu_usage_bits: u64,
    pub memory_usage_bits: u64,
}

impl Load {
    /// Builds a load report from the bit patterns of the two percentages.
    pub fn new(cpu_usage_bits: u64, memory_usage_bits: u64) -> (load: Load)
        ensures
            load.cpu_usage_bits == cpu_usage_bits,
            load.memory_usage_bits == memory_usage_bits,
    {
        Load { cpu_usage_bits, memory_usage_bits }
    }
}

/// A worker known to the distributor, addressed by its base URL (`ip`).
///
/// `is_available` says whether it may take new work (it is cleared while the
/// worker is locked or overloaded); `is_dead` says whether its last health
/// check failed.
#[derive(Clone, Debug)]
pub struct Worker {
    pub is_available: bool,
    pub load: Load,
    pub is_dead: bool,
    pub ip: String,
}

impl Worker {
    /// Builds a worker record from its parts.
    pub fn new(is_available: bool, is_dead: bool, ip: String, load: Load) -> (worker: Self)
        ensures
            worker.is_available == is_available,
            worker.is_dead == is_dead,
            worker.ip == ip,
            worker.load == load,
    {
        Worker { is_available, ip, is_dead, load }
    }

    /// A worker may be handed a task when it is available and not dead.
    pub open spec fn is_ready(self) -> bool {
        self.is_available && !self.is_dead
    }

    /// This worker with its availability flag set to `flag`.
    pub open spec fn with_available(self, flag: bool) -> Worker {
        Worker { is_available: flag, ..self }
    }

    /// This worker with its dead flag set to `flag`.
    pub open spec fn with_dead(self, flag: bool) -> Worker {
        Worker { is_dead: flag, ..self }
    }

    /// This worker after a load report: the load is stored and the worker is
    /// available exactly when the report was not over the threshold.
    pub open spec fn with_load(self, load: Load, overloaded: bool) -> Worker {
        Worker { is_available: !overloaded, load: load, ..self }
    }

    /// A fresh worker equal to this one.
    pub fn duplicate(&self) -> (twin: Self)
        ensures
            twin == *self,
    {
        Worker {
            is_available: self.is_available,
            load: self.load,
            is_dead: self.is_dead,
            ip: self.ip.clone(),
        }
    }
}

} // verus!
