use vstd::prelude::*;

use crate::model::worker::{Load, Worker};
use crate::service::worker_register::{first_ready, WorkerRegister};

verus! {

/// The worker tasks fall back to when no registered worker is ready: the
/// local machine, available and alive, with no load reported.
pub open spec fn is_fallback_worker(w: Worker) -> bool {
    &&& w.is_available
    &&& !w.is_dead
    &&& w.ip@ == "localhost"@
    &&& w.load == Load { cpu_usage_bits: 0, memory_usage_bits: 0 }
}

/// The first, synchronous dispatcher: it sends each task to the first ready
/// worker of its register, or to the local machine when there is none.
pub struct WorkerDistributer {
    pub worker_register: WorkerRegister,
}

impl WorkerDistributer {
    /// A dispatcher over `worker_register`.
    pub fn new(worker_register: WorkerRegister) -> (distributer: Self)
        ensures
            distributer.worker_register == worker_register,
    {
        WorkerDistributer { worker_register }
    }

    /// The worker the next task goes to.
    pub fn target_worker(&self) -> (worker: Worker)
        ensures
            match first_ready(self.worker_register.workers@) {
                Some(w) => worker == w,
                None => is_fallback_worker(worker),
            },
    {
        match self.worker_register.get_available_worker() {
            Some(w) => w.duplicate(),
            None => Worker::new(true, false, "localhost".to_owned(), Load::new(0, 0)),
        }
    }
}

} // verus!
