use vstd::prelude::*;

use crate::model::computing_result::ComputingResult;
use crate::model::task::Task;
use crate::model::worker::Worker;

verus! {

/// Where a task is in its lifecycle. The distributor stores a task as
/// `QUEUED`, marks it `COMPUTING` once a worker has it, and ends it as
/// `FINISHED` with a result or as `ERROR` without one.
#[derive(Clone, Copy, Debug, PartialEq, Eq, Structural)]
pub enum Status {
    REQUESTED,
    QUEUED,
    COMPUTING,
    FINISHED,
    ERROR,
}

/// A submitted task as the distributor tracks it: its identifier, the task,
/// its result once there is one, its status and the worker it went to.
#[derive(Clone, Debug)]
pub struct TaskWithResult {
    pub uuid: String,
    pub task: Task,
    pub result: Option<ComputingResult>,
    pub status: Status,
    pub worker: Option<Worker>,
}

impl TaskWithResult {
    /// Builds a task record from its parts.
    pub fn new(
        task: Task,
        result: Option<ComputingResult>,
        uuid: String,
        status: Status,
        worker: Option<Worker>,
    ) -> (record: Self)
        ensures
            record.task == task,
            record.result == result,
            record.uuid == uuid,
            record.status == status,
            record.worker == worker,
    {
        Self { task, result, uuid, status, worker }
    }

    /// This record with its status replaced.
    pub open spec fn with_status(self, status: Status) -> TaskWithResult {
        TaskWithResult { status: status, ..self }
    }

    /// This record with the worker it went to recorded.
    pub open spec fn with_worker(self, worker: Worker) -> TaskWithResult {
        TaskWithResult { worker: Some(worker), ..self }
    }

    /// This record with its result recorded.
    pub open spec fn with_result(self, result: ComputingResult) -> TaskWithResult {
        TaskWithResult { result: Some(result), ..self }
    }

    /// A fresh record equal to this one.
    pub fn duplicate(&self) -> (twin: Self)
        ensures
            twin == *self,
    {
        let result = match &self.result {
            Some(r) => Some(r.duplicate()),
            None => None,
        };
        let worker = match &self.worker {
            Some(w) => Some(w.duplicate()),
            None => None,
        };
        TaskWithResult {
            uuid: self.uuid.clone(),
            task: self.task.duplicate(),
            result: result,
            status: self.status,
            worker: worker,
        }
    }
}

} // verus!
