use vstd::prelude::*;

use vstd::hash_map::StringHashMap;

use crate::model::computing_result::ComputingResult;
use crate::model::task::Task;
use crate::model::task_with_result::{Status, TaskWithResult};
use crate::model::worker::Worker;

verus! {

/// `c` is a lower-case hexadecimal digit.
pub open spec fn is_lower_hex_digit(c: char) -> bool {
    (48 <= (c as u32) <= 57) || (97 <= (c as u32) <= 102)
}

/// `s` is a random (version 4) UUID in its lower-case hyphenated text form:
/// 36 characters, hyphens at positions 8, 13, 18 and 23, hexadecimal digits
/// elsewhere, the version digit `4` at position 14 and one of `8`, `9`, `a`,
/// `b` (the variant) at position 19.
pub open spec fn is_v4_uuid_text(s: Seq<char>) -> bool {
    &&& s.len() == 36
    &&& forall|i: int|
        0 <= i < 36 ==> if i == 8 || i == 13 || i == 18 || i == 23 {
            s[i] == '-'
        } else {
            is_lower_hex_digit(#[trigger] s[i])
        }
    &&& s[14] == '4'
    &&& s[19] == '8' || s[19] == '9' || s[19] == 'a' || s[19] == 'b'
}

/// Draws a fresh task identifier with `uuid::Uuid::new_v4()` and renders it
/// with `to_string`.
///
/// The identifier is random, so nothing ties it to earlier ones. What the
/// `uuid` source shows of every outcome is stated: `new_v4` fixes the version
/// and variant bits, and `to_string` renders the hyphenated form
/// (`Hyphenated::LENGTH`, 36 characters) in lower-case hex.
#[verifier::external_body]
fn fresh_task_id() -> (id: String)
    ensures
        is_v4_uuid_text(id@),
{
    uuid::Uuid::new_v4().to_string()
}

/// Every record in `tasks` is stored under its own identifier.
pub open spec fn keyed_by_uuid(tasks: Map<Seq<char>, TaskWithResult>) -> bool {
    forall|k: Seq<char>| tasks.contains_key(k) ==> (#[trigger] tasks[k]).uuid@ == k
}

/// A task accepted under an identifier is read back under it exactly as it
/// was stored, and every other stored task is left as it was.
pub proof fn law_queued_task_is_found(
    tasks: Map<Seq<char>, TaskWithResult>,
    uuid: Seq<char>,
    record: TaskWithResult,
)
    ensures
        tasks.insert(uuid, record).contains_key(uuid),
        tasks.insert(uuid, record)[uuid] == record,
        forall|k: Seq<char>| k != uuid ==> tasks.insert(uuid, record).contains_key(k) == tasks.contains_key(k)
            && tasks.insert(uuid, record)[k] == tasks[k],
{
}

/// Updating the status, worker or result of a stored task changes that field
/// of that task only: the set of stored tasks, every other task, and the
/// task's other fields stay as they were.
pub proof fn law_updates_touch_one_field(
    tasks: Map<Seq<char>, TaskWithResult>,
    uuid: Seq<char>,
    status: Status,
    worker: Worker,
    result: ComputingResult,
)
    requires
        tasks.contains_key(uuid),
    ensures
        tasks.insert(uuid, tasks[uuid].with_status(status)).dom() == tasks.dom(),
        tasks.insert(uuid, tasks[uuid].with_worker(worker)).dom() == tasks.dom(),
        tasks.insert(uuid, tasks[uuid].with_result(result)).dom() == tasks.dom(),
        tasks.insert(uuid, tasks[uuid].with_status(status))[uuid] == (TaskWithResult { status: status, ..tasks[uuid] }),
        tasks.insert(uuid, tasks[uuid].with_worker(worker))[uuid] == (TaskWithResult { worker: Some(worker), ..tasks[uuid] }),
        tasks.insert(uuid, tasks[uuid].with_result(result))[uuid] == (TaskWithResult { result: Some(result), ..tasks[uuid] }),
{
    assert(tasks.insert(uuid, tasks[uuid].with_status(status)).dom() =~= tasks.dom());
    assert(tasks.insert(uuid, tasks[uuid].with_worker(worker)).dom() =~= tasks.dom());
    assert(tasks.insert(uuid, tasks[uuid].with_result(result)).dom() =~= tasks.dom());
}

/// Every operation of the store keeps each task stored under its own
/// identifier.
pub proof fn law_operations_keep_tasks_keyed(
    tasks: Map<Seq<char>, TaskWithResult>,
    uuid: Seq<char>,
    record: TaskWithResult,
    status: Status,
    worker: Worker,
    result: ComputingResult,
)
    requires
        keyed_by_uuid(tasks),
    ensures
        keyed_by_uuid(tasks.insert(record.uuid@, record)),
        tasks.contains_key(uuid) ==> keyed_by_uuid(tasks.insert(uuid, tasks[uuid].with_status(status))),
        tasks.contains_key(uuid) ==> keyed_by_uuid(tasks.insert(uuid, tasks[uuid].with_worker(worker))),
        tasks.contains_key(uuid) ==> keyed_by_uuid(tasks.insert(uuid, tasks[uuid].with_result(result))),
{
}

/// The tasks the distributor has accepted, by identifier.
pub struct TaskStorage {
    pub task_hashmap: StringHashMap<TaskWithResult>,
}

impl TaskStorage {
    /// An empty store.
    pub fn new() -> (storage: Self)
        ensures
            storage.task_hashmap@ == Map::<Seq<char>, TaskWithResult>::empty(),
    {
        Self { task_hashmap: StringHashMap::new() }
    }

    /// The record stored under `task_uuid`, if any.
    pub fn get_task(&self, task_uuid: &str) -> (found: Option<TaskWithResult>)
        ensures
            match found {
                Some(record) => self.task_hashmap@.contains_key(task_uuid@)
                    && record == self.task_hashmap@[task_uuid@],
                None => !self.task_hashmap@.contains_key(task_uuid@),
            },
    {
        match self.task_hashmap.get(task_uuid) {
            Some(record) => Some(record.duplicate()),
            None => None,
        }
    }

    /// Stores `record` under its own identifier, replacing any record there.
    pub fn insert_task(&mut self, record: TaskWithResult)
        ensures
            final(self).task_hashmap@ == old(self).task_hashmap@.insert(record.uuid@, record),
    {
        let key = record.uuid.clone();
        self.task_hashmap.insert(key, record);
    }

    /// Accepts `task` under the identifier `uuid`: stores it as `QUEUED`, with
    /// no result and no worker yet, and returns the stored record.
    pub fn queue_task(&mut self, uuid: String, task: Task) -> (record: TaskWithResult)
        ensures
            record.uuid == uuid,
            record.task == task,
            record.result is None,
            record.worker is None,
            record.status == Status::QUEUED,
            final(self).task_hashmap@ == old(self).task_hashmap@.insert(uuid@, record),
    {
        let record = TaskWithResult {
            uuid: uuid,
            task: task,
            result: None,
            status: Status::QUEUED,
            worker: None,
        };
        let stored = record.duplicate();
        self.insert_task(stored);
        record
    }

    /// Accepts `task` under a fresh random identifier, a version 4 UUID in
    /// its hyphenated text form (see `queue_task`).
    pub fn submit(&mut self, task: Task) -> (record: TaskWithResult)
        ensures
            is_v4_uuid_text(record.uuid@),
            record.task == task,
            record.result is None,
            record.worker is None,
            record.status == Status::QUEUED,
            final(self).task_hashmap@ == old(self).task_hashmap@.insert(record.uuid@, record),
    {
        let uuid = fresh_task_id();
        self.queue_task(uuid, task)
    }

    /// Sets the status of the task stored under `task_uuid`.
    pub fn update_satus_of(&mut self, task_uuid: &str, status: Status) -> (outcome: Result<(), ()>)
        requires
            old(self).task_hashmap@.contains_key(task_uuid@),
        ensures
            outcome is Ok,
            final(self).task_hashmap@ == old(self).task_hashmap@.insert(
                task_uuid@,
                old(self).task_hashmap@[task_uuid@].with_status(status),
            ),
    {
        let mut record = self.stored(task_uuid);
        record.status = status;
        self.task_hashmap.insert(task_uuid.to_owned(), record);
        Ok(())
    }

    /// Records the worker that the task stored under `task_uuid` went to.
    pub fn update_worker_of(&mut self, task_uuid: &str, worker: Worker) -> (outcome: Result<(), ()>)
        requires
            old(self).task_hashmap@.contains_key(task_uuid@),
        ensures
            outcome is Ok,
            final(self).task_hashmap@ == old(self).task_hashmap@.insert(
                task_uuid@,
                old(self).task_hashmap@[task_uuid@].with_worker(worker),
            ),
    {
        let mut record = self.stored(task_uuid);
        record.worker = Some(worker);
        self.task_hashmap.insert(task_uuid.to_owned(), record);
        Ok(())
    }

    /// Records the result of the task stored under `task_uuid`.
    pub fn update_result_of(&mut self, task_uuid: &str, result: ComputingResult) -> (outcome: Result<(), ()>)
        requires
            old(self).task_hashmap@.contains_key(task_uuid@),
        ensures
            outcome is Ok,
            final(self).task_hashmap@ == old(self).task_hashmap@.insert(
                task_uuid@,
                old(self).task_hashmap@[task_uuid@].with_result(result),
            ),
    {
        let mut record = self.stored(task_uuid);
        record.result = Some(result);
        self.task_hashmap.insert(task_uuid.to_owned(), record);
        Ok(())
    }

    /// The record stored under `task_uuid`, taken out of the table.
    fn stored(&self, task_uuid: &str) -> (record: TaskWithResult)
        requires
            self.task_hashmap@.contains_key(task_uuid@),
        ensures
            record == self.task_hashmap@[task_uuid@],
    {
        self.task_hashmap.get(task_uuid).unwrap().duplicate()
    }
}

} // verus!
