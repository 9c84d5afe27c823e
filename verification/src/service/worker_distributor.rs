use vstd::prelude::*;

use crate::model::computing_result::ComputingResult;
use crate::model::result_with_worker::ResultWithLoad;
use crate::model::task_with_result::{Status, TaskWithResult};
use crate::model::worker::Worker;
use crate::service::task_storage::TaskStorage;
use crate::service::worker_register::{
    announced, first_ready, first_where, has_ip, ip_position, lemma_ip_position, is_first_where, lemma_first_where, law_first_ready_heads_announced, ready_workers, spec_update_load,
    WorkerRegister,
};

verus! {

/// An available worker.
pub open spec fn available_pred() -> spec_fn(Worker) -> bool {
    |w: Worker| w.is_available
}

/// The first available worker in `ws`, if there is one.
pub open spec fn first_available(ws: Seq<Worker>) -> Option<Worker> {
    first_where(ws, available_pred())
}

/// The task table after the task `uuid` went to `worker`: the worker is
/// recorded and the task is `COMPUTING`.
pub open spec fn spec_assign(
    tasks: Map<Seq<char>, TaskWithResult>,
    uuid: Seq<char>,
    worker: Worker,
) -> Map<Seq<char>, TaskWithResult> {
    tasks.insert(uuid, tasks[uuid].with_worker(worker).with_status(Status::COMPUTING))
}

/// The task table after the task `uuid` succeeded with `result`.
pub open spec fn spec_succeed(
    tasks: Map<Seq<char>, TaskWithResult>,
    uuid: Seq<char>,
    result: ComputingResult,
) -> Map<Seq<char>, TaskWithResult> {
    tasks.insert(uuid, tasks[uuid].with_result(result).with_status(Status::FINISHED))
}

/// The task table after the task `uuid` failed.
pub open spec fn spec_fail(tasks: Map<Seq<char>, TaskWithResult>, uuid: Seq<char>) -> Map<
    Seq<char>,
    TaskWithResult,
> {
    tasks.insert(uuid, tasks[uuid].with_status(Status::ERROR))
}

/// The task table after the worker's reply to the task `uuid` came back
/// (`None` when no usable reply came): a result finishes the task, anything
/// else fails it.
pub open spec fn spec_settle_tasks(
    tasks: Map<Seq<char>, TaskWithResult>,
    uuid: Seq<char>,
    reply: Option<ResultWithLoad>,
) -> Map<Seq<char>, TaskWithResult> {
    match reply {
        Some(r) => match r.result {
            Some(result) => spec_succeed(tasks, uuid, result),
            None => spec_fail(tasks, uuid),
        },
        None => spec_fail(tasks, uuid),
    }
}

/// The register after the reply of the worker at `ip` came back: a reply
/// carries the worker's load, which is stored; no reply changes nothing.
pub open spec fn spec_settle_workers(
    ws: Seq<Worker>,
    ip: Seq<char>,
    reply: Option<ResultWithLoad>,
    overloaded: bool,
) -> Seq<Worker> {
    match reply {
        Some(r) => spec_update_load(ws, ip, r.load, overloaded),
        None => ws,
    }
}

/// The first available worker of an announced list; the distributor
/// waits for a change of the list when there is none.
pub fn select_worker(workers: &Vec<Worker>) -> (chosen: Option<Worker>)
    ensures
        chosen == first_available(workers@),
{
    let mut i: usize = 0;
    while i < workers.len()
        invariant
            i <= workers.len(),
            forall|j: int| 0 <= j < i ==> !workers@[j].is_available,
        decreases workers.len() - i,
    {
        if workers[i].is_available {
            proof {
                lemma_first_where(workers@, available_pred(), i as int);
                assert(is_first_where(workers@, available_pred(), i as int));
            }
            return Some(workers[i].duplicate());
        }
        i = i + 1;
    }
    None
}

/// Records that the task `uuid` went to `worker` and marks it `COMPUTING`.
pub fn assign_worker(storage: &mut TaskStorage, uuid: &str, worker: Worker) -> (outcome: Result<(), ()>)
    requires
        old(storage).task_hashmap@.contains_key(uuid@),
    ensures
        outcome is Ok,
        final(storage).task_hashmap@ == spec_assign(old(storage).task_hashmap@, uuid@, worker),
{
    let _ = storage.update_worker_of(uuid, worker);
    storage.update_satus_of(uuid, Status::COMPUTING)
}

/// Records the result of the task `uuid` and marks it `FINISHED`.
pub fn handle_success(storage: &mut TaskStorage, uuid: &str, result: ComputingResult) -> (outcome: Result<(), ()>)
    requires
        old(storage).task_hashmap@.contains_key(uuid@),
    ensures
        outcome is Ok,
        final(storage).task_hashmap@ == spec_succeed(old(storage).task_hashmap@, uuid@, result),
{
    let _ = storage.update_result_of(uuid, result);
    storage.update_satus_of(uuid, Status::FINISHED)
}

/// Marks the task `uuid` as failed.
pub fn handle_error(storage: &mut TaskStorage, uuid: &str) -> (outcome: Result<(), ()>)
    requires
        old(storage).task_hashmap@.contains_key(uuid@),
    ensures
        outcome is Ok,
        final(storage).task_hashmap@ == spec_fail(old(storage).task_hashmap@, uuid@),
{
    storage.update_satus_of(uuid, Status::ERROR)
}

/// What the reply of a worker amounts to: a reply body only counts when the
/// request reached the worker and the worker answered with success.
pub fn interpret_reply(reached: bool, success: bool, body: Option<ResultWithLoad>) -> (reply: Option<ResultWithLoad>)
    ensures
        reply == (if reached && success { body } else { None }),
{
    if reached && success {
        body
    } else {
        None
    }
}

/// Settles the task `uuid` once the reply of the worker at `worker_ip` is in:
/// a reply's load is stored in the register (`overloaded` being the verdict of
/// the load threshold on it) and announced, then the task finishes with the
/// reply's result, or fails when there is no reply or no result. Returns
/// whether the announcement was delivered, or `None` when there was no reply
/// and so nothing to announce.
pub fn settle_task(
    storage: &mut TaskStorage,
    register: &mut WorkerRegister,
    uuid: &str,
    worker_ip: &str,
    reply: Option<ResultWithLoad>,
    overloaded: bool,
) -> (announcement: Option<bool>)
    requires
        old(storage).task_hashmap@.contains_key(uuid@),
        reply is Some ==> has_ip(old(register).workers@, worker_ip@),
    ensures
        final(storage).task_hashmap@ == spec_settle_tasks(old(storage).task_hashmap@, uuid@, reply),
        final(register).workers@ == spec_settle_workers(
            old(register).workers@,
            worker_ip@,
            reply,
            overloaded,
        ),
        announcement is None <==> reply is None,
        reply is None ==> final(register).worker_sender == old(register).worker_sender,
        announcement == Some(true) ==> final(register).announces_ready(),
        announcement == Some(false) ==> announced(final(register).worker_sender) == announced(
            old(register).worker_sender,
        ),
{
    match reply {
        Some(res) => {
            let delivered = register.update_load(worker_ip, res.load, overloaded);
            let _ = match res.result {
                Some(result) => handle_success(storage, uuid, result),
                None => handle_error(storage, uuid),
            };
            Some(delivered)
        },
        None => {
            let _ = handle_error(storage, uuid);
            None
        },
    }
}

/// Where a task stored under its identifier stands in its lifecycle, given
/// the phase of its handling: queued with no worker and no result while it
/// awaits a worker; `COMPUTING` on its worker while that worker runs it;
/// settled with its worker kept, either `FINISHED` with a result or `ERROR`
/// without one.
pub open spec fn in_lifecycle(phase: HandlerPhase, record: TaskWithResult) -> bool {
    match phase {
        HandlerPhase::AwaitingWorker => {
            &&& record.status == Status::QUEUED
            &&& record.worker is None
            &&& record.result is None
        },
        HandlerPhase::Running(w) => {
            &&& record.status == Status::COMPUTING
            &&& record.worker == Some(w)
            &&& record.result is None
        },
        HandlerPhase::Settled => {
            &&& record.worker is Some
            &&& (record.status == Status::FINISHED && record.result is Some) || (record.status
                == Status::ERROR && record.result is None)
        },
    }
}

/// Where the handling of one task stands.
pub enum HandlerPhase {
    /// No worker has taken the task yet.
    AwaitingWorker,
    /// The task was sent to this worker; its reply is awaited.
    Running(Worker),
    /// The task is finished or failed.
    Settled,
}

/// What happened outside since the last step.
pub enum HandlerEvent {
    /// The announced list of ready workers is (now) this one.
    WorkersChanged(Vec<Worker>),
    /// The worker's reply came back (`None` when the request failed, the
    /// worker answered with an error, or the body did not parse), with the
    /// verdict of the load threshold on the reply's load.
    Reply(Option<ResultWithLoad>, bool),
}

/// What the caller has to do next.
pub enum HandlerAction {
    /// Wait until the announced list of workers changes, then report it.
    WaitForWorkers,
    /// Send the task to this worker and report its reply.
    SendTo(Worker),
    /// The task is settled: nothing more to do. Holds whether the worker's
    /// new load was announced to the subscribers (`None` when there was no
    /// reply and so no load).
    Stop(Option<bool>),
    /// The event did not fit the phase and was ignored.
    Ignore,
}

/// The decisions taken for one task, from its arrival until it is settled.
pub struct TaskHandler {
    pub uuid: String,
    pub phase: HandlerPhase,
}

impl TaskHandler {
    /// A handler for the task stored under `uuid`, which no worker has yet.
    pub fn new(uuid: String) -> (handler: Self)
        ensures
            handler.uuid == uuid,
            handler.phase is AwaitingWorker,
    {
        TaskHandler { uuid, phase: HandlerPhase::AwaitingWorker }
    }

    /// Takes one step on `event`:
    /// - awaiting a worker, a new list with an available worker assigns the
    ///   task to its first one (recorded in `storage`, task `COMPUTING`) and
    ///   asks to send it there; a list without one asks to wait again;
    /// - running on a worker, its reply settles the task (see `settle_task`)
    ///   and asks to stop;
    /// - any other event changes nothing and is ignored.
    pub fn step(
        &mut self,
        event: HandlerEvent,
        storage: &mut TaskStorage,
        register: &mut WorkerRegister,
    ) -> (action: HandlerAction)
        requires
            match (old(self).phase, event) {
                (HandlerPhase::AwaitingWorker, HandlerEvent::WorkersChanged(ws)) => first_available(ws@) is Some
                    ==> old(storage).task_hashmap@.contains_key(old(self).uuid@),
                (HandlerPhase::Running(w), HandlerEvent::Reply(reply, _)) => {
                    &&& old(storage).task_hashmap@.contains_key(old(self).uuid@)
                    &&& reply is Some ==> has_ip(old(register).workers@, w.ip@)
                },
                _ => true,
            },
        ensures
            final(self).uuid == old(self).uuid,
            in_lifecycle(old(self).phase, old(storage).task_hashmap@[old(self).uuid@]) ==> in_lifecycle(
                final(self).phase,
                final(storage).task_hashmap@[final(self).uuid@],
            ),
            match (old(self).phase, event) {
                (HandlerPhase::AwaitingWorker, HandlerEvent::WorkersChanged(ws)) => match first_available(ws@) {
                    Some(w) => {
                        &&& final(self).phase == HandlerPhase::Running(w)
                        &&& action == HandlerAction::SendTo(w)
                        &&& final(storage).task_hashmap@ == spec_assign(
                            old(storage).task_hashmap@,
                            old(self).uuid@,
                            w,
                        )
                        &&& *final(register) == *old(register)
                    },
                    None => {
                        &&& final(self).phase == old(self).phase
                        &&& action is WaitForWorkers
                        &&& final(storage).task_hashmap@ == old(storage).task_hashmap@
                        &&& *final(register) == *old(register)
                    },
                },
                (HandlerPhase::Running(w), HandlerEvent::Reply(reply, overloaded)) => {
                    &&& final(self).phase is Settled
                    &&& action matches HandlerAction::Stop(announcement)
                    &&& (announcement is None <==> reply is None)
                    &&& reply is None ==> final(register).worker_sender == old(register).worker_sender
                    &&& announcement == Some(true) ==> final(register).announces_ready()
                    &&& announcement == Some(false) ==> announced(final(register).worker_sender)
                        == announced(old(register).worker_sender)
                    &&& final(storage).task_hashmap@ == spec_settle_tasks(
                        old(storage).task_hashmap@,
                        old(self).uuid@,
                        reply,
                    )
                    &&& final(register).workers@ == spec_settle_workers(
                        old(register).workers@,
                        w.ip@,
                        reply,
                        overloaded,
                    )
                },
                _ => {
                    &&& final(self).phase == old(self).phase
                    &&& action is Ignore
                    &&& final(storage).task_hashmap@ == old(storage).task_hashmap@
                    &&& *final(register) == *old(register)
                },
            },
    {
        match (&self.phase, event) {
            (HandlerPhase::AwaitingWorker, HandlerEvent::WorkersChanged(workers)) => {
                match select_worker(&workers) {
                    Some(worker) => {
                        let _ = assign_worker(storage, self.uuid.as_str(), worker.duplicate());
                        self.phase = HandlerPhase::Running(worker.duplicate());
                        HandlerAction::SendTo(worker)
                    },
                    None => HandlerAction::WaitForWorkers,
                }
            },
            (HandlerPhase::Running(worker), HandlerEvent::Reply(reply, overloaded)) => {
                let ip = worker.ip.clone();
                let announcement = settle_task(
                    storage,
                    register,
                    self.uuid.as_str(),
                    ip.as_str(),
                    reply,
                    overloaded,
                );
                self.phase = HandlerPhase::Settled;
                HandlerAction::Stop(announcement)
            },
            _ => HandlerAction::Ignore,
        }
    }
}

/// A task moves through its lifecycle in one direction: queued with no
/// worker, then `COMPUTING` on the worker it was assigned, then settled on
/// that worker as `FINISHED` with a result or `ERROR` without one; a record
/// as `queue_task` stores it is where the lifecycle starts.
pub proof fn law_lifecycle_advances(
    tasks: Map<Seq<char>, TaskWithResult>,
    uuid: Seq<char>,
    worker: Worker,
    reply: Option<ResultWithLoad>,
)
    requires
        tasks.contains_key(uuid),
    ensures
        (tasks[uuid].status == Status::QUEUED && tasks[uuid].worker is None && tasks[uuid].result is None)
            ==> in_lifecycle(HandlerPhase::AwaitingWorker, tasks[uuid]),
        in_lifecycle(HandlerPhase::AwaitingWorker, tasks[uuid]) ==> in_lifecycle(
            HandlerPhase::Running(worker),
            spec_assign(tasks, uuid, worker)[uuid],
        ),
        in_lifecycle(HandlerPhase::Running(worker), tasks[uuid]) ==> in_lifecycle(
            HandlerPhase::Settled,
            spec_settle_tasks(tasks, uuid, reply)[uuid],
        ),
        in_lifecycle(HandlerPhase::Running(worker), tasks[uuid]) ==> spec_settle_tasks(
            tasks,
            uuid,
            reply,
        )[uuid].worker == Some(worker),
{
}

/// Settling a reply stores the replying worker's reported load and makes it
/// available exactly when that load was not over the threshold, whether or
/// not the reply carried a result; its address and dead flag stay, and no
/// other worker changes. Without a reply the register is left as it was.
pub proof fn law_settlement_updates_replying_worker(
    ws: Seq<Worker>,
    ip: Seq<char>,
    reply: Option<ResultWithLoad>,
    overloaded: bool,
)
    requires
        has_ip(ws, ip),
    ensures
        reply is None ==> spec_settle_workers(ws, ip, reply, overloaded) == ws,
        reply matches Some(r) ==> {
            let after = spec_settle_workers(ws, ip, reply, overloaded);
            &&& after.len() == ws.len()
            &&& after[ip_position(ws, ip)].is_available == !overloaded
            &&& after[ip_position(ws, ip)].load == r.load
            &&& after[ip_position(ws, ip)].is_dead == ws[ip_position(ws, ip)].is_dead
            &&& after[ip_position(ws, ip)].ip == ws[ip_position(ws, ip)].ip
            &&& forall|i: int| 0 <= i < ws.len() && i != ip_position(ws, ip) ==> after[i] == ws[i]
        },
{
    lemma_ip_position(ws, ip);
}

/// Assigning a worker to a stored task records that worker and marks the
/// task `COMPUTING`; its identifier, task and result stay as they were, and
/// every other stored task is left as it was.
pub proof fn law_assignment_changes_worker_and_status_only(
    tasks: Map<Seq<char>, TaskWithResult>,
    uuid: Seq<char>,
    worker: Worker,
)
    requires
        tasks.contains_key(uuid),
    ensures
        spec_assign(tasks, uuid, worker).dom() == tasks.dom(),
        spec_assign(tasks, uuid, worker)[uuid] == (TaskWithResult {
            worker: Some(worker),
            status: Status::COMPUTING,
            ..tasks[uuid]
        }),
        forall|k: Seq<char>| k != uuid && tasks.contains_key(k) ==> spec_assign(tasks, uuid, worker)[k] == tasks[k],
{
    assert(spec_assign(tasks, uuid, worker).dom() =~= tasks.dom());
}

/// Finishing a task records its result and marks it `FINISHED`; failing it
/// marks it `ERROR`. Identifier, task and worker stay, and every other stored
/// task is left as it was.
pub proof fn law_success_and_failure_change_only_their_fields(
    tasks: Map<Seq<char>, TaskWithResult>,
    uuid: Seq<char>,
    result: ComputingResult,
)
    requires
        tasks.contains_key(uuid),
    ensures
        spec_succeed(tasks, uuid, result).dom() == tasks.dom(),
        spec_fail(tasks, uuid).dom() == tasks.dom(),
        spec_succeed(tasks, uuid, result)[uuid] == (TaskWithResult {
            result: Some(result),
            status: Status::FINISHED,
            ..tasks[uuid]
        }),
        spec_fail(tasks, uuid)[uuid] == (TaskWithResult { status: Status::ERROR, ..tasks[uuid] }),
        forall|k: Seq<char>| k != uuid && tasks.contains_key(k) ==> spec_succeed(tasks, uuid, result)[k]
            == tasks[k] && spec_fail(tasks, uuid)[k] == tasks[k],
{
    assert(spec_succeed(tasks, uuid, result).dom() =~= tasks.dom());
    assert(spec_fail(tasks, uuid).dom() =~= tasks.dom());
}

/// The worker picked from an announced list is its first available worker:
/// it sits at some position of the list and every worker before it is
/// unavailable. None is picked exactly when no worker of the list is
/// available.
pub proof fn law_selected_worker_is_first_available(ws: Seq<Worker>)
    ensures
        first_available(ws) matches Some(w) ==> w.is_available && exists|i: int|
            0 <= i < ws.len() && ws[i] == w && forall|j: int| 0 <= j < i ==> !(#[trigger] ws[j]).is_available,
        first_available(ws) is None <==> forall|i: int| 0 <= i < ws.len() ==> !(#[trigger] ws[i]).is_available,
{
    if exists|i: int| 0 <= i < ws.len() && ws[i].is_available {
        let k = choose|i: int| 0 <= i < ws.len() && ws[i].is_available;
        lemma_first_where(ws, available_pred(), k);
        let f = choose|i: int| is_first_where(ws, available_pred(), i);
        assert(forall|j: int| 0 <= j < f ==> !available_pred()(ws[j]));
    } else {
        assert forall|i: int| 0 <= i < ws.len() implies !(#[trigger] ws[i]).is_available by {
            if ws[i].is_available {
                assert(available_pred()(ws[i]));
            }
        }
    }
}

/// The worker that the distributor picks from the announced list is the one
/// that the register itself would hand out.
pub proof fn law_selection_agrees_with_register(ws: Seq<Worker>)
    ensures
        first_available(ready_workers(ws)) == first_ready(ws),
{
    law_first_ready_heads_announced(ws);
    let r = ready_workers(ws);
    if r.len() > 0 {
        ws.lemma_filter_pred(|w: Worker| w.is_ready(), 0);
        lemma_first_where(r, available_pred(), 0);
        assert(is_first_where(r, available_pred(), 0));
    } else {
        assert(!(exists|i: int| 0 <= i < r.len() && r[i].is_available));
    }
}

/// A settled task has left `COMPUTING`: it is `FINISHED` exactly when the
/// worker's reply carried a result, which is then the recorded one, and
/// `ERROR` otherwise; its worker and every other task are left as they were.
pub proof fn law_settlement_outcome(
    tasks: Map<Seq<char>, TaskWithResult>,
    uuid: Seq<char>,
    reply: Option<ResultWithLoad>,
)
    requires
        tasks.contains_key(uuid),
    ensures
        spec_settle_tasks(tasks, uuid, reply).dom() == tasks.dom(),
        spec_settle_tasks(tasks, uuid, reply)[uuid].worker == tasks[uuid].worker,
        spec_settle_tasks(tasks, uuid, reply)[uuid].uuid == tasks[uuid].uuid,
        spec_settle_tasks(tasks, uuid, reply)[uuid].task == tasks[uuid].task,
        (spec_settle_tasks(tasks, uuid, reply)[uuid].status == Status::FINISHED) == (reply is Some
            && reply->0.result is Some),
        (reply is Some && reply->0.result is Some) ==> spec_settle_tasks(tasks, uuid, reply)[uuid].result
            == reply->0.result,
        !(reply is Some && reply->0.result is Some) ==> spec_settle_tasks(tasks, uuid, reply)[uuid].status
            == Status::ERROR && spec_settle_tasks(tasks, uuid, reply)[uuid].result == tasks[uuid].result,
        forall|k: Seq<char>| k != uuid ==> spec_settle_tasks(tasks, uuid, reply).contains_key(k)
            == tasks.contains_key(k) && spec_settle_tasks(tasks, uuid, reply)[k] == tasks[k],
{
    assert(spec_settle_tasks(tasks, uuid, reply).dom() =~= tasks.dom());
}

/// A task that went to a worker and then settled keeps the record of that
/// worker, and ends `FINISHED` or `ERROR`.
pub proof fn law_assigned_worker_survives_settlement(
    tasks: Map<Seq<char>, TaskWithResult>,
    uuid: Seq<char>,
    worker: Worker,
    reply: Option<ResultWithLoad>,
)
    requires
        tasks.contains_key(uuid),
    ensures
        spec_assign(tasks, uuid, worker)[uuid].status == Status::COMPUTING,
        spec_settle_tasks(spec_assign(tasks, uuid, worker), uuid, reply)[uuid].worker == Some(worker),
        spec_settle_tasks(spec_assign(tasks, uuid, worker), uuid, reply)[uuid].status == Status::FINISHED
            || spec_settle_tasks(spec_assign(tasks, uuid, worker), uuid, reply)[uuid].status
            == Status::ERROR,
{
}

} // verus!
