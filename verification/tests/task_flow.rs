use tokio::sync::watch;
use worker_distribution::model::computing_result::ComputingResult;
use worker_distribution::model::languages::Language;
use worker_distribution::model::result::Result as TextResult;
use worker_distribution::model::result_with_worker::ResultWithLoad;
use worker_distribution::model::task::Task;
use worker_distribution::model::task_with_result::{Status, TaskWithResult};
use worker_distribution::model::worker::{Load, Worker};
use worker_distribution::service::task_storage::TaskStorage;
use worker_distribution::service::worker_distributor::{
    assign_worker, handle_error, handle_success, interpret_reply, select_worker, settle_task,
    HandlerAction, HandlerEvent, HandlerPhase, TaskHandler,
};
use worker_distribution::service::worker_register::WorkerRegister;

fn worker(ip: &str, available: bool, dead: bool) -> Worker {
    Worker::new(available, dead, ip.to_string(), Load::new(0, 0))
}

fn result(out: &str) -> ComputingResult {
    ComputingResult::new(out.to_string(), String::new(), 12, None)
}

fn echo_task() -> Task {
    Task::new("echo hi".to_string(), Language::SHELL)
}

#[test]
fn constructors_keep_their_parts() {
    let r = ComputingResult::new("o".to_string(), "e".to_string(), 7, Some("QQ==".to_string()));
    assert_eq!((r.stdout.as_str(), r.stderr.as_str(), r.duration), ("o", "e", 7));
    assert_eq!(r.bytecode.as_deref(), Some("QQ=="));
    assert_eq!(TextResult::new("x".to_string()).result, "x");
    let t = Task::new("code".to_string(), Language::JAVA);
    assert_eq!(t.code, "code");
    assert_eq!(t.lang, Language::JAVA);
    let rec = TaskWithResult::new(t, None, "id".to_string(), Status::REQUESTED, None);
    assert_eq!(rec.uuid, "id");
    assert_eq!(rec.status, Status::REQUESTED);
    let reply = ResultWithLoad::new(None, Load::new(1, 2));
    assert!(reply.result.is_none());
    assert_eq!(reply.load, Load::new(1, 2));
}

#[test]
fn queued_task_is_found_as_stored() {
    let mut storage = TaskStorage::new();
    assert!(storage.get_task("id-1").is_none());
    let record = storage.queue_task("id-1".to_string(), echo_task());
    assert_eq!(record.status, Status::QUEUED);
    assert!(record.result.is_none() && record.worker.is_none());
    let found = storage.get_task("id-1").unwrap();
    assert_eq!(found.uuid, "id-1");
    assert_eq!(found.task.code, "echo hi");
    assert_eq!(found.status, Status::QUEUED);
    assert!(storage.get_task("id-2").is_none());
}

#[test]
fn submit_draws_distinct_hyphenated_ids() {
    let mut storage = TaskStorage::new();
    let a = storage.submit(echo_task());
    let b = storage.submit(echo_task());
    assert_eq!(a.uuid.len(), 36);
    for (i, c) in a.uuid.chars().enumerate() {
        if [8, 13, 18, 23].contains(&i) {
            assert_eq!(c, '-');
        } else {
            assert!(c.is_ascii_hexdigit() && !c.is_ascii_uppercase());
        }
    }
    assert_eq!(a.uuid.chars().nth(14), Some('4'));
    assert!("89ab".contains(a.uuid.chars().nth(19).unwrap()));
    assert_ne!(a.uuid, b.uuid);
    assert_eq!(storage.get_task(&a.uuid).unwrap().uuid, a.uuid);
    assert_eq!(storage.task_hashmap.len(), 2);
}

#[test]
fn updates_change_one_field_of_one_task() {
    let mut storage = TaskStorage::new();
    storage.queue_task("a".to_string(), echo_task());
    storage.queue_task("b".to_string(), echo_task());
    assert_eq!(storage.update_satus_of("a", Status::COMPUTING), Ok(()));
    assert_eq!(storage.update_worker_of("a", worker("w", true, false)), Ok(()));
    assert_eq!(storage.update_result_of("a", result("out")), Ok(()));
    let a = storage.get_task("a").unwrap();
    assert_eq!(a.status, Status::COMPUTING);
    assert_eq!(a.worker.unwrap().ip, "w");
    assert_eq!(a.result.unwrap().stdout, "out");
    let b = storage.get_task("b").unwrap();
    assert_eq!(b.status, Status::QUEUED);
    assert!(b.worker.is_none() && b.result.is_none());
}

#[test]
fn success_and_error_settle_status() {
    let mut storage = TaskStorage::new();
    storage.queue_task("a".to_string(), echo_task());
    storage.queue_task("b".to_string(), echo_task());
    assert_eq!(assign_worker(&mut storage, "a", worker("w", true, false)), Ok(()));
    assert_eq!(storage.get_task("a").unwrap().status, Status::COMPUTING);
    assert_eq!(handle_success(&mut storage, "a", result("done")), Ok(()));
    let a = storage.get_task("a").unwrap();
    assert_eq!(a.status, Status::FINISHED);
    assert_eq!(a.result.unwrap().stdout, "done");
    assert_eq!(a.worker.unwrap().ip, "w");
    assert_eq!(handle_error(&mut storage, "b"), Ok(()));
    assert_eq!(storage.get_task("b").unwrap().status, Status::ERROR);
}

#[test]
fn select_worker_takes_first_available() {
    assert!(select_worker(&vec![]).is_none());
    assert!(select_worker(&vec![worker("a", false, false)]).is_none());
    let ws = vec![worker("a", false, false), worker("b", true, false), worker("c", true, false)];
    assert_eq!(select_worker(&ws).unwrap().ip, "b");
}

#[test]
fn selection_from_announced_list_agrees_with_register() {
    let (tx, _rx) = watch::channel(Vec::new());
    let mut register = WorkerRegister::new(tx);
    register.register(worker("dead", true, true));
    register.register(worker("busy", false, false));
    register.register(worker("ready", true, false));
    let picked = select_worker(&register.available_workers()).unwrap();
    assert_eq!(picked.ip, register.get_available_worker().unwrap().ip);
}

#[test]
fn interpret_reply_needs_reach_and_success() {
    let body = || Some(ResultWithLoad::new(Some(result("x")), Load::new(0, 0)));
    assert!(interpret_reply(true, true, body()).is_some());
    assert!(interpret_reply(true, false, body()).is_none());
    assert!(interpret_reply(false, true, body()).is_none());
    assert!(interpret_reply(true, true, None).is_none());
}

#[test]
fn settle_task_with_result_finishes_and_stores_load() {
    let (tx, _rx) = watch::channel(Vec::new());
    let mut register = WorkerRegister::new(tx);
    register.register(worker("w", true, false));
    let mut storage = TaskStorage::new();
    storage.queue_task("t".to_string(), echo_task());
    let busy = Load::new(90f64.to_bits(), 1f64.to_bits());
    let reply = Some(ResultWithLoad::new(Some(result("ok")), busy));
    assert_eq!(settle_task(&mut storage, &mut register, "t", "w", reply, true), Some(true));
    let t = storage.get_task("t").unwrap();
    assert_eq!(t.status, Status::FINISHED);
    assert_eq!(t.result.unwrap().stdout, "ok");
    assert_eq!(register.workers[0].load, busy);
    assert!(!register.workers[0].is_available);
}

#[test]
fn settle_task_without_result_or_reply_fails() {
    let (tx, _rx) = watch::channel(Vec::new());
    let mut register = WorkerRegister::new(tx);
    register.register(worker("w", true, false));
    let mut storage = TaskStorage::new();
    storage.queue_task("t1".to_string(), echo_task());
    storage.queue_task("t2".to_string(), echo_task());
    let reply = Some(ResultWithLoad::new(None, Load::new(5, 6)));
    assert_eq!(settle_task(&mut storage, &mut register, "t1", "w", reply, false), Some(true));
    assert_eq!(storage.get_task("t1").unwrap().status, Status::ERROR);
    assert!(storage.get_task("t1").unwrap().result.is_none());
    assert_eq!(register.workers[0].load, Load::new(5, 6));
    assert_eq!(settle_task(&mut storage, &mut register, "t2", "w", None, true), None);
    assert_eq!(storage.get_task("t2").unwrap().status, Status::ERROR);
    assert!(register.workers[0].is_available);
}

#[test]
fn handler_runs_a_task_to_the_end() {
    let (tx, _rx) = watch::channel(Vec::new());
    let mut register = WorkerRegister::new(tx);
    register.register(worker("w1", true, false));
    let mut storage = TaskStorage::new();
    let record = storage.queue_task("t".to_string(), echo_task());
    let mut handler = TaskHandler::new(record.uuid.clone());
    assert!(matches!(handler.phase, HandlerPhase::AwaitingWorker));

    let action = handler.step(HandlerEvent::WorkersChanged(vec![]), &mut storage, &mut register);
    assert!(matches!(action, HandlerAction::WaitForWorkers));
    assert_eq!(storage.get_task("t").unwrap().status, Status::QUEUED);

    let reply_too_early = HandlerEvent::Reply(None, false);
    assert!(matches!(handler.step(reply_too_early, &mut storage, &mut register), HandlerAction::Ignore));

    let action = handler.step(
        HandlerEvent::WorkersChanged(vec![worker("w0", false, false), worker("w1", true, false)]),
        &mut storage,
        &mut register,
    );
    match action {
        HandlerAction::SendTo(w) => assert_eq!(w.ip, "w1"),
        _ => panic!("expected the task to be sent"),
    }
    let t = storage.get_task("t").unwrap();
    assert_eq!(t.status, Status::COMPUTING);
    assert_eq!(t.worker.unwrap().ip, "w1");

    let reply = ResultWithLoad::new(Some(result("hi\n")), Load::new(1, 1));
    let action = handler.step(HandlerEvent::Reply(Some(reply), false), &mut storage, &mut register);
    assert!(matches!(action, HandlerAction::Stop(Some(true))));
    assert!(matches!(handler.phase, HandlerPhase::Settled));
    let t = storage.get_task("t").unwrap();
    assert_eq!(t.status, Status::FINISHED);
    assert_eq!(t.result.unwrap().stdout, "hi\n");
    assert_eq!(register.workers[0].load, Load::new(1, 1));

    let late = handler.step(HandlerEvent::WorkersChanged(vec![]), &mut storage, &mut register);
    assert!(matches!(late, HandlerAction::Ignore));
}

#[test]
fn handler_fails_task_on_missing_reply() {
    let (tx, _rx) = watch::channel(Vec::new());
    let mut register = WorkerRegister::new(tx);
    let mut storage = TaskStorage::new();
    storage.queue_task("t".to_string(), echo_task());
    let mut handler = TaskHandler::new("t".to_string());
    let _ = handler.step(HandlerEvent::WorkersChanged(vec![worker("w", true, false)]), &mut storage, &mut register);
    let action = handler.step(HandlerEvent::Reply(None, false), &mut storage, &mut register);
    assert!(matches!(action, HandlerAction::Stop(None)));
    assert_eq!(storage.get_task("t").unwrap().status, Status::ERROR);
}
