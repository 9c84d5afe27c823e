use tokio::sync::watch;
use worker_distribution::model::worker::{Load, Worker};
use worker_distribution::service::health_check::record_health;
use worker_distribution::service::worker_distributer::WorkerDistributer;
use worker_distribution::service::worker_register::WorkerRegister;

fn load(cpu: f64, mem: f64) -> Load {
    Load::new(cpu.to_bits(), mem.to_bits())
}

fn worker(ip: &str, available: bool, dead: bool) -> Worker {
    Worker::new(available, dead, ip.to_string(), load(0.0, 0.0))
}

fn flags(register: &WorkerRegister) -> Vec<(String, bool, bool)> {
    register
        .workers
        .iter()
        .map(|w| (w.ip.clone(), w.is_available, w.is_dead))
        .collect()
}

#[test]
fn register_appends_and_announces_ready_workers() {
    let (tx, rx) = watch::channel(Vec::new());
    let mut register = WorkerRegister::new(tx);
    assert!(register.workers.is_empty());
    register.register(worker("http://a:1", true, false));
    register.register(worker("http://b:1", false, false));
    register.register(worker("http://c:1", true, true));
    register.register(worker("http://d:1", true, false));
    assert_eq!(register.workers.len(), 4);
    assert_eq!(register.workers[3].ip, "http://d:1");
    let announced: Vec<String> = rx.borrow().iter().map(|w| w.ip.clone()).collect();
    assert_eq!(announced, vec!["http://a:1".to_string(), "http://d:1".to_string()]);
}

#[test]
fn available_workers_keeps_only_ready_ones_in_order() {
    let (tx, _rx) = watch::channel(Vec::new());
    let mut register = WorkerRegister::new(tx);
    register.register(worker("x", false, false));
    register.register(worker("y", true, true));
    register.register(worker("z", true, false));
    register.register(worker("w", true, false));
    let ready: Vec<String> = register.available_workers().iter().map(|w| w.ip.clone()).collect();
    assert_eq!(ready, vec!["z".to_string(), "w".to_string()]);
}

#[test]
fn get_available_worker_is_first_ready_or_none() {
    let (tx, _rx) = watch::channel(Vec::new());
    let mut register = WorkerRegister::new(tx);
    assert!(register.get_available_worker().is_none());
    register.register(worker("dead", true, true));
    register.register(worker("busy", false, false));
    assert!(register.get_available_worker().is_none());
    register.register(worker("ok1", true, false));
    register.register(worker("ok2", true, false));
    assert_eq!(register.get_available_worker().unwrap().ip, "ok1");
    // the handed-out worker heads the announced list
    assert_eq!(register.available_workers()[0].ip, "ok1");
}

#[test]
fn lock_then_unlock_restores_register() {
    let (tx, _rx) = watch::channel(Vec::new());
    let mut register = WorkerRegister::new(tx);
    register.register(worker("a", true, false));
    register.register(worker("b", true, false));
    let before = flags(&register);
    register.lock_worker("b");
    assert_eq!(flags(&register)[1], ("b".to_string(), false, false));
    assert_eq!(flags(&register)[0], before[0]);
    register.lock_worker("b");
    assert_eq!(flags(&register)[1], ("b".to_string(), false, false));
    register.unlock_worker("b");
    assert_eq!(flags(&register), before);
}

#[test]
fn lock_affects_first_worker_with_address_only() {
    let (tx, _rx) = watch::channel(Vec::new());
    let mut register = WorkerRegister::new(tx);
    register.register(worker("same", true, false));
    register.register(worker("same", true, false));
    register.lock_worker("same");
    assert!(!register.workers[0].is_available);
    assert!(register.workers[1].is_available);
    assert_eq!(register.get_available_worker().unwrap().ip, "same");
}

#[test]
fn unavailable_then_available_restores_register() {
    let (tx, rx) = watch::channel(Vec::new());
    let mut register = WorkerRegister::new(tx);
    register.register(worker("a", true, false));
    let before = flags(&register);
    register.worker_unavailable("a");
    assert!(register.workers[0].is_dead);
    assert!(rx.borrow().is_empty());
    register.worker_available("a");
    assert_eq!(flags(&register), before);
    assert_eq!(rx.borrow().len(), 1);
}

#[test]
fn update_load_sets_availability_from_threshold_verdict() {
    let (tx, _rx) = watch::channel(Vec::new());
    let mut register = WorkerRegister::new(tx);
    register.register(worker("a", true, false));
    let heavy = load(95.5, 10.0);
    register.update_load("a", heavy, true);
    assert!(!register.workers[0].is_available);
    assert_eq!(register.workers[0].load, heavy);
    assert_eq!(f64::from_bits(register.workers[0].load.cpu_usage_bits), 95.5);
    let light = load(10.0, 20.0);
    register.update_load("a", light, false);
    assert!(register.workers[0].is_available);
    assert_eq!(register.workers[0].load, light);
}

#[test]
fn notify_without_receivers_is_not_delivered_and_keeps_value() {
    let (tx, rx) = watch::channel(Vec::new());
    let mut register = WorkerRegister::new(tx);
    assert!(register.register(worker("a", true, false)));
    assert_eq!(rx.borrow().len(), 1);
    drop(rx);
    assert!(!register.register(worker("b", true, false)));
    assert!(!register.notify());
    assert_eq!(register.worker_sender.borrow().len(), 1);
    assert_eq!(register.workers.len(), 2);
}

fn announced_ips(rx: &watch::Receiver<Vec<Worker>>) -> Vec<String> {
    rx.borrow().iter().map(|w| w.ip.clone()).collect()
}

fn ready_ips(register: &WorkerRegister) -> Vec<String> {
    register.available_workers().iter().map(|w| w.ip.clone()).collect()
}

#[test]
fn every_operation_announces_exactly_the_ready_workers() {
    let (tx, rx) = watch::channel(Vec::new());
    let mut register = WorkerRegister::new(tx);
    assert!(register.register(worker("a", true, false)));
    assert_eq!(announced_ips(&rx), ready_ips(&register));
    assert!(register.register(worker("b", true, false)));
    assert_eq!(announced_ips(&rx), vec!["a".to_string(), "b".to_string()]);
    assert!(register.lock_worker("a"));
    assert_eq!(announced_ips(&rx), vec!["b".to_string()]);
    assert!(register.worker_unavailable("b"));
    assert!(announced_ips(&rx).is_empty());
    assert!(register.worker_available("b"));
    assert_eq!(announced_ips(&rx), vec!["b".to_string()]);
    assert!(register.unlock_worker("a"));
    assert_eq!(announced_ips(&rx), vec!["a".to_string(), "b".to_string()]);
    assert!(register.update_load("b", load(99.0, 1.0), true));
    assert_eq!(announced_ips(&rx), vec!["a".to_string()]);
    assert_eq!(announced_ips(&rx), ready_ips(&register));
}

#[test]
fn lock_unlock_round_trip_announces_the_same_workers() {
    let (tx, rx) = watch::channel(Vec::new());
    let mut register = WorkerRegister::new(tx);
    register.register(worker("a", true, false));
    register.register(worker("b", false, false));
    let before = announced_ips(&rx);
    assert!(register.lock_worker("a"));
    assert!(register.unlock_worker("a"));
    assert_eq!(announced_ips(&rx), before);
}

#[test]
fn worker_ips_lists_every_address_in_order() {
    let (tx, _rx) = watch::channel(Vec::new());
    let mut register = WorkerRegister::new(tx);
    assert!(register.worker_ips().is_empty());
    register.register(worker("a", false, true));
    register.register(worker("b", true, false));
    assert_eq!(register.worker_ips(), vec!["a".to_string(), "b".to_string()]);
}

#[test]
fn health_probe_answer_marks_alive_with_load() {
    let (tx, _rx) = watch::channel(Vec::new());
    let mut register = WorkerRegister::new(tx);
    register.register(worker("a", true, true));
    register.register(worker("b", true, false));
    let reported = load(30.0, 40.0);
    assert!(record_health(&mut register, "a", Some((reported, false))));
    assert_eq!(announced_ips(&_rx), vec!["a".to_string(), "b".to_string()]);
    assert!(!register.workers[0].is_dead);
    assert!(register.workers[0].is_available);
    assert_eq!(register.workers[0].load, reported);
    assert!(record_health(&mut register, "a", Some((reported, true))));
    assert!(!register.workers[0].is_available);
    assert!(!register.workers[0].is_dead);
    assert_eq!(flags(&register)[1], ("b".to_string(), true, false));
}

#[test]
fn health_probe_silence_marks_dead() {
    let (tx, _rx) = watch::channel(Vec::new());
    let mut register = WorkerRegister::new(tx);
    register.register(worker("a", true, false));
    assert!(record_health(&mut register, "a", None));
    assert!(_rx.borrow().is_empty());
    assert!(register.workers[0].is_dead);
    assert!(register.workers[0].is_available);
    assert!(register.get_available_worker().is_none());
}

#[test]
fn distributer_targets_first_ready_worker_or_localhost() {
    let (tx, _rx) = watch::channel(Vec::new());
    let register = WorkerRegister::new(tx);
    let distributer = WorkerDistributer::new(register);
    let fallback = distributer.target_worker();
    assert_eq!(fallback.ip, "localhost");
    assert!(fallback.is_available);
    assert!(!fallback.is_dead);
    assert_eq!(fallback.load, Load::new(0, 0));

    let (tx, _rx) = watch::channel(Vec::new());
    let mut register = WorkerRegister::new(tx);
    register.register(worker("a", false, false));
    register.register(worker("b", true, false));
    let distributer = WorkerDistributer::new(register);
    assert_eq!(distributer.target_worker().ip, "b");
}
