use vstd::prelude::*;

use crate::model::worker::{Load, Worker};
use crate::service::worker_register::{
    announced, has_ip, ip_position, ready_workers, lemma_ip_position, lemma_replace_keeps_position, spec_mark_alive, spec_mark_dead,
    spec_update_load, worker_with_ip, WorkerRegister,
};

verus! {

/// The register after a health check of the worker at `ip`: a worker that
/// answered with its load (`probe` holds it with the verdict of the load
/// threshold) has the load stored and is alive; one that did not is dead.
pub open spec fn spec_health(ws: Seq<Worker>, ip: Seq<char>, probe: Option<(Load, bool)>) -> Seq<Worker> {
    match probe {
        Some((load, overloaded)) => spec_mark_alive(spec_update_load(ws, ip, load, overloaded), ip),
        None => spec_mark_dead(ws, ip),
    }
}

/// Records the outcome of a health check of the worker at `worker_ip`, and
/// returns whether the last announcement of the ready workers was delivered.
/// An answering worker gets two announcements (after its load is stored and
/// after it is marked alive); when the last is not delivered, the channel
/// holds the first one or its value from before.
pub fn record_health(register: &mut WorkerRegister, worker_ip: &str, probe: Option<(Load, bool)>) -> (delivered: bool)
    requires
        has_ip(old(register).workers@, worker_ip@),
    ensures
        final(register).workers@ == spec_health(old(register).workers@, worker_ip@, probe),
        delivered ==> final(register).announces_ready(),
        !delivered ==> match probe {
            None => announced(final(register).worker_sender) == announced(old(register).worker_sender),
            Some((load, overloaded)) => announced(final(register).worker_sender) == announced(
                old(register).worker_sender,
            ) || announced(final(register).worker_sender) == ready_workers(
                spec_update_load(old(register).workers@, worker_ip@, load, overloaded),
            ),
        },
{
    match probe {
        Some((load, overloaded)) => {
            let _ = register.update_load(worker_ip, load, overloaded);
            proof {
                let ws = old(register).workers@;
                lemma_ip_position(ws, worker_ip@);
                lemma_replace_keeps_position(
                    ws,
                    worker_ip@,
                    worker_with_ip(ws, worker_ip@).with_load(load, overloaded),
                );
            }
            register.worker_available(worker_ip)
        },
        None => register.worker_unavailable(worker_ip),
    }
}

/// A worker that answers its health check is alive afterwards, holds the
/// reported load, and is available exactly when that load is not over the
/// threshold; one that does not answer is dead and otherwise unchanged. No
/// other worker is touched.
pub proof fn law_health_outcome(ws: Seq<Worker>, ip: Seq<char>, probe: Option<(Load, bool)>)
    requires
        has_ip(ws, ip),
    ensures
        spec_health(ws, ip, probe).len() == ws.len(),
        has_ip(spec_health(ws, ip, probe), ip),
        forall|i: int| 0 <= i < ws.len() && i != ip_position(ws, ip) ==> spec_health(ws, ip, probe)[i] == ws[i],
        match probe {
            Some((load, overloaded)) => worker_with_ip(spec_health(ws, ip, probe), ip) == (Worker {
                is_available: !overloaded,
                load: load,
                is_dead: false,
                ip: worker_with_ip(ws, ip).ip,
            }),
            None => worker_with_ip(spec_health(ws, ip, probe), ip) == worker_with_ip(ws, ip).with_dead(true),
        },
{
    lemma_ip_position(ws, ip);
    let w = worker_with_ip(ws, ip);
    match probe {
        Some((load, overloaded)) => {
            let w1 = w.with_load(load, overloaded);
            lemma_replace_keeps_position(ws, ip, w1);
            let ws1 = spec_update_load(ws, ip, load, overloaded);
            lemma_replace_keeps_position(ws1, ip, w1.with_dead(false));
        },
        None => {
            lemma_replace_keeps_position(ws, ip, w.with_dead(true));
        },
    }
}

} // verus!
