use vstd::prelude::*;

use tokio::sync::watch::Sender;

use crate::model::worker::{Load, Worker};

verus! {

/// The sending half of a `tokio` watch channel, carried through unchanged.
#[verifier::external_type_specification]
#[verifier::external_body]
#[verifier::reject_recursive_types(T)]
pub struct ExWatchSender<T>(Sender<T>);

/// The value the watch channel behind `sender` currently holds: the list of
/// workers last handed to it.
pub uninterp spec fn announced(sender: Sender<Vec<Worker>>) -> Seq<Worker>;

/// Hands `workers` to the watch channel with `tokio::sync::watch::Sender::send`.
///
/// `send` stores the value and wakes the receivers when at least one receiver
/// exists; when none does it fails, returns the value inside the error and
/// leaves the stored value as it was. The result says which happened. Whether
/// a receiver exists is not known here, so which of the two comes is not
/// stated. The sender is taken by `&mut` so that the change of the stored
/// value is seen; the register is the only sender on its channel.
#[verifier::external_body]
fn publish(sender: &mut Sender<Vec<Worker>>, workers: Vec<Worker>) -> (delivered: bool)
    ensures
        delivered ==> announced(*final(sender)) == workers@,
        !delivered ==> announced(*final(sender)) == announced(*old(sender)),
{
    sender.send(workers).is_ok()
}

/// `i` is the first position in `ws` of a worker whose address is `ip`.
pub open spec fn is_first_with_ip(ws: Seq<Worker>, ip: Seq<char>, i: int) -> bool {
    &&& 0 <= i < ws.len()
    &&& ws[i].ip@ == ip
    &&& forall|j: int| 0 <= j < i ==> ws[j].ip@ != ip
}

/// Some worker in `ws` has the address `ip`.
pub open spec fn has_ip(ws: Seq<Worker>, ip: Seq<char>) -> bool {
    exists|i: int| 0 <= i < ws.len() && ws[i].ip@ == ip
}

/// The position of the first worker in `ws` with the address `ip`.
pub open spec fn ip_position(ws: Seq<Worker>, ip: Seq<char>) -> int {
    choose|i: int| is_first_with_ip(ws, ip, i)
}

/// The first worker in `ws` with the address `ip`.
pub open spec fn worker_with_ip(ws: Seq<Worker>, ip: Seq<char>) -> Worker {
    ws[ip_position(ws, ip)]
}

/// `ws` with its first worker of address `ip` replaced by `w`.
pub open spec fn replace_at_ip(ws: Seq<Worker>, ip: Seq<char>, w: Worker) -> Seq<Worker> {
    ws.update(ip_position(ws, ip), w)
}

/// The register after the worker at `ip` is locked: it takes no new work.
pub open spec fn spec_lock(ws: Seq<Worker>, ip: Seq<char>) -> Seq<Worker> {
    replace_at_ip(ws, ip, worker_with_ip(ws, ip).with_available(false))
}

/// The register after the worker at `ip` is unlocked: it takes work again.
pub open spec fn spec_unlock(ws: Seq<Worker>, ip: Seq<char>) -> Seq<Worker> {
    replace_at_ip(ws, ip, worker_with_ip(ws, ip).with_available(true))
}

/// The register after the worker at `ip` failed a health check.
pub open spec fn spec_mark_dead(ws: Seq<Worker>, ip: Seq<char>) -> Seq<Worker> {
    replace_at_ip(ws, ip, worker_with_ip(ws, ip).with_dead(true))
}

/// The register after the worker at `ip` passed a health check.
pub open spec fn spec_mark_alive(ws: Seq<Worker>, ip: Seq<char>) -> Seq<Worker> {
    replace_at_ip(ws, ip, worker_with_ip(ws, ip).with_dead(false))
}

/// The register after the worker at `ip` reported `load`.
pub open spec fn spec_update_load(ws: Seq<Worker>, ip: Seq<char>, load: Load, overloaded: bool) -> Seq<Worker> {
    replace_at_ip(ws, ip, worker_with_ip(ws, ip).with_load(load, overloaded))
}

/// The workers that may be handed a task, in register order.
pub open spec fn ready_workers(ws: Seq<Worker>) -> Seq<Worker> {
    ws.filter(|w: Worker| w.is_ready())
}

/// `i` is the first position in `ws` whose worker satisfies `p`.
pub open spec fn is_first_where(ws: Seq<Worker>, p: spec_fn(Worker) -> bool, i: int) -> bool {
    &&& 0 <= i < ws.len()
    &&& p(ws[i])
    &&& forall|j: int| 0 <= j < i ==> !p(ws[j])
}

/// The first worker in `ws` that satisfies `p`, if there is one.
pub open spec fn first_where(ws: Seq<Worker>, p: spec_fn(Worker) -> bool) -> Option<Worker> {
    if exists|i: int| 0 <= i < ws.len() && p(ws[i]) {
        Some(ws[choose|i: int| is_first_where(ws, p, i)])
    } else {
        None
    }
}

/// A worker that may be handed a task.
pub open spec fn ready_pred() -> spec_fn(Worker) -> bool {
    |w: Worker| w.is_ready()
}

/// The first worker in `ws` that may be handed a task, if there is one.
pub open spec fn first_ready(ws: Seq<Worker>) -> Option<Worker> {
    first_where(ws, ready_pred())
}

/// When some worker has the address `ip`, a first such worker exists, and
/// `ip_position` names it.
pub proof fn lemma_ip_position(ws: Seq<Worker>, ip: Seq<char>)
    requires
        has_ip(ws, ip),
    ensures
        is_first_with_ip(ws, ip, ip_position(ws, ip)),
        forall|i: int| is_first_with_ip(ws, ip, i) ==> i == ip_position(ws, ip),
{
    let k = choose|k: int| 0 <= k < ws.len() && ws[k].ip@ == ip;
    lemma_first_with_ip_below(ws, ip, k);
}

proof fn lemma_first_with_ip_below(ws: Seq<Worker>, ip: Seq<char>, k: int)
    requires
        0 <= k < ws.len(),
        ws[k].ip@ == ip,
    ensures
        exists|i: int| is_first_with_ip(ws, ip, i),
    decreases k,
{
    if exists|j: int| 0 <= j < k && ws[j].ip@ == ip {
        let j = choose|j: int| 0 <= j < k && ws[j].ip@ == ip;
        lemma_first_with_ip_below(ws, ip, j);
    } else {
        assert(is_first_with_ip(ws, ip, k));
    }
}

/// When some worker satisfies `p`, a first one exists, and it is unique.
pub proof fn lemma_first_where(ws: Seq<Worker>, p: spec_fn(Worker) -> bool, k: int)
    requires
        0 <= k < ws.len(),
        p(ws[k]),
    ensures
        is_first_where(ws, p, choose|i: int| is_first_where(ws, p, i)),
        forall|i: int| is_first_where(ws, p, i) ==> i == choose|i: int| is_first_where(ws, p, i),
    decreases k,
{
    if exists|j: int| 0 <= j < k && p(ws[j]) {
        let j = choose|j: int| 0 <= j < k && p(ws[j]);
        lemma_first_where(ws, p, j);
    } else {
        assert(is_first_where(ws, p, k));
    }
}

/// Replacing the first worker of address `ip` by a worker with the same
/// address leaves that position the first one with the address.
pub proof fn lemma_replace_keeps_position(ws: Seq<Worker>, ip: Seq<char>, w: Worker)
    requires
        has_ip(ws, ip),
        w.ip@ == ip,
    ensures
        has_ip(replace_at_ip(ws, ip, w), ip),
        ip_position(replace_at_ip(ws, ip, w), ip) == ip_position(ws, ip),
        worker_with_ip(replace_at_ip(ws, ip, w), ip) == w,
        replace_at_ip(ws, ip, w).len() == ws.len(),
{
    lemma_ip_position(ws, ip);
    let pos = ip_position(ws, ip);
    let ws2 = replace_at_ip(ws, ip, w);
    assert(ws2[pos].ip@ == ip);
    assert(is_first_with_ip(ws2, ip, pos));
    lemma_ip_position(ws2, ip);
}

/// Unlocking a worker that was available before it was locked gives back the
/// register as it was.
pub proof fn law_unlock_undoes_lock(ws: Seq<Worker>, ip: Seq<char>)
    requires
        has_ip(ws, ip),
        worker_with_ip(ws, ip).is_available,
    ensures
        spec_unlock(spec_lock(ws, ip), ip) == ws,
{
    lemma_ip_position(ws, ip);
    let w = worker_with_ip(ws, ip);
    lemma_replace_keeps_position(ws, ip, w.with_available(false));
    assert(w.with_available(false).with_available(true) == w);
    assert(spec_unlock(spec_lock(ws, ip), ip) =~= ws);
}

/// Locking a worker that was unavailable before it was unlocked gives back
/// the register as it was.
pub proof fn law_lock_undoes_unlock(ws: Seq<Worker>, ip: Seq<char>)
    requires
        has_ip(ws, ip),
        !worker_with_ip(ws, ip).is_available,
    ensures
        spec_lock(spec_unlock(ws, ip), ip) == ws,
{
    lemma_ip_position(ws, ip);
    let w = worker_with_ip(ws, ip);
    lemma_replace_keeps_position(ws, ip, w.with_available(true));
    assert(w.with_available(true).with_available(false) == w);
    assert(spec_lock(spec_unlock(ws, ip), ip) =~= ws);
}

/// Locking twice is the same as locking once.
pub proof fn law_lock_idempotent(ws: Seq<Worker>, ip: Seq<char>)
    requires
        has_ip(ws, ip),
    ensures
        spec_lock(spec_lock(ws, ip), ip) == spec_lock(ws, ip),
{
    lemma_ip_position(ws, ip);
    let w = worker_with_ip(ws, ip);
    lemma_replace_keeps_position(ws, ip, w.with_available(false));
    assert(spec_lock(spec_lock(ws, ip), ip) =~= spec_lock(ws, ip));
}

/// Marking a worker alive after it was marked dead gives back the register
/// as it was, when the worker was alive to begin with.
pub proof fn law_mark_alive_undoes_mark_dead(ws: Seq<Worker>, ip: Seq<char>)
    requires
        has_ip(ws, ip),
        !worker_with_ip(ws, ip).is_dead,
    ensures
        spec_mark_alive(spec_mark_dead(ws, ip), ip) == ws,
{
    lemma_ip_position(ws, ip);
    let w = worker_with_ip(ws, ip);
    lemma_replace_keeps_position(ws, ip, w.with_dead(true));
    assert(w.with_dead(true).with_dead(false) == w);
    assert(spec_mark_alive(spec_mark_dead(ws, ip), ip) =~= ws);
}

/// Each of the updates by address changes only the first worker with that
/// address, keeps the register's size and every address in it, and leaves
/// that worker the first with its address.
pub proof fn law_updates_touch_one_worker(ws: Seq<Worker>, ip: Seq<char>, load: Load, overloaded: bool)
    requires
        has_ip(ws, ip),
    ensures
        forall|i: int| 0 <= i < ws.len() && i != ip_position(ws, ip) ==> {
            &&& spec_lock(ws, ip)[i] == ws[i]
            &&& spec_unlock(ws, ip)[i] == ws[i]
            &&& spec_mark_dead(ws, ip)[i] == ws[i]
            &&& spec_mark_alive(ws, ip)[i] == ws[i]
            &&& spec_update_load(ws, ip, load, overloaded)[i] == ws[i]
        },
        spec_lock(ws, ip).len() == ws.len(),
        spec_unlock(ws, ip).len() == ws.len(),
        spec_mark_dead(ws, ip).len() == ws.len(),
        spec_mark_alive(ws, ip).len() == ws.len(),
        spec_update_load(ws, ip, load, overloaded).len() == ws.len(),
        !worker_with_ip(spec_lock(ws, ip), ip).is_available,
        worker_with_ip(spec_unlock(ws, ip), ip).is_available,
        worker_with_ip(spec_mark_dead(ws, ip), ip).is_dead,
        !worker_with_ip(spec_mark_alive(ws, ip), ip).is_dead,
        worker_with_ip(spec_update_load(ws, ip, load, overloaded), ip).is_available == !overloaded,
        worker_with_ip(spec_update_load(ws, ip, load, overloaded), ip).load == load,
        worker_with_ip(spec_update_load(ws, ip, load, overloaded), ip).is_dead
            == worker_with_ip(ws, ip).is_dead,
{
    lemma_ip_position(ws, ip);
    let w = worker_with_ip(ws, ip);
    lemma_replace_keeps_position(ws, ip, w.with_available(false));
    lemma_replace_keeps_position(ws, ip, w.with_available(true));
    lemma_replace_keeps_position(ws, ip, w.with_dead(true));
    lemma_replace_keeps_position(ws, ip, w.with_dead(false));
    lemma_replace_keeps_position(ws, ip, w.with_load(load, overloaded));
}

/// Each update by address acts on the first worker whose address is `ip`
/// (the worker at position `pos`: its address is `ip` and no earlier worker
/// has it) and changes exactly one thing about it: locking clears its
/// availability, unlocking sets it, marking dead sets its dead flag, marking
/// alive clears it, and a load report stores the load and sets availability
/// to "not overloaded". Every other worker, and the register's size, stay.
pub proof fn law_updates_by_address(ws: Seq<Worker>, ip: Seq<char>, load: Load, overloaded: bool)
    requires
        has_ip(ws, ip),
    ensures
        ({
            let pos = ip_position(ws, ip);
            &&& 0 <= pos < ws.len()
            &&& ws[pos].ip@ == ip
            &&& forall|j: int| 0 <= j < pos ==> (#[trigger] ws[j]).ip@ != ip
            &&& spec_lock(ws, ip) == ws.update(pos, Worker { is_available: false, ..ws[pos] })
            &&& spec_unlock(ws, ip) == ws.update(pos, Worker { is_available: true, ..ws[pos] })
            &&& spec_mark_dead(ws, ip) == ws.update(pos, Worker { is_dead: true, ..ws[pos] })
            &&& spec_mark_alive(ws, ip) == ws.update(pos, Worker { is_dead: false, ..ws[pos] })
            &&& spec_update_load(ws, ip, load, overloaded) == ws.update(
                pos,
                Worker { is_available: !overloaded, load: load, ..ws[pos] },
            )
        }),
{
    lemma_ip_position(ws, ip);
}

/// A registered worker can be found by its address afterwards; when no
/// worker had that address before, it is the one found.
pub proof fn law_registered_worker_is_found(ws: Seq<Worker>, w: Worker)
    ensures
        has_ip(ws.push(w), w.ip@),
        !has_ip(ws, w.ip@) ==> ip_position(ws.push(w), w.ip@) == ws.len()
            && worker_with_ip(ws.push(w), w.ip@) == w,
{
    let ws2 = ws.push(w);
    assert(ws2[ws.len() as int] == w);
    lemma_ip_position(ws2, w.ip@);
    if !has_ip(ws, w.ip@) {
        assert(is_first_with_ip(ws2, w.ip@, ws.len() as int)) by {
            assert forall|j: int| 0 <= j < ws.len() implies ws2[j].ip@ != w.ip@ by {
                assert(ws2[j] == ws[j]);
            }
        }
    }
}

/// The worker the register hands out is the first of its ready workers:
/// `get_available_worker` finds one exactly when `ready_workers` is
/// non-empty, and then finds its head.
pub proof fn law_first_ready_heads_announced(ws: Seq<Worker>)
    ensures
        first_ready(ws) == if ready_workers(ws).len() > 0 {
            Some(ready_workers(ws)[0])
        } else {
            None::<Worker>
        },
    decreases ws.len(),
{
    reveal(Seq::filter);
    if ws.len() > 0 {
        let p = ws.drop_last();
        law_first_ready_heads_announced(p);
        let last = ws.len() - 1;
        assert(forall|j: int| 0 <= j < p.len() ==> p[j] == ws[j]);
        if exists|i: int| 0 <= i < p.len() && p[i].is_ready() {
            let k = choose|i: int| 0 <= i < p.len() && p[i].is_ready();
            lemma_first_where(p, ready_pred(), k);
            lemma_first_where(ws, ready_pred(), k);
            let fp = choose|i: int| is_first_where(p, ready_pred(), i);
            assert(is_first_where(ws, ready_pred(), fp));
        } else {
            assert(forall|j: int| 0 <= j < last ==> !(#[trigger] ws[j]).is_ready()) by {
                assert forall|j: int| 0 <= j < last implies !(#[trigger] ws[j]).is_ready() by {
                    assert(p[j] == ws[j]);
                }
            }
            if ws[last].is_ready() {
                lemma_first_where(ws, ready_pred(), last);
                assert(is_first_where(ws, ready_pred(), last));
            }
        }
    }
}

/// A worker the register hands out is its first worker that is available and
/// not dead: it sits at some position of the register, every worker before it
/// is unavailable or dead, and it is handed out as it is. The register hands
/// out none exactly when every worker is unavailable or dead.
pub proof fn law_handed_out_worker_is_ready(ws: Seq<Worker>)
    ensures
        first_ready(ws) matches Some(w) ==> ws.contains(w) && w.is_available && !w.is_dead && exists|i: int|
            0 <= i < ws.len() && ws[i] == w && forall|j: int|
                0 <= j < i ==> !(#[trigger] ws[j]).is_available || ws[j].is_dead,
        first_ready(ws) is None <==> forall|i: int|
            0 <= i < ws.len() ==> !(#[trigger] ws[i]).is_available || ws[i].is_dead,
{
    if exists|i: int| 0 <= i < ws.len() && ws[i].is_ready() {
        let k = choose|i: int| 0 <= i < ws.len() && ws[i].is_ready();
        lemma_first_where(ws, ready_pred(), k);
        let f = choose|i: int| is_first_where(ws, ready_pred(), i);
        assert(forall|j: int| 0 <= j < f ==> !ready_pred()(ws[j]));
        assert(ws[f] == ws[f]);
    } else {
        assert forall|i: int| 0 <= i < ws.len() implies !(#[trigger] ws[i]).is_available || ws[i].is_dead by {
            if ws[i].is_available && !ws[i].is_dead {
                assert(ws[i].is_ready());
            }
        }
    }
}

/// The number of workers in `ws` that are available and not dead.
pub open spec fn count_available_alive(ws: Seq<Worker>) -> nat
    decreases ws.len(),
{
    if ws.len() == 0 {
        0
    } else {
        count_available_alive(ws.drop_last()) + if ws.last().is_available && !ws.last().is_dead {
            1nat
        } else {
            0nat
        }
    }
}

/// The announced list holds every worker of the register that is available
/// and not dead, and nothing else: as many entries as there are such
/// workers, each of them a worker of the register that is available and not
/// dead, and each such worker among them.
pub proof fn law_announced_list_is_complete(ws: Seq<Worker>)
    ensures
        ready_workers(ws).len() == count_available_alive(ws),
        forall|k: int| 0 <= k < ready_workers(ws).len() ==> {
            &&& (#[trigger] ready_workers(ws)[k]).is_available
            &&& !ready_workers(ws)[k].is_dead
            &&& ws.contains(ready_workers(ws)[k])
        },
        forall|i: int| 0 <= i < ws.len() && (#[trigger] ws[i]).is_available && !ws[i].is_dead
            ==> ready_workers(ws).contains(ws[i]),
    decreases ws.len(),
{
    reveal(Seq::filter);
    if ws.len() > 0 {
        let p = ws.drop_last();
        law_announced_list_is_complete(p);
        let r = ready_workers(ws);
        let rp = ready_workers(p);
        assert(forall|j: int| 0 <= j < p.len() ==> p[j] == ws[j]);
        if ws.last().is_ready() {
            assert(r == rp.push(ws.last()));
        } else {
            assert(r == rp);
        }
        assert forall|k: int| 0 <= k < r.len() implies {
            &&& (#[trigger] r[k]).is_available
            &&& !r[k].is_dead
            &&& ws.contains(r[k])
        } by {
            if k < rp.len() {
                assert(r[k] == rp[k]);
                assert(p.contains(rp[k]));
                let j = choose|j: int| 0 <= j < p.len() && p[j] == rp[k];
                assert(ws[j] == rp[k]);
            } else {
                assert(r[k] == ws.last());
                assert(ws[ws.len() - 1] == r[k]);
            }
        }
        assert forall|i: int| 0 <= i < ws.len() && (#[trigger] ws[i]).is_available && !ws[i].is_dead
            implies r.contains(ws[i]) by {
            if i < ws.len() - 1 {
                assert(p[i] == ws[i]);
                assert(rp.contains(p[i]));
                let k = choose|k: int| 0 <= k < rp.len() && rp[k] == p[i];
                if ws.last().is_ready() {
                    assert(r[k] == rp[k]);
                } else {
                    assert(r[k] == rp[k]);
                }
            } else {
                assert(ws[i].is_ready());
                assert(r[r.len() - 1] == ws[i]);
            }
        }
    }
}

/// Locking and then unlocking a worker that was available leaves the
/// register announcing exactly the ready workers it announced before.
pub proof fn law_round_trip_announces_the_same(ws: Seq<Worker>, ip: Seq<char>)
    requires
        has_ip(ws, ip),
        worker_with_ip(ws, ip).is_available,
    ensures
        ready_workers(spec_unlock(spec_lock(ws, ip), ip)) == ready_workers(ws),
{
    law_unlock_undoes_lock(ws, ip);
}

/// The announced list keeps register order: its entries are the workers at
/// strictly increasing positions of the register, and those positions are
/// exactly the positions of the workers that are available and not dead.
pub proof fn law_announced_list_keeps_order(ws: Seq<Worker>) -> (positions: Seq<int>)
    ensures
        positions.len() == ready_workers(ws).len(),
        forall|k: int| 0 <= k < positions.len() ==> 0 <= #[trigger] positions[k] < ws.len()
            && ws[positions[k]] == ready_workers(ws)[k],
        forall|k1: int, k2: int| 0 <= k1 < k2 < positions.len() ==> positions[k1] < positions[k2],
        forall|i: int| 0 <= i < ws.len() ==> ((ws[i].is_available && !ws[i].is_dead) <==> positions.contains(i)),
    decreases ws.len(),
{
    reveal(Seq::filter);
    if ws.len() == 0 {
        Seq::empty()
    } else {
        let p = ws.drop_last();
        let pp = law_announced_list_keeps_order(p);
        assert(forall|j: int| 0 <= j < p.len() ==> p[j] == ws[j]);
        let last = ws.len() - 1;
        let r = ready_workers(ws);
        let rp = ready_workers(p);
        let positions = if ws.last().is_ready() {
            pp.push(last)
        } else {
            pp
        };
        if ws.last().is_ready() {
            assert(r == rp.push(ws.last()));
        } else {
            assert(r == rp);
        }
        assert forall|k: int| 0 <= k < positions.len() implies 0 <= #[trigger] positions[k] < ws.len()
            && ws[positions[k]] == r[k] by {
            if k < pp.len() {
                assert(positions[k] == pp[k]);
                assert(r[k] == rp[k]);
                assert(p[pp[k]] == ws[pp[k]]);
            }
        }
        assert forall|i: int| 0 <= i < ws.len() implies ((ws[i].is_available && !ws[i].is_dead)
            <==> positions.contains(i)) by {
            if i < last {
                assert(p[i] == ws[i]);
                if pp.contains(i) {
                    let k = choose|k: int| 0 <= k < pp.len() && pp[k] == i;
                    assert(positions[k] == i);
                }
                if positions.contains(i) {
                    let k = choose|k: int| 0 <= k < positions.len() && positions[k] == i;
                    if k < pp.len() {
                        assert(pp[k] == i);
                    }
                }
            } else {
                if ws.last().is_ready() {
                    assert(positions[positions.len() - 1] == i);
                } else {
                    if positions.contains(i) {
                        let k = choose|k: int| 0 <= k < positions.len() && positions[k] == i;
                        assert(pp[k] < p.len());
                    }
                }
            }
        }
        positions
    }
}

/// The set of workers known to the distributor, with the channel on which
/// the ready ones are announced after every change.
pub struct WorkerRegister {
    pub workers: Vec<Worker>,
    pub worker_sender: Sender<Vec<Worker>>,
}

impl WorkerRegister {
    /// An empty register that announces on `worker_sender`.
    pub fn new(worker_sender: Sender<Vec<Worker>>) -> (register: Self)
        ensures
            register.workers@ == Seq::<Worker>::empty(),
            register.worker_sender == worker_sender,
    {
        Self { workers: Vec::new(), worker_sender: worker_sender }
    }

    /// Adds a worker at the end of the register and announces the ready workers.
    pub fn register(&mut self, worker: Worker) -> (delivered: bool)
        ensures
            final(self).workers@ == old(self).workers@.push(worker),
            delivered ==> final(self).announces_ready(),
            !delivered ==> announced(final(self).worker_sender) == announced(old(self).worker_sender),
    {
        self.workers.push(worker);
        self.notify()
    }

    /// The first worker that is available and not dead, if any.
    pub fn get_available_worker(&self) -> (found: Option<&Worker>)
        ensures
            match found {
                Some(w) => first_ready(self.workers@) == Some(*w),
                None => first_ready(self.workers@) is None,
            },
    {
        let mut i: usize = 0;
        while i < self.workers.len()
            invariant
                i <= self.workers.len(),
                forall|j: int| 0 <= j < i ==> !self.workers@[j].is_ready(),
            decreases self.workers.len() - i,
        {
            if self.workers[i].is_available && !self.workers[i].is_dead {
                proof {
                    lemma_first_where(self.workers@, ready_pred(), i as int);
                    assert(is_first_where(self.workers@, ready_pred(), i as int));
                }
                return Some(&self.workers[i]);
            }
            i = i + 1;
        }
        None
    }

    /// The position of the first worker with the address `worker_ip`.
    fn position_of(&self, worker_ip: &str) -> (i: usize)
        requires
            has_ip(self.workers@, worker_ip@),
        ensures
            i == ip_position(self.workers@, worker_ip@),
            i < self.workers.len(),
    {
        proof {
            lemma_ip_position(self.workers@, worker_ip@);
        }
        let target = worker_ip.to_owned();
        let mut i: usize = 0;
        while i < self.workers.len()
            invariant
                i <= self.workers.len(),
                target@ == worker_ip@,
                has_ip(self.workers@, worker_ip@),
                is_first_with_ip(self.workers@, worker_ip@, ip_position(self.workers@, worker_ip@)),
                forall|j: int| 0 <= j < i ==> self.workers@[j].ip@ != worker_ip@,
            decreases self.workers.len() - i,
        {
            if self.workers[i].ip == target {
                return i;
            }
            i = i + 1;
        }
        proof {
            assert(self.workers@[ip_position(self.workers@, worker_ip@)].ip@ == worker_ip@);
        }
        0
    }

    /// Marks the first worker with the address `worker_ip` as unavailable and
    /// announces the ready workers.
    pub fn lock_worker(&mut self, worker_ip: &str) -> (delivered: bool)
        requires
            has_ip(old(self).workers@, worker_ip@),
        ensures
            final(self).workers@ == spec_lock(old(self).workers@, worker_ip@),
            delivered ==> final(self).announces_ready(),
            !delivered ==> announced(final(self).worker_sender) == announced(old(self).worker_sender),
    {
        let i = self.position_of(worker_ip);
        self.workers[i].is_available = false;
        self.notify()
    }

    /// Marks the first worker with the address `worker_ip` as available and
    /// announces the ready workers.
    pub fn unlock_worker(&mut self, worker_ip: &str) -> (delivered: bool)
        requires
            has_ip(old(self).workers@, worker_ip@),
        ensures
            final(self).workers@ == spec_unlock(old(self).workers@, worker_ip@),
            delivered ==> final(self).announces_ready(),
            !delivered ==> announced(final(self).worker_sender) == announced(old(self).worker_sender),
    {
        let i = self.position_of(worker_ip);
        self.workers[i].is_available = true;
        self.notify()
    }

    /// Marks the first worker with the address `worker_ip` as dead and
    /// announces the ready workers.
    pub fn worker_unavailable(&mut self, worker_ip: &str) -> (delivered: bool)
        requires
            has_ip(old(self).workers@, worker_ip@),
        ensures
            final(self).workers@ == spec_mark_dead(old(self).workers@, worker_ip@),
            delivered ==> final(self).announces_ready(),
            !delivered ==> announced(final(self).worker_sender) == announced(old(self).worker_sender),
    {
        let i = self.position_of(worker_ip);
        self.workers[i].is_dead = true;
        self.notify()
    }

    /// Marks the first worker with the address `worker_ip` as alive and
    /// announces the ready workers.
    pub fn worker_available(&mut self, worker_ip: &str) -> (delivered: bool)
        requires
            has_ip(old(self).workers@, worker_ip@),
        ensures
            final(self).workers@ == spec_mark_alive(old(self).workers@, worker_ip@),
            delivered ==> final(self).announces_ready(),
            !delivered ==> announced(final(self).worker_sender) == announced(old(self).worker_sender),
    {
        let i = self.position_of(worker_ip);
        self.workers[i].is_dead = false;
        self.notify()
    }

    /// Stores the load that the first worker with the address `worker_ip`
    /// reported, makes it available exactly when the report is not over the
    /// load threshold (`overloaded`), and announces the ready workers.
    pub fn update_load(&mut self, worker_ip: &str, load: Load, overloaded: bool) -> (delivered: bool)
        requires
            has_ip(old(self).workers@, worker_ip@),
        ensures
            final(self).workers@ == spec_update_load(old(self).workers@, worker_ip@, load, overloaded),
            delivered ==> final(self).announces_ready(),
            !delivered ==> announced(final(self).worker_sender) == announced(old(self).worker_sender),
    {
        let i = self.position_of(worker_ip);
        self.workers[i].is_available = !overloaded;
        self.workers[i].load = load;
        self.notify()
    }

    /// The workers that are available and not dead, in register order.
    pub fn available_workers(&self) -> (ready: Vec<Worker>)
        ensures
            ready@ == ready_workers(self.workers@),
    {
        let mut ready: Vec<Worker> = Vec::new();
        let mut i: usize = 0;
        while i < self.workers.len()
            invariant
                i <= self.workers.len(),
                ready@ == ready_workers(self.workers@.take(i as int)),
            decreases self.workers.len() - i,
        {
            proof {
                reveal(Seq::filter);
                assert(self.workers@.take(i + 1).drop_last() == self.workers@.take(i as int));
            }
            if self.workers[i].is_available && !self.workers[i].is_dead {
                ready.push(self.workers[i].duplicate());
            }
            i = i + 1;
        }
        proof {
            assert(self.workers@.take(self.workers.len() as int) == self.workers@);
        }
        ready
    }

    /// The addresses of all registered workers, in register order: the
    /// workers a health check probes.
    pub fn worker_ips(&self) -> (ips: Vec<String>)
        ensures
            ips@.len() == self.workers@.len(),
            forall|i: int| 0 <= i < ips@.len() ==> (#[trigger] ips@[i])@ == self.workers@[i].ip@,
    {
        let mut ips: Vec<String> = Vec::new();
        let mut i: usize = 0;
        while i < self.workers.len()
            invariant
                i <= self.workers.len(),
                ips@.len() == i,
                forall|j: int| 0 <= j < i ==> (#[trigger] ips@[j])@ == self.workers@[j].ip@,
            decreases self.workers.len() - i,
        {
            ips.push(self.workers[i].ip.clone());
            i = i + 1;
        }
        ips
    }

    /// The channel holds exactly the workers that are available and not dead.
    pub open spec fn announces_ready(&self) -> bool {
        announced(self.worker_sender) == ready_workers(self.workers@)
    }

    /// Announces the workers that are available and not dead on the watch
    /// channel, and returns whether the announcement was delivered (it is
    /// not when no receiver is listening, and the channel then keeps its
    /// previous value).
    pub fn notify(&mut self) -> (delivered: bool)
        ensures
            final(self).workers@ == old(self).workers@,
            delivered ==> final(self).announces_ready(),
            !delivered ==> announced(final(self).worker_sender) == announced(old(self).worker_sender),
    {
        let ready = self.available_workers();
        publish(&mut self.worker_sender, ready)
    }
}

/// When the register's last announcement was delivered, the worker it hands
/// out is the head of what its channel holds, and it hands out none exactly
/// when the channel holds no worker.
pub proof fn law_handed_out_worker_heads_channel(register: WorkerRegister)
    requires
        register.announces_ready(),
    ensures
        first_ready(register.workers@) == if announced(register.worker_sender).len() > 0 {
            Some(announced(register.worker_sender)[0])
        } else {
            None::<Worker>
        },
{
    law_first_ready_heads_announced(register.workers@);
}

} // verus!
