# worker_distribution

A compile farm: a distributor accepts build tasks over HTTP, hands each to a
registered worker, and keeps each task's status and result; workers run shell
scripts or Java programs and report their load.

- `src/` is the verified library (Verus): the worker register, the task
  store, the per-task dispatch state machine, the health-check bookkeeping,
  and the turning of process output into results. Contracts are stated over
  `Seq`/`Map` views; the laws (round trips, agreement between what the
  register hands out and what it announces, how a task settles) are public
  proof functions next to the code they speak of. Every change to the
  register announces its ready workers on a watch channel; the contracts
  state that a delivered announcement leaves the channel holding exactly
  those workers, and a law ties the worker handed out to the head of that
  list.
- `app/` is the server around it: command line, HTTP endpoints, processes,
  files, timers, machine statistics, and the wire forms of the data types.
- `tests/` runs the library on concrete values.
