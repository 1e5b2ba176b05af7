# desync

Desync orders the operations performed on a piece of data instead of guarding it with locks:
`sync` runs an operation and waits for its result, `desync` runs it in the background, and every
operation on one object runs in the order it was scheduled.

The crate is in two parts.

* `src/` is the verified library. It holds the decisions of the scheduler as state machines with
  contracts: the queue of jobs and its states (`scheduler`, `scheduler/job_queue`,
  `scheduler/wake_thread`), the thread pool and the schedule (`scheduler/scheduler_core`), the
  results and wakers of scheduler futures (`scheduler/scheduler_future`), future identifiers
  (`scheduler/queue_state`), run-once jobs (`job`, `future_job`) and the buffer of pipe streams
  (`pipe`). Proof functions state the laws the scheduler keeps over whole runs: on both kinds of
  queue, jobs start in the order they arrived (a job put back after returning pending runs again
  before any later job starts); a panicked queue takes no more jobs; a pipe's output stream returns
  every value in order; a drain waker never loses a wake-up and wakes each waker at most once; a
  job's future is created at most once; a parked thread is resumed by its wake-up; a resumption that
  arrives before its suspension cancels it; and future identifiers are unique.
* `app/` is the runtime around it: threads, locks, wakers, futures, the `Desync` type and pipes.
  It takes each decision by calling the library with the relevant lock held, and performs the
  resulting action (running a job, waking a task, spawning a thread) once the lock is released.
