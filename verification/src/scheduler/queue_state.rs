//! The states that a job queue moves through, and the identifiers of the futures that can own it.
use vstd::prelude::*;

verus! {

/// Identifies the scheduler future that owns a queue waiting to be polled again.
#[derive(Clone, Copy, PartialEq, Eq, Debug, Structural)]
pub struct FutureId(pub u64);

/// Hands out future identifiers in increasing order, wrapping around after `u64::MAX`.
pub struct FutureIdSource {
    next: u64,
    first: Ghost<u64>,
    handed_out: Ghost<nat>,
}

/// The identifier that follows `id`: one more, wrapping around after `u64::MAX`.
pub open spec fn following_id(id: u64) -> u64 {
    if id == u64::MAX { 0 } else { (id + 1) as u64 }
}

impl FutureIdSource {
    /// The next identifier is the one that follows the first identifier as many times as
    /// identifiers were handed out.
    #[verifier::type_invariant]
    spec fn counts_from_first(self) -> bool {
        self.next == id_after(self.first@, self.handed_out@)
    }

    /// The identifier that the next call of `FutureId::new` hands out.
    pub closed spec fn next_id(&self) -> u64 {
        self.next
    }

    /// The first identifier this source handed out.
    pub closed spec fn first_id(&self) -> u64 {
        self.first@
    }

    /// How many identifiers this source has handed out.
    pub closed spec fn handed_out(&self) -> nat {
        self.handed_out@
    }

    /// A source whose first identifier is 0.
    pub fn new() -> (source: FutureIdSource)
        ensures
            source.next_id() == 0,
            source.first_id() == 0,
            source.handed_out() == 0,
    {
        FutureIdSource { next: 0, first: Ghost(0), handed_out: Ghost(0) }
    }
}

impl FutureId {
    /// Creates a new unique future identifier: the identifier that follows the first one of the
    /// source as many times as identifiers were handed out before, so that the identifiers of one
    /// source are pairwise distinct until 2^64 of them have been handed out (see
    /// `lemma_future_ids_are_unique`).
    pub fn new(source: &mut FutureIdSource) -> (id: FutureId)
        ensures
            id.0 == old(source).next_id(),
            id.0 == id_after(old(source).first_id(), old(source).handed_out()),
            final(source).next_id() == following_id(old(source).next_id()),
            final(source).first_id() == old(source).first_id(),
            final(source).handed_out() == old(source).handed_out() + 1,
    {
        proof {
            use_type_invariant(&*source);
        }
        let id = source.next;
        let ghost first = source.first@;
        let ghost handed_out = source.handed_out@;
        *source = FutureIdSource {
            next: id.wrapping_add(1),
            first: Ghost(first),
            handed_out: Ghost(handed_out + 1),
        };
        FutureId(id)
    }
}

/// The identifier a source whose next identifier is `start` hands out after `calls` calls.
pub open spec fn id_after(start: u64, calls: nat) -> u64
    decreases calls,
{
    if calls == 0 { start } else { following_id(id_after(start, (calls - 1) as nat)) }
}

proof fn lemma_id_after_value(start: u64, calls: nat)
    ensures
        id_after(start, calls) as int == (start + calls) % 0x1_0000_0000_0000_0000,
    decreases calls,
{
    if calls > 0 {
        lemma_id_after_value(start, (calls - 1) as nat);
        let prev = id_after(start, (calls - 1) as nat) as int;
        let m: int = 0x1_0000_0000_0000_0000;
        assert((prev + 1) % m == (start + calls) % m) by {
            vstd::arithmetic::div_mod::lemma_add_mod_noop(start + calls - 1, 1, m);
            vstd::arithmetic::div_mod::lemma_mod_twice(start + calls - 1, m);
            vstd::arithmetic::div_mod::lemma_add_mod_noop(prev, 1, m);
            vstd::arithmetic::div_mod::lemma_small_mod(prev as nat, m as nat);
        }
        if prev == u64::MAX {
            assert((prev + 1) % m == 0);
        } else {
            vstd::arithmetic::div_mod::lemma_small_mod((prev + 1) as nat, m as nat);
        }
    }
}

/// Creates unique identifiers: the identifiers one source hands out are pairwise distinct until
/// it has handed out 2^64 of them.
pub proof fn lemma_future_ids_are_unique(start: u64, i: nat, j: nat)
    requires
        i < j < 0x1_0000_0000_0000_0000,
    ensures
        id_after(start, i) != id_after(start, j),
{
    lemma_id_after_value(start, i);
    lemma_id_after_value(start, j);
    let m: int = 0x1_0000_0000_0000_0000;
    if (start + i) % m == (start + j) % m {
        vstd::arithmetic::div_mod::lemma_mod_equivalence(start + j, start + i, m);
        vstd::arithmetic::div_mod::lemma_small_mod((j - i) as nat, m as nat);
        assert(false);
    }
}

/// The state of a job queue.
#[derive(Clone, Copy, PartialEq, Eq, Debug, Structural)]
pub enum QueueState {
    /// Not running and not ready to run: the queue has this state when it has no jobs in it.
    Idle,
    /// Queued up to run, generally waiting for a background thread to run on.
    Pending,
    /// Assigned to a thread and running: it must not be scheduled anywhere else meanwhile.
    Running,
    /// A job on the queue is waiting to be woken up before the queue can carry on.
    WaitingForWake,
    /// Running synchronously on a thread that is parked until another thread unparks it.
    WaitingForUnpark,
    /// Returned pending from a poll: only the future with this identifier can resume it.
    WaitingForPoll(FutureId),
    /// A wake-up arrived while the queue was still running.
    AwokenWhileRunning,
    /// A job panicked: the queue can no longer be scheduled.
    Panicked,
}

impl QueueState {
    /// The states in which some thread or future holds the queue and is running its jobs.
    pub open spec fn spec_is_running(self) -> bool {
        match self {
            QueueState::Running | QueueState::AwokenWhileRunning | QueueState::WaitingForPoll(_)
            | QueueState::WaitingForUnpark => true,
            _ => false,
        }
    }

    /// Indicates if this queue is in the running state
    pub fn is_running(&self) -> (running: bool)
        ensures
            running == self.spec_is_running(),
    {
        match self {
            QueueState::Running | QueueState::AwokenWhileRunning | QueueState::WaitingForPoll(_)
            | QueueState::WaitingForUnpark => true,
            _ => false,
        }
    }
}

} // verus!
