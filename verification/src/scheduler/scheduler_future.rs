//! The shared state behind a scheduler future: the result slot that the job signals, the waker
//! of the task polling the future, and what a poll does to the queue that evaluates the job.
use vstd::prelude::*;
use futures::channel::oneshot::Canceled;
use super::queue_state::{QueueState, FutureId};
use super::job_queue::{JobQueueCore, same_history};
use super::scheduler_core::{reschedule_queue, needs_schedule};

verus! {

/// `futures::channel::oneshot::Canceled`, carried through as an opaque value.
#[verifier::external_type_specification]
#[verifier::external_body]
pub struct ExCanceled(futures::channel::oneshot::Canceled);

/// Builds `futures::channel::oneshot::Canceled`, the error a scheduler future resolves to when its
/// job went away without producing a result. The value carries no data; nothing more is claimed.
#[verifier::external_body]
fn canceled() -> (error: Canceled) {
    Canceled
}

/// The possible states of a future result
pub enum FutureResultState<T> {
    /// No result has been generated yet
    Empty,
    /// A result is waiting to be returned
    Available(T),
    /// The result has been returned through the future
    ReturnedViaFuture,
}

/// Relates a result slot before and after `take`, and the value taken: an empty slot stays empty
/// and gives nothing; an available result is handed out and counts as returned; a result that
/// was already returned cannot be taken.
pub open spec fn taken_result<T>(before: FutureResultState<T>, after: FutureResultState<T>, value: Option<T>) -> bool {
    match before {
        FutureResultState::Empty => value is None && after is Empty,
        FutureResultState::Available(available) => value == Some(available) && after is ReturnedViaFuture,
        FutureResultState::ReturnedViaFuture => false,
    }
}

impl<T> FutureResultState<T> {
    /// Returns true if no result has ever been generated for this future
    pub fn is_none(&self) -> (none: bool)
        ensures
            none == (*self is Empty),
    {
        match self {
            FutureResultState::Empty => true,
            FutureResultState::Available(_) => false,
            FutureResultState::ReturnedViaFuture => false,
        }
    }

    /// If a result has been generated and has not been taken before, returns it; afterwards the
    /// result counts as returned. (Taking a result that was already returned is refused.)
    pub fn take(&mut self) -> (value: Option<T>)
        requires
            !(*old(self) is ReturnedViaFuture),
        ensures
            taken_result(*old(self), *final(self), value),
    {
        let mut taken = FutureResultState::ReturnedViaFuture;
        std::mem::swap(self, &mut taken);
        match taken {
            FutureResultState::Available(value) => Some(value),
            _ => {
                *self = FutureResultState::Empty;
                None
            },
        }
    }
}

/// The possible states of a waker that will wake up a queue that's being drained as part of
/// polling a future
pub enum DrainWakerState<W> {
    /// The drain waker has never been woken before
    NotWoken,
    /// This has been woken but the waker is not set
    Woken,
    /// The waker to call once this is woken
    WillWakeWithWaker(W),
}

/// The state of a drain waker once `wake_with` has set `waker`.
pub open spec fn drain_waker_after_wake_with<W>(state: DrainWakerState<W>, waker: W) -> DrainWakerState<W> {
    if state is Woken { DrainWakerState::Woken } else { DrainWakerState::WillWakeWithWaker(waker) }
}

/// The waker that `wake_with` hands back to be woken straight away.
pub open spec fn woken_by_wake_with<W>(state: DrainWakerState<W>, waker: W) -> Option<W> {
    if state is Woken { Some(waker) } else { None }
}

/// The waker that a wake-up of the drain waker hands back to be woken.
pub open spec fn woken_by_wake<W>(state: DrainWakerState<W>) -> Option<W> {
    match state {
        DrainWakerState::WillWakeWithWaker(waker) => Some(waker),
        _ => None,
    }
}

impl<W> DrainWakerState<W> {
    /// A drain waker that has never been woken.
    pub fn new() -> (state: DrainWakerState<W>)
        ensures
            state is NotWoken,
    {
        DrainWakerState::NotWoken
    }

    /// Sets the waker to be called when this drain waker is woken. If it was woken before the
    /// waker was set, returns the waker: the caller wakes it straight away (outside the lock).
    pub fn wake_with(&mut self, new_waker: W) -> (to_wake: Option<W>)
        ensures
            *final(self) == drain_waker_after_wake_with(*old(self), new_waker),
            to_wake == woken_by_wake_with(*old(self), new_waker),
    {
        let mut state = DrainWakerState::Woken;
        std::mem::swap(self, &mut state);
        match state {
            DrainWakerState::Woken => Some(new_waker),
            _ => {
                *self = DrainWakerState::WillWakeWithWaker(new_waker);
                None
            },
        }
    }

    /// Records a wake-up. Returns the waker that was set, which the caller then wakes (outside the
    /// lock); with none set, the wake-up is remembered for `wake_with`.
    pub fn wake(&mut self) -> (to_wake: Option<W>)
        ensures
            *final(self) is Woken,
            to_wake == woken_by_wake(*old(self)),
    {
        let mut state = DrainWakerState::Woken;
        std::mem::swap(self, &mut state);
        match state {
            DrainWakerState::WillWakeWithWaker(waker) => Some(waker),
            _ => None,
        }
    }
}

/// A call made on a drain waker.
pub enum DrainWakerCall<W> {
    /// `wake_with` with this waker
    WakeWith(W),
    /// a wake-up (`wake`)
    Wake,
}

/// The waker handed back, as a sequence of zero or one wakers.
pub open spec fn handed_back<W>(waker: Option<W>) -> Seq<W> {
    match waker {
        Some(waker) => seq![waker],
        None => Seq::empty(),
    }
}

/// The state a drain waker reaches from `state` through the calls `calls`, and the wakers it hands
/// back to be woken, in order: each step is what `wake_with` and `wake` do.
pub open spec fn drain_waker_run<W>(state: DrainWakerState<W>, calls: Seq<DrainWakerCall<W>>) -> (DrainWakerState<W>, Seq<W>)
    decreases calls.len(),
{
    if calls.len() == 0 {
        (state, Seq::empty())
    } else {
        let (before, woken) = drain_waker_run(state, calls.drop_last());
        match calls.last() {
            DrainWakerCall::WakeWith(waker) => (
                drain_waker_after_wake_with(before, waker),
                woken + handed_back(woken_by_wake_with(before, waker)),
            ),
            DrainWakerCall::Wake => (DrainWakerState::Woken, woken + handed_back(woken_by_wake(before))),
        }
    }
}

/// Whether the calls include a wake-up.
pub open spec fn has_wake<W>(calls: Seq<DrainWakerCall<W>>) -> bool {
    exists|i: int| 0 <= i < calls.len() && calls[i] is Wake
}

/// The wakers that `wake_with` was called with, in order.
pub open spec fn wakers_set<W>(calls: Seq<DrainWakerCall<W>>) -> Seq<W>
    decreases calls.len(),
{
    if calls.len() == 0 {
        Seq::empty()
    } else {
        match calls.last() {
            DrainWakerCall::WakeWith(waker) => wakers_set(calls.drop_last()).push(waker),
            DrainWakerCall::Wake => wakers_set(calls.drop_last()),
        }
    }
}

/// What a drain waker that has never been woken does over any sequence of calls. Until the first
/// wake-up, it wakes nothing and holds the most recent waker that was set. From the first wake-up
/// on, it stays woken: the first wake-up hands back the waker held at that moment, and every waker
/// set afterwards is handed back at once. So a wake-up is never lost, and no more wakers are
/// handed back than were set, each one a waker that was set.
pub proof fn lemma_drain_waker_run<W>(calls: Seq<DrainWakerCall<W>>)
    ensures
        ({
            let (state, woken) = drain_waker_run(DrainWakerState::<W>::NotWoken, calls);
            &&& has_wake(calls) <==> state is Woken
            &&& !has_wake(calls) ==> woken.len() == 0
            &&& !has_wake(calls) && wakers_set(calls).len() == 0 ==> state is NotWoken
            &&& !has_wake(calls) && wakers_set(calls).len() > 0 ==> state
                == DrainWakerState::WillWakeWithWaker(wakers_set(calls).last())
            &&& woken.len() <= wakers_set(calls).len()
            &&& forall|i: int| 0 <= i < woken.len() ==> wakers_set(calls).contains(#[trigger] woken[i])
        }),
    decreases calls.len(),
{
    if calls.len() > 0 {
        let prefix = calls.drop_last();
        lemma_drain_waker_run(prefix);
        let (before, woken_before) = drain_waker_run(DrainWakerState::<W>::NotWoken, prefix);
        let (state, woken) = drain_waker_run(DrainWakerState::<W>::NotWoken, calls);
        assert(has_wake(calls) <==> has_wake(prefix) || calls.last() is Wake) by {
            if has_wake(calls) && !(calls.last() is Wake) {
                let i = choose|i: int| 0 <= i < calls.len() && calls[i] is Wake;
                assert(prefix[i] is Wake);
            }
            if has_wake(prefix) {
                let i = choose|i: int| 0 <= i < prefix.len() && prefix[i] is Wake;
                assert(calls[i] is Wake);
            }
            if calls.last() is Wake {
                assert(calls[calls.len() - 1] is Wake);
            }
        }
        match calls.last() {
            DrainWakerCall::WakeWith(waker) => {
                assert forall|i: int| 0 <= i < woken.len() implies wakers_set(calls).contains(#[trigger] woken[i]) by {
                    if i < woken_before.len() {
                        assert(wakers_set(prefix).contains(woken_before[i]));
                        let k = choose|k: int| 0 <= k < wakers_set(prefix).len() && wakers_set(prefix)[k] == woken_before[i];
                        assert(wakers_set(calls)[k] == woken_before[i]);
                    } else {
                        assert(woken[i] == waker);
                        assert(wakers_set(calls)[wakers_set(calls).len() - 1] == waker);
                    }
                }
            },
            DrainWakerCall::Wake => {
                assert forall|i: int| 0 <= i < woken.len() implies wakers_set(calls).contains(#[trigger] woken[i]) by {
                    if i < woken_before.len() {
                        assert(wakers_set(prefix).contains(woken_before[i]));
                    } else {
                        assert(before is WillWakeWithWaker);
                        assert(woken[i] == wakers_set(prefix).last());
                        assert(wakers_set(prefix)[wakers_set(prefix).len() - 1] == woken[i]);
                    }
                }
            },
        }
    }
}

/// A waker set after a wake-up is handed back at once; before any wake-up, the first wake-up hands
/// back the most recent waker set, and nothing was handed back before it.
pub proof fn lemma_drain_waker_delivers<W>(calls: Seq<DrainWakerCall<W>>, waker: W)
    ensures
        has_wake(calls) ==> drain_waker_run(DrainWakerState::<W>::NotWoken, calls.push(DrainWakerCall::WakeWith(waker)))
            == (DrainWakerState::<W>::Woken, drain_waker_run(DrainWakerState::<W>::NotWoken, calls).1.push(waker)),
        !has_wake(calls) && wakers_set(calls).len() > 0 ==> drain_waker_run(DrainWakerState::<W>::NotWoken, calls.push(DrainWakerCall::Wake)).1
            == seq![wakers_set(calls).last()],
{
    lemma_drain_waker_run(calls);
    let extended = calls.push(DrainWakerCall::WakeWith(waker));
    assert(extended.drop_last() =~= calls);
    let woken_up = calls.push(DrainWakerCall::<W>::Wake);
    assert(woken_up.drop_last() =~= calls);
    if !has_wake(calls) && wakers_set(calls).len() > 0 {
        let woken = drain_waker_run(DrainWakerState::<W>::NotWoken, calls).1;
        assert(woken =~= Seq::<W>::empty());
        assert(woken + seq![wakers_set(calls).last()] =~= seq![wakers_set(calls).last()]);
    }
}

/// The calls with each waker replaced by the position of the call that set it, so that a waker
/// handed back is known by its call.
pub open spec fn numbered_calls<W>(calls: Seq<DrainWakerCall<W>>) -> Seq<DrainWakerCall<int>> {
    Seq::new(
        calls.len(),
        |i: int|
            match calls[i] {
                DrainWakerCall::WakeWith(_) => DrainWakerCall::WakeWith(i),
                DrainWakerCall::Wake => DrainWakerCall::Wake,
            },
    )
}

/// Whether the call at `index` is a `wake_with`.
pub open spec fn sets_waker<W>(calls: Seq<DrainWakerCall<W>>, index: int) -> bool {
    0 <= index < calls.len() && calls[index] is WakeWith
}

proof fn lemma_numbered_run<W>(calls: Seq<DrainWakerCall<W>>)
    ensures
        ({
            let (state, woken) = drain_waker_run(DrainWakerState::<W>::NotWoken, calls);
            let (numbered_state, woken_at) = drain_waker_run(DrainWakerState::<int>::NotWoken, numbered_calls(calls));
            &&& woken.len() == woken_at.len()
            &&& forall|k: int| 0 <= k < woken_at.len() ==> sets_waker(calls, #[trigger] woken_at[k])
            &&& forall|k: int| 0 <= k < woken_at.len() ==> woken[k] == calls[woken_at[k]]->WakeWith_0
            &&& forall|k: int, l: int| 0 <= k < l < woken_at.len() ==> woken_at[k] < woken_at[l]
            &&& numbered_state is NotWoken <==> state is NotWoken
            &&& numbered_state is Woken <==> state is Woken
            &&& numbered_state is WillWakeWithWaker ==> {
                let held = numbered_state->WillWakeWithWaker_0;
                &&& sets_waker(calls, held)
                &&& state == DrainWakerState::WillWakeWithWaker(calls[held]->WakeWith_0)
                &&& forall|k: int| 0 <= k < woken_at.len() ==> woken_at[k] < held
            }
        }),
    decreases calls.len(),
{
    if calls.len() > 0 {
        let prefix = calls.drop_last();
        let n = calls.len() - 1;
        lemma_numbered_run(prefix);
        assert(numbered_calls(calls).drop_last() =~= numbered_calls(prefix));
        let (before, woken_before) = drain_waker_run(DrainWakerState::<W>::NotWoken, prefix);
        let (nbefore, at_before) = drain_waker_run(DrainWakerState::<int>::NotWoken, numbered_calls(prefix));
        assert forall|k: int| 0 <= k < at_before.len() implies sets_waker(calls, at_before[k]) && calls[at_before[k]] == prefix[at_before[k]] by {
            assert(sets_waker(prefix, at_before[k]));
        }
        if nbefore is WillWakeWithWaker {
            let held = nbefore->WillWakeWithWaker_0;
            assert(sets_waker(prefix, held));
            assert(calls[held] == prefix[held]);
        }
        let (state, woken) = drain_waker_run(DrainWakerState::<W>::NotWoken, calls);
        let (nstate, woken_at) = drain_waker_run(DrainWakerState::<int>::NotWoken, numbered_calls(calls));
        assert forall|k: int| 0 <= k < at_before.len() implies at_before[k] < n by {
            assert(sets_waker(prefix, at_before[k]));
        }
        match calls.last() {
            DrainWakerCall::WakeWith(waker) => {
                assert(numbered_calls(calls).last() == DrainWakerCall::<int>::WakeWith(n));
                assert(calls[n] == DrainWakerCall::WakeWith(waker));
                if before is Woken {
                    assert(woken_at == at_before.push(n));
                    assert(woken == woken_before.push(waker));
                } else {
                    assert(woken_at == at_before + Seq::<int>::empty());
                    assert(woken_at =~= at_before);
                    assert(woken =~= woken_before);
                }
            },
            DrainWakerCall::Wake => {
                assert(numbered_calls(calls).last() == DrainWakerCall::<int>::Wake);
                if before is WillWakeWithWaker {
                    let held = nbefore->WillWakeWithWaker_0;
                    assert(woken_at == at_before.push(held));
                    assert(woken == woken_before.push(calls[held]->WakeWith_0));
                } else {
                    assert(woken_at =~= at_before);
                    assert(woken =~= woken_before);
                }
            },
        }
    }
}

/// Each waker given to a drain waker is woken at most once, over any sequence of calls: numbering
/// every waker by the call that set it, the wakers handed back come from `wake_with` calls, each
/// call's waker at most once, in the order of those calls.
pub proof fn lemma_drain_waker_wakes_each_waker_at_most_once<W>(calls: Seq<DrainWakerCall<W>>)
    ensures
        ({
            let woken = drain_waker_run(DrainWakerState::<W>::NotWoken, calls).1;
            let woken_at = drain_waker_run(DrainWakerState::<int>::NotWoken, numbered_calls(calls)).1;
            &&& woken.len() == woken_at.len()
            &&& forall|k: int| 0 <= k < woken_at.len() ==> sets_waker(calls, #[trigger] woken_at[k])
            &&& forall|k: int| 0 <= k < woken_at.len() ==> woken[k] == calls[woken_at[k]]->WakeWith_0
            &&& forall|k: int, l: int| 0 <= k < l < woken_at.len() ==> woken_at[k] < woken_at[l]
        }),
{
    lemma_numbered_run(calls);
}

/// Signalling structure used to return the result of a scheduler future
pub struct SchedulerFutureResult<T, W> {
    /// The result of the future, or None if it has not been generated yet
    pub result: FutureResultState<Result<T, Canceled>>,
    /// The waker to be called when the future is available
    pub waker: Option<W>,
}

/// Relates a result before and after the signaller is dropped, and the waker handed back: with no
/// result generated, the future is canceled and its waiting task is woken; a result that is
/// already there is kept.
pub open spec fn canceled_result<T, W>(
    before: SchedulerFutureResult<T, W>,
    after: SchedulerFutureResult<T, W>,
    to_wake: Option<W>,
) -> bool {
    if before.result is Empty {
        &&& after.result is Available
        &&& after.result->Available_0 is Err
        &&& after.waker is None
        &&& to_wake == before.waker
    } else {
        &&& after.result == before.result
        &&& after.waker == before.waker
        &&& to_wake is None
    }
}

impl<T, W> SchedulerFutureResult<T, W> {
    /// An unfinished result with nothing waiting for it.
    pub fn new() -> (result: SchedulerFutureResult<T, W>)
        ensures
            result.result is Empty,
            result.waker is None,
    {
        SchedulerFutureResult { result: FutureResultState::Empty, waker: None }
    }

    /// Signals that the result of the calculation is available. Returns the waker of the task
    /// waiting for it, which the caller wakes outside the lock.
    pub fn signal(&mut self, value: T) -> (to_wake: Option<W>)
        ensures
            final(self).result == FutureResultState::Available(Ok::<T, Canceled>(value)),
            final(self).waker is None,
            to_wake == old(self).waker,
    {
        self.result = FutureResultState::Available(Ok(value));
        self.waker.take()
    }

    /// What dropping the signaller does: if no result was generated, the future is canceled and the
    /// waiting task's waker is returned to be woken; a result that is already there is kept.
    pub fn cancel(&mut self) -> (to_wake: Option<W>)
        ensures
            canceled_result(*old(self), *final(self), to_wake),
    {
        if self.result.is_none() {
            self.result = FutureResultState::Available(Err(canceled()));
            self.waker.take()
        } else {
            None
        }
    }
}

/// A signalled value is what the future resolves to, exactly once: dropping the signaller after it
/// signalled keeps the value, taking the result then hands the value out, and what is left cannot
/// be taken again.
pub proof fn lemma_signalled_value_is_returned_once<T, W>(
    signalled: SchedulerFutureResult<T, W>,
    value: T,
    dropped: SchedulerFutureResult<T, W>,
    to_wake: Option<W>,
    after_take: FutureResultState<Result<T, Canceled>>,
    taken: Option<Result<T, Canceled>>,
)
    requires
        signalled.result == FutureResultState::Available(Ok::<T, Canceled>(value)),
        canceled_result(signalled, dropped, to_wake),
        taken_result(dropped.result, after_take, taken),
    ensures
        to_wake is None,
        taken == Some(Ok::<T, Canceled>(value)),
        forall|again: FutureResultState<Result<T, Canceled>>, value_again: Option<Result<T, Canceled>>|
            !taken_result(after_take, again, value_again),
{
}

/// A future whose signaller is dropped without a result resolves to an error, and the task that
/// waits for it is woken.
pub proof fn lemma_dropped_signaller_cancels<T, W>(
    waiting: SchedulerFutureResult<T, W>,
    dropped: SchedulerFutureResult<T, W>,
    to_wake: Option<W>,
    after_take: FutureResultState<Result<T, Canceled>>,
    taken: Option<Result<T, Canceled>>,
)
    requires
        waiting.result is Empty,
        canceled_result(waiting, dropped, to_wake),
        taken_result(dropped.result, after_take, taken),
    ensures
        to_wake == waiting.waker,
        taken is Some && taken->0 is Err,
{
}

/// Possible actions we can take based on the state of the signal for the future
pub enum SchedulerAction<T> {
    /// Queue is running elsewhere: we should wait for it to reach the point where the future's
    /// result is available
    WaitForCompletion,
    /// Future has already completed: we should return the value to sender
    ReturnValue(T),
    /// We've claimed the 'running' state of the queue and should drain it
    DrainQueue,
    /// The queue has panicked
    Panic,
}

/// The action a poll of the future `id` takes on a queue when no result is available yet.
pub open spec fn poll_action(state: QueueState, id: FutureId) -> SchedulerAction<()> {
    match state {
        QueueState::Panicked => SchedulerAction::Panic,
        QueueState::Pending | QueueState::Idle => SchedulerAction::DrainQueue,
        QueueState::WaitingForPoll(owner) => if owner == id {
            SchedulerAction::DrainQueue
        } else {
            SchedulerAction::WaitForCompletion
        },
        _ => SchedulerAction::WaitForCompletion,
    }
}

/// A poll that finds no result waits only for a queue that something else holds: one that runs
/// elsewhere (or is held for another future), or one whose job waits for a wake-up. A queue that
/// nothing holds (idle, or pending with no thread to take it) or that waits for this very future
/// is drained by the poll itself, so a future resolves even when no scheduler thread runs its
/// queue. Only a panicked queue makes the poll panic.
pub proof fn lemma_poll_waits_only_for_a_held_queue(state: QueueState, id: FutureId)
    ensures
        poll_action(state, id) is WaitForCompletion <==> ((state.spec_is_running() || state
            == QueueState::WaitingForWake) && state != QueueState::WaitingForPoll(id)),
        poll_action(state, id) is Panic <==> state == QueueState::Panicked,
        poll_action(state, id) is DrainQueue <==> (state == QueueState::Idle || state
            == QueueState::Pending || state == QueueState::WaitingForPoll(id)),
{
}

/// Decides what a poll of the scheduler future `id` does. A result that is available is returned.
/// Otherwise, if the queue can be claimed (it is idle, pending, or waiting for this very future),
/// it is marked running and the poll drains it on the current thread; if it runs elsewhere, the
/// poll waits and `waker` is kept to be woken with the result; a panicked queue makes the poll
/// panic.
pub fn poll_scheduler_future<T, W, J>(
    result: &mut SchedulerFutureResult<T, W>,
    core: &mut JobQueueCore<J>,
    id: FutureId,
    waker: W,
) -> (action: SchedulerAction<Result<T, Canceled>>)
    requires
        old(core).wf(),
        !(old(result).result is ReturnedViaFuture),
    ensures
        final(core).wf(),
        same_history(*old(core), *final(core)),
        final(core).jobs() == old(core).jobs(),
        old(result).result is Available ==> {
            &&& action == SchedulerAction::ReturnValue(old(result).result->Available_0)
            &&& final(result).result is ReturnedViaFuture
            &&& final(result).waker == old(result).waker
            &&& final(core).spec_state() == old(core).spec_state()
        },
        old(result).result is Empty ==> {
            let decided = poll_action(old(core).spec_state(), id);
            &&& final(result).result is Empty
            &&& decided is WaitForCompletion ==> action is WaitForCompletion && final(result).waker
                == Some(waker) && final(core).spec_state() == old(core).spec_state()
            &&& decided is DrainQueue ==> action is DrainQueue && final(result).waker
                == old(result).waker && final(core).spec_state() == QueueState::Running
            &&& decided is Panic ==> action is Panic && final(result).waker == old(result).waker
                && final(core).spec_state() == old(core).spec_state()
        },
        old(result).result is Empty && (old(core).spec_state() == QueueState::Pending
            || old(core).spec_state() == QueueState::Idle || old(core).spec_state()
            == QueueState::WaitingForPoll(id)) ==> action is DrainQueue && final(core).spec_state()
            == QueueState::Running,
        old(result).result is Empty && action is WaitForCompletion ==> final(core).spec_state()
            != QueueState::WaitingForPoll(id) && (final(core).spec_state().spec_is_running()
            || final(core).spec_state() == QueueState::WaitingForWake),
{
    match result.result.take() {
        Some(value) => SchedulerAction::ReturnValue(value),
        None => {
            let action = match core.state() {
                QueueState::Panicked => SchedulerAction::Panic,
                QueueState::Pending | QueueState::Idle => {
                    core.set_state(QueueState::Running);
                    SchedulerAction::DrainQueue
                },
                QueueState::WaitingForPoll(owner) => {
                    if owner == id {
                        core.set_state(QueueState::Running);
                        SchedulerAction::DrainQueue
                    } else {
                        SchedulerAction::WaitForCompletion
                    }
                },
                _ => SchedulerAction::WaitForCompletion,
            };
            if let SchedulerAction::WaitForCompletion = action {
                result.waker = Some(waker);
            }
            action
        },
    }
}

/// While a poll drains the queue, a job has returned pending: the job goes back to the front of the
/// queue. If the future's result has arrived meanwhile, it is returned and the queue waits for a
/// wake-up to carry on in the background; otherwise the queue waits for the next poll of this
/// future, which alone may resume it.
pub fn drain_job_returned_pending<T, W, J>(
    core: &mut JobQueueCore<J>,
    job: J,
    result: &mut SchedulerFutureResult<T, W>,
    id: FutureId,
) -> (ready: Option<Result<T, Canceled>>)
    requires
        old(core).wf(),
        !(old(result).result is ReturnedViaFuture),
    ensures
        final(core).wf(),
        final(core).arrived() == old(core).arrived(),
        final(core).started() == old(core).started(),
        final(core).returned() == seq![job] + old(core).returned(),
        final(core).jobs() == seq![job] + old(core).jobs(),
        final(result).waker == old(result).waker,
        old(result).result is Available ==> {
            &&& ready == Some(old(result).result->Available_0)
            &&& final(result).result is ReturnedViaFuture
            &&& final(core).spec_state() == QueueState::WaitingForWake
        },
        old(result).result is Empty ==> {
            &&& ready is None
            &&& final(result).result is Empty
            &&& final(core).spec_state() == QueueState::WaitingForPoll(id)
        },
{
    core.requeue(job);
    let ready = result.result.take();
    if ready.is_some() {
        core.set_state(QueueState::WaitingForWake);
    } else {
        core.set_state(QueueState::WaitingForPoll(id));
    }
    ready
}

/// While a poll drains the queue, the queue ran out of jobs before the result arrived: the poll
/// keeps `waker` to be woken with the result and hands the queue back to the scheduler. Returns
/// whether the caller has to place the queue on the schedule.
pub fn drain_ran_dry<T, W, J>(
    core: &mut JobQueueCore<J>,
    result: &mut SchedulerFutureResult<T, W>,
    waker: W,
) -> (reschedule: bool)
    requires
        old(core).wf(),
    ensures
        final(core).wf(),
        same_history(*old(core), *final(core)),
        final(core).jobs() == old(core).jobs(),
        final(result).result == old(result).result,
        final(result).waker == Some(waker),
        reschedule == needs_schedule(QueueState::Idle, old(core).jobs().len() > 0),
        final(core).spec_state() == (if reschedule { QueueState::Pending } else { QueueState::Idle }),
{
    result.waker = Some(waker);
    finish_drain_queue(core)
}

/// Once the result of a poll that drained the queue has arrived, releases the queue: it becomes
/// idle, and pending again if jobs are left on it. Returns whether the caller has to place the
/// queue on the schedule.
pub fn finish_drain_queue<J>(core: &mut JobQueueCore<J>) -> (reschedule: bool)
    requires
        old(core).wf(),
    ensures
        final(core).wf(),
        same_history(*old(core), *final(core)),
        final(core).jobs() == old(core).jobs(),
        reschedule == (old(core).jobs().len() > 0),
        final(core).spec_state() == (if reschedule { QueueState::Pending } else { QueueState::Idle }),
{
    core.set_state(QueueState::Idle);
    reschedule_queue(core)
}

} // verus!
