//! The buffer between a pipe and the stream it produces.
//!
//! A pipe reads values from an input stream, processes each in a `Desync` object and pushes the
//! output onto a buffer; the output stream pops values off the buffer in the same order. When the
//! buffer holds as many values as its backpressure depth, the pipe stops reading input until the
//! output stream takes a value.
//!
//! Wakers are kept as values of the type parameter `W`: each transition returns the waker the
//! caller has to wake, which it does once it has released the lock.
use vstd::prelude::*;

verus! {

/// The maximum number of items to queue on a pipe stream before we stop accepting new input
pub const PIPE_BACKPRESSURE_COUNT: usize = 5;

/// The result of polling the output stream of a pipe.
pub enum PipePoll<Item> {
    /// The next value of the stream
    Item(Item),
    /// The input stream has closed and every value has been returned
    Closed,
    /// No value yet: the polling task is woken when one arrives
    Pending,
}

/// What the pipe does when it is woken to read from its input stream.
pub enum PipeRead<W> {
    /// The output buffer is full: stop reading until the output stream takes a value
    Backpressure,
    /// The output stream has gone: stop reading altogether, after waking the given waker
    Close(Option<W>),
    /// Read from the input stream
    Read,
}

/// The shared data for a pipe stream
pub struct PipeStreamCore<Item, W> {
    max_pipe_depth: usize,
    pending: std::collections::VecDeque<Item>,
    closed: bool,
    notify: Option<W>,
    notify_stream_closed: Option<W>,
    backpressure_release_notify: Option<W>,
    produced: Ghost<Seq<Item>>,
    taken: Ghost<Seq<Item>>,
    output_dropped: Ghost<bool>,
}

impl<Item, W> PipeStreamCore<Item, W> {
    /// The number of values buffered before the pipe stops reading its input.
    pub closed spec fn max_depth(&self) -> usize {
        self.max_pipe_depth
    }

    /// The values produced and not yet taken by the output stream, the oldest first.
    pub closed spec fn pending(&self) -> Seq<Item> {
        self.pending@
    }

    /// True once the input stream has closed or the output stream has gone; the output stream
    /// ends once this is true and no values are buffered.
    pub closed spec fn is_closed(&self) -> bool {
        self.closed
    }

    /// The waker of the task polling the output stream.
    pub closed spec fn notify(&self) -> Option<W> {
        self.notify
    }

    /// The waker of the pipe, kept while it waits for input, to be woken if the output stream
    /// goes.
    pub closed spec fn notify_stream_closed(&self) -> Option<W> {
        self.notify_stream_closed
    }

    /// The waker of the pipe, kept while it waits for the buffer to have room.
    pub closed spec fn backpressure_release_notify(&self) -> Option<W> {
        self.backpressure_release_notify
    }

    /// Every value the pipe has pushed onto the buffer, in order.
    pub closed spec fn produced(&self) -> Seq<Item> {
        self.produced@
    }

    /// Every value the output stream has returned, in order.
    pub closed spec fn taken(&self) -> Seq<Item> {
        self.taken@
    }

    /// Whether the output stream has been dropped (its buffered values were then thrown away).
    pub closed spec fn output_dropped(&self) -> bool {
        self.output_dropped@
    }

    /// Until the output stream is dropped, the values it returned followed by the values still
    /// buffered are exactly the values the pipe produced, in order.
    pub open spec fn wf(&self) -> bool {
        !self.output_dropped() ==> self.taken() + self.pending() == self.produced()
    }

    /// Creates a new, empty buffer, open, with the default backpressure depth.
    pub fn new() -> (core: PipeStreamCore<Item, W>)
        ensures
            core.max_depth() == PIPE_BACKPRESSURE_COUNT,
            core.pending() == Seq::<Item>::empty(),
            !core.is_closed(),
            core.notify() is None,
            core.notify_stream_closed() is None,
            core.backpressure_release_notify() is None,
            core.wf(),
            core.produced() == Seq::<Item>::empty(),
            core.taken() == Seq::<Item>::empty(),
            !core.output_dropped(),
    {
        let core = PipeStreamCore {
            max_pipe_depth: PIPE_BACKPRESSURE_COUNT,
            pending: std::collections::VecDeque::new(),
            closed: false,
            notify: None,
            notify_stream_closed: None,
            backpressure_release_notify: None,
            produced: Ghost(Seq::empty()),
            taken: Ghost(Seq::empty()),
            output_dropped: Ghost(false),
        };
        assert(core.taken() + core.pending() =~= core.produced());
        core
    }

    /// Sets the number of items that this pipe stream will buffer before producing backpressure
    pub fn set_backpressure_depth(&mut self, max_depth: usize)
        requires
            old(self).wf(),
        ensures
            final(self).wf(),
            final(self).produced() == old(self).produced(),
            final(self).taken() == old(self).taken(),
            final(self).output_dropped() == old(self).output_dropped(),
            final(self).max_depth() == max_depth,
            final(self).pending() == old(self).pending(),
            final(self).is_closed() == old(self).is_closed(),
            final(self).notify() == old(self).notify(),
            final(self).notify_stream_closed() == old(self).notify_stream_closed(),
            final(self).backpressure_release_notify() == old(self).backpressure_release_notify(),
    {
        self.max_pipe_depth = max_depth;
    }

    /// Polls the output stream: the oldest buffered value if there is one, the end of the stream
    /// if the pipe is closed, and otherwise keeps `waker` to be woken when a value arrives.
    /// Returns with it the waker of a pipe held back by backpressure, to be woken now.
    pub fn poll_next(&mut self, waker: W) -> (polled: (PipePoll<Item>, Option<W>))
        requires
            old(self).wf(),
        ensures
            final(self).wf(),
            final(self).produced() == old(self).produced(),
            final(self).output_dropped() == old(self).output_dropped(),
            final(self).taken() == (match polled.0 {
                PipePoll::Item(item) => old(self).taken().push(item),
                _ => old(self).taken(),
            }),
            polled.0 is Closed && !old(self).output_dropped() ==> final(self).taken() == final(self).produced(),
            final(self).max_depth() == old(self).max_depth(),
            final(self).is_closed() == old(self).is_closed(),
            final(self).notify_stream_closed() == old(self).notify_stream_closed(),
            old(self).pending().len() > 0 ==> {
                &&& polled.0 == PipePoll::<Item>::Item(old(self).pending()[0])
                &&& polled.1 == old(self).backpressure_release_notify()
                &&& final(self).pending() == old(self).pending().drop_first()
                &&& final(self).backpressure_release_notify() is None
                &&& final(self).notify() == old(self).notify()
            },
            old(self).pending().len() == 0 && old(self).is_closed() ==> {
                &&& polled.0 is Closed
                &&& polled.1 is None
                &&& final(self).pending() == old(self).pending()
                &&& final(self).backpressure_release_notify() == old(self).backpressure_release_notify()
                &&& final(self).notify() == old(self).notify()
            },
            old(self).pending().len() == 0 && !old(self).is_closed() ==> {
                &&& polled.0 is Pending
                &&& polled.1 == old(self).backpressure_release_notify()
                &&& final(self).pending() == old(self).pending()
                &&& final(self).backpressure_release_notify() is None
                &&& final(self).notify() == Some(waker)
            },
    {
        match self.pending.pop_front() {
            Some(item) => {
                proof {
                    let t = self.taken@;
                    self.taken@ = t.push(item);
                    assert(self.taken@ + self.pending@ =~= t + old(self).pending@);
                }
                let notify_backpressure = self.backpressure_release_notify.take();
                (PipePoll::Item(item), notify_backpressure)
            },
            None => {
                if self.closed {
                    assert(self.taken@ + self.pending@ =~= self.taken@);
                    (PipePoll::Closed, None)
                } else {
                    let notify_backpressure = self.backpressure_release_notify.take();
                    self.notify = Some(waker);
                    (PipePoll::Pending, notify_backpressure)
                }
            },
        }
    }

    /// What dropping the output stream does: flushes the buffer and closes the pipe. Returns the
    /// waker of a pipe waiting for input, to be woken so that it finishes closing.
    pub fn close_output(&mut self) -> (to_wake: Option<W>)
        requires
            old(self).wf(),
        ensures
            final(self).wf(),
            final(self).produced() == old(self).produced(),
            final(self).taken() == old(self).taken(),
            final(self).output_dropped(),
            final(self).max_depth() == old(self).max_depth(),
            final(self).pending() == Seq::<Item>::empty(),
            final(self).is_closed(),
            final(self).notify() == old(self).notify(),
            final(self).notify_stream_closed() is None,
            final(self).backpressure_release_notify() == old(self).backpressure_release_notify(),
            to_wake == old(self).notify_stream_closed(),
    {
        self.pending = std::collections::VecDeque::new();
        self.output_dropped = Ghost(true);
        self.closed = true;
        self.notify_stream_closed.take()
    }

    /// Decides what the pipe does when it is woken: with the buffer full it keeps `waker` to be
    /// woken once the output stream takes a value; once closed it stops, handing back the waker of
    /// the output stream; otherwise it reads from its input.
    pub fn begin_read(&mut self, waker: W) -> (read: PipeRead<W>)
        requires
            old(self).wf(),
        ensures
            final(self).wf(),
            final(self).produced() == old(self).produced(),
            final(self).taken() == old(self).taken(),
            final(self).output_dropped() == old(self).output_dropped(),
            final(self).max_depth() == old(self).max_depth(),
            final(self).pending() == old(self).pending(),
            final(self).is_closed() == old(self).is_closed(),
            final(self).notify_stream_closed() == old(self).notify_stream_closed(),
            old(self).pending().len() >= old(self).max_depth() ==> {
                &&& read is Backpressure
                &&& final(self).backpressure_release_notify() == Some(waker)
                &&& final(self).notify() == old(self).notify()
            },
            old(self).pending().len() < old(self).max_depth() && old(self).is_closed() ==> {
                &&& read == PipeRead::Close(old(self).notify())
                &&& final(self).notify() is None
                &&& final(self).backpressure_release_notify() == old(self).backpressure_release_notify()
            },
            old(self).pending().len() < old(self).max_depth() && !old(self).is_closed() ==> {
                &&& read is Read
                &&& final(self).notify() == old(self).notify()
                &&& final(self).backpressure_release_notify() == old(self).backpressure_release_notify()
            },
    {
        if self.pending.len() >= self.max_pipe_depth {
            self.backpressure_release_notify = Some(waker);
            PipeRead::Backpressure
        } else if self.closed {
            PipeRead::Close(self.notify.take())
        } else {
            PipeRead::Read
        }
    }

    /// Before the pipe polls its input: forgets a waker left over from an earlier wait.
    pub fn clear_stream_closed_notify(&mut self)
        requires
            old(self).wf(),
        ensures
            final(self).wf(),
            final(self).produced() == old(self).produced(),
            final(self).taken() == old(self).taken(),
            final(self).output_dropped() == old(self).output_dropped(),
            final(self).max_depth() == old(self).max_depth(),
            final(self).pending() == old(self).pending(),
            final(self).is_closed() == old(self).is_closed(),
            final(self).notify() == old(self).notify(),
            final(self).notify_stream_closed() is None,
            final(self).backpressure_release_notify() == old(self).backpressure_release_notify(),
    {
        self.notify_stream_closed = None;
    }

    /// The input stream has no value yet: keeps the pipe's waker, to be woken if the output stream
    /// goes meanwhile.
    pub fn wait_for_input(&mut self, waker: W)
        requires
            old(self).wf(),
        ensures
            final(self).wf(),
            final(self).produced() == old(self).produced(),
            final(self).taken() == old(self).taken(),
            final(self).output_dropped() == old(self).output_dropped(),
            final(self).max_depth() == old(self).max_depth(),
            final(self).pending() == old(self).pending(),
            final(self).is_closed() == old(self).is_closed(),
            final(self).notify() == old(self).notify(),
            final(self).notify_stream_closed() == Some(waker),
            final(self).backpressure_release_notify() == old(self).backpressure_release_notify(),
    {
        self.notify_stream_closed = Some(waker);
    }

    /// The input stream has ended: the pipe closes. Returns the waker of the output stream.
    pub fn input_ended(&mut self) -> (to_wake: Option<W>)
        requires
            old(self).wf(),
        ensures
            final(self).wf(),
            final(self).produced() == old(self).produced(),
            final(self).taken() == old(self).taken(),
            final(self).output_dropped() == old(self).output_dropped(),
            final(self).max_depth() == old(self).max_depth(),
            final(self).pending() == old(self).pending(),
            final(self).is_closed(),
            final(self).notify() is None,
            final(self).notify_stream_closed() == old(self).notify_stream_closed(),
            final(self).backpressure_release_notify() == old(self).backpressure_release_notify(),
            to_wake == old(self).notify(),
    {
        self.closed = true;
        self.notify.take()
    }

    /// Buffers a processed value behind the ones already buffered. Returns the waker of the
    /// output stream.
    pub fn push_item(&mut self, item: Item) -> (to_wake: Option<W>)
        requires
            old(self).wf(),
        ensures
            final(self).wf(),
            final(self).produced() == old(self).produced().push(item),
            final(self).taken() == old(self).taken(),
            final(self).output_dropped() == old(self).output_dropped(),
            final(self).max_depth() == old(self).max_depth(),
            final(self).pending() == old(self).pending().push(item),
            final(self).is_closed() == old(self).is_closed(),
            final(self).notify() is None,
            final(self).notify_stream_closed() == old(self).notify_stream_closed(),
            final(self).backpressure_release_notify() == old(self).backpressure_release_notify(),
            to_wake == old(self).notify(),
    {
        self.pending.push_back(item);
        proof {
            self.produced@ = self.produced@.push(self.pending@.last());
            assert(!self.output_dropped@ ==> self.taken@ + self.pending@ =~= self.produced@);
        }
        self.notify.take()
    }
}

/// Until its output stream is dropped, a pipe loses, duplicates and reorders nothing, over any run:
/// the values the stream returned are the first values produced, in order, and the values still
/// buffered are the ones produced after them. Once the stream has returned its end, it has
/// returned every value produced (see `poll_next`).
pub proof fn lemma_stream_returns_values_in_order<Item, W>(core: PipeStreamCore<Item, W>)
    requires
        core.wf(),
        !core.output_dropped(),
    ensures
        core.taken().len() <= core.produced().len(),
        core.taken() == core.produced().take(core.taken().len() as int),
        core.pending() == core.produced().skip(core.taken().len() as int),
{
    assert(core.taken() =~= core.produced().take(core.taken().len() as int));
    assert(core.pending() =~= core.produced().skip(core.taken().len() as int));
}

} // verus!
