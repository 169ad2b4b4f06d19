//! The shared core of the pipe: a one-value slot, a finished flag, and at most
//! one registered consumer waker. Every transition of the state machine is an
//! exact function of the previous state, stated by the spec functions below.

use vstd::prelude::*;

verus! {

/// Declares `std::task::Waker` so that it can stand in fields and signatures.
/// The value is opaque; only presence and identity matter to the contracts.
#[verifier::external_type_specification]
#[verifier::external_body]
pub struct ExWaker(std::task::Waker);

/// The mathematical state of one stream: the slot, the finished flag, and
/// whether a consumer waker is registered.
pub struct StreamModel<T> {
    pub slot: Option<T>,
    pub finished: bool,
    pub has_waker: bool,
}

/// The three outcomes a poll can have: a delivered value, the end of the
/// sequence, or nothing yet (the caller suspends until the next write).
#[derive(Debug, PartialEq, Eq)]
pub enum PollOutcome<T> {
    Ready(T),
    Finished,
    Pending,
}

/// The state of a freshly created stream: empty, not finished, no waker.
pub open spec fn empty_model<T>() -> StreamModel<T> {
    StreamModel { slot: None, finished: false, has_waker: false }
}

/// What a write does to the state: the slot now holds exactly the new value,
/// discarding any unread one; the rest is untouched.
pub open spec fn write_step<T>(s: StreamModel<T>, v: T) -> StreamModel<T> {
    StreamModel { slot: Some(v), finished: s.finished, has_waker: s.has_waker }
}

/// What finish does to the state: the finished flag is set, the slot and the
/// waker registration are untouched.
pub open spec fn finish_step<T>(s: StreamModel<T>) -> StreamModel<T> {
    StreamModel { slot: s.slot, finished: true, has_waker: s.has_waker }
}

/// What a poll returns, as a function of the state it observes.
pub open spec fn poll_outcome<T>(s: StreamModel<T>) -> PollOutcome<T> {
    match s.slot {
        Some(v) => PollOutcome::Ready(v),
        None => if s.finished {
            PollOutcome::Finished
        } else {
            PollOutcome::Pending
        },
    }
}

/// What a poll does to the state: the slot is drained, the finished flag is
/// untouched, and the caller's waker is now the registered one.
pub open spec fn poll_step<T>(s: StreamModel<T>) -> StreamModel<T> {
    StreamModel { slot: None, finished: s.finished, has_waker: true }
}

/// The shared mutable core. One instance is jointly owned by every handle
/// cloned from the same pipe; all coordination logic lives here.
#[derive(Debug, Clone)]
pub struct TwoWayStream<T> {
    data: Option<T>,
    is_finished: bool,
    reader_waker: Option<std::task::Waker>,
}

impl<T> View for TwoWayStream<T> {
    type V = StreamModel<T>;

    closed spec fn view(&self) -> StreamModel<T> {
        StreamModel {
            slot: self.data,
            finished: self.is_finished,
            has_waker: self.reader_waker is Some,
        }
    }
}

impl<T> TwoWayStream<T> {
    /// The registered consumer waker, if any; the most recent poller's.
    pub closed spec fn registered_waker(&self) -> Option<std::task::Waker> {
        self.reader_waker
    }

    /// Creates an empty, unfinished stream with no registered waker.
    pub fn new() -> (r: Self)
        ensures
            r@ == empty_model::<T>(),
            r.registered_waker() is None,
    {
        TwoWayStream { data: None, is_finished: false, reader_waker: None }
    }

    /// Invokes the registered consumer waker, if one is present. Does not
    /// change the state; the registration is kept, so further writes before
    /// the next poll invoke the same waker again.
    pub fn wake_up_reader(&self) {
        match &self.reader_waker {
            Some(waker) => wake(waker),
            None => {},
        }
    }

    /// Stores a value in the slot, overwriting (and silently discarding) any
    /// unread one, then notifies the registered consumer. Infallible.
    pub fn send(&mut self, data: T)
        ensures
            final(self)@ == write_step(old(self)@, data),
            final(self).registered_waker() == old(self).registered_waker(),
    {
        self.data = Some(data);
        self.wake_up_reader();
    }

    /// Marks the stream finished. Monotonic: the flag is never reset. Any
    /// unread value is kept and still deliverable by one more poll. Does not
    /// notify the registered consumer.
    pub fn finish(&mut self)
        ensures
            final(self)@ == finish_step(old(self)@),
            final(self).registered_waker() == old(self).registered_waker(),
    {
        self.is_finished = true;
    }

    /// One poll of the consumer: registers `w` as the consumer waker,
    /// replacing any previous registration, then drains the slot. Returns the
    /// pending value if there is one, the end-of-sequence marker if the stream
    /// is finished and empty, and the suspend marker otherwise.
    pub fn poll_next(&mut self, w: std::task::Waker) -> (r: PollOutcome<T>)
        ensures
            r == poll_outcome(old(self)@),
            final(self)@ == poll_step(old(self)@),
            final(self).registered_waker() == Some(w),
    {
        self.reader_waker = Some(w);
        match self.data.take() {
            Some(v) => PollOutcome::Ready(v),
            None => if self.is_finished {
                PollOutcome::Finished
            } else {
                PollOutcome::Pending
            },
        }
    }
}

/// Relies on std::task::Waker::wake_by_ref: signals the task that the waker
/// belongs to that it should be polled again. Waking a waker whose task has
/// been abandoned is a safe no-op; no state of this crate changes.
#[verifier::external_body]
fn wake(w: &std::task::Waker) {
    w.wake_by_ref()
}

/// The state after a whole sequence of writes, oldest first, with no poll in
/// between.
pub open spec fn write_all<T>(s: StreamModel<T>, vs: Seq<T>) -> StreamModel<T>
    decreases vs.len(),
{
    if vs.len() == 0 {
        s
    } else {
        write_step(write_all(s, vs.drop_last()), vs.last())
    }
}

/// Law: no queueing. However many writes are issued before a poll, from any
/// starting state, the one poll that observes them all returns exactly the
/// last-written value — never an earlier one, never more than one value — and
/// leaves the slot drained.
pub proof fn lemma_no_queueing<T>(s: StreamModel<T>, vs: Seq<T>)
    requires
        vs.len() > 1,
    ensures
        write_all(s, vs).slot == Some(vs.last()),
        poll_outcome(write_all(s, vs)) == PollOutcome::Ready(vs.last()),
        poll_step(write_all(s, vs)).slot is None,
{
}

/// Law: the finished flag is monotonic. No transition resets it: a write or a
/// poll leaves it as it was, and finish sets it.
pub proof fn lemma_finished_monotonic<T>(s: StreamModel<T>, v: T)
    ensures
        write_step(s, v).finished == s.finished,
        finish_step(s).finished,
        poll_step(s).finished == s.finished,
{
}

/// Law: terminal idempotence. Once the stream is finished and the slot is
/// empty, a poll yields end-of-sequence and leaves the state terminal, so
/// every further poll yields end-of-sequence again.
pub proof fn lemma_terminal_idempotent<T>(s: StreamModel<T>)
    requires
        s.slot is None,
        s.finished,
    ensures
        poll_outcome(s) == PollOutcome::Finished::<T>,
        poll_step(s).slot is None && poll_step(s).finished,
        poll_outcome(poll_step(s)) == PollOutcome::Finished::<T>,
{
}

/// Law: drain before terminal. A value written before finish, from any
/// starting state, is still delivered by the next poll; the poll after that
/// yields end-of-sequence.
pub proof fn lemma_drain_before_terminal<T>(s: StreamModel<T>, v: T)
    ensures
        poll_outcome(finish_step(write_step(s, v))) == PollOutcome::Ready(v),
        poll_outcome(poll_step(finish_step(write_step(s, v)))) == PollOutcome::Finished::<T>,
{
}

/// Law: suspend and resume. A poll on an empty, unfinished state yields the
/// suspend marker and leaves a consumer waker registered; a subsequent write
/// of `v` fills the slot and keeps the registration, and the next poll
/// resolves to exactly `v`. That the write also invokes the registered waker
/// is an effect, not a value: it is carried by the body of `send`, which
/// notifies through `wake_up_reader` after every store.
pub proof fn lemma_suspend_resume<T>(s: StreamModel<T>, v: T)
    requires
        s.slot is None,
        !s.finished,
    ensures
        poll_outcome(s) == PollOutcome::Pending::<T>,
        poll_step(s).has_waker,
        write_step(poll_step(s), v).slot == Some(v),
        write_step(poll_step(s), v).has_waker,
        poll_outcome(write_step(poll_step(s), v)) == PollOutcome::Ready(v),
{
}

} // verus!

