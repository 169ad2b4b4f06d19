//! The shared-ownership handle: a `Pipe` is a reference to one `TwoWayStream`
//! behind a mutex. Cloning a pipe shares the state, so a write through any
//! clone is visible to a poll through any other.

use vstd::prelude::*;
use crate::stream::PollOutcome;
use crate::stream::TwoWayStream;

verus! {

/// Declares `parking_lot`'s mutex (the `lock_api` struct behind its alias) so
/// that it can stand in fields. Its contents are shared between threads, so no
/// contract speaks of them; every access goes through a lock.
#[verifier::external_type_specification]
#[verifier::external_body]
#[verifier::reject_recursive_types(R)]
#[verifier::reject_recursive_types(T)]
pub struct ExMutex<R, T: ?Sized>(parking_lot::lock_api::Mutex<R, T>);

/// Declares `parking_lot::RawMutex`, the lock implementation that the mutex
/// alias above is instantiated with.
#[verifier::external_type_specification]
#[verifier::external_body]
pub struct ExRawMutex(parking_lot::RawMutex);

/// A handle to one shared stream. Clones share the same state; the state lives
/// as long as the longest-lived clone.
#[verifier::reject_recursive_types(T)]
pub struct Pipe<T>(std::sync::Arc<parking_lot::Mutex<TwoWayStream<T>>>);

/// Relies on parking_lot::Mutex::new: a fresh, unlocked mutex holding the
/// given value.
#[verifier::external_body]
fn new_mutex<T>(t: T) -> parking_lot::Mutex<T> {
    parking_lot::Mutex::new(t)
}

/// Relies on parking_lot::Mutex::lock: exclusive access to the shared stream
/// while the guard lives. Applies the caller's operation exactly once to the
/// locked stream and hands back its result; the operation itself is verified
/// at the call site. What state the lock reveals depends on what other clones
/// did, so nothing is stated of the result.
#[verifier::external_body]
fn with_lock<T, R, F: FnOnce(&mut TwoWayStream<T>) -> R>(
    m: &std::sync::Arc<parking_lot::Mutex<TwoWayStream<T>>>,
    f: F,
) -> R {
    f(&mut *m.lock())
}

/// Relies on std::sync::Arc::clone: a new reference to the same allocation,
/// spec-equal to the old one; the shared stream itself is untouched.
#[verifier::external_body]
fn share<T>(
    m: &std::sync::Arc<parking_lot::Mutex<TwoWayStream<T>>>,
) -> (r: std::sync::Arc<parking_lot::Mutex<TwoWayStream<T>>>)
    ensures
        r == *m,
{
    std::sync::Arc::clone(m)
}

impl<T> Pipe<T> {
    /// The shared cell this handle refers to. Handles with an equal cell share
    /// one stream: a write through either is visible to a poll through the
    /// other.
    pub closed spec fn shared_cell(&self) -> std::sync::Arc<parking_lot::Mutex<TwoWayStream<T>>> {
        self.0
    }

    /// Creates a pipe over a fresh, empty, unfinished stream.
    pub fn new() -> Self {
        Pipe(std::sync::Arc::new(new_mutex(TwoWayStream::new())))
    }

    /// Writes a value into the shared slot, overwriting any unread one, and
    /// notifies a registered consumer. Visible to polls through every clone.
    /// The waker is invoked while the lock is held: a waker that synchronously
    /// calls back into the same pipe would deadlock, as `lock_api` documents
    /// for relocking from the holding thread.
    pub fn send(&mut self, data: T)
        ensures
            final(self).shared_cell() == old(self).shared_cell(),
    {
        with_lock(&self.0, |s: &mut TwoWayStream<T>| s.send(data))
    }

    /// Marks the shared stream finished: once any remaining value is drained,
    /// every further poll through any clone sees the end of the sequence.
    pub fn finish(&mut self)
        ensures
            final(self).shared_cell() == old(self).shared_cell(),
    {
        with_lock(&self.0, |s: &mut TwoWayStream<T>| s.finish())
    }

    /// One poll of the consumer, with the waker to notify on the next write.
    /// Returns the pending value, the end-of-sequence marker, or the suspend
    /// marker, as `TwoWayStream::poll_next` decides for the shared state.
    pub fn poll_next(&mut self, w: std::task::Waker) -> (r: PollOutcome<T>)
        ensures
            final(self).shared_cell() == old(self).shared_cell(),
    {
        with_lock(&self.0, |s: &mut TwoWayStream<T>| s.poll_next(w))
    }
}

impl<T> Default for Pipe<T> {
    /// The same as `Pipe::new`: a pipe over a fresh, empty, unfinished stream.
    fn default() -> Self {
        Pipe::new()
    }
}

impl<T> Clone for Pipe<T> {
    /// A co-owning handle to the same shared stream: the result's cell equals
    /// this handle's, so writes through either handle are visible to polls
    /// through the other. No effect on the stream itself.
    fn clone(&self) -> (r: Self)
        ensures
            r.shared_cell() == self.shared_cell(),
    {
        Pipe(share(&self.0))
    }
}

} // verus!

