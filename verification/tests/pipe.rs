use async_pipe::Pipe;
use async_pipe::PollOutcome;
use async_pipe::TwoWayStream;
use futures_util::task::noop_waker;
use futures_util::task::waker;
use futures_util::task::ArcWake;
use std::sync::atomic::AtomicUsize;
use std::sync::atomic::Ordering;
use std::sync::Arc;

/// A wake-callback that counts how often it is invoked.
struct CountingWake(AtomicUsize);

impl ArcWake for CountingWake {
    fn wake_by_ref(arc_self: &Arc<Self>) {
        arc_self.0.fetch_add(1, Ordering::SeqCst);
    }
}

#[test]
fn test_pipe() {
    let mut pipe = Pipe::new();

    pipe.send(1);

    let mut recv = pipe.clone();

    let next = recv.poll_next(noop_waker());

    assert_eq!(next, PollOutcome::Ready(1));

    pipe.send(2);
    recv.send(3);

    let next = pipe.poll_next(noop_waker());

    assert_eq!(next, PollOutcome::Ready(3));

    pipe.finish();

    let next = recv.poll_next(noop_waker());

    assert_eq!(next, PollOutcome::Finished);
}

#[test]
fn basic_delivery() {
    let mut p = Pipe::new();
    p.send(1);
    assert_eq!(p.poll_next(noop_waker()), PollOutcome::Ready(1));
}

#[test]
fn overwrite_loses_earlier_value() {
    let mut p = Pipe::new();
    p.send(2);
    p.send(3);
    assert_eq!(p.poll_next(noop_waker()), PollOutcome::Ready(3));
    // value 2 is never observed; the slot is already drained
    assert_eq!(p.poll_next(noop_waker()), PollOutcome::Pending);
}

#[test]
fn terminal_idempotence() {
    let mut p = Pipe::<i32>::new();
    p.finish();
    assert_eq!(p.poll_next(noop_waker()), PollOutcome::Finished);
    assert_eq!(p.poll_next(noop_waker()), PollOutcome::Finished);
}

#[test]
fn drain_before_terminal() {
    let mut p = Pipe::new();
    p.send(1);
    p.finish();
    assert_eq!(p.poll_next(noop_waker()), PollOutcome::Ready(1));
    assert_eq!(p.poll_next(noop_waker()), PollOutcome::Finished);
}

#[test]
fn cross_clone_visibility() {
    let mut h1 = Pipe::new();
    let mut h2 = h1.clone();
    h1.send(5);
    assert_eq!(h2.poll_next(noop_waker()), PollOutcome::Ready(5));
}

#[test]
fn no_queueing() {
    let mut p = Pipe::new();
    p.send(10);
    p.send(20);
    p.send(30);
    p.send(40);
    assert_eq!(p.poll_next(noop_waker()), PollOutcome::Ready(40));
    assert_eq!(p.poll_next(noop_waker()), PollOutcome::Pending);
}

#[test]
fn suspend_then_resume_on_write() {
    let counter = Arc::new(CountingWake(AtomicUsize::new(0)));
    let w = waker(counter.clone());
    let mut p = Pipe::new();
    // the slot is empty and the stream unfinished: the consumer must suspend
    assert_eq!(p.poll_next(w.clone()), PollOutcome::Pending);
    assert_eq!(counter.0.load(Ordering::SeqCst), 0);
    // a write through any clone resumes the suspended consumer
    let mut q = p.clone();
    q.send(7);
    assert_eq!(counter.0.load(Ordering::SeqCst), 1);
    assert_eq!(p.poll_next(w), PollOutcome::Ready(7));
}

#[test]
fn registration_kept_across_writes() {
    let counter = Arc::new(CountingWake(AtomicUsize::new(0)));
    let mut p = Pipe::new();
    assert_eq!(p.poll_next(waker(counter.clone())), PollOutcome::Pending);
    p.send(1);
    p.send(2);
    // a write notifies but does not clear the registration
    assert_eq!(counter.0.load(Ordering::SeqCst), 2);
}

#[test]
fn finish_does_not_notify() {
    let counter = Arc::new(CountingWake(AtomicUsize::new(0)));
    let mut p = Pipe::<i32>::new();
    assert_eq!(p.poll_next(waker(counter.clone())), PollOutcome::Pending);
    p.finish();
    // finish sets the terminal flag without invoking the wake-callback
    assert_eq!(counter.0.load(Ordering::SeqCst), 0);
    assert_eq!(p.poll_next(noop_waker()), PollOutcome::Finished);
}

#[test]
fn stream_state_machine() {
    let mut s = TwoWayStream::new();
    assert_eq!(s.poll_next(noop_waker()), PollOutcome::Pending);
    s.send(11);
    s.send(12);
    assert_eq!(s.poll_next(noop_waker()), PollOutcome::Ready(12));
    s.finish();
    assert_eq!(s.poll_next(noop_waker()), PollOutcome::Finished);
    // waking with no fresh data changes nothing
    s.wake_up_reader();
    assert_eq!(s.poll_next(noop_waker()), PollOutcome::Finished);
}

#[test]
fn stream_write_invokes_registered_waker() {
    let counter = Arc::new(CountingWake(AtomicUsize::new(0)));
    let mut s = TwoWayStream::new();
    assert_eq!(s.poll_next(waker(counter.clone())), PollOutcome::Pending);
    s.send(9);
    assert_eq!(counter.0.load(Ordering::SeqCst), 1);
    assert_eq!(s.poll_next(noop_waker()), PollOutcome::Ready(9));
}
