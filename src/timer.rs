//! A one-shot timer future on an operating-system timer descriptor.
use timerfd::{SetTimeFlags, TimerFd, TimerState};
use vstd::prelude::*;

use crate::executor::PollOutcome;

verus! {

#[verifier::external_type_specification]
#[verifier::external_body]
pub struct ExTimerFd(TimerFd);

/// Relies on `timerfd::TimerFd::new`: a fresh timer on the monotonic clock,
/// which starts disarmed, or `None` when the system refuses one (resource
/// exhaustion).
#[verifier::external_body]
fn create_timer() -> (r: Option<TimerFd>) {
    TimerFd::new().ok()
}

/// Relies on `timerfd::TimerFd::set_state` with `TimerState::Oneshot`: arms
/// the timer to fire once after `secs` seconds and `nanos` nanoseconds; a zero
/// delay leaves it disarmed (a zero `it_value` disarms a timerfd). The seconds
/// must fit the system's signed time.
#[verifier::external_body]
fn arm_oneshot(timer: &mut TimerFuture, secs: u64, nanos: u32)
    requires
        secs <= i64::MAX,
        nanos < 1_000_000_000,
    ensures
        final(timer).delay() == (secs, nanos),
{
    timer.timer_fd.set_state(TimerState::Oneshot(std::time::Duration::new(secs, nanos)), SetTimeFlags::Default);
}

/// Relies on `timerfd::TimerFd::get_state`: whether the timer is disarmed,
/// which a one-shot timer becomes once it has fired. A timer that was never
/// armed, or armed with a zero delay, reads as disarmed: its `it_value` is
/// zero, which `get_state` reports as `TimerState::Disarmed`.
#[verifier::external_body]
fn timer_disarmed(timer: &TimerFuture) -> (r: bool)
    ensures
        timer.delay() == (0u64, 0u32) ==> r,
{
    match timer.timer_fd.get_state() {
        TimerState::Disarmed => true,
        _ => false,
    }
}

/// The timer could not be created.
#[derive(Debug, Clone, Copy, PartialEq, Eq, Structural)]
pub enum TimerError {
    Unavailable,
}

/// What a poll of a timer gives: done once the timer is disarmed, else
/// suspended until its descriptor becomes ready.
pub fn timer_poll_outcome(disarmed: bool) -> (r: PollOutcome)
    ensures
        r == (if disarmed { PollOutcome::Ready } else { PollOutcome::Pending }),
{
    if disarmed {
        PollOutcome::Ready
    } else {
        PollOutcome::Pending
    }
}

/// A future that completes no earlier than its delay after construction.
pub struct TimerFuture {
    timer_fd: TimerFd,
    delay: Ghost<(u64, u32)>,
}

impl TimerFuture {
    /// The delay, in seconds and nanoseconds, that the timer was last armed
    /// with; zero for a timer that was never armed.
    pub closed spec fn delay(&self) -> (u64, u32) {
        self.delay@
    }

    /// A timer armed to fire once after `secs` seconds and `nanos`
    /// nanoseconds. Failing to get a timer from the system is an error, not
    /// retried.
    pub fn new(secs: u64, nanos: u32) -> (r: Result<TimerFuture, TimerError>)
        requires
            secs <= i64::MAX,
            nanos < 1_000_000_000,
        ensures
            r is Err ==> r == Err::<TimerFuture, TimerError>(TimerError::Unavailable),
            r is Ok ==> r->Ok_0.delay() == (secs, nanos),
    {
        match create_timer() {
            None => Err(TimerError::Unavailable),
            Some(timer_fd) => {
                let mut timer = TimerFuture { timer_fd, delay: Ghost((0u64, 0u32)) };
                arm_oneshot(&mut timer, secs, nanos);
                Ok(timer)
            },
        }
    }

    /// Checks the timer: `Ready` once it has fired, otherwise `Pending`, in
    /// which case the caller registers the descriptor with the reactor. A
    /// timer armed with a zero delay is ready on its first poll.
    pub fn poll_state(&self) -> (r: PollOutcome)
        ensures
            self.delay() == (0u64, 0u32) ==> r == PollOutcome::Ready,
    {
        let disarmed = timer_disarmed(self);
        timer_poll_outcome(disarmed)
    }

    /// The underlying timer, whose descriptor the reactor watches.
    pub fn timer_fd(&self) -> &TimerFd {
        &self.timer_fd
    }
}

} // verus!
