use std::time::{Duration, Instant};

use custom_async::executor::{Action, Executor, ExecutorError, PollOutcome, Role, Task};
use custom_async::reactor::{ReactorError, WakeRegistry};
use custom_async::timer::{timer_poll_outcome, TimerFuture};
use custom_async::waker::{
    clone_task, drop_task, wake_by_ref_task, wake_task, ReadyQueue, TaskWaker, WakeError,
};

#[test]
fn ready_queue_is_fifo_and_bounded() {
    let mut q = ReadyQueue::new(2);
    assert_eq!(q.push(7), Ok(()));
    assert_eq!(q.push(3), Ok(()));
    assert_eq!(q.push(9), Err(WakeError::QueueFull(9)));
    assert_eq!(q.len(), 2);
    assert_eq!(q.pop(), Some(7));
    assert_eq!(q.pop(), Some(3));
    assert_eq!(q.pop(), None);
    assert_eq!(q.bound(), 2);
}

#[test]
fn waker_bridge_queues_its_identity() {
    let mut q = ReadyQueue::new(4);
    let w = TaskWaker::new(5);
    let c = clone_task(&w);
    assert_eq!(c, w);
    assert_eq!(wake_by_ref_task(&w, &mut q), Ok(()));
    assert_eq!(wake_task(c, &mut q), Ok(()));
    drop_task(w);
    assert_eq!(q.pop(), Some(5));
    assert_eq!(q.pop(), Some(5));
    assert_eq!(q.pop(), None);
}

#[test]
fn wake_on_full_queue_is_reported() {
    let mut q = ReadyQueue::new(0);
    assert_eq!(wake_task(TaskWaker::new(1), &mut q), Err(WakeError::QueueFull(1)));
    assert_eq!(q.len(), 0);
}

#[test]
fn registry_overwrites_and_dispatches_in_order() {
    let mut r: WakeRegistry<TaskWaker> = WakeRegistry::new();
    assert_eq!(r.register(10, TaskWaker::new(1)), None);
    assert_eq!(r.register(10, TaskWaker::new(2)), Some(TaskWaker::new(1)));
    assert_eq!(r.register(11, TaskWaker::new(3)), None);
    assert!(r.is_registered(10));
    let fired = r.dispatch(&vec![11, 10]).unwrap();
    assert_eq!(fired, vec![TaskWaker::new(3), TaskWaker::new(2)]);
    assert_eq!(r.len(), 0);
    assert_eq!(r.take(10), None);
}

#[test]
fn dispatch_without_waker_is_an_error() {
    let mut r: WakeRegistry<TaskWaker> = WakeRegistry::new();
    r.register(4, TaskWaker::new(1));
    r.register(6, TaskWaker::new(2));
    assert_eq!(r.dispatch(&vec![4, 5, 6]), Err(ReactorError::NoWaker(5)));
    assert!(!r.is_registered(4));
    assert!(r.is_registered(6));
    assert_eq!(r.dispatch(&vec![]), Ok(vec![]));
}

#[test]
fn task_ids_increase() {
    let mut e: Executor<u32> = Executor::new(1000);
    let a = e.spawn(1).unwrap();
    assert_eq!((a.id, a.role), (0, Role::Spawned));
    e.process_task(a, PollOutcome::Ready);
    let b = e.spawn_blocking(2).unwrap();
    assert_eq!((b.id, b.role, b.future), (1, Role::Blocking, 2));
    e.process_task(b, PollOutcome::Ready);
    let t = Task::from_boxed_future(9, 4u32, Role::Spawned);
    assert_eq!(t.id, 9);
}

#[test]
fn future_that_never_suspends_is_not_pending() {
    let mut e: Executor<u32> = Executor::new(1000);
    let mut q = ReadyQueue::new(8);
    let t = e.spawn(0).unwrap();
    let id = t.id;
    e.process_task(t, PollOutcome::Ready);
    assert!(!e.is_pending(id));
    assert_eq!(e.pending_len(), 0);
    assert!(matches!(e.next_action(&mut q, None), Ok(Action::Finished)));
}

#[test]
fn stale_identity_is_an_invariant_breach() {
    let mut e: Executor<u32> = Executor::new(1000);
    let mut q = ReadyQueue::new(8);
    let t = e.spawn(0).unwrap();
    e.process_task(t, PollOutcome::Pending);
    q.push(42).unwrap();
    assert!(matches!(e.next_action(&mut q, None), Err(ExecutorError::UnknownTask(42))));
    assert_eq!(q.len(), 0);
    assert_eq!(e.pending_len(), 1);
}

#[test]
fn empty_queue_means_wait_with_the_timeout() {
    let mut e: Executor<u32> = Executor::new(250);
    let mut q = ReadyQueue::new(8);
    let t = e.spawn(0).unwrap();
    e.process_task(t, PollOutcome::Pending);
    assert!(matches!(e.next_action(&mut q, None), Ok(Action::Wait(250))));
    e.set_poll_timeout(5);
    assert!(matches!(e.next_action(&mut q, None), Ok(Action::Wait(5))));
}

/// A run on a simulated clock: each task is a timer whose future is its
/// deadline, watched on a descriptor equal to its identity.
struct Sim {
    exec: Executor<u64>,
    queue: ReadyQueue,
    registry: WakeRegistry<TaskWaker>,
    now: u64,
    deadlines: Vec<(i32, u64)>,
    done: Vec<(u64, u64)>,
    waits: usize,
    pending_sizes: Vec<usize>,
}

impl Sim {
    fn new() -> Sim {
        Sim {
            exec: Executor::new(1000),
            queue: ReadyQueue::new(1024),
            registry: WakeRegistry::new(),
            now: 0,
            deadlines: vec![],
            done: vec![],
            waits: 0,
            pending_sizes: vec![],
        }
    }

    fn poll(&mut self, task: Task<u64>) {
        let outcome = if self.now >= task.future {
            self.done.push((task.id, self.now));
            PollOutcome::Ready
        } else {
            let fd = task.id as i32;
            self.registry.register(fd, TaskWaker::new(task.id));
            self.deadlines.push((fd, task.future));
            PollOutcome::Pending
        };
        self.exec.process_task(task, outcome);
    }

    fn spawn(&mut self, delay: u64) -> u64 {
        let t = self.exec.spawn(self.now + delay).unwrap();
        let id = t.id;
        self.poll(t);
        id
    }

    fn block_on(&mut self, delay: u64) -> u64 {
        let t = self.exec.spawn_blocking(self.now + delay).unwrap();
        let id = t.id;
        self.poll(t);
        self.run(Some(id));
        id
    }

    fn run(&mut self, target: Option<u64>) {
        loop {
            self.pending_sizes.push(self.exec.pending_len());
            match self.exec.next_action(&mut self.queue, target).unwrap() {
                Action::Finished => return,
                Action::Poll(task) => self.poll(task),
                Action::Wait(_) => {
                    self.waits += 1;
                    let next = self.deadlines.iter().map(|d| d.1).min().unwrap();
                    self.now = self.now.max(next);
                    let now = self.now;
                    let ready: Vec<i32> =
                        self.deadlines.iter().filter(|d| d.1 <= now).map(|d| d.0).collect();
                    self.deadlines.retain(|d| d.1 > now);
                    for w in self.registry.dispatch(&ready).unwrap() {
                        wake_task(w, &mut self.queue).unwrap();
                    }
                }
            }
        }
    }
}

#[test]
fn scenario_two_timers_run_concurrently() {
    let mut sim = Sim::new();
    let slow = sim.spawn(3);
    let fast = sim.spawn(2);
    sim.run(None);
    assert_eq!(sim.done, vec![(fast, 2), (slow, 3)]);
    assert_eq!(sim.now, 3);
    assert_eq!(sim.exec.pending_len(), 0);
}

#[test]
fn scenario_hundred_timers_of_one_delay() {
    let mut sim = Sim::new();
    for _ in 0..100 {
        sim.spawn(7);
    }
    assert_eq!(sim.exec.pending_len(), 100);
    sim.run(None);
    assert_eq!(sim.done.len(), 100);
    assert!(sim.done.iter().all(|d| d.1 == 7));
    assert_eq!(sim.now, 7);
    assert_eq!(sim.waits, 1);
    assert_eq!(sim.exec.pending_len(), 0);
}

#[test]
fn pending_set_shrinks_to_zero_during_run() {
    let mut sim = Sim::new();
    for d in [5, 1, 3, 3, 2] {
        sim.spawn(d);
    }
    sim.run(None);
    assert!(sim.pending_sizes.windows(2).all(|w| w[1] <= w[0]));
    assert_eq!(*sim.pending_sizes.last().unwrap(), 0);
}

#[test]
fn block_on_returns_once_its_own_task_is_done() {
    let mut sim = Sim::new();
    let other = sim.spawn(10);
    let own = sim.block_on(2);
    assert!(sim.done.iter().any(|d| d.0 == own));
    assert!(sim.exec.is_pending(other));
    sim.run(None);
    assert_eq!(sim.done.last(), Some(&(other, 10)));
}

#[test]
fn zero_delay_completes_on_first_poll() {
    let mut sim = Sim::new();
    let id = sim.spawn(0);
    assert_eq!(sim.done, vec![(id, 0)]);
    assert_eq!(sim.exec.pending_len(), 0);
}

#[test]
fn timer_outcome_follows_the_timer_state() {
    assert_eq!(timer_poll_outcome(true), PollOutcome::Ready);
    assert_eq!(timer_poll_outcome(false), PollOutcome::Pending);
}

#[test]
fn zero_timer_is_ready_at_once() {
    let t = TimerFuture::new(0, 0).unwrap();
    assert_eq!(t.poll_state(), PollOutcome::Ready);
}

fn wait_ready(t: &TimerFuture, start: Instant) -> Duration {
    while t.poll_state() == PollOutcome::Pending {
        assert!(start.elapsed() < Duration::from_secs(5));
    }
    start.elapsed()
}

#[test]
fn timer_completes_no_earlier_than_its_delay() {
    let start = Instant::now();
    let t = TimerFuture::new(0, 40_000_000).unwrap();
    assert_eq!(t.poll_state(), PollOutcome::Pending);
    let elapsed = wait_ready(&t, start);
    assert!(elapsed >= Duration::from_millis(40));
    assert!(elapsed < Duration::from_millis(1000));
}

#[test]
fn shorter_timer_fires_first() {
    let start = Instant::now();
    let long = TimerFuture::new(0, 60_000_000).unwrap();
    let short = TimerFuture::new(0, 30_000_000).unwrap();
    let mut short_done = None;
    let mut long_done = None;
    while short_done.is_none() || long_done.is_none() {
        assert!(start.elapsed() < Duration::from_secs(5));
        if short_done.is_none() && short.poll_state() == PollOutcome::Ready {
            short_done = Some(start.elapsed());
        }
        if long_done.is_none() && long.poll_state() == PollOutcome::Ready {
            long_done = Some(start.elapsed());
        }
    }
    assert!(short_done.unwrap() <= long_done.unwrap());
    assert!(long_done.unwrap() < Duration::from_millis(90 + 500));
}

#[test]
fn leftover_identity_at_end_of_run_is_reported() {
    let mut e: Executor<u32> = Executor::new(1000);
    let mut q = ReadyQueue::new(8);
    let t = e.spawn(0).unwrap();
    let id = t.id;
    e.process_task(t, PollOutcome::Ready);
    q.push(id).unwrap();
    assert!(matches!(e.next_action(&mut q, None), Err(ExecutorError::UnknownTask(0))));
    assert_eq!(q.len(), 0);
    assert!(matches!(e.next_action(&mut q, None), Ok(Action::Finished)));
}

#[test]
fn block_on_may_end_with_other_identities_queued() {
    let mut e: Executor<u32> = Executor::new(1000);
    let mut q = ReadyQueue::new(8);
    let other = e.spawn(1).unwrap();
    let other_id = other.id;
    e.process_task(other, PollOutcome::Pending);
    let own = e.spawn_blocking(2).unwrap();
    let own_id = own.id;
    e.process_task(own, PollOutcome::Ready);
    q.push(other_id).unwrap();
    assert!(matches!(e.next_action(&mut q, Some(own_id)), Ok(Action::Finished)));
    assert_eq!(q.len(), 1);
}
