//! The scheduling decisions of the executor. The executor owns the pending
//! set and hands out one task at a time to be polled; the caller polls it and
//! reports back whether it finished. Blocking on readiness is the caller's
//! part too: the executor only says when to wait and for how long.
use std::collections::HashMap;
use vstd::prelude::*;

use crate::TaskId;
use crate::waker::ReadyQueue;

verus! {

broadcast use vstd::std_specs::hash::group_hash_axioms;

/// Milliseconds to block on readiness between two drains of the ready queue,
/// unless the executor is told otherwise.
pub const DEFAULT_POLL_TIMEOUT_MS: i32 = 1000;

/// How a task came in: spawned and left to run, or the one a caller blocks on.
#[derive(Debug, Clone, Copy, PartialEq, Eq, Structural)]
pub enum Role {
    Spawned,
    Blocking,
}

/// One suspended computation with its identity.
pub struct Task<F> {
    pub id: TaskId,
    pub future: F,
    pub role: Role,
}

impl<F> Task<F> {
    pub fn from_boxed_future(id: TaskId, future: F, role: Role) -> (r: Task<F>)
        ensures
            r.id == id,
            r.future == future,
            r.role == role,
    {
        Task { id, future, role }
    }
}

/// What one poll of a task's future gave.
#[derive(Debug, Clone, Copy, PartialEq, Eq, Structural)]
pub enum PollOutcome {
    Ready,
    Pending,
}

/// What the driver of the executor is to do next.
pub enum Action<F> {
    /// Poll the enclosed task once; `process_task` takes it back afterwards.
    Poll(Task<F>),
    /// Block on readiness for at most this many milliseconds and fire the
    /// wakers of what became ready.
    Wait(i32),
    /// Nothing is left to do for this run.
    Finished,
}

#[derive(Debug, Clone, Copy, PartialEq, Eq, Structural)]
pub enum ExecutorError {
    /// Every task identity has been handed out.
    IdsExhausted,
    /// The ready queue named a task that is not suspended.
    UnknownTask(TaskId),
}

/// The pending set and the bookkeeping of which identities exist.
pub struct Executor<F> {
    pending_tasks: HashMap<TaskId, Task<F>>,
    next_id: TaskId,
    in_flight: Option<TaskId>,
    poll_timeout_ms: i32,
    completed: Ghost<Set<TaskId>>,
}

/// The two executors agree on everything a contract can observe.
pub open spec fn same_state<F>(a: &Executor<F>, b: &Executor<F>) -> bool {
    &&& a.pending() == b.pending()
    &&& a.completed() == b.completed()
    &&& a.in_flight() == b.in_flight()
    &&& a.next_id() == b.next_id()
    &&& a.poll_timeout() == b.poll_timeout()
}

/// `after` is `before` with `task` taken out of the pending set to be polled.
pub open spec fn takes_for_poll<F>(before: &Executor<F>, after: &Executor<F>, task: &Task<F>) -> bool {
    &&& before.pending().contains_key(task.id)
    &&& *task == before.pending()[task.id]
    &&& after.pending() == before.pending().remove(task.id)
    &&& after.in_flight() == Some(task.id)
    &&& after.completed() == before.completed()
    &&& after.next_id() == before.next_id()
}

/// `after` is `before` once `task` came back from its poll with `outcome`.
pub open spec fn returns_from_poll<F>(before: &Executor<F>, task: &Task<F>, outcome: PollOutcome, after: &Executor<F>) -> bool {
    &&& after.in_flight() is None
    &&& after.next_id() == before.next_id()
    &&& outcome == PollOutcome::Ready ==> {
        &&& after.pending() == before.pending()
        &&& after.completed() == before.completed().insert(task.id)
    }
    &&& outcome == PollOutcome::Pending ==> {
        &&& after.pending() == before.pending().insert(task.id, *task)
        &&& after.completed() == before.completed()
    }
}

/// `after` is `before` once it handed out `task`, fresh, for its first poll.
pub open spec fn hands_out_fresh<F>(before: &Executor<F>, after: &Executor<F>, task: &Task<F>) -> bool {
    &&& task.id == before.next_id()
    &&& after.next_id() == before.next_id() + 1
    &&& after.in_flight() == Some(task.id)
    &&& after.pending() == before.pending()
    &&& after.completed() == before.completed()
}

/// Whether a run is over: for a run with no target, when nothing is pending;
/// for a run blocking on `target`, when that task is no longer suspended.
pub open spec fn run_finished<F>(exec: &Executor<F>, target: Option<TaskId>) -> bool {
    match target {
        None => exec.pending().len() == 0,
        Some(t) => !exec.pending().contains_key(t),
    }
}

impl<F> Executor<F> {
    /// The suspended tasks, by identity.
    pub closed spec fn pending(&self) -> Map<TaskId, Task<F>> {
        self.pending_tasks@
    }

    /// The identity that will be handed out next.
    pub closed spec fn next_id(&self) -> nat {
        self.next_id as nat
    }

    /// The task that is out for a poll, if any.
    pub closed spec fn in_flight(&self) -> Option<TaskId> {
        self.in_flight
    }

    /// The tasks that have finished.
    pub closed spec fn completed(&self) -> Set<TaskId> {
        self.completed@
    }

    pub closed spec fn poll_timeout(&self) -> i32 {
        self.poll_timeout_ms
    }

    /// Every identity handed out so far belongs to exactly one of: the
    /// pending set, the task out for a poll, the finished tasks.
    pub closed spec fn wf(&self) -> bool {
        &&& self.pending_tasks@.dom().finite()
        &&& forall|k: TaskId| #[trigger] self.pending_tasks@.contains_key(k) ==> self.pending_tasks@[k].id == k && k < self.next_id
        &&& forall|k: TaskId| #[trigger] self.completed@.contains(k) ==> k < self.next_id && !self.pending_tasks@.contains_key(k)
        &&& self.in_flight matches Some(t) ==> t < self.next_id && !self.pending_tasks@.contains_key(t) && !self.completed@.contains(t)
        &&& forall|k: TaskId| k < self.next_id ==> #[trigger] self.pending_tasks@.contains_key(k) || self.completed@.contains(k) || self.in_flight == Some(k)
    }

    /// An executor with nothing pending that blocks on readiness for at most
    /// `poll_timeout_ms` milliseconds at a time.
    pub fn new(poll_timeout_ms: i32) -> (r: Executor<F>)
        ensures
            r.wf(),
            r.pending() == Map::<TaskId, Task<F>>::empty(),
            r.completed() == Set::<TaskId>::empty(),
            r.in_flight() is None,
            r.next_id() == 0,
            r.poll_timeout() == poll_timeout_ms,
    {
        Executor {
            pending_tasks: HashMap::new(),
            next_id: 0,
            in_flight: None,
            poll_timeout_ms,
            completed: Ghost(Set::empty()),
        }
    }

    pub fn pending_len(&self) -> (r: usize)
        ensures
            r == self.pending().len(),
    {
        self.pending_tasks.len()
    }

    pub fn is_pending(&self, id: TaskId) -> (r: bool)
        ensures
            r == self.pending().contains_key(id),
    {
        self.pending_tasks.contains_key(&id)
    }

    /// Hands out a fresh identity, or fails once every identity is used.
    pub fn generate_task_id(&mut self) -> (r: Result<TaskId, ExecutorError>)
        requires
            old(self).wf(),
            old(self).in_flight() is None,
        ensures
            r is Ok <==> old(self).next_id() < u64::MAX,
            r is Ok ==> {
                &&& r->Ok_0 == old(self).next_id()
                &&& final(self).next_id() == old(self).next_id() + 1
                &&& final(self).in_flight() == Some(r->Ok_0)
            },
            r is Err ==> r == Err::<TaskId, ExecutorError>(ExecutorError::IdsExhausted) && final(self).in_flight() is None && final(self).next_id() == old(self).next_id(),
            final(self).wf(),
            final(self).pending() == old(self).pending(),
            final(self).completed() == old(self).completed(),
            final(self).poll_timeout() == old(self).poll_timeout(),
    {
        if self.next_id == u64::MAX {
            return Err(ExecutorError::IdsExhausted);
        }
        let id = self.next_id;
        self.next_id = self.next_id + 1;
        self.in_flight = Some(id);
        Ok(id)
    }

    /// Makes a task of `future` with a fresh identity and hands it out for
    /// its first poll.
    pub fn spawn(&mut self, future: F) -> (r: Result<Task<F>, ExecutorError>)
        requires
            old(self).wf(),
            old(self).in_flight() is None,
        ensures
            r is Ok <==> old(self).next_id() < u64::MAX,
            r is Ok ==> {
                &&& r->Ok_0.id == old(self).next_id()
                &&& r->Ok_0.future == future
                &&& r->Ok_0.role == Role::Spawned
                &&& hands_out_fresh(old(self), final(self), &r->Ok_0)
                &&& final(self).next_id() == old(self).next_id() + 1
                &&& final(self).in_flight() == Some(r->Ok_0.id)
            },
            r is Err ==> r == Err::<Task<F>, ExecutorError>(ExecutorError::IdsExhausted) && final(self).in_flight() is None && final(self).next_id() == old(self).next_id(),
            final(self).wf(),
            final(self).pending() == old(self).pending(),
            final(self).completed() == old(self).completed(),
            final(self).poll_timeout() == old(self).poll_timeout(),
    {
        let id = self.generate_task_id()?;
        Ok(Task::from_boxed_future(id, future, Role::Spawned))
    }

    /// Like `spawn`, for the task that a caller blocks on.
    pub fn spawn_blocking(&mut self, future: F) -> (r: Result<Task<F>, ExecutorError>)
        requires
            old(self).wf(),
            old(self).in_flight() is None,
        ensures
            r is Ok <==> old(self).next_id() < u64::MAX,
            r is Ok ==> {
                &&& r->Ok_0.id == old(self).next_id()
                &&& r->Ok_0.future == future
                &&& r->Ok_0.role == Role::Blocking
                &&& hands_out_fresh(old(self), final(self), &r->Ok_0)
                &&& final(self).next_id() == old(self).next_id() + 1
                &&& final(self).in_flight() == Some(r->Ok_0.id)
            },
            r is Err ==> r == Err::<Task<F>, ExecutorError>(ExecutorError::IdsExhausted) && final(self).in_flight() is None && final(self).next_id() == old(self).next_id(),
            final(self).wf(),
            final(self).pending() == old(self).pending(),
            final(self).completed() == old(self).completed(),
            final(self).poll_timeout() == old(self).poll_timeout(),
    {
        let id = self.generate_task_id()?;
        Ok(Task::from_boxed_future(id, future, Role::Blocking))
    }

    pub fn set_poll_timeout(&mut self, poll_timeout_ms: i32)
        requires
            old(self).wf(),
        ensures
            final(self).wf(),
            final(self).poll_timeout() == poll_timeout_ms,
            final(self).pending() == old(self).pending(),
            final(self).completed() == old(self).completed(),
            final(self).in_flight() == old(self).in_flight(),
            final(self).next_id() == old(self).next_id(),
    {
        self.poll_timeout_ms = poll_timeout_ms;
    }

    /// Takes back the task that was out for a poll: a finished task is
    /// dropped and never seen again, a suspended one joins the pending set.
    pub fn process_task(&mut self, task: Task<F>, outcome: PollOutcome)
        requires
            old(self).wf(),
            old(self).in_flight() == Some(task.id),
        ensures
            final(self).wf(),
            returns_from_poll(old(self), &task, outcome, final(self)),
            final(self).poll_timeout() == old(self).poll_timeout(),
    {
        let ghost id = task.id;
        match outcome {
            PollOutcome::Ready => {
                proof {
                    self.completed@ = self.completed@.insert(id);
                }
            },
            PollOutcome::Pending => {
                self.pending_tasks.insert(task.id, task);
            },
        }
        self.in_flight = None;
        assert forall|k: TaskId| k < self.next_id implies #[trigger] self.pending_tasks@.contains_key(k)
            || self.completed@.contains(k) || self.in_flight == Some(k) by {
            if k == id {
            } else {
                assert(old(self).pending_tasks@.contains_key(k) || old(self).completed@.contains(k));
            }
        }
    }

    /// Decides the next step of a run. A run with no target lasts until
    /// nothing is pending; a run with a target lasts until that task is no
    /// longer suspended. Until then, the task named at the front of the ready
    /// queue is taken out to be polled, and with the queue empty the caller
    /// is told to wait on readiness. A run with no target ends with the ready
    /// queue drained: an identity left in it names no task and is reported.
    pub fn next_action(&mut self, queue: &mut ReadyQueue, target: Option<TaskId>) -> (r: Result<Action<F>, ExecutorError>)
        requires
            old(self).wf(),
            old(self).in_flight() is None,
            target matches Some(t) ==> t < old(self).next_id(),
        ensures
            final(self).wf(),
            final(self).poll_timeout() == old(self).poll_timeout(),
            final(queue).capacity() == old(queue).capacity(),
            (run_finished(old(self), target) && (target is None ==> old(queue)@.len() == 0)) <==> r matches Ok(Action::Finished),
            match r {
                Ok(Action::Finished) => {
                    &&& same_state(old(self), final(self))
                    &&& final(queue)@ == old(queue)@
                    &&& (target matches Some(t) ==> old(self).completed().contains(t))
                    &&& (target is None ==> old(self).pending().len() == 0 && old(queue)@.len() == 0)
                },
                Ok(Action::Poll(task)) => {
                    &&& old(queue)@.len() > 0
                    &&& task.id == old(queue)@[0]
                    &&& final(queue)@ == old(queue)@.drop_first()
                    &&& takes_for_poll(old(self), final(self), &task)
                },
                Ok(Action::Wait(ms)) => {
                    &&& old(queue)@.len() == 0
                    &&& ms == old(self).poll_timeout()
                    &&& same_state(old(self), final(self))
                    &&& final(queue)@ == old(queue)@
                },
                Err(e) => {
                    &&& old(queue)@.len() > 0
                    &&& e == ExecutorError::UnknownTask(old(queue)@[0])
                    &&& !old(self).pending().contains_key(old(queue)@[0])
                    &&& final(queue)@ == old(queue)@.drop_first()
                    &&& same_state(old(self), final(self))
                },
            },
    {
        let finished = match target {
            None => self.pending_tasks.len() == 0,
            Some(t) => !self.pending_tasks.contains_key(&t),
        };
        if finished {
            if let Some(t) = target {
                assert(self.pending_tasks@.contains_key(t) || self.completed@.contains(t) || self.in_flight == Some(t));
            }
            if target.is_none() && queue.len() > 0 {
                let id = queue.pop().unwrap();
                assert(!self.pending_tasks@.contains_key(id)) by {
                    assert(self.pending_tasks@.dom().len() == 0);
                    if self.pending_tasks@.contains_key(id) {
                        vstd::set_lib::lemma_set_empty_equivalency_len(self.pending_tasks@.dom());
                    }
                }
                Err(ExecutorError::UnknownTask(id))
            } else {
                Ok(Action::Finished)
            }
        } else {
            match queue.pop() {
                None => Ok(Action::Wait(self.poll_timeout_ms)),
                Some(id) => {
                    match self.pending_tasks.remove(&id) {
                        None => {
                            assert(self.pending_tasks@ =~= old(self).pending_tasks@);
                            Err(ExecutorError::UnknownTask(id))
                        },
                        Some(task) => {
                            self.in_flight = Some(id);
                            Ok(Action::Poll(task))
                        },
                    }
                },
            }
        }
    }
}

/// Within a run, one poll cycle never makes the pending set larger: a task is
/// taken out to be polled and at most that task comes back.
pub proof fn lemma_poll_cycle_does_not_grow<F>(
    s0: &Executor<F>,
    s1: &Executor<F>,
    task: &Task<F>,
    outcome: PollOutcome,
    s2: &Executor<F>,
)
    requires
        takes_for_poll(s0, s1, task),
        returns_from_poll(s1, task, outcome, s2),
    ensures
        s2.pending().len() <= s0.pending().len(),
        outcome == PollOutcome::Ready ==> s2.pending().len() == s0.pending().len() - 1,
        outcome == PollOutcome::Ready ==> !s2.pending().contains_key(task.id) && s2.completed().contains(task.id),
{
    assert(s0.pending_tasks@.dom().finite());
    if outcome == PollOutcome::Pending {
        assert(s2.pending() =~= s0.pending().remove(task.id).insert(task.id, *task));
        assert(s2.pending() =~= s0.pending());
    }
}

/// A task that finished is never in the pending set: it is dropped when its
/// poll gives `Ready`, and its identity is never handed out again.
pub proof fn lemma_completed_never_pending<F>(exec: &Executor<F>, id: TaskId)
    requires
        exec.wf(),
        exec.completed().contains(id),
    ensures
        !exec.pending().contains_key(id),
        exec.in_flight() != Some(id),
        id < exec.next_id(),
{
}

/// One step of a run: either a step that leaves the executor as it was
/// (waiting on readiness, or reporting an unknown identity), or a poll cycle,
/// in which a task is taken out and then handed back with its outcome.
pub open spec fn run_step<F>(before: Executor<F>, after: Executor<F>) -> bool {
    ||| same_state(&before, &after)
    ||| exists|task: Task<F>, outcome: PollOutcome, mid: Executor<F>|
        takes_for_poll(&before, &mid, &task) && returns_from_poll(&mid, &task, outcome, &after)
}

/// Over a whole run, the pending set never grows: along any sequence of run
/// steps, the pending set at a later state is no larger than at an earlier one.
pub proof fn lemma_run_never_grows<F>(trace: Seq<Executor<F>>, i: int, j: int)
    requires
        forall|k: int| 0 <= k < trace.len() - 1 ==> run_step(#[trigger] trace[k], trace[k + 1]),
        0 <= i <= j < trace.len(),
    ensures
        trace[j].pending().len() <= trace[i].pending().len(),
    decreases j - i,
{
    if i < j {
        lemma_run_never_grows(trace, i, j - 1);
        let a = trace[j - 1];
        let b = trace[j];
        assert(run_step(a, b));
        if !same_state(&a, &b) {
            let (task, outcome, mid) = choose|task: Task<F>, outcome: PollOutcome, mid: Executor<F>|
                takes_for_poll(&a, &mid, &task) && returns_from_poll(&mid, &task, outcome, &b);
            lemma_poll_cycle_does_not_grow(&a, &mid, &task, outcome, &b);
        }
    }
}

/// A task handed out by `spawn` whose first poll gives `Ready` never enters
/// the pending set: the pending set after that poll is the one before spawn.
pub proof fn lemma_spawned_ready_never_pending<F>(s0: &Executor<F>, s1: &Executor<F>, task: &Task<F>, s2: &Executor<F>)
    requires
        s0.wf(),
        hands_out_fresh(s0, s1, task),
        returns_from_poll(s1, task, PollOutcome::Ready, s2),
    ensures
        s2.pending() == s0.pending(),
        !s2.pending().contains_key(task.id),
        s2.completed().contains(task.id),
{
    if s0.pending().contains_key(task.id) {
        assert(s0.pending_tasks@.contains_key(task.id));
    }
}

/// A future that does not suspend on its first poll is finished and not
/// pending once that poll is processed.
pub proof fn lemma_ready_on_first_poll<F>(before: &Executor<F>, task: &Task<F>, after: &Executor<F>)
    requires
        before.wf(),
        before.in_flight() == Some(task.id),
        returns_from_poll(before, task, PollOutcome::Ready, after),
    ensures
        !after.pending().contains_key(task.id),
        after.completed().contains(task.id),
        after.pending().len() == before.pending().len(),
{
}

} // verus!
