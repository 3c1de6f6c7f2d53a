//! The ready queue and the waker bridge that feeds it.
use std::collections::VecDeque;
use vstd::prelude::*;

use crate::TaskId;

verus! {

/// Why a wake could not be delivered.
#[derive(Debug, Clone, Copy, PartialEq, Eq, Structural)]
pub enum WakeError {
    /// The ready queue already holds as many identities as its bound allows.
    QueueFull(TaskId),
}

/// Bounded FIFO of task identities waiting to be polled again.
pub struct ReadyQueue {
    items: VecDeque<TaskId>,
    bound: usize,
}

impl View for ReadyQueue {
    type V = Seq<TaskId>;

    closed spec fn view(&self) -> Seq<TaskId> {
        self.items@
    }
}

impl ReadyQueue {
    /// The most identities the queue holds at once.
    pub closed spec fn capacity(&self) -> nat {
        self.bound as nat
    }

    /// An empty queue that holds at most `bound` identities.
    pub fn new(bound: usize) -> (r: ReadyQueue)
        ensures
            r@ == Seq::<TaskId>::empty(),
            r.capacity() == bound,
    {
        ReadyQueue { items: VecDeque::new(), bound }
    }

    pub fn len(&self) -> (r: usize)
        ensures
            r == self@.len(),
    {
        self.items.len()
    }

    pub fn bound(&self) -> (r: usize)
        ensures
            r == self.capacity(),
    {
        self.bound
    }

    /// Appends `id` at the back, or fails when the queue is full.
    pub fn push(&mut self, id: TaskId) -> (r: Result<(), WakeError>)
        ensures
            final(self).capacity() == old(self).capacity(),
            r is Ok <==> old(self)@.len() < old(self).capacity(),
            r is Ok ==> final(self)@ == old(self)@.push(id),
            r is Err ==> final(self)@ == old(self)@ && r == Err::<(), WakeError>(WakeError::QueueFull(id)),
    {
        if self.items.len() < self.bound {
            self.items.push_back(id);
            Ok(())
        } else {
            Err(WakeError::QueueFull(id))
        }
    }

    /// Takes the identity at the front, if any.
    pub fn pop(&mut self) -> (r: Option<TaskId>)
        ensures
            final(self).capacity() == old(self).capacity(),
            old(self)@.len() == 0 ==> r is None && final(self)@ == old(self)@,
            old(self)@.len() > 0 ==> r == Some(old(self)@[0]) && final(self)@ == old(self)@.drop_first(),
    {
        self.items.pop_front()
    }
}

/// A handle bound to one task identity; waking it queues that identity.
/// It does not own the task, so waking it after the task finished is harmless.
#[derive(Debug, Clone, Copy, PartialEq, Eq, Structural)]
pub struct TaskWaker {
    pub id: TaskId,
}

impl TaskWaker {
    pub fn new(id: TaskId) -> (r: TaskWaker)
        ensures
            r.id == id,
    {
        TaskWaker { id }
    }
}

/// Duplicates the handle; the copy is bound to the same identity.
pub fn clone_task(waker: &TaskWaker) -> (r: TaskWaker)
    ensures
        r == *waker,
{
    TaskWaker { id: waker.id }
}

/// Consumes the handle and queues its identity.
pub fn wake_task(waker: TaskWaker, queue: &mut ReadyQueue) -> (r: Result<(), WakeError>)
    ensures
        final(queue).capacity() == old(queue).capacity(),
        r is Ok <==> old(queue)@.len() < old(queue).capacity(),
        r is Ok ==> final(queue)@ == old(queue)@.push(waker.id),
        r is Err ==> final(queue)@ == old(queue)@ && r == Err::<(), WakeError>(WakeError::QueueFull(waker.id)),
{
    wake_by_ref_task(&waker, queue)
}

/// Queues the handle's identity and keeps the handle.
pub fn wake_by_ref_task(waker: &TaskWaker, queue: &mut ReadyQueue) -> (r: Result<(), WakeError>)
    ensures
        final(queue).capacity() == old(queue).capacity(),
        r is Ok <==> old(queue)@.len() < old(queue).capacity(),
        r is Ok ==> final(queue)@ == old(queue)@.push(waker.id),
        r is Err ==> final(queue)@ == old(queue)@ && r == Err::<(), WakeError>(WakeError::QueueFull(waker.id)),
{
    queue.push(waker.id)
}

/// Releases the handle. The task itself is untouched: the handle never owned it.
pub fn drop_task(waker: TaskWaker) {
    let _ = waker;
}

} // verus!
