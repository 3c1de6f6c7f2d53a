//! The wake registry of the reactor: which waker to fire when a watched
//! descriptor becomes ready.
use std::collections::HashMap;
use vstd::prelude::*;

verus! {

broadcast use vstd::std_specs::hash::group_hash_axioms;

/// A descriptor as the operating system's readiness API reports it.
pub type Descriptor = i32;

/// Readiness was reported for a descriptor that nobody is waiting on.
#[derive(Debug, Clone, Copy, PartialEq, Eq, Structural)]
pub enum ReactorError {
    NoWaker(Descriptor),
}

/// What dispatching the ready descriptors `fds`, in order, does to the
/// registry `m`: the registry left over, the wakers taken out (to be fired in
/// that order) and the first descriptor that had no waker, if any. Dispatch
/// stops at that descriptor.
pub open spec fn dispatch_spec<W>(m: Map<Descriptor, W>, fds: Seq<Descriptor>) -> (Map<Descriptor, W>, Seq<W>, Option<Descriptor>)
    decreases fds.len(),
{
    if fds.len() == 0 {
        (m, Seq::empty(), None)
    } else {
        let prev = dispatch_spec(m, fds.drop_last());
        let fd = fds.last();
        if prev.2 is Some {
            prev
        } else if prev.0.contains_key(fd) {
            (prev.0.remove(fd), prev.1.push(prev.0[fd]), None)
        } else {
            (prev.0, prev.1, Some(fd))
        }
    }
}

/// Descriptor-keyed registry of wakers; at most one waker per descriptor.
pub struct WakeRegistry<W> {
    wakers: HashMap<Descriptor, W>,
}

impl<W> View for WakeRegistry<W> {
    type V = Map<Descriptor, W>;

    closed spec fn view(&self) -> Map<Descriptor, W> {
        self.wakers@
    }
}

impl<W> WakeRegistry<W> {
    pub fn new() -> (r: WakeRegistry<W>)
        ensures
            r@ == Map::<Descriptor, W>::empty(),
    {
        WakeRegistry { wakers: HashMap::new() }
    }

    pub fn len(&self) -> (r: usize)
        ensures
            r == self@.len(),
    {
        self.wakers.len()
    }

    pub fn is_registered(&self, fd: Descriptor) -> (r: bool)
        ensures
            r == self@.contains_key(fd),
    {
        self.wakers.contains_key(&fd)
    }

    /// Binds `waker` to `fd`, replacing and handing back the waker that was
    /// bound to it before.
    pub fn register(&mut self, fd: Descriptor, waker: W) -> (r: Option<W>)
        ensures
            final(self)@ == old(self)@.insert(fd, waker),
            old(self)@.contains_key(fd) ==> r == Some(old(self)@[fd]),
            !old(self)@.contains_key(fd) ==> r is None,
    {
        self.wakers.insert(fd, waker)
    }

    /// Takes out the waker bound to `fd`.
    pub fn take(&mut self, fd: Descriptor) -> (r: Option<W>)
        ensures
            final(self)@ == old(self)@.remove(fd),
            old(self)@.contains_key(fd) ==> r == Some(old(self)@[fd]),
            !old(self)@.contains_key(fd) ==> r is None,
    {
        self.wakers.remove(&fd)
    }

    /// Takes out, in order, the waker of each descriptor reported ready, for
    /// the caller to fire. A descriptor without a waker is a broken
    /// invariant and ends the dispatch with an error.
    pub fn dispatch(&mut self, ready: &Vec<Descriptor>) -> (r: Result<Vec<W>, ReactorError>)
        ensures
            final(self)@ == dispatch_spec(old(self)@, ready@).0,
            match dispatch_spec(old(self)@, ready@).2 {
                None => r is Ok && r->Ok_0@ == dispatch_spec(old(self)@, ready@).1,
                Some(fd) => r == Err::<Vec<W>, ReactorError>(ReactorError::NoWaker(fd)),
            },
    {
        let mut fired: Vec<W> = Vec::new();
        let mut i: usize = 0;
        while i < ready.len()
            invariant
                i <= ready@.len(),
                dispatch_spec(old(self)@, ready@.take(i as int)) == (self@, fired@, None::<Descriptor>),
            decreases ready@.len() - i,
        {
            let fd = ready[i];
            assert(ready@.take(i + 1).drop_last() =~= ready@.take(i as int));
            match self.wakers.remove(&fd) {
                Some(w) => {
                    fired.push(w);
                },
                None => {
                    proof {
                        lemma_dispatch_stops(old(self)@, ready@, i as int + 1);
                    }
                    return Err(ReactorError::NoWaker(fd));
                },
            }
            i = i + 1;
        }
        assert(ready@.take(i as int) =~= ready@);
        Ok(fired)
    }
}

/// Once dispatch has met a descriptor without a waker, later descriptors
/// change nothing.
proof fn lemma_dispatch_stops<W>(m: Map<Descriptor, W>, fds: Seq<Descriptor>, k: int)
    requires
        0 <= k <= fds.len(),
        dispatch_spec(m, fds.take(k)).2 is Some,
    ensures
        dispatch_spec(m, fds) == dispatch_spec(m, fds.take(k)),
    decreases fds.len() - k,
{
    if k < fds.len() {
        assert(fds.take(k + 1).drop_last() =~= fds.take(k));
        lemma_dispatch_stops(m, fds, k + 1);
    } else {
        assert(fds.take(k) =~= fds);
    }
}

} // verus!
