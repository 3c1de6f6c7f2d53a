//! A small cooperative task runtime: task identities, a bounded ready queue
//! fed by wakers, a descriptor-keyed wake registry and the scheduling
//! decisions of an executor, and a one-shot timer future. Beside it: the order
//! book of a small trading market and the window bookkeeping of a
//! rolling-statistics service, both of which run on top of such a runtime.
use vstd::prelude::*;

pub mod executor;
pub mod ledger;
pub mod market;
pub mod order;
pub mod reactor;
pub mod timer;
pub mod transaction;
pub mod waker;
pub mod window;

verus! {

/// Identity of one task, handed out in increasing order and never reused.
pub type TaskId = u64;

} // verus!
