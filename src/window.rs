//! Bookkeeping of the sliding windows of the statistics service: which
//! positions of a symbol's history enter and leave a window when a batch of
//! values arrives. The arithmetic on the values themselves lives with the
//! service.
use vstd::prelude::*;

verus! {

/// The largest window; older values are never needed again.
pub const MAX_WINDOW_SIZE: usize = 100000000;

/// The largest batch of values accepted at once.
pub const MAX_INPUT_SIZE: usize = 10000;

/// How many windows each symbol keeps.
pub const NUM_WINDOWS: usize = 8;

pub open spec fn pow10(n: nat) -> nat
    decreases n,
{
    if n == 0 {
        1
    } else {
        10 * pow10((n - 1) as nat)
    }
}

/// The size of window `index`: ten to the power `index + 1`.
pub fn window_size(index: usize) -> (r: usize)
    requires
        index < NUM_WINDOWS,
    ensures
        r == pow10(index as nat + 1),
{
    proof {
        reveal_with_fuel(pow10, 9);
    }
    match index {
        0 => 10,
        1 => 100,
        2 => 1000,
        3 => 10000,
        4 => 100000,
        5 => 1000000,
        6 => 10000000,
        _ => 100000000,
    }
}

/// Whether position `i` is among the last `w` of the first `end` values.
pub open spec fn in_window(i: int, end: int, w: int) -> bool {
    &&& 0 <= i < end
    &&& end - w <= i
}

/// The positions that enter and leave a window when a batch arrives.
#[derive(Debug, Clone, Copy, PartialEq, Eq, Structural)]
pub struct WindowUpdate {
    /// Positions `added_start..` up to the history's length enter the window.
    pub added_start: usize,
    /// Positions `removed_start..removed_end` leave it.
    pub removed_start: usize,
    pub removed_end: usize,
    /// How many values the window holds afterwards.
    pub window_len: usize,
}

/// For a window of `window_size` values over a history that has just grown
/// by `num_new` values to `len`: the positions that entered the window, the
/// positions that left it, and how full it is now.
pub fn window_update(window_size: usize, len: usize, num_new: usize) -> (r: WindowUpdate)
    requires
        num_new <= len,
    ensures
        r.window_len == if window_size < len { window_size } else { len },
        r.added_start <= len,
        r.removed_start <= r.removed_end,
        forall|i: int| r.added_start <= i < len <==> in_window(i, len as int, window_size as int) && !in_window(i, len - num_new, window_size as int),
        forall|i: int| r.removed_start <= i < r.removed_end <==> in_window(i, len - num_new, window_size as int) && !in_window(i, len as int, window_size as int),
{
    let window_len = if window_size < len { window_size } else { len };
    let entering = if window_len < num_new { window_len } else { num_new };
    let added_start = len - entering;
    let old_len = len - num_new;
    let removed_start = old_len.saturating_sub(window_size);
    let gone = len.saturating_sub(window_size);
    let removed_end = if gone < old_len { gone } else { old_len };
    WindowUpdate { added_start, removed_start, removed_end, window_len }
}

/// How many of the oldest values to drop from a history of `len` values so
/// that it keeps no more than the largest window needs.
pub fn excess_items(len: usize) -> (r: usize)
    ensures
        r == if len > MAX_WINDOW_SIZE { len - MAX_WINDOW_SIZE } else { 0 },
{
    if len > MAX_WINDOW_SIZE {
        len - MAX_WINDOW_SIZE
    } else {
        0
    }
}

/// The window that a query's `k` names: `k` from 1 to the number of windows
/// names window `k - 1`; anything else names none.
pub fn window_index(k: Option<usize>) -> (r: Option<usize>)
    ensures
        r == (match k {
            Some(v) => if 1 <= v <= NUM_WINDOWS { Some((v - 1) as usize) } else { None::<usize> },
            None => None::<usize>,
        }),
{
    match k {
        Some(v) => if 1 <= v && v <= NUM_WINDOWS {
            Some(v - 1)
        } else {
            None
        },
        None => None,
    }
}

} // verus!
