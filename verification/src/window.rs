//! The day-window rule: a window of consecutive day slots, starting at the
//! current day of the month and wrapping past the end of the 31-slot cycle.

use vstd::prelude::*;

verus! {

/// Number of day slots in the cycle.
pub const SLOTS: usize = 31;

/// Whether `slot_index` lies in the window that starts at `day_index` and
/// extends `window_width` further slots, wrapping around after slot 30.
pub open spec fn eligible(day_index: int, window_width: int, slot_index: int) -> bool {
    let hi = day_index + window_width;
    if hi < SLOTS {
        day_index <= slot_index <= hi
    } else {
        slot_index >= day_index || slot_index <= hi % (SLOTS as int)
    }
}

/// How many of the slots `0..n` are eligible.
pub open spec fn eligible_below(day_index: int, window_width: int, n: int) -> int
    decreases n,
{
    if n <= 0 {
        0
    } else {
        eligible_below(day_index, window_width, n - 1) + if eligible(
            day_index,
            window_width,
            n - 1,
        ) {
            1int
        } else {
            0int
        }
    }
}

/// Decides whether a slot is active on the given day.
pub fn is_eligible(day_index: u32, window_width: i64, slot_index: usize) -> (r: bool)
    ensures
        r == eligible(day_index as int, window_width as int, slot_index as int),
{
    let day: i128 = day_index as i128;
    let slot: i128 = slot_index as i128;
    let cycle: i128 = SLOTS as i128;
    let hi: i128 = day + window_width as i128;
    if hi < cycle {
        day <= slot && slot <= hi
    } else {
        slot >= day || slot <= hi % cycle
    }
}

/// Number of eligible slots among `0..n` when the window does not reach
/// past the last slot: the slots from `day_index` to
/// `day_index + window_width`.
proof fn lemma_count_without_wrap(day_index: int, window_width: int, n: int)
    requires
        0 <= day_index,
        0 <= window_width,
        day_index + window_width < SLOTS,
        0 <= n,
    ensures
        eligible_below(day_index, window_width, n) == if n <= day_index {
            0
        } else if n <= day_index + window_width {
            n - day_index
        } else {
            window_width + 1
        },
    decreases n,
{
    if n > 0 {
        lemma_count_without_wrap(day_index, window_width, n - 1);
    }
}

/// Number of eligible slots among `0..n` when the window wraps: the slots up
/// to `day_index + window_width - SLOTS`, and those from `day_index` on.
proof fn lemma_count_with_wrap(day_index: int, window_width: int, n: int)
    requires
        0 <= day_index < SLOTS,
        0 <= window_width < SLOTS,
        day_index + window_width >= SLOTS,
        0 <= n <= SLOTS,
    ensures
        eligible_below(day_index, window_width, n) == if n <= day_index + window_width - SLOTS
            + 1 {
            n
        } else if n <= day_index {
            day_index + window_width - SLOTS + 1
        } else {
            window_width - SLOTS + 1 + n
        },
    decreases n,
{
    if n > 0 {
        lemma_count_with_wrap(day_index, window_width, n - 1);
    }
}

/// The window has the same size wherever it starts: on each day of the
/// cycle, and for each width up to 30, exactly `window_width + 1` of the 31
/// slots are eligible.
pub proof fn lemma_window_size(day_index: int, window_width: int)
    requires
        0 <= day_index < SLOTS,
        0 <= window_width < SLOTS,
    ensures
        eligible_below(day_index, window_width, SLOTS as int) == window_width + 1,
{
    if day_index + window_width < SLOTS {
        lemma_count_without_wrap(day_index, window_width, SLOTS as int);
    } else {
        lemma_count_with_wrap(day_index, window_width, SLOTS as int);
    }
}

} // verus!
