use vstd::prelude::*;

verus! {

/// The share of the prompt typed, in whole per cent, rounded down. An empty
/// prompt counts as not started if nothing was typed, and as overflowing
/// otherwise; the result is capped at the largest `u16`.
pub open spec fn progress_percent(current_position: int, total_length: int) -> int {
    if total_length == 0 {
        if current_position == 0 {
            0
        } else {
            u16::MAX as int
        }
    } else if current_position * 100 / total_length > u16::MAX {
        u16::MAX as int
    } else {
        current_position * 100 / total_length
    }
}

pub fn calculate_progress(current_position: usize, total_length: usize) -> (r: u16)
    ensures
        r == progress_percent(current_position as int, total_length as int),
{
    if total_length == 0 {
        return if current_position == 0 {
            0
        } else {
            u16::MAX
        };
    }
    let percent: u128 = (current_position as u128) * 100 / (total_length as u128);
    if percent > u16::MAX as u128 {
        u16::MAX
    } else {
        percent as u16
    }
}

} // verus!
