//! The linear release schedule: how much of a grant is unlocked at a given
//! time.

use vstd::arithmetic::div_mod::{lemma_div_is_ordered, lemma_div_multiples_vanish, lemma_div_pos_is_pos};
use vstd::arithmetic::mul::{lemma_mul_inequality, lemma_mul_is_commutative, lemma_mul_nonnegative, lemma_mul_upper_bound};
use vstd::prelude::*;

verus! {

/// Whether three times bound a schedule: the cliff lies between start and
/// end, and the schedule lasts longer than nothing.
pub open spec fn valid_schedule(start: int, cliff: int, end: int) -> bool {
    start <= cliff <= end && start < end
}

/// The amount unlocked at time `now`: nothing before the cliff, everything
/// from the end on, and in between the part of `total` that the elapsed time
/// is of the whole duration, rounded down.
pub open spec fn released(total: int, start: int, cliff: int, end: int, now: int) -> int {
    if now < cliff {
        0
    } else if now >= end {
        total
    } else {
        (total * (now - start)) / (end - start)
    }
}

/// The linear part of a schedule stays between nothing and the total.
proof fn lemma_linear_part_bounded(total: int, elapsed: int, duration: int)
    requires
        0 <= total,
        0 <= elapsed < duration,
    ensures
        0 <= (total * elapsed) / duration <= total,
{
    lemma_mul_nonnegative(total, elapsed);
    lemma_div_pos_is_pos(total * elapsed, duration);
    lemma_mul_inequality(elapsed, duration, total);
    lemma_mul_is_commutative(elapsed, total);
    lemma_mul_is_commutative(duration, total);
    lemma_div_is_ordered(total * elapsed, total * duration, duration);
    lemma_div_multiples_vanish(total, duration);
}

/// The linear part of a schedule grows with the elapsed time.
proof fn lemma_linear_part_monotonic(total: int, earlier: int, later: int, duration: int)
    requires
        0 <= total,
        earlier <= later,
        0 < duration,
    ensures
        (total * earlier) / duration <= (total * later) / duration,
{
    lemma_mul_inequality(earlier, later, total);
    lemma_mul_is_commutative(earlier, total);
    lemma_mul_is_commutative(later, total);
    lemma_div_is_ordered(total * earlier, total * later, duration);
}

/// At every time the unlocked amount lies between nothing and the total.
pub proof fn lemma_released_bounded(total: int, start: int, cliff: int, end: int, now: int)
    requires
        0 <= total,
        valid_schedule(start, cliff, end),
    ensures
        0 <= released(total, start, cliff, end, now) <= total,
{
    if cliff <= now < end {
        lemma_linear_part_bounded(total, now - start, end - start);
    }
}

/// Nothing is unlocked before the cliff.
pub proof fn lemma_released_before_cliff(total: int, start: int, cliff: int, end: int, now: int)
    requires
        now < cliff,
    ensures
        released(total, start, cliff, end, now) == 0,
{
}

/// Everything is unlocked from the end on.
pub proof fn lemma_released_from_end(total: int, start: int, cliff: int, end: int, now: int)
    requires
        valid_schedule(start, cliff, end),
        now >= end,
    ensures
        released(total, start, cliff, end, now) == total,
{
}

/// The unlocked amount never falls as time goes on.
pub proof fn lemma_released_monotonic(
    total: int,
    start: int,
    cliff: int,
    end: int,
    earlier: int,
    later: int,
)
    requires
        0 <= total,
        valid_schedule(start, cliff, end),
        earlier <= later,
    ensures
        released(total, start, cliff, end, earlier) <= released(total, start, cliff, end, later),
{
    lemma_released_bounded(total, start, cliff, end, earlier);
    lemma_released_bounded(total, start, cliff, end, later);
    if cliff <= earlier && later < end {
        lemma_linear_part_monotonic(total, earlier - start, later - start, end - start);
    }
}

/// Computes the amount unlocked at `now`. The product of the total and the
/// elapsed time is taken in 128 bits, so that it cannot overflow.
pub fn calculate_released(
    total_amount: u64,
    start_time: i64,
    cliff_time: i64,
    end_time: i64,
    now: i64,
) -> (r: u64)
    requires
        valid_schedule(start_time as int, cliff_time as int, end_time as int),
    ensures
        r == released(
            total_amount as int,
            start_time as int,
            cliff_time as int,
            end_time as int,
            now as int,
        ),
{
    if now < cliff_time {
        return 0;
    }
    if now >= end_time {
        return total_amount;
    }
    let elapsed: u128 = (now as i128 - start_time as i128) as u128;
    let duration: u128 = (end_time as i128 - start_time as i128) as u128;
    let total: u128 = total_amount as u128;
    proof {
        lemma_mul_nonnegative(total as int, elapsed as int);
        lemma_mul_upper_bound(
            total as int,
            0xffff_ffff_ffff_ffff,
            elapsed as int,
            0xffff_ffff_ffff_ffff,
        );
        lemma_linear_part_bounded(total as int, elapsed as int, duration as int);
    }
    ((total * elapsed) / duration) as u64
}

} // verus!
