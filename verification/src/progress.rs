//! Progress as a whole percentage, and the rule by which a repeated value
//! is held back.

use vstd::prelude::*;

verus! {

/// The value a device reports once erasing has finished.
pub const ERASE_COMPLETE: u8 = 255;

/// `done` out of `total` as a whole percentage, rounded down, and never
/// above one hundred: more done than there is in total counts as all of it.
/// With nothing to do in total the share has no meaning; it is then 0 when
/// nothing was done and 100 otherwise.
pub open spec fn percent_of(done: nat, total: nat) -> nat {
    if total == 0 {
        if done == 0 {
            0
        } else {
            100
        }
    } else if done >= total {
        100
    } else {
        done * 100 / total
    }
}

/// The percentage that stands for `done` out of `total`.
pub fn percentage(done: u64, total: u64) -> (percent: u8)
    ensures
        percent as nat == percent_of(done as nat, total as nat),
        percent <= 100,
{
    if total == 0 {
        if done == 0 {
            0
        } else {
            100
        }
    } else if done >= total {
        100
    } else {
        let scaled: u128 = (done as u128) * 100 / (total as u128);
        assert(scaled < 100) by (nonlinear_arith)
            requires
                scaled == (done as int) * 100 / (total as int),
                done < total,
                total > 0,
        ;
        scaled as u8
    }
}

/// The percentage that stands for an erase progress value, which runs from
/// 0 to 255.
pub fn erase_percentage(progress: u8) -> (percent: u8)
    ensures
        percent as nat == percent_of(progress as nat, 255),
        percent <= 100,
        (percent == 100) == (progress == ERASE_COMPLETE),
{
    let percent = percentage(progress as u64, 255);
    percent
}

/// What a progress report does to the last value that was announced: a new
/// value is announced, a repeated one is not.
pub open spec fn announced(last: u8, percent: u8) -> Option<u8> {
    if percent != last {
        Some(percent)
    } else {
        None
    }
}

/// Decides whether `percent` is to be announced after `last`, and records it
/// as the last value if so.
pub fn announce(last: &mut u8, percent: u8) -> (sent: Option<u8>)
    ensures
        sent == announced(*old(last), percent),
        *final(last) == percent,
{
    if percent != *last {
        *last = percent;
        Some(percent)
    } else {
        None
    }
}

/// A percentage is never above one hundred. It is the floor of the share
/// wherever no more is done than there is to do, and one hundred exactly
/// when all of it is done.
pub proof fn lemma_percent_of_bounds(done: nat, total: nat)
    ensures
        percent_of(done, total) <= 100,
        total > 0 && done <= total ==> percent_of(done, total) == done * 100 / total,
        total > 0 ==> percent_of(total, total) == 100,
        total > 0 ==> (percent_of(done, total) == 100) == (done >= total),
{
    if total > 0 {
        assert(total * 100 / total == 100) by (nonlinear_arith)
            requires
                total > 0,
        ;
        if done < total {
            assert(done * 100 / total < 100) by (nonlinear_arith)
                requires
                    done < total,
                    total > 0,
            ;
        }
    }
}

/// More work done never lowers the percentage.
pub proof fn lemma_percent_of_monotonic(done: nat, more: nat, total: nat)
    requires
        done <= more,
    ensures
        percent_of(done, total) <= percent_of(more, total),
{
    lemma_percent_of_bounds(done, total);
    lemma_percent_of_bounds(more, total);
    if total > 0 && more < total {
        assert(done * 100 / total <= more * 100 / total) by (nonlinear_arith)
            requires
                done <= more,
                total > 0,
        ;
    }
}

} // verus!
