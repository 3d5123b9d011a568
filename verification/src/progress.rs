//! Progress reporting with a send throttle.
//!
//! A long-running job updates a buffer once per processed item; the buffer
//! decides — from a caller-supplied monotonic clock reading — whether enough
//! time has passed since the last report to send another.

use vstd::prelude::*;

verus! {

/// A whole-number percentage of completed work.
pub open spec fn percent_spec(current: int, total: int) -> int {
    if total <= 0 {
        100
    } else if current >= total {
        100
    } else {
        current * 100 / total
    }
}

/// Completed work as a whole-number percentage, saturated at 100.
#[derive(Clone, Copy, PartialEq, Eq, Structural, Debug)]
pub struct ProgressPercent {
    pub progress: u8,
}

impl ProgressPercent {
    /// The percentage of `current` out of `total`; an empty total counts
    /// as complete.
    pub fn new(current: usize, total: usize) -> (r: ProgressPercent)
        ensures
            r.progress == percent_spec(current as int, total as int),
    {
        if total == 0 || current >= total {
            ProgressPercent { progress: 100 }
        } else {
            let scaled: u128 = (current as u128) * 100;
            let p: u128 = scaled / (total as u128);
            proof {
                assert(p < 100) by (nonlinear_arith)
                    requires
                        0 < total,
                        current < total,
                        scaled == current * 100,
                        p == scaled / (total as u128),
                ;
            }
            ProgressPercent { progress: p as u8 }
        }
    }
}

/// Throttled progress reporting: the current and total counts, the clock
/// reading (in milliseconds) of the last report, and the least interval
/// between reports.
#[derive(Clone, Copy, PartialEq, Eq, Structural, Debug)]
pub struct AsyncProgressBuffer {
    pub current: usize,
    pub total: usize,
    pub last_send: Option<u64>,
    pub min_interval_ms: u64,
}

impl AsyncProgressBuffer {
    /// A fresh buffer: nothing processed, nothing sent yet.
    pub fn new(total: usize, min_interval_ms: u64) -> (r: AsyncProgressBuffer)
        ensures
            r.current == 0,
            r.total == total,
            r.last_send is None,
            r.min_interval_ms == min_interval_ms,
    {
        AsyncProgressBuffer { current: 0, total, last_send: None, min_interval_ms }
    }

    /// Records a report at clock reading `now_ms` and yields the percentage
    /// to send.
    pub fn send_progress(&mut self, now_ms: u64) -> (r: ProgressPercent)
        ensures
            final(self).last_send == Some(now_ms),
            final(self).current == old(self).current,
            final(self).total == old(self).total,
            final(self).min_interval_ms == old(self).min_interval_ms,
            r.progress == percent_spec(old(self).current as int, old(self).total as int),
    {
        self.last_send = Some(now_ms);
        ProgressPercent::new(self.current, self.total)
    }

    /// Advances the processed count and decides whether a report is due:
    /// always before the first send, afterwards only once more than the
    /// minimum interval has passed.
    pub fn update(&mut self, current: usize, now_ms: u64) -> (r: bool)
        requires
            old(self).last_send matches Some(t) ==> t <= now_ms,
        ensures
            final(self).current == current,
            final(self).total == old(self).total,
            final(self).last_send == old(self).last_send,
            final(self).min_interval_ms == old(self).min_interval_ms,
            r == match old(self).last_send {
                None => true,
                Some(t) => now_ms - t > old(self).min_interval_ms,
            },
    {
        self.current = current;
        match self.last_send {
            None => true,
            Some(t) => now_ms - t > self.min_interval_ms,
        }
    }
}

} // verus!
