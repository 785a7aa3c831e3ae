//! Scheduling of a fixed-period loop. Times are nanoseconds on a monotonic clock.
use vstd::prelude::*;

verus! {

/// `a - b`, or zero where `b` is later.
pub open spec fn saturating_diff(a: u64, b: u64) -> nat {
    if a >= b {
        (a - b) as nat
    } else {
        0
    }
}

/// The number of whole periods missed when a tick falls `diff` after the
/// previous deadline: the fewest `k` with `diff - k * interval <= interval`.
pub open spec fn missed_periods(diff: nat, interval: nat) -> nat {
    if diff == 0 || interval == 0 {
        0
    } else {
        ((diff - 1) / interval as int) as nat
    }
}

/// Runs a loop body once per `interval`; the first run starts immediately.
#[derive(Debug, Clone, Copy, PartialEq, Eq, Structural)]
pub struct Periodic {
    pub interval: u64,
    pub last: Option<u64>,
}

impl Periodic {
    /// What `calc_delay(now, last)` returns as `r` and leaves as `after`.
    pub open spec fn delay_post(&self, after: &Self, now: u64, last: u64, r: u64) -> bool {
        let diff = saturating_diff(now, last);
        let i = self.interval as nat;
        let k = missed_periods(diff, i);
        &&& after.interval == self.interval
        &&& if i == 0 {
            r == 0 && after.last == Some(
                if now >= last {
                    now
                } else {
                    last
                },
            )
        } else {
            &&& r as int == i + k * i - diff
            &&& after.last == Some((last + k * i + i) as u64)
        }
    }

    pub fn new(interval: u64) -> (r: Periodic)
        ensures
            r.interval == interval,
            r.last == None::<u64>,
    {
        Periodic { interval, last: None }
    }

    /// The time to wait at `now` until the next deadline after `last`. Whole
    /// periods that were missed are skipped; the deadline after the wait
    /// becomes the new `last`. A zero interval never waits.
    pub fn calc_delay(&mut self, now: u64, last: u64) -> (r: u64)
        requires
            now as int + old(self).interval as int <= u64::MAX,
            last as int + old(self).interval as int <= u64::MAX,
        ensures
            old(self).delay_post(final(self), now, last, r),
            final(self).interval == old(self).interval,
    {
        let diff: u64 = if now >= last {
            now - last
        } else {
            0
        };
        let i = self.interval;
        if i == 0 {
            self.last = Some(if now >= last {
                now
            } else {
                last
            });
            return 0;
        }
        let k: u64 = if diff == 0 {
            0
        } else {
            (diff - 1) / i
        };
        proof {
            let kk = k as int;
            let ii = i as int;
            let dd = diff as int;
            if dd > 0 {
                assert(kk * ii <= dd - 1) by (nonlinear_arith)
                    requires
                        kk == (dd - 1) / ii,
                        ii > 0,
                        dd >= 1,
                ;
                assert(dd - 1 < kk * ii + ii) by (nonlinear_arith)
                    requires
                        kk == (dd - 1) / ii,
                        ii > 0,
                        dd >= 1,
                ;
            }
        }
        let skipped: u64 = k * i;
        let deadline: u64 = last + skipped + i;
        self.last = Some(deadline);
        i - (diff - skipped)
    }

    /// The time to wait at `now` before the next run; the first call returns zero.
    pub fn next(&mut self, now: u64) -> (r: u64)
        requires
            now as int + old(self).interval as int <= u64::MAX,
            old(self).last matches Some(l) ==> l as int + old(self).interval as int <= u64::MAX,
        ensures
            old(self).last is None ==> r == 0 && *final(self) == (Periodic {
                last: Some(now),
                ..*old(self)
            }),
            old(self).last matches Some(l) ==> old(self).delay_post(final(self), now, l, r),
    {
        match self.last {
            None => {
                self.last = Some(now);
                0
            },
            Some(last) => self.calc_delay(now, last),
        }
    }

    /// The time since the last deadline, or zero before the first run.
    pub fn elapsed(&self, now: u64) -> (r: u64)
        ensures
            r == match self.last {
                Some(l) => saturating_diff(now, l),
                None => 0,
            },
    {
        match self.last {
            Some(l) => if now >= l {
                now - l
            } else {
                0
            },
            None => 0,
        }
    }
}

} // verus!
