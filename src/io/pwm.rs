//! The state and decisions of a PWM output. The PWM line itself is reached
//! through files by the caller.
use vstd::prelude::*;

use crate::ffi::IoPwmTimebase;

verus! {

/// Length of one time-base tick in nanoseconds.
pub open spec fn timebase_ns(t: IoPwmTimebase) -> u64 {
    match t {
        IoPwmTimebase::Ns800 => 800,
        IoPwmTimebase::Ms1 => 1_000_000,
    }
}

/// Period and duty cycle, in nanoseconds, that a PWM line used as a plain
/// digital output is programmed with.
pub const GPIO_PERIOD_NS: u64 = 100;

proof fn lemma_ticks_fit(ticks: u64, timebase: u64)
    requires
        ticks <= 0xffff,
        timebase <= 1_000_000,
    ensures
        ticks * timebase <= 0xffff * 1_000_000,
{
    assert(ticks * timebase <= 0xffff * 1_000_000) by (nonlinear_arith)
        requires
            ticks <= 0xffff,
            timebase <= 1_000_000,
    ;
}

#[derive(Debug, Clone, Copy, PartialEq, Eq, Structural)]
pub struct PwmInner {
    pub chip: usize,
    pub channel: usize,
    /// Nanoseconds per tick.
    pub timebase: u64,
    /// Period in ticks.
    pub period: u64,
    /// Duty cycle in ticks.
    pub duty_cycle: u64,
    /// The line has to be programmed before it is next switched.
    pub update_needed: bool,
    /// The line serves as a plain digital output.
    pub is_gpio: bool,
}

impl PwmInner {
    /// Tick counts come from `u16` values and the time base is one of the known ones.
    pub open spec fn wf(&self) -> bool {
        &&& self.period <= 0xffff
        &&& self.duty_cycle <= 0xffff
        &&& (self.timebase == 800 || self.timebase == 1_000_000)
    }

    /// Period and duty cycle in nanoseconds that the line is to be programmed with.
    pub open spec fn programmed_spec(&self) -> (u64, u64) {
        if self.is_gpio {
            (GPIO_PERIOD_NS, GPIO_PERIOD_NS)
        } else {
            ((self.period * self.timebase) as u64, (self.duty_cycle * self.timebase) as u64)
        }
    }

    pub fn new(chip: usize, channel: usize) -> (r: PwmInner)
        ensures
            r.wf(),
            r.chip == chip,
            r.channel == channel,
            r.timebase == 800,
            r.period == 1,
            r.duty_cycle == 1,
            r.update_needed,
            r.is_gpio,
    {
        PwmInner {
            chip,
            channel,
            timebase: 800,
            period: 1,
            duty_cycle: 1,
            update_needed: true,
            is_gpio: true,
        }
    }

    /// Takes period and duty cycle in ticks; returns them in nanoseconds, to
    /// be written to the line.
    pub fn setup(&mut self, period: u16, duty_cycle: u16) -> (r: (u64, u64))
        requires
            old(self).wf(),
        ensures
            final(self).wf(),
            *final(self) == (PwmInner {
                period: period as u64,
                duty_cycle: duty_cycle as u64,
                update_needed: true,
                ..*old(self)
            }),
            r.0 == period as u64 * old(self).timebase,
            r.1 == duty_cycle as u64 * old(self).timebase,
    {
        self.period = period as u64;
        self.duty_cycle = duty_cycle as u64;
        self.update_needed = true;
        (self.period * self.timebase, self.duty_cycle * self.timebase)
    }

    pub fn set_timebase(&mut self, timebase: IoPwmTimebase)
        requires
            old(self).wf(),
        ensures
            final(self).wf(),
            *final(self) == (PwmInner {
                timebase: timebase_ns(timebase),
                update_needed: true,
                ..*old(self)
            }),
    {
        self.timebase = match timebase {
            IoPwmTimebase::Ms1 => 1_000_000,
            IoPwmTimebase::Ns800 => 800,
        };
        self.update_needed = true;
    }

    /// The programming still due before the line is switched, if any.
    pub fn pending_update(&self) -> (r: Option<(u64, u64)>)
        requires
            self.wf(),
        ensures
            r == (if self.update_needed {
                Some(self.programmed_spec())
            } else {
                None
            }),
    {
        if !self.update_needed {
            return None;
        }
        proof {
            lemma_ticks_fit(self.period, self.timebase);
            lemma_ticks_fit(self.duty_cycle, self.timebase);
        }
        if self.is_gpio {
            Some((GPIO_PERIOD_NS, GPIO_PERIOD_NS))
        } else {
            Some((self.period * self.timebase, self.duty_cycle * self.timebase))
        }
    }

    /// Records that the line was programmed.
    pub fn mark_updated(&mut self)
        ensures
            *final(self) == (PwmInner { update_needed: false, ..*old(self) }),
    {
        self.update_needed = false;
    }

    /// Whether to enable (`Some(true)`) or disable (`Some(false)`) the line
    /// when it is used as a digital output set to `val`; `None` leaves it.
    pub fn switch_for(&self, val: bool) -> (r: Option<bool>)
        ensures
            r == (if self.is_gpio {
                Some(val)
            } else if val {
                Some(true)
            } else {
                None
            }),
    {
        if self.is_gpio {
            Some(val)
        } else if val {
            Some(true)
        } else {
            None
        }
    }
}

} // verus!
