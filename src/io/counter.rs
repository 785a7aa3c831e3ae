//! The state and decisions of a hardware counter channel. The counting
//! peripheral itself is reached through files by the caller; this type owns
//! the configuration, the edge input and the optional direction input.
use vstd::prelude::*;
use vstd::wrapping::i32_specs;

use crate::error::{Error, Result};
use crate::hw_rev::{all_digits, digits_value, is_digit};
use crate::ffi::{IoCntDirection, IoCntMode, IoCntTrigger};
use crate::DigitalInput;

verus! {

/// ASCII white space, as around the number in a counter's value file.
pub open spec fn is_space(c: u8) -> bool {
    c == 32 || (9 <= c <= 13)
}

/// The start of `b` after its leading white space.
pub open spec fn trim_start(b: Seq<u8>, i: int) -> int
    decreases b.len() - i,
{
    if i < 0 || i >= b.len() {
        b.len() as int
    } else if is_space(b[i]) {
        trim_start(b, i + 1)
    } else {
        i
    }
}

/// The end of `b[..e]` before its trailing white space, not below `s`.
pub open spec fn trim_end(b: Seq<u8>, s: int, e: int) -> int
    decreases e - s,
{
    if e <= s || e > b.len() {
        e
    } else if is_space(b[e - 1]) {
        trim_end(b, s, e - 1)
    } else {
        e
    }
}

/// `d` as a decimal `i32`: an optional sign, then one or more digits whose
/// value fits.
pub open spec fn parse_i32_spec(d: Seq<u8>) -> Option<i32> {
    let neg = d.len() > 0 && d[0] == 45u8;
    let digits = if d.len() > 0 && (d[0] == 45u8 || d[0] == 43u8) {
        d.skip(1)
    } else {
        d
    };
    let v = digits_value(digits);
    if digits.len() > 0 && all_digits(digits) && (if neg {
        v <= 0x8000_0000
    } else {
        v <= 0x7fff_ffff
    }) {
        Some((if neg {
            -v
        } else {
            v
        }) as i32)
    } else {
        None
    }
}

/// The count in the text of a counter's value file: a decimal `i32`
/// surrounded by optional white space.
pub open spec fn parse_count_spec(b: Seq<u8>) -> Option<i32> {
    let s = trim_start(b, 0);
    parse_i32_spec(b.subrange(s, trim_end(b, s, b.len() as int)))
}

/// Parses the text of a counter's value file.
pub fn parse_count(text: &[u8]) -> (r: Option<i32>)
    ensures
        r == parse_count_spec(text@),
{
    let n = text.len();
    let mut s: usize = 0;
    while s < n && (text[s] == 32u8 || (9u8 <= text[s] && text[s] <= 13u8))
        invariant
            s <= n == text@.len(),
            trim_start(text@, 0) == trim_start(text@, s as int),
        decreases n - s,
    {
        s = s + 1;
    }
    let mut e: usize = n;
    assert(trim_start(text@, s as int) == s);
    while e > s && (text[e - 1] == 32u8 || (9u8 <= text[e - 1] && text[e - 1] <= 13u8))
        invariant
            s <= e <= n == text@.len(),
            trim_start(text@, 0) == s,
            trim_end(text@, s as int, n as int) == trim_end(text@, s as int, e as int),
        decreases e,
    {
        e = e - 1;
    }
    assert(trim_end(text@, s as int, e as int) == e);
    let ghost d = text@.subrange(s as int, e as int);
    let neg = s < e && text[s] == 45u8;
    let mut i = s;
    if s < e && (text[s] == 45u8 || text[s] == 43u8) {
        i = s + 1;
    }
    let ghost digits = text@.subrange(i as int, e as int);
    assert(digits =~= (if d.len() > 0 && (d[0] == 45u8 || d[0] == 43u8) {
        d.skip(1)
    } else {
        d
    }));
    if i == e {
        return None;
    }
    let first = i;
    let limit: u64 = if neg {
        0x8000_0000
    } else {
        0x7fff_ffff
    };
    let mut acc: u64 = 0;
    while i < e
        invariant
            first <= i <= e <= text@.len(),
            s <= first,
            trim_start(text@, 0) == s,
            trim_end(text@, s as int, text@.len() as int) == e,
            d == text@.subrange(s as int, e as int),
            digits == (if d.len() > 0 && (d[0] == 45u8 || d[0] == 43u8) {
                d.skip(1)
            } else {
                d
            }),
            neg == (d.len() > 0 && d[0] == 45u8),
            digits == text@.subrange(first as int, e as int),
            forall|j: int| first <= j < i ==> is_digit(#[trigger] text@[j]),
            acc as int == if digits_value(text@.subrange(first as int, i as int)) <= 0x8000_0001 {
                digits_value(text@.subrange(first as int, i as int))
            } else {
                0x8000_0001
            },
        decreases e - i,
    {
        let c = text[i];
        if c < 48u8 || c > 57u8 {
            assert(digits[i - first] == c);
            assert(!all_digits(digits));
            return None;
        }
        let ghost prev = text@.subrange(first as int, i as int);
        assert(text@.subrange(first as int, i + 1).drop_last() =~= prev);
        let next: u64 = acc * 10 + (c - 48u8) as u64;
        acc = if next > 0x8000_0001 {
            0x8000_0001
        } else {
            next
        };
        i = i + 1;
    }
    assert(text@.subrange(first as int, i as int) =~= digits);
    assert forall|j: int| 0 <= j < digits.len() implies is_digit(#[trigger] digits[j]) by {
        assert(digits[j] == text@[first + j]);
    }
    if acc > limit {
        return None;
    }
    if neg {
        Some((0i64 - acc as i64) as i32)
    } else {
        Some(acc as i32)
    }
}

/// The values written to the peripheral's `mode`, `trigger` and `direction`
/// attributes when the counter is enabled.
#[derive(Debug, Clone, Copy)]
pub struct CounterAttrs {
    pub mode: &'static str,
    pub trigger: &'static str,
    pub direction: &'static str,
}

pub struct Counter<I: DigitalInput> {
    pub path: &'static str,
    pub mode: IoCntMode,
    pub trigger: IoCntTrigger,
    pub dir: IoCntDirection,
    pub preload: i32,
    pub input: I,
    pub direction_pin: Option<I>,
}

impl<I: DigitalInput> Counter<I> {
    /// The count for the peripheral value `raw`, given the levels of the edge
    /// input and of the direction input. Counting on any edge doubles the
    /// peripheral's value and corrects it by the edge input's level; the
    /// preload is added last. Arithmetic wraps as the peripheral's does.
    pub open spec fn count_spec(&self, raw: i32, input: bool, direction: bool) -> i32 {
        let v = match self.trigger {
            IoCntTrigger::AnyEdge => {
                let doubled = i32_specs::wrapping_mul(raw, 2);
                let inc: i32 = match self.dir {
                    IoCntDirection::Up => 1i32,
                    IoCntDirection::Down => -1i32,
                };
                if input && !direction {
                    i32_specs::wrapping_add(doubled, inc)
                } else if input {
                    i32_specs::wrapping_sub(doubled, inc)
                } else {
                    doubled
                }
            },
            _ => raw,
        };
        i32_specs::wrapping_add(v, self.preload)
    }

    pub fn new(path: &'static str, input: I, direction_pin: Option<I>) -> (r: Counter<I>)
        ensures
            r.path == path,
            r.mode == IoCntMode::Counter,
            r.trigger == IoCntTrigger::RisingEdge,
            r.dir == IoCntDirection::Up,
            r.preload == 0,
            r.input == input,
            r.direction_pin == direction_pin,
    {
        Counter {
            path,
            mode: IoCntMode::Counter,
            trigger: IoCntTrigger::RisingEdge,
            dir: IoCntDirection::Up,
            preload: 0,
            input,
            direction_pin,
        }
    }

    /// Initializes the edge input, then the direction input; stops at the first failure.
    pub fn init_inputs(&mut self) -> (r: Result<()>)
        ensures
            old(self).input.reacquirable() && (old(self).direction_pin matches Some(d)
                ==> d.reacquirable()) ==> r is Ok,
            final(self).mode == old(self).mode,
            final(self).trigger == old(self).trigger,
            final(self).dir == old(self).dir,
            final(self).preload == old(self).preload,
    {
        let r = self.input.init(0);
        if r.is_err() {
            return r;
        }
        match &mut self.direction_pin {
            Some(d) => d.init(0),
            None => Ok(()),
        }
    }

    /// Shuts the edge input down, then the direction input; stops at the first failure.
    pub fn shutdown_inputs(&mut self) -> (r: Result<()>)
        ensures
            old(self).input.reacquirable() && (old(self).direction_pin matches Some(d)
                ==> d.reacquirable()) ==> r is Ok,
            final(self).mode == old(self).mode,
            final(self).trigger == old(self).trigger,
            final(self).dir == old(self).dir,
            final(self).preload == old(self).preload,
    {
        let r = self.input.shutdown();
        if r.is_err() {
            return r;
        }
        match &mut self.direction_pin {
            Some(d) => d.shutdown(),
            None => Ok(()),
        }
    }

    pub fn setup(&mut self, mode: IoCntMode, trigger: IoCntTrigger, dir: IoCntDirection)
        ensures
            final(self).mode == mode,
            final(self).trigger == trigger,
            final(self).dir == dir,
            final(self).preload == old(self).preload,
    {
        self.mode = mode;
        self.trigger = trigger;
        self.dir = dir;
    }

    pub fn set_preload(&mut self, preload: i32)
        ensures
            final(self).preload == preload,
            final(self).mode == old(self).mode,
            final(self).trigger == old(self).trigger,
            final(self).dir == old(self).dir,
    {
        self.preload = preload;
    }

    /// The attribute values for enabling the counter in its configuration.
    pub fn enable_attrs(&self) -> (r: CounterAttrs)
        ensures
            r.mode == (match self.mode {
                IoCntMode::Counter => "cnt",
                IoCntMode::ABEncoder => "quad",
            }),
            r.trigger == (match self.trigger {
                IoCntTrigger::RisingEdge => "rise",
                _ => "fall",
            }),
            r.direction == (match self.dir {
                IoCntDirection::Up => "0",
                IoCntDirection::Down => "1",
            }),
    {
        CounterAttrs {
            mode: match self.mode {
                IoCntMode::Counter => "cnt",
                IoCntMode::ABEncoder => "quad",
            },
            trigger: match self.trigger {
                IoCntTrigger::RisingEdge => "rise",
                _ => "fall",
            },
            direction: match self.dir {
                IoCntDirection::Up => "0",
                IoCntDirection::Down => "1",
            },
        }
    }

    /// The count for the peripheral value `raw` and the given input levels.
    pub fn count_from(&self, raw: i32, input: bool, direction: bool) -> (r: i32)
        ensures
            r == self.count_spec(raw, input, direction),
    {
        let v = match self.trigger {
            IoCntTrigger::AnyEdge => {
                let doubled = raw.wrapping_mul(2);
                let inc: i32 = match self.dir {
                    IoCntDirection::Up => 1,
                    IoCntDirection::Down => -1,
                };
                if input && !direction {
                    doubled.wrapping_add(inc)
                } else if input {
                    doubled.wrapping_sub(inc)
                } else {
                    doubled
                }
            },
            _ => raw,
        };
        v.wrapping_add(self.preload)
    }

    /// The count for the peripheral value `raw`. When counting on any edge
    /// the edge and direction inputs are read; a failed read counts as low.
    pub fn count_value(&mut self, raw: i32) -> (r: i32)
        ensures
            exists|input: bool, direction: bool| r == old(self).count_spec(raw, input, direction),
            old(self).trigger != IoCntTrigger::AnyEdge ==> r == old(self).count_spec(
                raw,
                false,
                false,
            ),
            final(self).mode == old(self).mode,
            final(self).trigger == old(self).trigger,
            final(self).dir == old(self).dir,
            final(self).preload == old(self).preload,
    {
        if self.trigger != IoCntTrigger::AnyEdge {
            return self.count_from(raw, false, false);
        }
        let input = match self.input.get() {
            Ok(v) => v,
            Err(_) => false,
        };
        let direction = match &mut self.direction_pin {
            None => false,
            Some(d) => match d.get() {
                Ok(v) => v,
                Err(_) => false,
            },
        };
        let r = self.count_from(raw, input, direction);
        assert(r == old(self).count_spec(raw, input, direction));
        r
    }
}

/// The state and decisions of the counter of the AM62x boards, whose
/// peripheral counts on any edge only.
pub struct Am62xCounter<I: DigitalInput> {
    pub path: &'static str,
    pub function: IoCntMode,
    pub trigger: IoCntTrigger,
    pub dir: IoCntDirection,
    pub preload: i32,
    pub input: I,
}

impl<I: DigitalInput> Am62xCounter<I> {
    pub fn new(path: &'static str, input: I) -> (r: Am62xCounter<I>)
        ensures
            r.path == path,
            r.function == IoCntMode::Counter,
            r.trigger == IoCntTrigger::RisingEdge,
            r.dir == IoCntDirection::Up,
            r.preload == 0,
            r.input == input,
    {
        Am62xCounter {
            path,
            function: IoCntMode::Counter,
            trigger: IoCntTrigger::RisingEdge,
            dir: IoCntDirection::Up,
            preload: 0,
            input,
        }
    }

    /// Initializes the edge input.
    pub fn init_input(&mut self) -> (r: Result<()>)
        ensures
            r is Ok ==> final(self).input.acquired() == Some(0usize),
            old(self).input.reacquirable() ==> r is Ok,
            final(self).preload == old(self).preload,
    {
        self.input.init(0)
    }

    /// Shuts the edge input down.
    pub fn shutdown_input(&mut self) -> (r: Result<()>)
        ensures
            r is Ok ==> final(self).input.acquired() is None,
            old(self).input.reacquirable() ==> r is Ok,
            final(self).preload == old(self).preload,
    {
        self.input.shutdown()
    }

    /// Takes the configuration; counting on a single edge is not supported
    /// and leaves the counter as it was.
    pub fn setup(&mut self, function: IoCntMode, trigger: IoCntTrigger, dir: IoCntDirection) -> (r:
        Result<()>)
        ensures
            trigger != IoCntTrigger::AnyEdge ==> r == Err::<(), Error>(Error::NotImplemented)
                && final(self).function == old(self).function && final(self).trigger == old(
                self,
            ).trigger && final(self).dir == old(self).dir,
            trigger == IoCntTrigger::AnyEdge ==> r is Ok && final(self).function == function
                && final(self).trigger == trigger && final(self).dir == dir,
            final(self).preload == old(self).preload,
    {
        if trigger != IoCntTrigger::AnyEdge {
            return Err(Error::NotImplemented);
        }
        self.function = function;
        self.trigger = trigger;
        self.dir = dir;
        Ok(())
    }

    pub fn set_preload(&mut self, preload: i32)
        ensures
            final(self).preload == preload,
            final(self).function == old(self).function,
            final(self).trigger == old(self).trigger,
            final(self).dir == old(self).dir,
    {
        self.preload = preload;
    }

    /// The value for the peripheral's `function` attribute when enabled: in
    /// counter mode the direction is fixed in software.
    pub fn function_attr(&self) -> (r: &'static str)
        ensures
            r == (match self.function {
                IoCntMode::Counter => match self.dir {
                    IoCntDirection::Up => "increase",
                    IoCntDirection::Down => "decrease",
                },
                IoCntMode::ABEncoder => "quadrature x4",
            }),
    {
        match self.function {
            IoCntMode::Counter => match self.dir {
                IoCntDirection::Up => "increase",
                IoCntDirection::Down => "decrease",
            },
            IoCntMode::ABEncoder => "quadrature x4",
        }
    }

    /// The count for the peripheral value `raw`: the value plus the
    /// preload, wrapping as the peripheral does.
    pub fn count_from(&self, raw: i32) -> (r: i32)
        ensures
            r == i32_specs::wrapping_add(raw, self.preload),
    {
        raw.wrapping_add(self.preload)
    }
}

} // verus!
