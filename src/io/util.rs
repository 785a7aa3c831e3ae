//! Decorators and helpers that transform channel values.
use vstd::prelude::*;

use crate::error::Result;
use vstd::std_specs::cmp::PartialEqSpec;
use crate::ffi::{IoAnalogMode, IoTmpMode};
use crate::{AnalogInput, DigitalOutput, IoChannel};

verus! {

/// Clips a value to the range `min..=max`.
#[derive(Debug, Copy, Clone, PartialEq, Eq, Structural)]
pub struct Clip {
    pub min: i64,
    pub max: i64,
}

impl Clip {
    pub fn new(min: i64, max: i64) -> (r: Clip)
        ensures
            r.min == min,
            r.max == max,
    {
        Clip { min, max }
    }

    /// `value` clipped to the range: below it gives `min`, above it `max`.
    pub open spec fn clip_spec(&self, value: i64) -> i64 {
        if value < self.min {
            self.min
        } else if value > self.max {
            self.max
        } else {
            value
        }
    }

    pub fn clip(&self, value: i64) -> (r: i64)
        ensures
            r == self.clip_spec(value),
    {
        if value < self.min {
            self.min
        } else if value > self.max {
            self.max
        } else {
            value
        }
    }
}

/// The number and direction of bits to shift.
#[derive(Debug, Copy, Clone, PartialEq, Eq, Structural)]
pub enum Shift {
    Down(u8),
    Up(u8),
}

/// Shifts a value by a fixed number of bits (arithmetic shift).
#[derive(Debug, Copy, Clone, PartialEq, Eq, Structural)]
pub struct Shifter {
    pub shift: Shift,
}

/// Number of bits of the values a shifter works on.
pub const VALUE_BITS: u8 = 64;

impl Shifter {
    /// `value` shifted arithmetically. A shift by the full width or more
    /// gives the limit of the shift: the sign for `Down`, zero for `Up`.
    pub open spec fn shift_spec(&self, value: i64) -> i64 {
        match self.shift {
            Shift::Down(n) => if n < VALUE_BITS {
                value >> n
            } else {
                value >> 63u8
            },
            Shift::Up(n) => if n < VALUE_BITS {
                value << n
            } else {
                0
            },
        }
    }

    pub fn new(shift: Shift) -> (r: Shifter)
        ensures
            r.shift == shift,
    {
        Shifter { shift }
    }

    pub fn shift(self, value: i64) -> (r: i64)
        ensures
            r == self.shift_spec(value),
    {
        match self.shift {
            Shift::Down(n) => if n < VALUE_BITS {
                value >> n
            } else {
                value >> 63u8
            },
            Shift::Up(n) => if n < VALUE_BITS {
                value << n
            } else {
                0
            },
        }
    }
}

/// A digital output that only passes writes of the `expected` level to
/// `inner`; writes of the other level are accepted without driving the line.
pub struct DoOnly<T: DigitalOutput> {
    pub inner: T,
    pub expected: bool,
    /// The level last requested by a successful `set`.
    pub requested: Ghost<Option<bool>>,
}

impl<T: DigitalOutput> DoOnly<T> {
    pub fn new(expected: bool, inner: T) -> (r: DoOnly<T>)
        ensures
            r.expected == expected,
            r.inner == inner,
            r.requested@ == None::<bool>,
    {
        DoOnly { inner, expected, requested: Ghost(None) }
    }
}

impl<T: DigitalOutput> IoChannel for DoOnly<T> {
    open spec fn reacquirable(&self) -> bool {
        self.inner.reacquirable()
    }

    open spec fn dummy(&self) -> bool {
        false
    }

    open spec fn label_spec(&self) -> Option<&'static str> {
        None
    }

    open spec fn acquired(&self) -> Option<usize> {
        self.inner.acquired()
    }

    fn init(&mut self, chan_number: usize) -> (r: Result<()>) {
        self.inner.init(chan_number)
    }

    fn shutdown(&mut self) -> (r: Result<()>) {
        self.inner.shutdown()
    }

    fn is_dummy(&self) -> (r: bool) {
        false
    }

    fn label(&self) -> (r: Option<&'static str>) {
        None
    }
}

impl<T: DigitalOutput> DigitalOutput for DoOnly<T> {
    open spec fn level(&self) -> Option<bool> {
        self.requested@
    }

    fn set(&mut self, val: bool) -> (r: Result<()>)
        ensures
            val != old(self).expected ==> r is Ok && final(self).inner == old(self).inner,
            val == old(self).expected && r is Ok ==> final(self).inner.level() == Some(val),
    {
        if val == self.expected {
            let r = self.inner.set(val);
            if r.is_ok() {
                self.requested = Ghost(Some(val));
            }
            r
        } else {
            self.requested = Ghost(Some(val));
            Ok(())
        }
    }
}

/// An analog input whose measuring mode is selected by two digital outputs,
/// one for voltage and one for current.
pub struct AiSwitch<T: AnalogInput, U: DigitalOutput> {
    pub inner: T,
    pub sw_voltage: U,
    pub sw_current: U,
}

impl<T: AnalogInput, U: DigitalOutput> AiSwitch<T, U> {
    /// Exactly one of the two switch outputs is driven active.
    pub open spec fn switch_exclusive(&self) -> bool {
        ||| (self.sw_voltage.level() == Some(true) && self.sw_current.level() == Some(false))
        ||| (self.sw_voltage.level() == Some(false) && self.sw_current.level() == Some(true))
    }

    /// Takes the two switch outputs into use: initializes the voltage-select
    /// output with channel number 0, then the current-select output with 1;
    /// the first failure is returned.
    pub fn new(inner: T, sw_voltage: U, sw_current: U) -> (r: Result<AiSwitch<T, U>>)
        ensures
            sw_voltage.reacquirable() && sw_current.reacquirable() ==> r is Ok,
            r is Ok ==> r->Ok_0.inner == inner,
            r is Ok ==> r->Ok_0.sw_voltage.acquired() == Some(0usize),
            r is Ok ==> r->Ok_0.sw_current.acquired() == Some(1usize),
            r is Ok ==> r->Ok_0.sw_voltage.dummy() == sw_voltage.dummy()
                && r->Ok_0.sw_current.dummy() == sw_current.dummy(),
    {
        let mut sw_voltage = sw_voltage;
        let mut sw_current = sw_current;
        let rv = sw_voltage.init(0);
        if let Err(e) = rv {
            return Err(e);
        }
        let rc = sw_current.init(1);
        if let Err(e) = rc {
            return Err(e);
        }
        Ok(AiSwitch { inner, sw_voltage, sw_current })
    }
}

impl<T: AnalogInput, U: DigitalOutput> IoChannel for AiSwitch<T, U> {
    open spec fn reacquirable(&self) -> bool {
        self.inner.reacquirable()
    }

    open spec fn dummy(&self) -> bool {
        false
    }

    open spec fn label_spec(&self) -> Option<&'static str> {
        None
    }

    open spec fn acquired(&self) -> Option<usize> {
        self.inner.acquired()
    }

    fn init(&mut self, chan_number: usize) -> (r: Result<()>) {
        self.inner.init(chan_number)
    }

    fn shutdown(&mut self) -> (r: Result<()>) {
        self.inner.shutdown()
    }

    fn is_dummy(&self) -> (r: bool) {
        false
    }

    fn label(&self) -> (r: Option<&'static str>) {
        None
    }
}

impl<T: AnalogInput, U: DigitalOutput> AnalogInput for AiSwitch<T, U> {
    open spec fn mode(&self) -> Option<IoAnalogMode> {
        if self.sw_voltage.level() == Some(true) && self.sw_current.level() == Some(false) {
            Some(IoAnalogMode::Voltage)
        } else if self.sw_voltage.level() == Some(false) && self.sw_current.level() == Some(true) {
            Some(IoAnalogMode::Current)
        } else {
            None
        }
    }

    fn get(&mut self) -> (r: Result<i64>) {
        self.inner.get()
    }

    /// Switches the inactive output off before the active one on, so the two
    /// are never driven active together.
    fn set_mode(&mut self, mode: IoAnalogMode) -> (r: Result<()>)
        ensures
            r is Ok ==> final(self).switch_exclusive(),
            final(self).inner == old(self).inner,
            r is Err && mode == IoAnalogMode::Voltage ==> final(self).sw_voltage == old(
                self,
            ).sw_voltage || final(self).sw_current.level() == Some(false),
            r is Err && mode == IoAnalogMode::Current ==> final(self).sw_current == old(
                self,
            ).sw_current || final(self).sw_voltage.level() == Some(false),
    {
        match mode {
            IoAnalogMode::Voltage => {
                let r = self.sw_current.set(false);
                if r.is_err() {
                    return r;
                }
                let r = self.sw_voltage.set(true);
                if r.is_err() {
                    return r;
                }
            },
            IoAnalogMode::Current => {
                let r = self.sw_voltage.set(false);
                if r.is_err() {
                    return r;
                }
                let r = self.sw_current.set(true);
                if r.is_err() {
                    return r;
                }
            },
        }
        Ok(())
    }
}

/// Fixed-point scale of calibration gains and offsets: a stored value `x`
/// stands for `x / CALIB_SCALE`.
pub const CALIB_SCALE: i64 = 10000;

/// `n / d` rounded to the nearest integer, halves away from zero.
pub open spec fn round_div(n: int, d: int) -> int {
    if n >= 0 {
        n / d + if 2 * (n % d) >= d {
            1int
        } else {
            0int
        }
    } else {
        -((-n) / d + if 2 * ((-n) % d) >= d {
            1int
        } else {
            0int
        })
    }
}

/// `x` limited to the range of `i64`.
pub open spec fn saturate_i64(x: int) -> i64 {
    if x > i64::MAX {
        i64::MAX
    } else if x < i64::MIN {
        i64::MIN
    } else {
        x as i64
    }
}

/// `round(value * gain + offset)` with gain and offset in units of
/// `1 / CALIB_SCALE`, saturated to `i64`.
pub open spec fn linear_calib(value: i64, gain: i64, offset: i64) -> i64 {
    saturate_i64(round_div(value * gain + offset, CALIB_SCALE as int))
}

/// The calibration gain for a configured gain `gain` (in units of
/// `1 / CALIB_SCALE`). A configured gain above 2 is written in fixed point
/// with four decimals; it is scaled down, rounded to the nearest unit.
pub open spec fn normalized_gain_spec(gain: i64) -> i64 {
    if gain > 2 * CALIB_SCALE {
        round_div(gain as int, CALIB_SCALE as int) as i64
    } else {
        gain
    }
}

pub fn normalize_gain(gain: i64) -> (r: i64)
    ensures
        r == normalized_gain_spec(gain),
{
    if gain > 2 * CALIB_SCALE {
        let q = gain / CALIB_SCALE;
        if 2 * (gain % CALIB_SCALE) >= CALIB_SCALE {
            q + 1
        } else {
            q
        }
    } else {
        gain
    }
}

fn linear_calib_exec(value: i64, gain: i64, offset: i64) -> (r: i64)
    ensures
        r == linear_calib(value, gain, offset),
{
    let v = value as i128;
    let g = gain as i128;
    proof {
        assert(v * g <= 0x4000_0000_0000_0000_0000_0000_0000_0000) by (nonlinear_arith)
            requires
                -0x8000_0000_0000_0000 <= v <= 0x7fff_ffff_ffff_ffff,
                -0x8000_0000_0000_0000 <= g <= 0x7fff_ffff_ffff_ffff,
        ;
        assert(-0x4000_0000_0000_0000_0000_0000_0000_0000 <= v * g) by (nonlinear_arith)
            requires
                -0x8000_0000_0000_0000 <= v <= 0x7fff_ffff_ffff_ffff,
                -0x8000_0000_0000_0000 <= g <= 0x7fff_ffff_ffff_ffff,
        ;
    }
    let n: i128 = v * g + offset as i128;
    let d: i128 = CALIB_SCALE as i128;
    let q: i128 = if n >= 0 {
        let a: i128 = n / d;
        let m: i128 = n % d;
        if 2 * m >= d {
            a + 1
        } else {
            a
        }
    } else {
        let p: i128 = -n;
        let a: i128 = p / d;
        let m: i128 = p % d;
        if 2 * m >= d {
            -(a + 1)
        } else {
            -a
        }
    };
    if q > i64::MAX as i128 {
        i64::MAX
    } else if q < i64::MIN as i128 {
        i64::MIN
    } else {
        q as i64
    }
}

/// An analog input with a linear calibration per measuring mode. The raw
/// value of `inner` is shifted by `shifter`, then scaled by the gain and
/// moved by the offset of the currently selected mode, and rounded.
pub struct AiIniCalib<T: AnalogInput> {
    pub inner: T,
    pub mode: IoAnalogMode,
    pub voltage_gain: i64,
    pub voltage_offset: i64,
    pub current_gain: i64,
    pub current_offset: i64,
    pub shifter: Shifter,
}

impl<T: AnalogInput> AiIniCalib<T> {
    /// The calibrated reading for the raw value `raw` in mode `mode`.
    pub open spec fn calibrate_spec(&self, mode: IoAnalogMode, raw: i64) -> i64 {
        let v = self.shifter.shift_spec(raw);
        match mode {
            IoAnalogMode::Voltage => linear_calib(v, self.voltage_gain, self.voltage_offset),
            IoAnalogMode::Current => linear_calib(v, self.current_gain, self.current_offset),
        }
    }

    /// Gains and offsets are in units of `1 / CALIB_SCALE`; the mode starts as voltage.
    pub fn new_shift(
        inner: T,
        voltage_gain: i64,
        voltage_offset: i64,
        current_gain: i64,
        current_offset: i64,
        shifter: Shifter,
    ) -> (r: AiIniCalib<T>)
        ensures
            r.inner == inner,
            r.mode == IoAnalogMode::Voltage,
            r.voltage_gain == voltage_gain,
            r.voltage_offset == voltage_offset,
            r.current_gain == current_gain,
            r.current_offset == current_offset,
            r.shifter == shifter,
    {
        AiIniCalib {
            inner,
            mode: IoAnalogMode::Voltage,
            voltage_gain,
            voltage_offset,
            current_gain,
            current_offset,
            shifter,
        }
    }

    /// As `new_shift`, without shifting the raw value.
    pub fn new(
        inner: T,
        voltage_gain: i64,
        voltage_offset: i64,
        current_gain: i64,
        current_offset: i64,
    ) -> (r: AiIniCalib<T>)
        ensures
            r.inner == inner,
            r.mode == IoAnalogMode::Voltage,
            r.voltage_gain == voltage_gain,
            r.voltage_offset == voltage_offset,
            r.current_gain == current_gain,
            r.current_offset == current_offset,
            r.shifter == (Shifter { shift: Shift::Up(0) }),
    {
        AiIniCalib::new_shift(
            inner,
            voltage_gain,
            voltage_offset,
            current_gain,
            current_offset,
            Shifter::new(Shift::Up(0)),
        )
    }

    /// The calibrated reading for the raw value `raw` in the current mode.
    pub fn calibrate(&self, raw: i64) -> (r: i64)
        ensures
            r == self.calibrate_spec(self.mode, raw),
    {
        let v = self.shifter.shift(raw);
        match self.mode {
            IoAnalogMode::Voltage => linear_calib_exec(v, self.voltage_gain, self.voltage_offset),
            IoAnalogMode::Current => linear_calib_exec(v, self.current_gain, self.current_offset),
        }
    }
}

impl<T: AnalogInput> IoChannel for AiIniCalib<T> {
    open spec fn reacquirable(&self) -> bool {
        self.inner.reacquirable()
    }

    open spec fn dummy(&self) -> bool {
        false
    }

    open spec fn label_spec(&self) -> Option<&'static str> {
        None
    }

    open spec fn acquired(&self) -> Option<usize> {
        self.inner.acquired()
    }

    fn init(&mut self, chan_number: usize) -> (r: Result<()>) {
        self.inner.init(chan_number)
    }

    fn shutdown(&mut self) -> (r: Result<()>) {
        self.inner.shutdown()
    }

    fn is_dummy(&self) -> (r: bool) {
        false
    }

    fn label(&self) -> (r: Option<&'static str>) {
        None
    }
}

impl<T: AnalogInput> AnalogInput for AiIniCalib<T> {
    open spec fn mode(&self) -> Option<IoAnalogMode> {
        Some(self.mode)
    }

    /// Reads `inner` and calibrates the raw value for the mode selected when
    /// the read began; a failure of `inner` is passed on unchanged.
    fn get(&mut self) -> (r: Result<i64>)
        ensures
            final(self).mode == old(self).mode,
            final(self).shifter == old(self).shifter,
            r is Ok ==> exists|raw: i64|
                r->Ok_0 == #[trigger] old(self).calibrate_spec(old(self).mode, raw),
    {
        match self.inner.get() {
            Ok(raw) => {
                let c = self.calibrate(raw);
                assert(c == old(self).calibrate_spec(old(self).mode, raw));
                Ok(c)
            },
            Err(e) => Err(e),
        }
    }

    /// Selects `mode` for later reads and passes it on to `inner`, whose
    /// result is returned.
    fn set_mode(&mut self, mode: IoAnalogMode) -> (r: Result<()>)
        ensures
            *final(self) == (AiIniCalib { inner: final(self).inner, mode, ..*old(self) }),
            r is Ok ==> final(self).inner.mode() == Some(mode),
    {
        self.mode = mode;
        self.inner.set_mode(mode)
    }
}

/// The write decisions of a calibrated analog output: the value to send to
/// the hardware for a requested value.
#[derive(Debug, Clone, Copy, PartialEq, Eq, Structural)]
pub struct Ao {
    pub index: usize,
    /// Gain in units of `1 / CALIB_SCALE`.
    pub gain: i64,
    /// Offset in units of `1 / CALIB_SCALE`.
    pub offset: i64,
    pub shifter: Shifter,
    pub clipper: Clip,
    /// The value last requested; `i64::MAX` before the first request.
    pub last_value: i64,
}

impl Ao {
    /// The hardware value for the requested `value`: shifted, calibrated,
    /// rounded and clipped.
    pub open spec fn output_spec(&self, value: i64) -> i64 {
        self.clipper.clip_spec(linear_calib(self.shifter.shift_spec(value), self.gain, self.offset))
    }

    pub fn new(index: usize, shifter: Shifter, clipper: Clip, gain: i64, offset: i64) -> (r: Ao)
        ensures
            r == (Ao { index, gain, offset, shifter, clipper, last_value: i64::MAX }),
    {
        Ao { index, gain, offset, shifter, clipper, last_value: i64::MAX }
    }

    /// The value to write for a request of `value`, or `None` where `value`
    /// repeats the previous request.
    pub fn prepare(&mut self, value: i64) -> (r: Option<i64>)
        ensures
            value == old(self).last_value ==> r is None && *final(self) == *old(self),
            value != old(self).last_value ==> r == Some(old(self).output_spec(value))
                && *final(self) == (Ao { last_value: value, ..*old(self) }),
    {
        if value == self.last_value {
            return None;
        }
        self.last_value = value;
        let shifted = self.shifter.shift(value);
        let calibrated = linear_calib_exec(shifted, self.gain, self.offset);
        Some(self.clipper.clip(calibrated))
    }
}

/// Calibration of an RTD temperature sensor per wiring mode, with gains and
/// offsets in units of `1 / CALIB_SCALE`. Two-wire and four-wire sensors
/// share one calibration.
#[derive(Debug, Clone, Copy, PartialEq, Eq, Structural)]
pub struct RtdCalib {
    pub mode: IoTmpMode,
    pub fourwire_gain: i64,
    pub fourwire_offset: i64,
    pub threewire_gain: i64,
    pub threewire_offset: i64,
}

impl RtdCalib {
    /// The gain and offset that apply in wiring mode `mode`.
    pub open spec fn gain_offset_spec(&self, mode: IoTmpMode) -> (i64, i64) {
        match mode {
            IoTmpMode::RtdThreeWire => (self.threewire_gain, self.threewire_offset),
            _ => (self.fourwire_gain, self.fourwire_offset),
        }
    }

    /// The mode starts as four-wire.
    pub fn new(fourwire_gain: i64, fourwire_offset: i64, threewire_gain: i64, threewire_offset: i64) -> (r: RtdCalib)
        ensures
            r == (RtdCalib {
                mode: IoTmpMode::RtdFourWire,
                fourwire_gain,
                fourwire_offset,
                threewire_gain,
                threewire_offset,
            }),
    {
        RtdCalib {
            mode: IoTmpMode::RtdFourWire,
            fourwire_gain,
            fourwire_offset,
            threewire_gain,
            threewire_offset,
        }
    }

    /// The gain and offset of the current mode.
    pub fn gain_offset(&self) -> (r: (i64, i64))
        ensures
            r == self.gain_offset_spec(self.mode),
    {
        match self.mode {
            IoTmpMode::RtdThreeWire => (self.threewire_gain, self.threewire_offset),
            _ => (self.fourwire_gain, self.fourwire_offset),
        }
    }

    pub fn set_mode(&mut self, mode: IoTmpMode)
        ensures
            *final(self) == (RtdCalib { mode, ..*old(self) }),
    {
        self.mode = mode;
    }
}

/// The mutable slice iterator of std, carried through opaquely.
#[verifier::external_type_specification]
#[verifier::external_body]
#[verifier::reject_recursive_types(T)]
pub struct ExIterMut<'a, T: 'a>(core::slice::IterMut<'a, T>);

/// `==` on `K` is equality of values.
pub open spec fn key_eq_is_equality<K: PartialEq>() -> bool {
    &&& <K as PartialEqSpec>::obeys_eq_spec()
    &&& forall|a: K, b: K| #[trigger] a.eq_spec(&b) <==> a == b
}

/// `i` is the first position of `s` whose key is `k`.
pub open spec fn first_key_at<K, V>(s: Seq<(K, V)>, k: K, i: int) -> bool {
    &&& 0 <= i < s.len()
    &&& s[i].0 == k
    &&& forall|j: int| 0 <= j < i ==> (#[trigger] s[j]).0 != k
}

/// The first position of `s` whose key is `k`, or -1.
pub open spec fn key_index<K, V>(s: Seq<(K, V)>, k: K) -> int {
    if exists|i: int| first_key_at(s, k, i) {
        choose|i: int| first_key_at(s, k, i)
    } else {
        -1
    }
}

pub proof fn lemma_first_key_unique<K, V>(s: Seq<(K, V)>, k: K, i: int)
    requires
        first_key_at(s, k, i),
    ensures
        key_index(s, k) == i,
{
    let c = choose|c: int| first_key_at(s, k, c);
    if c < i {
        assert(s[c].0 == k);
    } else if c > i {
        assert(s[i].0 == k);
    }
}

proof fn lemma_no_key<K, V>(s: Seq<(K, V)>, k: K)
    requires
        forall|j: int| 0 <= j < s.len() ==> (#[trigger] s[j]).0 != k,
    ensures
        key_index(s, k) == -1,
{
    if exists|i: int| first_key_at(s, k, i) {
        let c = choose|c: int| first_key_at(s, k, c);
        assert(s[c].0 == k);
    }
}

/// A small map kept as a list of pairs in insertion order. Each key occurs at
/// most once.
#[derive(Default)]
pub struct PairMap<K, V> where K: Eq + Copy {
    pub pairs: Vec<(K, V)>,
}

impl<K: Eq + Copy, V> PairMap<K, V> {
    /// Every key occurs once.
    pub open spec fn wf(&self) -> bool {
        forall|i: int, j: int|
            0 <= i < j < self.pairs@.len() ==> (#[trigger] self.pairs@[i]).0 != (
            #[trigger] self.pairs@[j]).0
    }

    /// The value stored under `k`, if any.
    pub open spec fn lookup(&self, k: K) -> Option<V> {
        let i = key_index(self.pairs@, k);
        if i >= 0 {
            Some(self.pairs@[i].1)
        } else {
            None
        }
    }

    pub fn new() -> (r: Self)
        ensures
            r.pairs@.len() == 0,
            r.wf(),
    {
        PairMap { pairs: Vec::new() }
    }

    fn find(&self, k: K) -> (r: Option<usize>)
        requires
            key_eq_is_equality::<K>(),
        ensures
            match r {
                Some(i) => first_key_at(self.pairs@, k, i as int) && key_index(self.pairs@, k) == i,
                None => key_index(self.pairs@, k) == -1,
            },
    {
        let mut i: usize = 0;
        while i < self.pairs.len()
            invariant
                key_eq_is_equality::<K>(),
                i <= self.pairs@.len(),
                forall|j: int| 0 <= j < i ==> (#[trigger] self.pairs@[j]).0 != k,
            decreases self.pairs@.len() - i,
        {
            if self.pairs[i].0 == k {
                proof {
                    lemma_first_key_unique(self.pairs@, k, i as int);
                }
                return Some(i);
            }
            i = i + 1;
        }
        proof {
            lemma_no_key(self.pairs@, k);
        }
        None
    }

    /// Stores `v` under `k`: replaces the value of an existing key in place,
    /// or appends a new pair.
    pub fn set(&mut self, k: K, v: V)
        requires
            key_eq_is_equality::<K>(),
        ensures
            key_index(old(self).pairs@, k) >= 0 ==> final(self).pairs@ == old(self).pairs@.update(
                key_index(old(self).pairs@, k),
                (k, v),
            ),
            key_index(old(self).pairs@, k) < 0 ==> final(self).pairs@ == old(self).pairs@.push(
                (k, v),
            ),
            old(self).wf() ==> final(self).wf(),
            final(self).lookup(k) == Some(v),
    {
        match self.find(k) {
            Some(i) => {
                self.pairs.set(i, (k, v));
                proof {
                    lemma_first_key_unique(self.pairs@, k, i as int);
                }
            },
            None => {
                proof {
                    assert(forall|j: int| 0 <= j < old(self).pairs@.len() ==> (#[trigger] old(self).pairs@[j]).0 != k) by {
                        if exists|j: int| 0 <= j < old(self).pairs@.len() && (#[trigger] old(self).pairs@[j]).0 == k {
                            let j = choose|j: int| 0 <= j < old(self).pairs@.len() && (#[trigger] old(self).pairs@[j]).0 == k;
                            lemma_least_key(old(self).pairs@, k, j);
                        }
                    }
                }
                self.pairs.push((k, v));
                proof {
                    let n = old(self).pairs@.len() as int;
                    assert(first_key_at(self.pairs@, k, n));
                    lemma_first_key_unique(self.pairs@, k, n);
                }
            },
        }
    }

    /// The value stored under `k`, if any.
    pub fn get(&self, k: K) -> (r: Option<&V>)
        requires
            key_eq_is_equality::<K>(),
        ensures
            r is Some == self.lookup(k) is Some,
            r is Some ==> *r->Some_0 == self.lookup(k)->Some_0,
    {
        match self.find(k) {
            Some(i) => Some(&self.pairs[i].1),
            None => None,
        }
    }

    /// A mutable borrow of the value stored under `k`, if any.
    pub fn get_mut(&mut self, k: K) -> (r: Option<&mut V>)
        requires
            key_eq_is_equality::<K>(),
        ensures
            r is Some == old(self).lookup(k) is Some,
            match r {
                Some(v) => {
                    &&& *v == old(self).lookup(k)->Some_0
                    &&& final(self).pairs@ == old(self).pairs@.update(
                        key_index(old(self).pairs@, k),
                        (k, *final(v)),
                    )
                },
                None => final(self).pairs@ == old(self).pairs@,
            },
    {
        match self.find(k) {
            Some(i) => Some(&mut self.pairs[i].1),
            None => None,
        }
    }

    pub fn contains(&self, k: K) -> (r: bool)
        requires
            key_eq_is_equality::<K>(),
        ensures
            r == self.lookup(k) is Some,
    {
        self.find(k).is_some()
    }

    /// The pairs in insertion order.
    pub fn iter(&self) -> (r: core::slice::Iter<'_, (K, V)>) {
        self.pairs.as_slice().iter()
    }

    /// Relies on `<[T]>::iter_mut`: yields a mutable borrow of each pair in
    /// insertion order. Nothing is stated of what the caller writes through it.
    #[verifier::external_body]
    pub fn iter_mut(&mut self) -> (r: core::slice::IterMut<'_, (K, V)>) {
        self.pairs.iter_mut()
    }
}

/// If some position holds key `k`, a first such position exists.
proof fn lemma_least_key<K, V>(s: Seq<(K, V)>, k: K, j: int)
    requires
        0 <= j < s.len(),
        s[j].0 == k,
    ensures
        key_index(s, k) >= 0,
    decreases j,
{
    if exists|i: int| 0 <= i < j && (#[trigger] s[i]).0 == k {
        let i = choose|i: int| 0 <= i < j && (#[trigger] s[i]).0 == k;
        lemma_least_key(s, k, i);
    } else {
        assert(first_key_at(s, k, j));
    }
}

} // verus!
