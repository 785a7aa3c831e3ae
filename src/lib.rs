//! Hardware-abstraction layer for programmable-controller I/O modules.
//!
//! Channels are composed from capability traits, wrapped by decorators and
//! addressed by index through the [`Io`] facade. The shared-memory image that
//! lets a daemon publish samples to client processes is laid out and accessed
//! by the functions of [`shm`].
use vstd::prelude::*;

pub mod daemon;
pub mod error;
pub mod ffi;
pub mod hw_rev;
pub mod io;
pub mod labeled;
pub mod legacy;
pub mod periodic;
pub mod shm;

use crate::error::{Error, Result};
use crate::ffi::{
    IoAnalogMode, IoCntDirection, IoCntMode, IoCntTrigger, IoHwInfo, IoPwmTimebase, IoTmpMode,
    IoTmpSensorType,
};

verus! {

/// The lifecycle that every channel supports.
pub trait IoChannel {
    /// Whether `init` and `shutdown` always succeed on this channel, so that
    /// it can be released and acquired again any number of times.
    spec fn reacquirable(&self) -> bool;

    /// Whether the channel is a non-functional placeholder.
    spec fn dummy(&self) -> bool;

    /// The name attached to the channel, if any.
    spec fn label_spec(&self) -> Option<&'static str>;

    /// The channel number the channel was last acquired with; `None` once released.
    spec fn acquired(&self) -> Option<usize>;

    /// Acquires what the channel needs; `chan_number` is its index in its sequence.
    fn init(&mut self, chan_number: usize) -> (r: Result<()>)
        ensures
            r is Ok ==> final(self).acquired() == Some(chan_number),
            old(self).reacquirable() ==> r is Ok,
            final(self).reacquirable() == old(self).reacquirable(),
            final(self).dummy() == old(self).dummy(),
    ;

    /// Releases what the channel holds, as far as possible.
    fn shutdown(&mut self) -> (r: Result<()>)
        ensures
            r is Ok ==> final(self).acquired() is None,
            old(self).reacquirable() ==> r is Ok,
            final(self).reacquirable() == old(self).reacquirable(),
            final(self).dummy() == old(self).dummy(),
    ;

    fn is_dummy(&self) -> (r: bool)
        ensures
            r == self.dummy(),
    ;

    fn label(&self) -> (r: Option<&'static str>)
        ensures
            r == self.label_spec(),
    ;
}

pub trait DigitalOutput: IoChannel {
    /// The level last driven on the output, if one is known.
    spec fn level(&self) -> Option<bool>;

    fn set(&mut self, val: bool) -> (r: Result<()>)
        ensures
            r is Ok ==> final(self).level() == Some(val),
    ;
}

pub trait DigitalInput: IoChannel {
    fn get(&mut self) -> (r: Result<bool>);
}

pub trait AnalogInput: IoChannel {
    /// The measuring mode last selected, if one is known.
    spec fn mode(&self) -> Option<IoAnalogMode>;

    fn get(&mut self) -> (r: Result<i64>);

    fn set_mode(&mut self, mode: IoAnalogMode) -> (r: Result<()>)
        ensures
            r is Ok ==> final(self).mode() == Some(mode),
    ;
}

pub trait AnalogOutput: IoChannel {
    fn set(&mut self, value: i64) -> (r: Result<()>);
}

pub trait TempSensor<T>: IoChannel {
    /// The wiring mode and sensor type last selected, if known.
    spec fn tmp_config(&self) -> Option<(IoTmpMode, IoTmpSensorType)>;

    fn get(&mut self) -> (r: Result<T>);

    fn set_mode(&mut self, mode: IoTmpMode, sensor_type: IoTmpSensorType) -> (r: Result<()>)
        ensures
            r is Ok ==> final(self).tmp_config() == Some((mode, sensor_type)),
    ;
}

pub trait Watchdog {
    fn enable(&mut self, monitor: bool) -> (r: Result<()>);

    fn service(&mut self) -> (r: Result<()>);
}

pub trait CounterInput: IoChannel {
    fn enable(&mut self, state: bool) -> (r: Result<()>);

    fn setup(
        &mut self,
        mode: IoCntMode,
        trigger: IoCntTrigger,
        direction: IoCntDirection,
    ) -> (r: Result<()>);

    fn set_preload(&mut self, preload: i32) -> (r: Result<()>);

    fn get(&mut self) -> (r: Result<i32>);
}

pub trait PwmOutput: IoChannel {
    fn enable(&mut self, state: bool) -> (r: Result<()>);

    fn setup(&mut self, period: u16, duty_cycle: u16) -> (r: Result<()>);

    fn set_timebase(&mut self, timebase: IoPwmTimebase) -> (r: Result<()>);
}

/// Every channel of the sequence can be released and acquired again.
pub open spec fn all_reacquirable<T: IoChannel>(s: Seq<T>) -> bool {
    forall|i: int| 0 <= i < s.len() ==> #[trigger] s[i].reacquirable()
}

/// The channels of `s` that are not placeholders.
pub open spec fn non_dummy_count<T: IoChannel>(s: Seq<T>) -> nat
    decreases s.len(),
{
    if s.len() == 0 {
        0
    } else {
        non_dummy_count(s.drop_last()) + if s.last().dummy() {
            0nat
        } else {
            1nat
        }
    }
}

/// The length of the run of non-placeholder channels at the start of `s`.
pub open spec fn leading_non_dummy<T: IoChannel>(s: Seq<T>) -> nat
    decreases s.len(),
{
    if s.len() == 0 {
        0
    } else if s[0].dummy() {
        0
    } else {
        1 + leading_non_dummy(s.skip(1))
    }
}

pub open spec fn min_nat(a: nat, b: nat) -> nat {
    if a <= b {
        a
    } else {
        b
    }
}

/// Channel `c`, at index `k` of its sequence, is acquired with `k` (for
/// `acquire`) or released (otherwise).
pub open spec fn chan_done<T: IoChannel>(c: T, acquire: bool, k: int) -> bool {
    if acquire {
        c.acquired() == Some(k as usize)
    } else {
        c.acquired() is None
    }
}

/// Every channel of `s` is acquired with its index (or released).
pub open spec fn seq_done<T: IoChannel>(s: Seq<T>, acquire: bool) -> bool {
    forall|k: int| 0 <= k < s.len() ==> chan_done(#[trigger] s[k], acquire, k)
}

/// The pass over `old` stopped at the failing channel `f`: the channels
/// before it are done, the channels after it are untouched.
pub open spec fn seq_stopped_at<T: IoChannel>(
    new: Seq<T>,
    old: Seq<T>,
    acquire: bool,
    f: int,
) -> bool {
    &&& 0 <= f < old.len()
    &&& forall|k: int| 0 <= k < f ==> chan_done(#[trigger] new[k], acquire, k)
    &&& forall|k: int| f < k < old.len() ==> #[trigger] new[k] == old[k]
}

/// The pass over `old` stopped at some failing channel.
pub open spec fn seq_stopped<T: IoChannel>(new: Seq<T>, old: Seq<T>, acquire: bool) -> bool {
    &&& new.len() == old.len()
    &&& exists|f: int| #[trigger] seq_stopped_at(new, old, acquire, f)
}

/// Number of stages of the lifecycle order.
pub const LIFECYCLE_STAGES: usize = 11;

/// Number of inputs that the legacy numbering scheme can address.
pub const LEGACY_INPUT_WINDOW: usize = 32;

proof fn lemma_all_reacquirable_same<T: IoChannel>(a: Seq<T>, b: Seq<T>)
    requires
        a.len() == b.len(),
        forall|k: int| 0 <= k < a.len() ==> (#[trigger] a[k]).reacquirable() == b[k].reacquirable(),
    ensures
        all_reacquirable(a) == all_reacquirable(b),
{
    if all_reacquirable(a) {
        assert forall|k: int| 0 <= k < b.len() implies #[trigger] b[k].reacquirable() by {
            assert(a[k].reacquirable());
        }
    }
    if all_reacquirable(b) {
        assert forall|k: int| 0 <= k < a.len() implies #[trigger] a[k].reacquirable() by {
            assert(b[k].reacquirable());
        }
    }
}

/// Initializes the channels of `chans` in order, each with its index; stops at the first failure.
fn channels_init<T: IoChannel>(chans: &mut Vec<T>) -> (r: Result<()>)
    ensures
        all_reacquirable(old(chans)@) ==> r is Ok,
        r is Ok ==> seq_done(final(chans)@, true),
        r is Err ==> seq_stopped(final(chans)@, old(chans)@, true),
        all_reacquirable(final(chans)@) == all_reacquirable(old(chans)@),
        final(chans)@.len() == old(chans)@.len(),
        forall|k: int|
            0 <= k < old(chans)@.len() ==> (#[trigger] final(chans)@[k]).reacquirable()
                == old(chans)@[k].reacquirable() && final(chans)@[k].dummy()
                == old(chans)@[k].dummy(),
{
    let n = chans.len();
    let mut i: usize = 0;
    while i < n
        invariant
            n == chans@.len(),
            chans@.len() == old(chans)@.len(),
            i <= n,
            forall|k: int|
                0 <= k < n ==> (#[trigger] chans@[k]).reacquirable() == old(chans)@[k].reacquirable()
                    && chans@[k].dummy() == old(chans)@[k].dummy(),
            forall|k: int| 0 <= k < i ==> chan_done(#[trigger] chans@[k], true, k),
            forall|k: int| i <= k < n ==> #[trigger] chans@[k] == old(chans)@[k],
        decreases n - i,
    {
        let res = chans[i].init(i);
        if res.is_err() {
            proof {
                assert(seq_stopped_at(chans@, old(chans)@, true, i as int));
                lemma_all_reacquirable_same(chans@, old(chans)@);
            }
            return res;
        }
        i = i + 1;
    }
    proof {
        lemma_all_reacquirable_same(chans@, old(chans)@);
    }
    Ok(())
}

/// Shuts the channels of `chans` down in order; stops at the first failure.
fn channels_shutdown<T: IoChannel>(chans: &mut Vec<T>) -> (r: Result<()>)
    ensures
        all_reacquirable(old(chans)@) ==> r is Ok,
        r is Ok ==> seq_done(final(chans)@, false),
        r is Err ==> seq_stopped(final(chans)@, old(chans)@, false),
        all_reacquirable(final(chans)@) == all_reacquirable(old(chans)@),
        final(chans)@.len() == old(chans)@.len(),
        forall|k: int|
            0 <= k < old(chans)@.len() ==> (#[trigger] final(chans)@[k]).reacquirable()
                == old(chans)@[k].reacquirable() && final(chans)@[k].dummy()
                == old(chans)@[k].dummy(),
{
    let n = chans.len();
    let mut i: usize = 0;
    while i < n
        invariant
            n == chans@.len(),
            chans@.len() == old(chans)@.len(),
            i <= n,
            forall|k: int|
                0 <= k < n ==> (#[trigger] chans@[k]).reacquirable() == old(chans)@[k].reacquirable()
                    && chans@[k].dummy() == old(chans)@[k].dummy(),
            forall|k: int| 0 <= k < i ==> chan_done(#[trigger] chans@[k], false, k),
            forall|k: int| i <= k < n ==> #[trigger] chans@[k] == old(chans)@[k],
        decreases n - i,
    {
        let res = chans[i].shutdown();
        if res.is_err() {
            proof {
                assert(seq_stopped_at(chans@, old(chans)@, false, i as int));
                lemma_all_reacquirable_same(chans@, old(chans)@);
            }
            return res;
        }
        i = i + 1;
    }
    proof {
        lemma_all_reacquirable_same(chans@, old(chans)@);
    }
    Ok(())
}

/// Counts the channels among the first `end` of `chans` that are not placeholders.
fn count_non_dummy<T: IoChannel>(chans: &Vec<T>, end: usize) -> (r: usize)
    requires
        end <= chans@.len(),
    ensures
        r == non_dummy_count(chans@.take(end as int)),
{
    let mut i: usize = 0;
    let mut count: usize = 0;
    while i < end
        invariant
            i <= end <= chans@.len(),
            count <= i,
            count == non_dummy_count(chans@.take(i as int)),
        decreases end - i,
    {
        assert(chans@.take(i + 1).drop_last() =~= chans@.take(i as int));
        if !chans[i].is_dummy() {
            count = count + 1;
        }
        i = i + 1;
    }
    count
}

/// Counts the channels of `chans[start..end]` from `start` on, up to the first placeholder.
fn count_leading_non_dummy<T: IoChannel>(chans: &Vec<T>, start: usize, end: usize) -> (r: usize)
    requires
        start <= end <= chans@.len(),
    ensures
        r == leading_non_dummy(chans@.subrange(start as int, end as int)),
{
    let mut i: usize = start;
    while i < end && !chans[i].is_dummy()
        invariant
            start <= i <= end <= chans@.len(),
            leading_non_dummy(chans@.subrange(start as int, end as int)) == (i - start)
                + leading_non_dummy(chans@.subrange(i as int, end as int)),
        decreases end - i,
    {
        assert(chans@.subrange(i as int, end as int).skip(1) =~= chans@.subrange(
            i + 1,
            end as int,
        ));
        i = i + 1;
    }
    if i == end {
        assert(chans@.subrange(i as int, end as int).len() == 0);
    }
    i - start
}

/// The `(index, label)` pairs of the labelled channels among the first `n` of `s`.
pub open spec fn labels_of<T: IoChannel>(s: Seq<T>, n: int) -> Seq<(usize, &'static str)>
    decreases n,
{
    if n <= 0 {
        seq![]
    } else {
        let prev = labels_of(s, n - 1);
        match s[n - 1].label_spec() {
            Some(l) => prev.push(((n - 1) as usize, l)),
            None => prev,
        }
    }
}

/// The labels of the channels of `chans`, with their indices, in order.
pub fn channel_labels<T: IoChannel>(chans: &Vec<T>) -> (r: Vec<(usize, &'static str)>)
    ensures
        r@ == labels_of(chans@, chans@.len() as int),
{
    let mut out: Vec<(usize, &'static str)> = Vec::new();
    let mut i: usize = 0;
    while i < chans.len()
        invariant
            i <= chans@.len(),
            out@ == labels_of(chans@, i as int),
        decreases chans@.len() - i,
    {
        match chans[i].label() {
            Some(l) => out.push((i, l)),
            None => {},
        }
        i = i + 1;
    }
    out
}

/// The labelled channels of a device, by capability.
pub struct ChannelLabels {
    pub outputs: Vec<(usize, &'static str)>,
    pub inputs: Vec<(usize, &'static str)>,
    pub analog_inputs: Vec<(usize, &'static str)>,
    pub analog_outputs: Vec<(usize, &'static str)>,
    pub temp_sensors: Vec<(usize, &'static str)>,
    pub counter_inputs: Vec<(usize, &'static str)>,
}

/// A device: one sequence of channels per capability plus the single-instance channels.
///
/// The type parameters are the backend types of the outputs, inputs, analog
/// inputs, analog outputs, temperature sensors (reading values of type `V`),
/// counters, PWM outputs and the watchdog.
pub struct Io<O, I, A, Q, S, V, C, P, W> {
    pub watchdog: W,
    pub run_led: O,
    pub err_led: O,
    pub run_switch: I,
    pub config_switch: I,
    pub outputs: Vec<O>,
    pub inputs: Vec<I>,
    pub analog_inputs: Vec<A>,
    pub analog_outputs: Vec<Q>,
    pub temp_sensors: Vec<S>,
    pub counter_input: Vec<C>,
    pub relay_offset: Option<u8>,
    pub pwm_outputs: Vec<P>,
    pub temperature: core::marker::PhantomData<V>,
}

impl<O, I, A, Q, S, V, C, P, W> Io<O, I, A, Q, S, V, C, P, W> where
    O: DigitalOutput,
    I: DigitalInput,
    A: AnalogInput,
    Q: AnalogOutput,
    S: TempSensor<V>,
    C: CounterInput,
    P: PwmOutput,
    W: Watchdog,
 {
    /// Every channel of the device can be released and acquired again.
    pub open spec fn reacquirable(&self) -> bool {
        &&& self.run_led.reacquirable()
        &&& self.err_led.reacquirable()
        &&& self.run_switch.reacquirable()
        &&& self.config_switch.reacquirable()
        &&& all_reacquirable(self.outputs@)
        &&& all_reacquirable(self.inputs@)
        &&& all_reacquirable(self.analog_inputs@)
        &&& all_reacquirable(self.analog_outputs@)
        &&& all_reacquirable(self.temp_sensors@)
        &&& all_reacquirable(self.counter_input@)
        &&& all_reacquirable(self.pwm_outputs@)
    }

    /// Both devices have sequences of the same lengths and the same relay offset.
    pub open spec fn same_shape(&self, other: &Self) -> bool {
        &&& self.outputs@.len() == other.outputs@.len()
        &&& self.inputs@.len() == other.inputs@.len()
        &&& self.analog_inputs@.len() == other.analog_inputs@.len()
        &&& self.analog_outputs@.len() == other.analog_outputs@.len()
        &&& self.temp_sensors@.len() == other.temp_sensors@.len()
        &&& self.counter_input@.len() == other.counter_input@.len()
        &&& self.pwm_outputs@.len() == other.pwm_outputs@.len()
        &&& self.relay_offset == other.relay_offset
    }

    /// What `init` and `shutdown` guarantee, from the device before to the device after.
    pub open spec fn lifecycle_post(&self, after: &Self, r: Result<()>) -> bool {
        &&& self.reacquirable() ==> r is Ok
        &&& after.reacquirable() == self.reacquirable()
        &&& after.same_shape(self)
    }

    /// Stage `s` of the lifecycle order (run LED, error LED, run switch,
    /// configuration switch, outputs, inputs, analog inputs, analog outputs,
    /// temperature sensors, counters, PWM outputs) is done: acquired, for
    /// `acquire`, or released.
    pub open spec fn stage_done(&self, s: int, acquire: bool) -> bool {
        if s == 0 {
            chan_done(self.run_led, acquire, 0)
        } else if s == 1 {
            chan_done(self.err_led, acquire, 0)
        } else if s == 2 {
            chan_done(self.run_switch, acquire, 0)
        } else if s == 3 {
            chan_done(self.config_switch, acquire, 0)
        } else if s == 4 {
            seq_done(self.outputs@, acquire)
        } else if s == 5 {
            seq_done(self.inputs@, acquire)
        } else if s == 6 {
            seq_done(self.analog_inputs@, acquire)
        } else if s == 7 {
            seq_done(self.analog_outputs@, acquire)
        } else if s == 8 {
            seq_done(self.temp_sensors@, acquire)
        } else if s == 9 {
            seq_done(self.counter_input@, acquire)
        } else if s == 10 {
            seq_done(self.pwm_outputs@, acquire)
        } else {
            true
        }
    }

    /// Stage `s` of `self` is that of `other`, untouched.
    pub open spec fn stage_same(&self, other: &Self, s: int) -> bool {
        if s == 0 {
            self.run_led == other.run_led
        } else if s == 1 {
            self.err_led == other.err_led
        } else if s == 2 {
            self.run_switch == other.run_switch
        } else if s == 3 {
            self.config_switch == other.config_switch
        } else if s == 4 {
            self.outputs == other.outputs
        } else if s == 5 {
            self.inputs == other.inputs
        } else if s == 6 {
            self.analog_inputs == other.analog_inputs
        } else if s == 7 {
            self.analog_outputs == other.analog_outputs
        } else if s == 8 {
            self.temp_sensors == other.temp_sensors
        } else if s == 9 {
            self.counter_input == other.counter_input
        } else if s == 10 {
            self.pwm_outputs == other.pwm_outputs
        } else {
            true
        }
    }

    /// Within stage `s`, the pass stopped at its failing channel.
    pub open spec fn stage_stopped(&self, old: &Self, s: int, acquire: bool) -> bool {
        if s == 0 {
            true
        } else if s == 1 {
            true
        } else if s == 2 {
            true
        } else if s == 3 {
            true
        } else if s == 4 {
            seq_stopped(self.outputs@, old.outputs@, acquire)
        } else if s == 5 {
            seq_stopped(self.inputs@, old.inputs@, acquire)
        } else if s == 6 {
            seq_stopped(self.analog_inputs@, old.analog_inputs@, acquire)
        } else if s == 7 {
            seq_stopped(self.analog_outputs@, old.analog_outputs@, acquire)
        } else if s == 8 {
            seq_stopped(self.temp_sensors@, old.temp_sensors@, acquire)
        } else if s == 9 {
            seq_stopped(self.counter_input@, old.counter_input@, acquire)
        } else if s == 10 {
            seq_stopped(self.pwm_outputs@, old.pwm_outputs@, acquire)
        } else {
            true
        }
    }

    /// The pass from `self` to `after` failed in stage `s`: the stages before
    /// it are done, and nothing after the failing channel was touched.
    pub open spec fn stopped_at_stage(&self, after: &Self, s: int, acquire: bool) -> bool {
        &&& 0 <= s < LIFECYCLE_STAGES
        &&& forall|t: int| 0 <= t < s ==> #[trigger] after.stage_done(t, acquire)
        &&& after.stage_stopped(self, s, acquire)
        &&& forall|t: int| s < t < LIFECYCLE_STAGES ==> #[trigger] after.stage_same(self, t)
    }

    /// What a pass of `init` (`acquire`) or `shutdown` guarantees: on success
    /// every stage is done; on failure the pass stopped at the first failing
    /// channel, and its error is the result.
    pub open spec fn pass_post(&self, after: &Self, r: Result<()>, acquire: bool) -> bool {
        &&& after.watchdog == self.watchdog
        &&& after.relay_offset == self.relay_offset
        &&& r is Ok ==> forall|t: int| 0 <= t < LIFECYCLE_STAGES ==> #[trigger] after.stage_done(t, acquire)
        &&& r is Err ==> exists|s: int| #[trigger] self.stopped_at_stage(after, s, acquire)
    }

    /// The hardware information derived from the sequences and the dummy flags.
    pub open spec fn hardware_info_spec(&self, pcb_revision: u8) -> IoHwInfo {
        let relay_offset: u8 = match self.relay_offset {
            Some(o) => o,
            None => 0u8,
        };
        let relay_start = min_nat(relay_offset as nat, self.outputs@.len());
        let relays: nat = match self.relay_offset {
            Some(o) => leading_non_dummy(
                self.outputs@.subrange(relay_start as int, self.outputs@.len() as int),
            ),
            None => 0,
        };
        IoHwInfo {
            m_uPcbRevision: pcb_revision,
            m_uDiChannels: self.inputs@.len() as u8,
            m_uDoChannels: self.outputs@.len() as u8,
            m_uAiChannels: self.analog_inputs@.len() as u8,
            m_uAoChannels: self.analog_outputs@.len() as u8,
            m_uTmpChannels: self.temp_sensors@.len() as u8,
            m_uCntChannels: self.counter_input@.len() as u8,
            m_uEncChannels: 0,
            m_uPwmChannels: self.pwm_outputs@.len() as u8,
            m_uLegacyDiChannels: leading_non_dummy(
                self.inputs@.subrange(
                    0,
                    min_nat(LEGACY_INPUT_WINDOW as nat, self.inputs@.len()) as int,
                ),
            ) as u8,
            m_uLegacyDoChannels: non_dummy_count(self.outputs@.take(relay_start as int)) as u8,
            m_uLegacyRelayChannels: relays as u8,
            m_uLegacyRelayOffset: relay_offset,
        }
    }

    /// Assembles a device from its channels.
    pub fn new(
        watchdog: W,
        run_led: O,
        err_led: O,
        run_switch: I,
        config_switch: I,
        outputs: Vec<O>,
        inputs: Vec<I>,
        analog_inputs: Vec<A>,
        analog_outputs: Vec<Q>,
        temp_sensors: Vec<S>,
        counter_input: Vec<C>,
        relay_offset: Option<u8>,
        pwm_outputs: Vec<P>,
    ) -> (r: Self)
        ensures
            r.watchdog == watchdog,
            r.run_led == run_led,
            r.err_led == err_led,
            r.run_switch == run_switch,
            r.config_switch == config_switch,
            r.outputs == outputs,
            r.inputs == inputs,
            r.analog_inputs == analog_inputs,
            r.analog_outputs == analog_outputs,
            r.temp_sensors == temp_sensors,
            r.counter_input == counter_input,
            r.relay_offset == relay_offset,
            r.pwm_outputs == pwm_outputs,
    {
        Io {
            watchdog,
            run_led,
            err_led,
            run_switch,
            config_switch,
            outputs,
            inputs,
            analog_inputs,
            analog_outputs,
            temp_sensors,
            counter_input,
            relay_offset,
            pwm_outputs,
            temperature: core::marker::PhantomData,
        }
    }

    /// On a device whose channels can all be released and acquired again,
    /// initializing, shutting down and initializing again each succeed, and
    /// the device can still be re-acquired afterwards.
    pub proof fn lemma_reinit(
        a: Self,
        b: Self,
        c: Self,
        d: Self,
        r1: Result<()>,
        r2: Result<()>,
        r3: Result<()>,
    )
        requires
            a.reacquirable(),
            a.lifecycle_post(&b, r1),
            b.lifecycle_post(&c, r2),
            c.lifecycle_post(&d, r3),
        ensures
            r1 is Ok,
            r2 is Ok,
            r3 is Ok,
            d.reacquirable(),
            d.same_shape(&a),
    {
    }

    /// Initializes the single-instance channels, each with channel number 0,
    /// then every sequence, each channel with its index, in the order
    /// outputs, inputs, analog inputs, analog outputs, temperature sensors,
    /// counters, PWM outputs. The first failure ends the pass and is returned;
    /// nothing is rolled back.
    pub fn init(&mut self) -> (r: Result<()>)
        ensures
            old(self).lifecycle_post(final(self), r),
            old(self).pass_post(final(self), r, true),
    {
        let r = self.run_led.init(0);
        if r.is_err() {
            proof {
                assert(old(self).stopped_at_stage(self, 0, true));
            }
            return r;
        }
        let r = self.err_led.init(0);
        if r.is_err() {
            proof {
                assert(old(self).stopped_at_stage(self, 1, true));
            }
            return r;
        }
        let r = self.run_switch.init(0);
        if r.is_err() {
            proof {
                assert(old(self).stopped_at_stage(self, 2, true));
            }
            return r;
        }
        let r = self.config_switch.init(0);
        if r.is_err() {
            proof {
                assert(old(self).stopped_at_stage(self, 3, true));
            }
            return r;
        }
        let r = channels_init(&mut self.outputs);
        if r.is_err() {
            proof {
                assert(old(self).stopped_at_stage(self, 4, true));
            }
            return r;
        }
        let r = channels_init(&mut self.inputs);
        if r.is_err() {
            proof {
                assert(old(self).stopped_at_stage(self, 5, true));
            }
            return r;
        }
        let r = channels_init(&mut self.analog_inputs);
        if r.is_err() {
            proof {
                assert(old(self).stopped_at_stage(self, 6, true));
            }
            return r;
        }
        let r = channels_init(&mut self.analog_outputs);
        if r.is_err() {
            proof {
                assert(old(self).stopped_at_stage(self, 7, true));
            }
            return r;
        }
        let r = channels_init(&mut self.temp_sensors);
        if r.is_err() {
            proof {
                assert(old(self).stopped_at_stage(self, 8, true));
            }
            return r;
        }
        let r = channels_init(&mut self.counter_input);
        if r.is_err() {
            proof {
                assert(old(self).stopped_at_stage(self, 9, true));
            }
            return r;
        }
        let r = channels_init(&mut self.pwm_outputs);
        proof {
            if r.is_err() {
                assert(old(self).stopped_at_stage(self, 10, true));
            }
        }
        r
    }

    /// Shuts the channels down in the order `init` acquires them, PWM
    /// outputs included. The first failure ends the pass and is returned.
    pub fn shutdown(&mut self) -> (r: Result<()>)
        ensures
            old(self).lifecycle_post(final(self), r),
            old(self).pass_post(final(self), r, false),
    {
        let r = self.run_led.shutdown();
        if r.is_err() {
            proof {
                assert(old(self).stopped_at_stage(self, 0, false));
            }
            return r;
        }
        let r = self.err_led.shutdown();
        if r.is_err() {
            proof {
                assert(old(self).stopped_at_stage(self, 1, false));
            }
            return r;
        }
        let r = self.run_switch.shutdown();
        if r.is_err() {
            proof {
                assert(old(self).stopped_at_stage(self, 2, false));
            }
            return r;
        }
        let r = self.config_switch.shutdown();
        if r.is_err() {
            proof {
                assert(old(self).stopped_at_stage(self, 3, false));
            }
            return r;
        }
        let r = channels_shutdown(&mut self.outputs);
        if r.is_err() {
            proof {
                assert(old(self).stopped_at_stage(self, 4, false));
            }
            return r;
        }
        let r = channels_shutdown(&mut self.inputs);
        if r.is_err() {
            proof {
                assert(old(self).stopped_at_stage(self, 5, false));
            }
            return r;
        }
        let r = channels_shutdown(&mut self.analog_inputs);
        if r.is_err() {
            proof {
                assert(old(self).stopped_at_stage(self, 6, false));
            }
            return r;
        }
        let r = channels_shutdown(&mut self.analog_outputs);
        if r.is_err() {
            proof {
                assert(old(self).stopped_at_stage(self, 7, false));
            }
            return r;
        }
        let r = channels_shutdown(&mut self.temp_sensors);
        if r.is_err() {
            proof {
                assert(old(self).stopped_at_stage(self, 8, false));
            }
            return r;
        }
        let r = channels_shutdown(&mut self.counter_input);
        if r.is_err() {
            proof {
                assert(old(self).stopped_at_stage(self, 9, false));
            }
            return r;
        }
        let r = channels_shutdown(&mut self.pwm_outputs);
        proof {
            if r.is_err() {
                assert(old(self).stopped_at_stage(self, 10, false));
            }
        }
        r
    }

    /// Reports channel counts and the legacy numbering of the device, with
    /// `pcb_revision` as the board revision. Performs no channel operation.
    pub fn get_hardware_info(&self, pcb_revision: u8) -> (r: IoHwInfo)
        ensures
            r == self.hardware_info_spec(pcb_revision),
    {
        let relay_offset: u8 = match self.relay_offset {
            Some(o) => o,
            None => 0u8,
        };
        let n_out = self.outputs.len();
        let relay_start: usize = if (relay_offset as usize) <= n_out {
            relay_offset as usize
        } else {
            n_out
        };
        let relays: usize = match self.relay_offset {
            Some(_) => count_leading_non_dummy(&self.outputs, relay_start, n_out),
            None => 0,
        };
        let n_in = self.inputs.len();
        let legacy_inputs: usize = if LEGACY_INPUT_WINDOW <= n_in {
            LEGACY_INPUT_WINDOW
        } else {
            n_in
        };
        IoHwInfo {
            m_uPcbRevision: pcb_revision,
            m_uDiChannels: n_in as u8,
            m_uDoChannels: n_out as u8,
            m_uAiChannels: self.analog_inputs.len() as u8,
            m_uAoChannels: self.analog_outputs.len() as u8,
            m_uTmpChannels: self.temp_sensors.len() as u8,
            m_uCntChannels: self.counter_input.len() as u8,
            m_uEncChannels: 0,
            m_uPwmChannels: self.pwm_outputs.len() as u8,
            m_uLegacyDiChannels: count_leading_non_dummy(&self.inputs, 0, legacy_inputs) as u8,
            m_uLegacyDoChannels: count_non_dummy(&self.outputs, relay_start) as u8,
            m_uLegacyRelayChannels: relays as u8,
            m_uLegacyRelayOffset: relay_offset,
        }
    }

    /// The labels of the channels of every sequence that carries labels.
    pub fn channel_labels(&self) -> (r: ChannelLabels)
        ensures
            r.outputs@ == labels_of(self.outputs@, self.outputs@.len() as int),
            r.inputs@ == labels_of(self.inputs@, self.inputs@.len() as int),
            r.analog_inputs@ == labels_of(self.analog_inputs@, self.analog_inputs@.len() as int),
            r.analog_outputs@ == labels_of(self.analog_outputs@, self.analog_outputs@.len() as int),
            r.temp_sensors@ == labels_of(self.temp_sensors@, self.temp_sensors@.len() as int),
            r.counter_inputs@ == labels_of(self.counter_input@, self.counter_input@.len() as int),
    {
        ChannelLabels {
            outputs: channel_labels(&self.outputs),
            inputs: channel_labels(&self.inputs),
            analog_inputs: channel_labels(&self.analog_inputs),
            analog_outputs: channel_labels(&self.analog_outputs),
            temp_sensors: channel_labels(&self.temp_sensors),
            counter_inputs: channel_labels(&self.counter_input),
        }
    }

    /// Drives the run indicator.
    pub fn set_run_led(&mut self, value: bool) -> (r: Result<()>)
        ensures
            *final(self) == (Io { run_led: final(self).run_led, ..*old(self) }),
            r is Ok ==> final(self).run_led.level() == Some(value),
    {
        self.run_led.set(value)
    }

    /// Drives the error indicator.
    pub fn set_err_led(&mut self, value: bool) -> (r: Result<()>)
        ensures
            *final(self) == (Io { err_led: final(self).err_led, ..*old(self) }),
            r is Ok ==> final(self).err_led.level() == Some(value),
    {
        self.err_led.set(value)
    }

    /// Reads the run switch.
    pub fn get_run_switch(&mut self) -> (r: Result<bool>)
        ensures
            *final(self) == (Io { run_switch: final(self).run_switch, ..*old(self) }),
    {
        self.run_switch.get()
    }

    /// Reads the configuration switch.
    pub fn get_config_switch(&mut self) -> (r: Result<bool>)
        ensures
            *final(self) == (Io { config_switch: final(self).config_switch, ..*old(self) }),
    {
        self.config_switch.get()
    }

    /// Enables the watchdog; `monitor` selects monitoring without reset.
    pub fn watchdog_enable(&mut self, monitor: bool) -> (r: Result<()>)
        ensures
            *final(self) == (Io { watchdog: final(self).watchdog, ..*old(self) }),
    {
        self.watchdog.enable(monitor)
    }

    /// Services the watchdog.
    pub fn watchdog_service(&mut self) -> (r: Result<()>)
        ensures
            *final(self) == (Io { watchdog: final(self).watchdog, ..*old(self) }),
    {
        self.watchdog.service()
    }

    /// Drives digital output `channel` to `value`. An index out of range fails with `InvalidChannel` and touches no channel.
    pub fn output_set(&mut self, channel: usize, value: bool) -> (r: Result<()>)
        ensures
        channel >= old(self).outputs@.len() ==> r == Err::<(), Error>(Error::InvalidChannel)
            && *final(self) == *old(self),
        channel < old(self).outputs@.len() ==> *final(self) == (Io { outputs: final(self).outputs, ..*old(self) })
            && final(self).outputs@ == old(self).outputs@.update(channel as int, final(self).outputs@[channel as int]),
        channel < old(self).outputs@.len() ==> (r is Ok ==> final(self).outputs@[channel as int].level() == Some(value)),
    {
        if channel < self.outputs.len() {
            self.outputs[channel].set(value)
        } else {
            Err(Error::InvalidChannel)
        }
    }

    /// Reads digital input `channel`. An index out of range fails with `InvalidChannel` and touches no channel.
    pub fn input_get(&mut self, channel: usize) -> (r: Result<bool>)
        ensures
        channel >= old(self).inputs@.len() ==> r == Err::<bool, Error>(Error::InvalidChannel)
            && *final(self) == *old(self),
        channel < old(self).inputs@.len() ==> *final(self) == (Io { inputs: final(self).inputs, ..*old(self) })
            && final(self).inputs@ == old(self).inputs@.update(channel as int, final(self).inputs@[channel as int]),
    {
        if channel < self.inputs.len() {
            self.inputs[channel].get()
        } else {
            Err(Error::InvalidChannel)
        }
    }

    /// Reads analog input `channel`. An index out of range fails with `InvalidChannel` and touches no channel.
    pub fn analog_input_get(&mut self, channel: usize) -> (r: Result<i64>)
        ensures
        channel >= old(self).analog_inputs@.len() ==> r == Err::<i64, Error>(Error::InvalidChannel)
            && *final(self) == *old(self),
        channel < old(self).analog_inputs@.len() ==> *final(self) == (Io { analog_inputs: final(self).analog_inputs, ..*old(self) })
            && final(self).analog_inputs@ == old(self).analog_inputs@.update(channel as int, final(self).analog_inputs@[channel as int]),
    {
        if channel < self.analog_inputs.len() {
            self.analog_inputs[channel].get()
        } else {
            Err(Error::InvalidChannel)
        }
    }

    /// Selects the measuring mode of analog input `channel`. An index out of range fails with `InvalidChannel` and touches no channel.
    pub fn analog_mode_set(&mut self, channel: usize, mode: IoAnalogMode) -> (r: Result<()>)
        ensures
        channel >= old(self).analog_inputs@.len() ==> r == Err::<(), Error>(Error::InvalidChannel)
            && *final(self) == *old(self),
        channel < old(self).analog_inputs@.len() ==> *final(self) == (Io { analog_inputs: final(self).analog_inputs, ..*old(self) })
            && final(self).analog_inputs@ == old(self).analog_inputs@.update(channel as int, final(self).analog_inputs@[channel as int]),
        channel < old(self).analog_inputs@.len() ==> (r is Ok ==> final(self).analog_inputs@[channel as int].mode() == Some(mode)),
    {
        if channel < self.analog_inputs.len() {
            self.analog_inputs[channel].set_mode(mode)
        } else {
            Err(Error::InvalidChannel)
        }
    }

    /// Writes `value` to analog output `channel`. An index out of range fails with `InvalidChannel` and touches no channel.
    pub fn analog_output_set(&mut self, channel: usize, value: i64) -> (r: Result<()>)
        ensures
        channel >= old(self).analog_outputs@.len() ==> r == Err::<(), Error>(Error::InvalidChannel)
            && *final(self) == *old(self),
        channel < old(self).analog_outputs@.len() ==> *final(self) == (Io { analog_outputs: final(self).analog_outputs, ..*old(self) })
            && final(self).analog_outputs@ == old(self).analog_outputs@.update(channel as int, final(self).analog_outputs@[channel as int]),
    {
        if channel < self.analog_outputs.len() {
            self.analog_outputs[channel].set(value)
        } else {
            Err(Error::InvalidChannel)
        }
    }

    /// Selects wiring mode and sensor type of temperature sensor `channel`. An index out of range fails with `InvalidChannel` and touches no channel.
    pub fn tmp_set_mode(&mut self, channel: usize, mode: IoTmpMode, sensor_type: IoTmpSensorType) -> (r: Result<()>)
        ensures
        channel >= old(self).temp_sensors@.len() ==> r == Err::<(), Error>(Error::InvalidChannel)
            && *final(self) == *old(self),
        channel < old(self).temp_sensors@.len() ==> *final(self) == (Io { temp_sensors: final(self).temp_sensors, ..*old(self) })
            && final(self).temp_sensors@ == old(self).temp_sensors@.update(channel as int, final(self).temp_sensors@[channel as int]),
        channel < old(self).temp_sensors@.len() ==> (r is Ok ==> final(self).temp_sensors@[channel as int].tmp_config() == Some((mode, sensor_type))),
    {
        if channel < self.temp_sensors.len() {
            self.temp_sensors[channel].set_mode(mode, sensor_type)
        } else {
            Err(Error::InvalidChannel)
        }
    }

    /// Reads temperature sensor `channel`. An index out of range fails with `InvalidChannel` and touches no channel.
    pub fn tmp_input_get(&mut self, channel: usize) -> (r: Result<V>)
        ensures
        channel >= old(self).temp_sensors@.len() ==> r == Err::<V, Error>(Error::InvalidChannel)
            && *final(self) == *old(self),
        channel < old(self).temp_sensors@.len() ==> *final(self) == (Io { temp_sensors: final(self).temp_sensors, ..*old(self) })
            && final(self).temp_sensors@ == old(self).temp_sensors@.update(channel as int, final(self).temp_sensors@[channel as int]),
    {
        if channel < self.temp_sensors.len() {
            self.temp_sensors[channel].get()
        } else {
            Err(Error::InvalidChannel)
        }
    }

    /// Starts or stops counter `channel`. An index out of range fails with `InvalidChannel` and touches no channel.
    pub fn cnt_enable(&mut self, channel: usize, state: bool) -> (r: Result<()>)
        ensures
        channel >= old(self).counter_input@.len() ==> r == Err::<(), Error>(Error::InvalidChannel)
            && *final(self) == *old(self),
        channel < old(self).counter_input@.len() ==> *final(self) == (Io { counter_input: final(self).counter_input, ..*old(self) })
            && final(self).counter_input@ == old(self).counter_input@.update(channel as int, final(self).counter_input@[channel as int]),
    {
        if channel < self.counter_input.len() {
            self.counter_input[channel].enable(state)
        } else {
            Err(Error::InvalidChannel)
        }
    }

    /// Configures counter `channel`. An index out of range fails with `InvalidChannel` and touches no channel.
    pub fn cnt_setup(&mut self, channel: usize, mode: IoCntMode, trigger: IoCntTrigger, direction: IoCntDirection) -> (r: Result<()>)
        ensures
        channel >= old(self).counter_input@.len() ==> r == Err::<(), Error>(Error::InvalidChannel)
            && *final(self) == *old(self),
        channel < old(self).counter_input@.len() ==> *final(self) == (Io { counter_input: final(self).counter_input, ..*old(self) })
            && final(self).counter_input@ == old(self).counter_input@.update(channel as int, final(self).counter_input@[channel as int]),
    {
        if channel < self.counter_input.len() {
            self.counter_input[channel].setup(mode, trigger, direction)
        } else {
            Err(Error::InvalidChannel)
        }
    }

    /// Sets the preload value of counter `channel`. An index out of range fails with `InvalidChannel` and touches no channel.
    pub fn cnt_set_preload(&mut self, channel: usize, preload: i32) -> (r: Result<()>)
        ensures
        channel >= old(self).counter_input@.len() ==> r == Err::<(), Error>(Error::InvalidChannel)
            && *final(self) == *old(self),
        channel < old(self).counter_input@.len() ==> *final(self) == (Io { counter_input: final(self).counter_input, ..*old(self) })
            && final(self).counter_input@ == old(self).counter_input@.update(channel as int, final(self).counter_input@[channel as int]),
    {
        if channel < self.counter_input.len() {
            self.counter_input[channel].set_preload(preload)
        } else {
            Err(Error::InvalidChannel)
        }
    }

    /// Reads counter `channel`. An index out of range fails with `InvalidChannel` and touches no channel.
    pub fn cnt_get(&mut self, channel: usize) -> (r: Result<i32>)
        ensures
        channel >= old(self).counter_input@.len() ==> r == Err::<i32, Error>(Error::InvalidChannel)
            && *final(self) == *old(self),
        channel < old(self).counter_input@.len() ==> *final(self) == (Io { counter_input: final(self).counter_input, ..*old(self) })
            && final(self).counter_input@ == old(self).counter_input@.update(channel as int, final(self).counter_input@[channel as int]),
    {
        if channel < self.counter_input.len() {
            self.counter_input[channel].get()
        } else {
            Err(Error::InvalidChannel)
        }
    }

    /// Starts or stops PWM output `channel`. An index out of range fails with `InvalidChannel` and touches no channel.
    pub fn pwm_enable(&mut self, channel: usize, state: bool) -> (r: Result<()>)
        ensures
        channel >= old(self).pwm_outputs@.len() ==> r == Err::<(), Error>(Error::InvalidChannel)
            && *final(self) == *old(self),
        channel < old(self).pwm_outputs@.len() ==> *final(self) == (Io { pwm_outputs: final(self).pwm_outputs, ..*old(self) })
            && final(self).pwm_outputs@ == old(self).pwm_outputs@.update(channel as int, final(self).pwm_outputs@[channel as int]),
    {
        if channel < self.pwm_outputs.len() {
            self.pwm_outputs[channel].enable(state)
        } else {
            Err(Error::InvalidChannel)
        }
    }

    /// Sets period and duty cycle of PWM output `channel`. An index out of range fails with `InvalidChannel` and touches no channel.
    pub fn pwm_setup(&mut self, channel: usize, period: u16, duty_cycle: u16) -> (r: Result<()>)
        ensures
        channel >= old(self).pwm_outputs@.len() ==> r == Err::<(), Error>(Error::InvalidChannel)
            && *final(self) == *old(self),
        channel < old(self).pwm_outputs@.len() ==> *final(self) == (Io { pwm_outputs: final(self).pwm_outputs, ..*old(self) })
            && final(self).pwm_outputs@ == old(self).pwm_outputs@.update(channel as int, final(self).pwm_outputs@[channel as int]),
    {
        if channel < self.pwm_outputs.len() {
            self.pwm_outputs[channel].setup(period, duty_cycle)
        } else {
            Err(Error::InvalidChannel)
        }
    }

    /// Sets the time base of PWM output `channel`. An index out of range fails with `InvalidChannel` and touches no channel.
    pub fn pwm_set_timebase(&mut self, channel: usize, timebase: IoPwmTimebase) -> (r: Result<()>)
        ensures
        channel >= old(self).pwm_outputs@.len() ==> r == Err::<(), Error>(Error::InvalidChannel)
            && *final(self) == *old(self),
        channel < old(self).pwm_outputs@.len() ==> *final(self) == (Io { pwm_outputs: final(self).pwm_outputs, ..*old(self) })
            && final(self).pwm_outputs@ == old(self).pwm_outputs@.update(channel as int, final(self).pwm_outputs@[channel as int]),
    {
        if channel < self.pwm_outputs.len() {
            self.pwm_outputs[channel].set_timebase(timebase)
        } else {
            Err(Error::InvalidChannel)
        }
    }
}

} // verus!
