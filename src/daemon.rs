//! Decisions of the I/O daemon: which configuration changes to apply on a
//! tick, and how sampled values reach the shared-memory image.
use vstd::prelude::*;

use crate::error::{Error, Result};
use crate::ffi::IoAnalogMode;
use crate::shm::{
    analog_mode_byte, put_le_word, Channels, Config, ShmLayout, TmpConfig, NUM_CHANNELS_PER_TYPE,
    TAG_CHANGE, TAG_KEEP,
};
use crate::{
    AnalogInput, AnalogOutput, CounterInput, DigitalInput, DigitalOutput, Io, PwmOutput,
    TempSensor, Watchdog,
};

verus! {

/// The `Change` entries among the first `n` analog config entries of `seg`,
/// in index order.
pub open spec fn analog_changes(l: ShmLayout, seg: Seq<u8>, n: int) -> Seq<(usize, IoAnalogMode)>
    decreases n,
{
    if n <= 0 {
        seq![]
    } else {
        let prev = analog_changes(l, seg, n - 1);
        match l.analog_cfg_entry(seg, n - 1) {
            Config::Change(m) => prev.push(((n - 1) as usize, m)),
            Config::Keep => prev,
        }
    }
}

/// `seg` with the first `n` analog config entries reset to `Keep`.
pub open spec fn confirm_analog(l: ShmLayout, seg: Seq<u8>, n: int) -> Seq<u8>
    decreases n,
{
    if n <= 0 {
        seg
    } else {
        confirm_analog(l, seg, n - 1).update(l.analog_cfg_at(n - 1), TAG_KEEP)
    }
}

/// The `Change` entries among the first `n` temperature config entries of `seg`.
pub open spec fn temperature_changes(l: ShmLayout, seg: Seq<u8>, n: int) -> Seq<(usize, TmpConfig)>
    decreases n,
{
    if n <= 0 {
        seq![]
    } else {
        let prev = temperature_changes(l, seg, n - 1);
        match l.temperature_cfg_entry(seg, n - 1) {
            Config::Change(c) => prev.push(((n - 1) as usize, c)),
            Config::Keep => prev,
        }
    }
}

/// `seg` with the first `n` temperature config entries reset to `Keep`.
pub open spec fn confirm_temperature(l: ShmLayout, seg: Seq<u8>, n: int) -> Seq<u8>
    decreases n,
{
    if n <= 0 {
        seg
    } else {
        confirm_temperature(l, seg, n - 1).update(l.temperature_cfg_at(n - 1), TAG_KEEP)
    }
}

proof fn lemma_confirm_analog_frame(l: ShmLayout, seg: Seq<u8>, n: int, p: int)
    requires
        l.wf(),
        seg.len() >= l.lock_offset,
        0 <= n <= NUM_CHANNELS_PER_TYPE,
    ensures
        confirm_analog(l, seg, n).len() == seg.len(),
        0 <= p < seg.len() && (forall|j: int| 0 <= j < n ==> p != #[trigger] l.analog_cfg_at(j))
            ==> confirm_analog(l, seg, n)[p] == seg[p],
        (exists|j: int| 0 <= j < n && p == #[trigger] l.analog_cfg_at(j)) ==> confirm_analog(
            l,
            seg,
            n,
        )[p] == TAG_KEEP,
    decreases n,
{
    if n > 0 {
        lemma_confirm_analog_frame(l, seg, n - 1, p);
        if exists|j: int| 0 <= j < n && p == #[trigger] l.analog_cfg_at(j) {
            let j = choose|j: int| 0 <= j < n && p == #[trigger] l.analog_cfg_at(j);
            if j < n - 1 {
                assert(0 <= j < n - 1 && p == l.analog_cfg_at(j));
            }
        }
    }
}

proof fn lemma_confirm_temperature_frame(l: ShmLayout, seg: Seq<u8>, n: int, p: int)
    requires
        l.wf(),
        seg.len() >= l.lock_offset,
        0 <= n <= NUM_CHANNELS_PER_TYPE,
    ensures
        confirm_temperature(l, seg, n).len() == seg.len(),
        0 <= p < seg.len() && (forall|j: int| 0 <= j < n ==> p != #[trigger] l.temperature_cfg_at(j))
            ==> confirm_temperature(l, seg, n)[p] == seg[p],
        (exists|j: int| 0 <= j < n && p == #[trigger] l.temperature_cfg_at(j)) ==> confirm_temperature(
            l,
            seg,
            n,
        )[p] == TAG_KEEP,
    decreases n,
{
    if n > 0 {
        lemma_confirm_temperature_frame(l, seg, n - 1, p);
        if exists|j: int| 0 <= j < n && p == #[trigger] l.temperature_cfg_at(j) {
            let j = choose|j: int| 0 <= j < n && p == #[trigger] l.temperature_cfg_at(j);
            if j < n - 1 {
                assert(0 <= j < n - 1 && p == l.temperature_cfg_at(j));
            }
        }
    }
}

/// Takes every pending analog configuration change among the first `count`
/// entries: returns them in index order and resets each entry to `Keep`.
pub fn take_analog_changes(l: &ShmLayout, seg: &mut [u8], count: usize) -> (r: Vec<
    (usize, IoAnalogMode),
>)
    requires
        l.wf(),
        old(seg)@.len() >= l.lock_offset,
        count <= NUM_CHANNELS_PER_TYPE,
    ensures
        r@ == analog_changes(*l, old(seg)@, count as int),
        final(seg)@ == confirm_analog(*l, old(seg)@, count as int),
{
    let mut changes: Vec<(usize, IoAnalogMode)> = Vec::new();
    let mut i: usize = 0;
    while i < count
        invariant
            l.wf(),
            count <= NUM_CHANNELS_PER_TYPE,
            i <= count,
            seg@ == confirm_analog(*l, old(seg)@, i as int),
            seg@.len() == old(seg)@.len(),
            old(seg)@.len() >= l.lock_offset,
            changes@ == analog_changes(*l, old(seg)@, i as int),
        decreases count - i,
    {
        proof {
            let o = l.analog_cfg_at(i as int);
            lemma_confirm_analog_frame(*l, old(seg)@, i as int, o);
            lemma_confirm_analog_frame(*l, old(seg)@, i as int, o + 1);
            assert(forall|j: int| 0 <= j < i ==> o != #[trigger] l.analog_cfg_at(j));
            assert(forall|j: int| 0 <= j < i ==> o + 1 != #[trigger] l.analog_cfg_at(j));
        }
        let c = l.analog_cfg_get(seg, i);
        match c {
            Config::Change(m) => {
                changes.push((i, m));
            },
            Config::Keep => {},
        }
        l.analog_cfg_set_confirm(seg, i);
        i = i + 1;
    }
    changes
}

/// Takes every pending temperature configuration change among the first
/// `count` entries: returns them in index order and resets each entry to `Keep`.
pub fn take_temperature_changes(l: &ShmLayout, seg: &mut [u8], count: usize) -> (r: Vec<
    (usize, TmpConfig),
>)
    requires
        l.wf(),
        old(seg)@.len() >= l.lock_offset,
        count <= NUM_CHANNELS_PER_TYPE,
    ensures
        r@ == temperature_changes(*l, old(seg)@, count as int),
        final(seg)@ == confirm_temperature(*l, old(seg)@, count as int),
{
    let mut changes: Vec<(usize, TmpConfig)> = Vec::new();
    let mut i: usize = 0;
    while i < count
        invariant
            l.wf(),
            count <= NUM_CHANNELS_PER_TYPE,
            i <= count,
            seg@ == confirm_temperature(*l, old(seg)@, i as int),
            seg@.len() == old(seg)@.len(),
            old(seg)@.len() >= l.lock_offset,
            changes@ == temperature_changes(*l, old(seg)@, i as int),
        decreases count - i,
    {
        proof {
            let o = l.temperature_cfg_at(i as int);
            lemma_confirm_temperature_frame(*l, old(seg)@, i as int, o);
            lemma_confirm_temperature_frame(*l, old(seg)@, i as int, o + 1);
            lemma_confirm_temperature_frame(*l, old(seg)@, i as int, o + 2);
            assert(forall|j: int| 0 <= j < i ==> o != #[trigger] l.temperature_cfg_at(j));
            assert(forall|j: int| 0 <= j < i ==> o + 1 != #[trigger] l.temperature_cfg_at(j));
            assert(forall|j: int| 0 <= j < i ==> o + 2 != #[trigger] l.temperature_cfg_at(j));
        }
        let c = l.temperature_cfg_get(seg, i);
        match c {
            Config::Change(t) => {
                changes.push((i, t));
            },
            Config::Keep => {},
        }
        l.temperature_cfg_set_confirm(seg, i);
        i = i + 1;
    }
    changes
}

proof fn lemma_analog_changes_facts(l: ShmLayout, s: Seq<u8>, n: int)
    requires
        0 <= n <= NUM_CHANNELS_PER_TYPE,
    ensures
        forall|k: int|
            0 <= k < analog_changes(l, s, n).len() ==> {
                let e = #[trigger] analog_changes(l, s, n)[k];
                &&& 0 <= e.0 < n
                &&& l.analog_cfg_entry(s, e.0 as int) == Config::Change(e.1)
            },
        forall|k1: int, k2: int|
            0 <= k1 < k2 < analog_changes(l, s, n).len() ==> (#[trigger] analog_changes(
                l,
                s,
                n,
            )[k1]).0 < (#[trigger] analog_changes(l, s, n)[k2]).0,
        forall|j: int|
            0 <= j < n && (#[trigger] l.analog_cfg_entry(s, j)) is Change ==> exists|k: int|
                0 <= k < analog_changes(l, s, n).len() && analog_changes(l, s, n)[k] == (
                    j as usize,
                    l.analog_cfg_entry(s, j)->Change_0,
                ),
    decreases n,
{
    if n > 0 {
        lemma_analog_changes_facts(l, s, n - 1);
        let prev = analog_changes(l, s, n - 1);
        let cur = analog_changes(l, s, n);
        match l.analog_cfg_entry(s, n - 1) {
            Config::Change(mm) => {
                assert(cur == prev.push(((n - 1) as usize, mm)));
                assert forall|k: int| 0 <= k < prev.len() implies cur[k] == #[trigger] prev[k] by {}
            },
            Config::Keep => {
                assert(cur == prev);
            },
        }
        assert forall|j: int|
            0 <= j < n && (#[trigger] l.analog_cfg_entry(s, j)) is Change implies exists|k: int|
                0 <= k < cur.len() && cur[k] == (j as usize, l.analog_cfg_entry(s, j)->Change_0) by {
            if j < n - 1 {
                let k = choose|k: int|
                    0 <= k < prev.len() && prev[k] == (j as usize, l.analog_cfg_entry(s, j)->Change_0);
                assert(cur[k] == prev[k]);
            } else {
                assert(cur[prev.len() as int] == (j as usize, l.analog_cfg_entry(s, j)->Change_0));
            }
        }
    }
}

proof fn lemma_all_keep_no_changes(l: ShmLayout, s: Seq<u8>, n: int)
    requires
        0 <= n,
        forall|j: int| 0 <= j < n ==> #[trigger] l.analog_cfg_entry(s, j) == Config::<IoAnalogMode>::Keep,
    ensures
        analog_changes(l, s, n).len() == 0,
    decreases n,
{
    if n > 0 {
        lemma_all_keep_no_changes(l, s, n - 1);
        assert(l.analog_cfg_entry(s, n - 1) == Config::<IoAnalogMode>::Keep);
    }
}

/// Configuration round trip: after a client asks for analog input `i` to be
/// switched to `m` (the effect of `ShmLayout::analog_cfg_set`), the next
/// daemon tick over `n` entries (`take_analog_changes`) takes `Change(m)`
/// for `i` exactly once; the image it leaves holds `Keep` for `i`, and a
/// further tick takes nothing.
pub proof fn lemma_config_round_trip(l: ShmLayout, s0: Seq<u8>, i: int, m: IoAnalogMode, n: int)
    requires
        l.wf(),
        s0.len() >= l.lock_offset,
        0 <= i < n <= NUM_CHANNELS_PER_TYPE,
    ensures
        ({
            let s1 = s0.update(l.analog_cfg_at(i), TAG_CHANGE).update(
                l.analog_cfg_at(i) + 1,
                analog_mode_byte(m),
            );
            let taken = analog_changes(l, s1, n);
            let s2 = confirm_analog(l, s1, n);
            &&& exists|k: int| 0 <= k < taken.len() && taken[k] == (i as usize, m)
            &&& forall|k1: int, k2: int|
                0 <= k1 < taken.len() && 0 <= k2 < taken.len() && (#[trigger] taken[k1]).0 == i
                    && (#[trigger] taken[k2]).0 == i ==> k1 == k2
            &&& l.analog_cfg_entry(s2, i) == Config::<IoAnalogMode>::Keep
            &&& analog_changes(l, s2, n).len() == 0
        }),
{
    let s1 = s0.update(l.analog_cfg_at(i), TAG_CHANGE).update(
        l.analog_cfg_at(i) + 1,
        analog_mode_byte(m),
    );
    let taken = analog_changes(l, s1, n);
    let s2 = confirm_analog(l, s1, n);
    assert(l.analog_cfg_entry(s1, i) == Config::Change(m));
    lemma_analog_changes_facts(l, s1, n);
    assert forall|k1: int, k2: int|
        0 <= k1 < taken.len() && 0 <= k2 < taken.len() && (#[trigger] taken[k1]).0 == i
            && (#[trigger] taken[k2]).0 == i implies k1 == k2 by {
        if k1 < k2 {
            assert(taken[k1].0 < taken[k2].0);
        } else if k2 < k1 {
            assert(taken[k2].0 < taken[k1].0);
        }
    }
    assert forall|j: int| 0 <= j < n implies #[trigger] l.analog_cfg_entry(s2, j)
        == Config::<IoAnalogMode>::Keep by {
        lemma_confirm_analog_frame(l, s1, n, l.analog_cfg_at(j));
        assert(0 <= j < n && l.analog_cfg_at(j) == l.analog_cfg_at(j));
    }
    lemma_all_keep_no_changes(l, s2, n);
}

/// A message from a sampling worker to the daemon's main loop.
#[derive(Debug, Clone, Copy, PartialEq, Eq, Structural)]
pub enum ValueChanged<V> {
    /// A new reading of an analog input.
    Ain(usize, i64),
    /// A new reading of a temperature input.
    Temp(usize, V),
    /// The sweep is complete: clients are to be notified.
    Flush,
}

/// Stores one worker message into the image `seg`. Returns whether the
/// server event is to be signalled now; a reading for an index beyond the
/// tables fails with `InvalidChannel` and leaves the image alone.
pub fn apply_value_change(l: &ShmLayout, seg: &mut [u8], change: ValueChanged<u64>) -> (r: Result<
    bool,
>)
    requires
        l.wf(),
        old(seg)@.len() >= l.lock_offset,
    ensures
        match change {
            ValueChanged::Ain(i, v) => if i < NUM_CHANNELS_PER_TYPE {
                r == Ok::<bool, Error>(false) && final(seg)@ == put_le_word(
                    old(seg)@,
                    l.analog_value_at(i as int),
                    v as u64,
                )
            } else {
                r == Err::<bool, Error>(Error::InvalidChannel) && final(seg)@ == old(seg)@
            },
            ValueChanged::Temp(i, bits) => if i < NUM_CHANNELS_PER_TYPE {
                r == Ok::<bool, Error>(false) && final(seg)@ == put_le_word(
                    old(seg)@,
                    l.temperature_value_at(i as int),
                    bits,
                )
            } else {
                r == Err::<bool, Error>(Error::InvalidChannel) && final(seg)@ == old(seg)@
            },
            ValueChanged::Flush => r == Ok::<bool, Error>(true) && final(seg)@ == old(seg)@,
        },
{
    match change {
        ValueChanged::Ain(i, v) => {
            if i < NUM_CHANNELS_PER_TYPE {
                l.analog_value_set(seg, i, v);
                Ok(false)
            } else {
                Err(Error::InvalidChannel)
            }
        },
        ValueChanged::Temp(i, bits) => {
            if i < NUM_CHANNELS_PER_TYPE {
                l.temperature_value_set(seg, i, bits);
                Ok(false)
            } else {
                Err(Error::InvalidChannel)
            }
        },
        ValueChanged::Flush => Ok(true),
    }
}

/// The number of channels that the groups of kind `analog` (or temperature) serve.
pub open spec fn served_channels(groups: Seq<Channels>, analog: bool) -> int
    decreases groups.len(),
{
    if groups.len() == 0 {
        0
    } else {
        served_channels(groups.drop_last(), analog) + match groups.last() {
            Channels::AnalogInput(cs) => if analog {
                cs@.len() as int
            } else {
                0
            },
            Channels::TempInput(cs) => if analog {
                0
            } else {
                cs@.len() as int
            },
        }
    }
}

pub open spec fn min_table(x: int) -> usize {
    if x < NUM_CHANNELS_PER_TYPE {
        x as usize
    } else {
        NUM_CHANNELS_PER_TYPE
    }
}

proof fn lemma_served_nonneg(groups: Seq<Channels>, analog: bool)
    ensures
        served_channels(groups, analog) >= 0,
    decreases groups.len(),
{
    if groups.len() > 0 {
        lemma_served_nonneg(groups.drop_last(), analog);
    }
}

/// The number of analog and of temperature config entries the daemon
/// checks on each tick: the channels the groups serve, at most a table's length.
pub fn channel_counts(groups: &Vec<Channels>) -> (r: (usize, usize))
    ensures
        r.0 == min_table(served_channels(groups@, true)),
        r.1 == min_table(served_channels(groups@, false)),
{
    let mut adc: usize = 0;
    let mut temp: usize = 0;
    let mut i: usize = 0;
    while i < groups.len()
        invariant
            i <= groups@.len(),
            adc == min_table(served_channels(groups@.take(i as int), true)),
            temp == min_table(served_channels(groups@.take(i as int), false)),
        decreases groups@.len() - i,
    {
        proof {
            assert(groups@.take(i + 1).drop_last() =~= groups@.take(i as int));
            lemma_served_nonneg(groups@.take(i as int), true);
            lemma_served_nonneg(groups@.take(i as int), false);
        }
        match &groups[i] {
            Channels::AnalogInput(cs) => {
                let n = cs.len();
                adc = if n >= NUM_CHANNELS_PER_TYPE - adc {
                    NUM_CHANNELS_PER_TYPE
                } else {
                    adc + n
                };
            },
            Channels::TempInput(cs) => {
                let n = cs.len();
                temp = if n >= NUM_CHANNELS_PER_TYPE - temp {
                    NUM_CHANNELS_PER_TYPE
                } else {
                    temp + n
                };
            },
        }
        i = i + 1;
    }
    assert(groups@.take(i as int) =~= groups@);
    (adc, temp)
}

/// The messages for the first `n` reads of a sweep over the analog channels
/// `cs`: each successful read `reads[j]` becomes `Ain(cs[j], value)`.
pub open spec fn analog_messages<V>(cs: Seq<usize>, reads: Seq<Result<i64>>, n: int) -> Seq<
    ValueChanged<V>,
>
    decreases n,
{
    if n <= 0 {
        seq![]
    } else {
        let prev = analog_messages(cs, reads, n - 1);
        match reads[n - 1] {
            Ok(v) => prev.push(ValueChanged::Ain(cs[n - 1], v)),
            Err(_) => prev,
        }
    }
}

/// The messages for the first `n` reads of a sweep over the temperature
/// channels `cs`: each successful read becomes `Temp(cs[j], value)`.
pub open spec fn temperature_messages<V>(cs: Seq<usize>, reads: Seq<Result<V>>, n: int) -> Seq<
    ValueChanged<V>,
>
    decreases n,
{
    if n <= 0 {
        seq![]
    } else {
        let prev = temperature_messages(cs, reads, n - 1);
        match reads[n - 1] {
            Ok(v) => prev.push(ValueChanged::Temp(cs[n - 1], v)),
            Err(_) => prev,
        }
    }
}

/// The messages of a whole analog sweep: the readings, then `Flush`.
pub fn analog_sweep_messages<V>(cs: &Vec<usize>, reads: &Vec<Result<i64>>) -> (r: Vec<
    ValueChanged<V>,
>)
    requires
        reads@.len() == cs@.len(),
    ensures
        r@ == analog_messages::<V>(cs@, reads@, cs@.len() as int).push(ValueChanged::Flush),
{
    let mut msgs: Vec<ValueChanged<V>> = Vec::new();
    let mut j: usize = 0;
    while j < cs.len()
        invariant
            reads@.len() == cs@.len(),
            j <= cs@.len(),
            msgs@ == analog_messages::<V>(cs@, reads@, j as int),
        decreases cs@.len() - j,
    {
        match reads[j] {
            Ok(v) => msgs.push(ValueChanged::Ain(cs[j], v)),
            Err(_) => {},
        }
        j = j + 1;
    }
    msgs.push(ValueChanged::Flush);
    msgs
}

/// The messages of a whole temperature sweep: the readings, then `Flush`.
pub fn temperature_sweep_messages<V: Copy>(cs: &Vec<usize>, reads: &Vec<Result<V>>) -> (r: Vec<
    ValueChanged<V>,
>)
    requires
        reads@.len() == cs@.len(),
    ensures
        r@ == temperature_messages(cs@, reads@, cs@.len() as int).push(ValueChanged::Flush),
{
    let mut msgs: Vec<ValueChanged<V>> = Vec::new();
    let mut j: usize = 0;
    while j < cs.len()
        invariant
            reads@.len() == cs@.len(),
            j <= cs@.len(),
            msgs@ == temperature_messages(cs@, reads@, j as int),
        decreases cs@.len() - j,
    {
        match reads[j] {
            Ok(v) => msgs.push(ValueChanged::Temp(cs[j], v)),
            Err(_) => {},
        }
        j = j + 1;
    }
    msgs.push(ValueChanged::Flush);
    msgs
}

/// `reads` are one read per channel of `cs` on a device with `n` channels
/// of the kind: a channel beyond the device reads as `InvalidChannel`.
pub open spec fn reads_of<T>(cs: Seq<usize>, reads: Seq<Result<T>>, n: int) -> bool {
    &&& reads.len() == cs.len()
    &&& forall|k: int|
        0 <= k < cs.len() && cs[k] >= n ==> #[trigger] reads[k] == Err::<T, Error>(
            Error::InvalidChannel,
        )
}

/// `msgs` is the analog sweep of `cs` for the reads `reads`.
pub open spec fn analog_sweep_of<V>(
    cs: Seq<usize>,
    reads: Seq<Result<i64>>,
    n: int,
    msgs: Seq<ValueChanged<V>>,
) -> bool {
    &&& reads_of(cs, reads, n)
    &&& msgs == analog_messages::<V>(cs, reads, cs.len() as int).push(ValueChanged::Flush)
}

/// `msgs` is the temperature sweep of `cs` for the reads `reads`.
pub open spec fn temperature_sweep_of<V>(
    cs: Seq<usize>,
    reads: Seq<Result<V>>,
    n: int,
    msgs: Seq<ValueChanged<V>>,
) -> bool {
    &&& reads_of(cs, reads, n)
    &&& msgs == temperature_messages(cs, reads, cs.len() as int).push(ValueChanged::Flush)
}

/// One sweep of a sampling worker: reads every channel of `channels`
/// through the facade, in order, and reports each successful reading, then
/// `Flush`. Channels that fail to read are left out.
pub fn sample_group<O, I, A, Q, S, V, C, P, W>(
    io: &mut Io<O, I, A, Q, S, V, C, P, W>,
    channels: &Channels,
) -> (r: Vec<ValueChanged<V>>) where
    O: DigitalOutput,
    I: DigitalInput,
    A: AnalogInput,
    Q: AnalogOutput,
    S: TempSensor<V>,
    V: Copy,
    C: CounterInput,
    P: PwmOutput,
    W: Watchdog,

    ensures
        final(io).same_shape(old(io)),
        match channels {
            Channels::AnalogInput(cs) => exists|reads: Seq<Result<i64>>|
                #[trigger] analog_sweep_of(cs@, reads, old(io).analog_inputs@.len() as int, r@),
            Channels::TempInput(cs) => exists|reads: Seq<Result<V>>|
                #[trigger] temperature_sweep_of(cs@, reads, old(io).temp_sensors@.len() as int, r@),
        },
{
    match channels {
        Channels::AnalogInput(cs) => {
            let mut reads: Vec<Result<i64>> = Vec::new();
            let mut j: usize = 0;
            while j < cs.len()
                invariant
                    j <= cs@.len(),
                    reads@.len() == j,
                    io.same_shape(old(io)),
                    forall|k: int|
                        0 <= k < j && cs@[k] >= old(io).analog_inputs@.len() ==> #[trigger] reads@[k]
                            == Err::<i64, Error>(Error::InvalidChannel),
                decreases cs@.len() - j,
            {
                let res = io.analog_input_get(cs[j]);
                reads.push(res);
                j = j + 1;
            }
            let msgs = analog_sweep_messages(cs, &reads);
            assert(analog_sweep_of(cs@, reads@, old(io).analog_inputs@.len() as int, msgs@));
            msgs
        },
        Channels::TempInput(cs) => {
            let mut reads: Vec<Result<V>> = Vec::new();
            let mut j: usize = 0;
            while j < cs.len()
                invariant
                    j <= cs@.len(),
                    reads@.len() == j,
                    io.same_shape(old(io)),
                    forall|k: int|
                        0 <= k < j && cs@[k] >= old(io).temp_sensors@.len() ==> #[trigger] reads@[k]
                            == Err::<V, Error>(Error::InvalidChannel),
                decreases cs@.len() - j,
            {
                let res = io.tmp_input_get(cs[j]);
                reads.push(res);
                j = j + 1;
            }
            let msgs = temperature_sweep_messages(cs, &reads);
            assert(temperature_sweep_of(cs@, reads@, old(io).temp_sensors@.len() as int, msgs@));
            msgs
        },
    }
}

} // verus!
