//! Layout of the shared-memory image and access to its tables.
//!
//! The image holds four tables of `NUM_CHANNELS_PER_TYPE` entries (analog
//! values, temperature values, analog configs, temperature configs), followed
//! by the cross-process lock and the two events. Every process computes the
//! same offsets from the declared entry sizes with [`ShmLayout::new`]. The
//! accessors below work on the bytes of the tables, which start the mapped
//! segment and end at the lock, and must only be called while the lock is held.
use vstd::prelude::*;

use crate::ffi::{IoAnalogMode, IoTmpMode, IoTmpSensorType};

verus! {

/// Entries of each table.
pub const NUM_CHANNELS_PER_TYPE: usize = 32;

/// Size of the whole segment.
pub const SHM_SIZE: usize = 4096;

/// Index of the lock that guards the whole image.
pub const GLOBAL_LOCK_ID: usize = 0;

/// Index of the event by which the daemon announces new values.
pub const DAEMON_EVT_ID: usize = 0;

/// Index of the event by which a client announces configuration changes.
pub const CLIENT_EVT_ID: usize = 1;

/// Bytes of one value entry: a 64-bit little-endian word.
pub const VALUE_SIZE: usize = 8;

/// Bytes of one analog config entry: tag and mode.
pub const ANALOG_CFG_SIZE: usize = 2;

/// Bytes of one temperature config entry: tag, wiring mode and sensor type.
pub const TMP_CFG_SIZE: usize = 3;

/// Tag byte of a `Keep` entry.
pub const TAG_KEEP: u8 = 0;

/// Tag byte of a `Change` entry.
pub const TAG_CHANGE: u8 = 1;

/// Notification that a sampler finished a sweep.
#[derive(Debug, Clone, Copy, PartialEq, Eq, Structural)]
pub enum Event {
    Update,
}

/// The logical channels that one sampler serves.
#[derive(Debug)]
pub enum Channels {
    AnalogInput(Vec<usize>),
    TempInput(Vec<usize>),
}

/// A configuration field: `Keep` leaves the setting alone, `Change` asks
/// the daemon to apply a new one.
#[derive(Debug, Clone, Copy, PartialEq, Eq, Structural)]
pub enum Config<T> {
    Keep,
    Change(T),
}

/// Wiring mode and sensor type of a temperature channel.
#[derive(Debug, Clone, Copy, PartialEq, Eq, Structural)]
pub struct TmpConfig(pub IoTmpMode, pub IoTmpSensorType);

pub open spec fn analog_mode_byte(m: IoAnalogMode) -> u8 {
    match m {
        IoAnalogMode::Voltage => 0,
        IoAnalogMode::Current => 1,
    }
}

pub open spec fn analog_mode_of(b: u8) -> Option<IoAnalogMode> {
    if b == 0 {
        Some(IoAnalogMode::Voltage)
    } else if b == 1 {
        Some(IoAnalogMode::Current)
    } else {
        None
    }
}

pub open spec fn tmp_mode_byte(m: IoTmpMode) -> u8 {
    match m {
        IoTmpMode::RtdTwoWire => 0,
        IoTmpMode::RtdThreeWire => 1,
        IoTmpMode::RtdFourWire => 2,
    }
}

pub open spec fn tmp_mode_of(b: u8) -> Option<IoTmpMode> {
    if b == 0 {
        Some(IoTmpMode::RtdTwoWire)
    } else if b == 1 {
        Some(IoTmpMode::RtdThreeWire)
    } else if b == 2 {
        Some(IoTmpMode::RtdFourWire)
    } else {
        None
    }
}

pub open spec fn sensor_type_byte(t: IoTmpSensorType) -> u8 {
    match t {
        IoTmpSensorType::PT100 => 0,
        IoTmpSensorType::PT1000 => 1,
    }
}

pub open spec fn sensor_type_of(b: u8) -> Option<IoTmpSensorType> {
    if b == 0 {
        Some(IoTmpSensorType::PT100)
    } else if b == 1 {
        Some(IoTmpSensorType::PT1000)
    } else {
        None
    }
}

/// The analog config entry held by the bytes `tag`, `mode`. Anything other
/// than a `Change` tag with a known mode reads as `Keep`.
pub open spec fn analog_cfg_decode(tag: u8, mode: u8) -> Config<IoAnalogMode> {
    if tag == TAG_CHANGE && analog_mode_of(mode) is Some {
        Config::Change(analog_mode_of(mode)->Some_0)
    } else {
        Config::Keep
    }
}

/// The temperature config entry held by the bytes `tag`, `mode`, `sensor`.
pub open spec fn tmp_cfg_decode(tag: u8, mode: u8, sensor: u8) -> Config<TmpConfig> {
    if tag == TAG_CHANGE && tmp_mode_of(mode) is Some && sensor_type_of(sensor) is Some {
        Config::Change(TmpConfig(tmp_mode_of(mode)->Some_0, sensor_type_of(sensor)->Some_0))
    } else {
        Config::Keep
    }
}

/// The 64-bit word stored little-endian in `b[o..o + 8]`.
pub open spec fn le_word(b: Seq<u8>, o: int) -> u64 {
    (b[o] as u64) | ((b[o + 1] as u64) << 8u64) | ((b[o + 2] as u64) << 16u64) | ((b[o + 3] as u64)
        << 24u64) | ((b[o + 4] as u64) << 32u64) | ((b[o + 5] as u64) << 40u64) | ((b[o
        + 6] as u64) << 48u64) | ((b[o + 7] as u64) << 56u64)
}

/// Byte `k` of the little-endian encoding of `v`.
pub open spec fn le_byte(v: u64, k: u64) -> u8 {
    ((v >> (8 * k)) & 0xff) as u8
}

/// `b` with the little-endian encoding of `v` written at `o`.
pub open spec fn put_le_word(b: Seq<u8>, o: int, v: u64) -> Seq<u8> {
    b.update(o, le_byte(v, 0)).update(o + 1, le_byte(v, 1)).update(o + 2, le_byte(v, 2)).update(
        o + 3,
        le_byte(v, 3),
    ).update(o + 4, le_byte(v, 4)).update(o + 5, le_byte(v, 5)).update(o + 6, le_byte(v, 6)).update(
        o + 7,
        le_byte(v, 7),
    )
}

pub proof fn lemma_le_round_trip(v: u64)
    ensures
        (le_byte(v, 0) as u64) | ((le_byte(v, 1) as u64) << 8u64) | ((le_byte(v, 2) as u64)
            << 16u64) | ((le_byte(v, 3) as u64) << 24u64) | ((le_byte(v, 4) as u64) << 32u64) | ((
        le_byte(v, 5) as u64) << 40u64) | ((le_byte(v, 6) as u64) << 48u64) | ((le_byte(v, 7)
            as u64) << 56u64) == v,
{
    assert(((((v >> 0u64) & 0xff) as u8) as u64) | (((((v >> 8u64) & 0xff) as u8) as u64) << 8u64)
        | (((((v >> 16u64) & 0xff) as u8) as u64) << 16u64) | (((((v >> 24u64) & 0xff) as u8)
        as u64) << 24u64) | (((((v >> 32u64) & 0xff) as u8) as u64) << 32u64) | (((((v >> 40u64)
        & 0xff) as u8) as u64) << 40u64) | (((((v >> 48u64) & 0xff) as u8) as u64) << 48u64) | (((((v
        >> 56u64) & 0xff) as u8) as u64) << 56u64) == v) by (bit_vector);
}

/// Byte offsets of the parts of the image. The tables lie back to back from
/// offset zero, the lock and the two events follow them, and everything
/// ends within `SHM_SIZE`.
#[derive(Debug, Clone, Copy, PartialEq, Eq, Structural)]
pub struct ShmLayout {
    pub analog_values_offset: usize,
    pub temperature_values_offset: usize,
    pub analog_config_offset: usize,
    pub temperature_config_offset: usize,
    pub lock_offset: usize,
    pub server_event_offset: usize,
    pub client_event_offset: usize,
    pub end: usize,
}

/// Bytes of one value table.
pub const TABLE_VALUES_BYTES: usize = 256;

/// Bytes of the analog config table.
pub const TABLE_ANALOG_CFG_BYTES: usize = 64;

/// Bytes of the temperature config table.
pub const TABLE_TMP_CFG_BYTES: usize = 96;

impl ShmLayout {
    /// The offsets follow from the declared sizes, in the order of the fields.
    pub open spec fn wf(&self) -> bool {
        &&& self.analog_values_offset == 0
        &&& self.temperature_values_offset == self.analog_values_offset + NUM_CHANNELS_PER_TYPE
            * VALUE_SIZE
        &&& self.analog_config_offset == self.temperature_values_offset + NUM_CHANNELS_PER_TYPE
            * VALUE_SIZE
        &&& self.temperature_config_offset == self.analog_config_offset + NUM_CHANNELS_PER_TYPE
            * ANALOG_CFG_SIZE
        &&& self.lock_offset == self.temperature_config_offset + NUM_CHANNELS_PER_TYPE
            * TMP_CFG_SIZE
        &&& self.lock_offset <= self.server_event_offset <= self.client_event_offset <= self.end
        &&& self.end <= SHM_SIZE
    }

    pub open spec fn analog_value_at(&self, index: int) -> int {
        self.analog_values_offset + index * VALUE_SIZE
    }

    pub open spec fn temperature_value_at(&self, index: int) -> int {
        self.temperature_values_offset + index * VALUE_SIZE
    }

    pub open spec fn analog_cfg_at(&self, index: int) -> int {
        self.analog_config_offset + index * ANALOG_CFG_SIZE
    }

    pub open spec fn temperature_cfg_at(&self, index: int) -> int {
        self.temperature_config_offset + index * TMP_CFG_SIZE
    }

    /// The analog config entry `index` of the image `seg`.
    pub open spec fn analog_cfg_entry(&self, seg: Seq<u8>, index: int) -> Config<IoAnalogMode> {
        let o = self.analog_cfg_at(index);
        analog_cfg_decode(seg[o], seg[o + 1])
    }

    /// The temperature config entry `index` of the image `seg`.
    pub open spec fn temperature_cfg_entry(&self, seg: Seq<u8>, index: int) -> Config<TmpConfig> {
        let o = self.temperature_cfg_at(index);
        tmp_cfg_decode(seg[o], seg[o + 1], seg[o + 2])
    }

    /// Lays the image out for a lock of `lock_len` bytes and events of
    /// `server_event_len` and `client_event_len` bytes; `None` where they do
    /// not fit into `SHM_SIZE`.
    pub fn new(lock_len: usize, server_event_len: usize, client_event_len: usize) -> (r: Option<
        ShmLayout,
    >)
        ensures
            r is Some <==> TABLE_VALUES_BYTES * 2 + TABLE_ANALOG_CFG_BYTES + TABLE_TMP_CFG_BYTES
                + lock_len + server_event_len + client_event_len <= SHM_SIZE,
            r matches Some(l) ==> {
                &&& l.wf()
                &&& l.server_event_offset == l.lock_offset + lock_len
                &&& l.client_event_offset == l.server_event_offset + server_event_len
                &&& l.end == l.client_event_offset + client_event_len
            },
    {
        let analog_values_offset: usize = 0;
        let temperature_values_offset = analog_values_offset + NUM_CHANNELS_PER_TYPE * VALUE_SIZE;
        let analog_config_offset = temperature_values_offset + NUM_CHANNELS_PER_TYPE * VALUE_SIZE;
        let temperature_config_offset = analog_config_offset + NUM_CHANNELS_PER_TYPE
            * ANALOG_CFG_SIZE;
        let lock_offset = temperature_config_offset + NUM_CHANNELS_PER_TYPE * TMP_CFG_SIZE;
        if lock_len > SHM_SIZE - lock_offset {
            return None;
        }
        let server_event_offset = lock_offset + lock_len;
        if server_event_len > SHM_SIZE - server_event_offset {
            return None;
        }
        let client_event_offset = server_event_offset + server_event_len;
        if client_event_len > SHM_SIZE - client_event_offset {
            return None;
        }
        let end = client_event_offset + client_event_len;
        Some(
            ShmLayout {
                analog_values_offset,
                temperature_values_offset,
                analog_config_offset,
                temperature_config_offset,
                lock_offset,
                server_event_offset,
                client_event_offset,
                end,
            },
        )
    }

    fn read_word(seg: &[u8], o: usize) -> (r: u64)
        requires
            o + 8 <= seg@.len(),
        ensures
            r == le_word(seg@, o as int),
    {
        (seg[o] as u64) | ((seg[o + 1] as u64) << 8u64) | ((seg[o + 2] as u64) << 16u64) | ((seg[o
            + 3] as u64) << 24u64) | ((seg[o + 4] as u64) << 32u64) | ((seg[o + 5] as u64)
            << 40u64) | ((seg[o + 6] as u64) << 48u64) | ((seg[o + 7] as u64) << 56u64)
    }

    fn write_word(seg: &mut [u8], o: usize, v: u64)
        requires
            o + 8 <= old(seg)@.len(),
        ensures
            final(seg)@ == put_le_word(old(seg)@, o as int, v),
            le_word(final(seg)@, o as int) == v,
    {
        seg[o] = ((v >> 0u64) & 0xff) as u8;
        seg[o + 1] = ((v >> 8u64) & 0xff) as u8;
        seg[o + 2] = ((v >> 16u64) & 0xff) as u8;
        seg[o + 3] = ((v >> 24u64) & 0xff) as u8;
        seg[o + 4] = ((v >> 32u64) & 0xff) as u8;
        seg[o + 5] = ((v >> 40u64) & 0xff) as u8;
        seg[o + 6] = ((v >> 48u64) & 0xff) as u8;
        seg[o + 7] = ((v >> 56u64) & 0xff) as u8;
        proof {
            lemma_le_round_trip(v);
            assert(seg@ =~= put_le_word(old(seg)@, o as int, v));
        }
    }

    /// Server side: publishes the sampled value of analog input `index`.
    pub fn analog_value_set(&self, seg: &mut [u8], index: usize, value: i64)
        requires
            self.wf(),
            old(seg)@.len() >= self.lock_offset,
            index < NUM_CHANNELS_PER_TYPE,
        ensures
            final(seg)@ == put_le_word(old(seg)@, self.analog_value_at(index as int), value as u64),
            le_word(final(seg)@, self.analog_value_at(index as int)) as i64 == value,
    {
        Self::write_word(seg, self.analog_values_offset + index * VALUE_SIZE, value as u64);
        assert((value as u64) as i64 == value) by (bit_vector);
    }

    /// Client side: the last published value of analog input `index`.
    pub fn analog_value_get(&self, seg: &[u8], index: usize) -> (r: i64)
        requires
            self.wf(),
            seg@.len() >= self.lock_offset,
            index < NUM_CHANNELS_PER_TYPE,
        ensures
            r == le_word(seg@, self.analog_value_at(index as int)) as i64,
    {
        Self::read_word(seg, self.analog_values_offset + index * VALUE_SIZE) as i64
    }

    /// Server side: publishes the sampled value of temperature input `index`,
    /// given as the bit pattern of the reading.
    pub fn temperature_value_set(&self, seg: &mut [u8], index: usize, bits: u64)
        requires
            self.wf(),
            old(seg)@.len() >= self.lock_offset,
            index < NUM_CHANNELS_PER_TYPE,
        ensures
            final(seg)@ == put_le_word(old(seg)@, self.temperature_value_at(index as int), bits),
            le_word(final(seg)@, self.temperature_value_at(index as int)) == bits,
    {
        Self::write_word(seg, self.temperature_values_offset + index * VALUE_SIZE, bits)
    }

    /// Client side: the bit pattern of the last published reading of temperature input `index`.
    pub fn temperature_value_get(&self, seg: &[u8], index: usize) -> (r: u64)
        requires
            self.wf(),
            seg@.len() >= self.lock_offset,
            index < NUM_CHANNELS_PER_TYPE,
        ensures
            r == le_word(seg@, self.temperature_value_at(index as int)),
    {
        Self::read_word(seg, self.temperature_values_offset + index * VALUE_SIZE)
    }

    /// Server side: the analog config entry `index`.
    pub fn analog_cfg_get(&self, seg: &[u8], index: usize) -> (r: Config<IoAnalogMode>)
        requires
            self.wf(),
            seg@.len() >= self.lock_offset,
            index < NUM_CHANNELS_PER_TYPE,
        ensures
            r == self.analog_cfg_entry(seg@, index as int),
    {
        let o = self.analog_config_offset + index * ANALOG_CFG_SIZE;
        if seg[o] == TAG_CHANGE {
            let m = seg[o + 1];
            if m == 0 {
                Config::Change(IoAnalogMode::Voltage)
            } else if m == 1 {
                Config::Change(IoAnalogMode::Current)
            } else {
                Config::Keep
            }
        } else {
            Config::Keep
        }
    }

    /// Client side: asks for analog input `index` to be switched to `mode`.
    pub fn analog_cfg_set(&self, seg: &mut [u8], index: usize, mode: IoAnalogMode)
        requires
            self.wf(),
            old(seg)@.len() >= self.lock_offset,
            index < NUM_CHANNELS_PER_TYPE,
        ensures
            final(seg)@ == old(seg)@.update(self.analog_cfg_at(index as int), TAG_CHANGE).update(
                self.analog_cfg_at(index as int) + 1,
                analog_mode_byte(mode),
            ),
            self.analog_cfg_entry(final(seg)@, index as int) == Config::Change(mode),
    {
        let o = self.analog_config_offset + index * ANALOG_CFG_SIZE;
        seg[o] = TAG_CHANGE;
        seg[o + 1] = match mode {
            IoAnalogMode::Voltage => 0u8,
            IoAnalogMode::Current => 1u8,
        };
    }

    /// Server side: acknowledges analog config entry `index` by resetting it to `Keep`.
    pub fn analog_cfg_set_confirm(&self, seg: &mut [u8], index: usize)
        requires
            self.wf(),
            old(seg)@.len() >= self.lock_offset,
            index < NUM_CHANNELS_PER_TYPE,
        ensures
            final(seg)@ == old(seg)@.update(self.analog_cfg_at(index as int), TAG_KEEP),
            self.analog_cfg_entry(final(seg)@, index as int) == Config::<IoAnalogMode>::Keep,
    {
        let o = self.analog_config_offset + index * ANALOG_CFG_SIZE;
        seg[o] = TAG_KEEP;
    }

    /// Server side: the temperature config entry `index`.
    pub fn temperature_cfg_get(&self, seg: &[u8], index: usize) -> (r: Config<TmpConfig>)
        requires
            self.wf(),
            seg@.len() >= self.lock_offset,
            index < NUM_CHANNELS_PER_TYPE,
        ensures
            r == self.temperature_cfg_entry(seg@, index as int),
    {
        let o = self.temperature_config_offset + index * TMP_CFG_SIZE;
        if seg[o] != TAG_CHANGE {
            return Config::Keep;
        }
        let m = seg[o + 1];
        let mode = if m == 0 {
            IoTmpMode::RtdTwoWire
        } else if m == 1 {
            IoTmpMode::RtdThreeWire
        } else if m == 2 {
            IoTmpMode::RtdFourWire
        } else {
            return Config::Keep;
        };
        let t = seg[o + 2];
        let sensor = if t == 0 {
            IoTmpSensorType::PT100
        } else if t == 1 {
            IoTmpSensorType::PT1000
        } else {
            return Config::Keep;
        };
        Config::Change(TmpConfig(mode, sensor))
    }

    /// Client side: asks for temperature input `index` to be switched to
    /// wiring `mode` and `sensor_type`.
    pub fn temperature_cfg_set(
        &self,
        seg: &mut [u8],
        index: usize,
        mode: IoTmpMode,
        sensor_type: IoTmpSensorType,
    )
        requires
            self.wf(),
            old(seg)@.len() >= self.lock_offset,
            index < NUM_CHANNELS_PER_TYPE,
        ensures
            final(seg)@ == old(seg)@.update(self.temperature_cfg_at(index as int), TAG_CHANGE).update(
                self.temperature_cfg_at(index as int) + 1,
                tmp_mode_byte(mode),
            ).update(self.temperature_cfg_at(index as int) + 2, sensor_type_byte(sensor_type)),
            self.temperature_cfg_entry(final(seg)@, index as int) == Config::Change(
                TmpConfig(mode, sensor_type),
            ),
    {
        let o = self.temperature_config_offset + index * TMP_CFG_SIZE;
        seg[o] = TAG_CHANGE;
        seg[o + 1] = match mode {
            IoTmpMode::RtdTwoWire => 0u8,
            IoTmpMode::RtdThreeWire => 1u8,
            IoTmpMode::RtdFourWire => 2u8,
        };
        seg[o + 2] = match sensor_type {
            IoTmpSensorType::PT100 => 0u8,
            IoTmpSensorType::PT1000 => 1u8,
        };
    }

    /// Server side: acknowledges temperature config entry `index` by resetting it to `Keep`.
    pub fn temperature_cfg_set_confirm(&self, seg: &mut [u8], index: usize)
        requires
            self.wf(),
            old(seg)@.len() >= self.lock_offset,
            index < NUM_CHANNELS_PER_TYPE,
        ensures
            final(seg)@ == old(seg)@.update(self.temperature_cfg_at(index as int), TAG_KEEP),
            self.temperature_cfg_entry(final(seg)@, index as int) == Config::<TmpConfig>::Keep,
    {
        let o = self.temperature_config_offset + index * TMP_CFG_SIZE;
        seg[o] = TAG_KEEP;
    }
}

} // verus!
