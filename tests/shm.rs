use std::cell::Cell;
use std::rc::Rc;

use sysworxx_io::daemon::{
    apply_value_change, channel_counts, sample_group, take_analog_changes,
    take_temperature_changes, ValueChanged,
};
use sysworxx_io::error::{Error, Result};
use sysworxx_io::ffi::{
    IoAnalogMode, IoCntDirection, IoCntMode, IoCntTrigger, IoPwmTimebase, IoTmpMode, IoTmpSensorType,
};
use sysworxx_io::io::null;
use sysworxx_io::io::util::AiSwitch;
use sysworxx_io::shm::{Channels, Config, ShmLayout, TmpConfig, NUM_CHANNELS_PER_TYPE, SHM_SIZE};
use sysworxx_io::{AnalogInput, AnalogOutput, CounterInput, DigitalOutput, Io, IoChannel, PwmOutput};

#[derive(Debug, Clone)]
struct Line(Rc<Cell<Option<bool>>>);

impl IoChannel for Line {
    fn reacquirable(&self) -> bool {
        true
    }
    fn dummy(&self) -> bool {
        self.is_dummy()
    }
    fn label_spec(&self) -> Option<&'static str> {
        None
    }
    fn acquired(&self) -> Option<usize> {
        None
    }
    fn init(&mut self, _chan_number: usize) -> Result<()> {
        Ok(())
    }
    fn shutdown(&mut self) -> Result<()> {
        Ok(())
    }
    fn is_dummy(&self) -> bool {
        false
    }
    fn label(&self) -> Option<&'static str> {
        None
    }
}

impl DigitalOutput for Line {
    fn level(&self) -> Option<bool> {
        None
    }
    fn set(&mut self, val: bool) -> Result<()> {
        self.0.set(Some(val));
        Ok(())
    }
}

#[derive(Debug)]
struct Raw(Result<i64>);

impl IoChannel for Raw {
    fn reacquirable(&self) -> bool {
        true
    }
    fn dummy(&self) -> bool {
        self.is_dummy()
    }
    fn label_spec(&self) -> Option<&'static str> {
        None
    }
    fn acquired(&self) -> Option<usize> {
        None
    }
    fn init(&mut self, _chan_number: usize) -> Result<()> {
        Ok(())
    }
    fn shutdown(&mut self) -> Result<()> {
        Ok(())
    }
    fn is_dummy(&self) -> bool {
        false
    }
    fn label(&self) -> Option<&'static str> {
        None
    }
}

impl AnalogInput for Raw {
    fn mode(&self) -> Option<IoAnalogMode> {
        None
    }
    fn get(&mut self) -> Result<i64> {
        self.0
    }
    fn set_mode(&mut self, _mode: IoAnalogMode) -> Result<()> {
        Ok(())
    }
}

/// A channel for the capabilities the tested device lacks.
#[derive(Debug)]
struct Absent;

impl IoChannel for Absent {
    fn reacquirable(&self) -> bool {
        true
    }
    fn dummy(&self) -> bool {
        true
    }
    fn label_spec(&self) -> Option<&'static str> {
        None
    }
    fn acquired(&self) -> Option<usize> {
        None
    }
    fn init(&mut self, _chan_number: usize) -> Result<()> {
        Ok(())
    }
    fn shutdown(&mut self) -> Result<()> {
        Ok(())
    }
    fn is_dummy(&self) -> bool {
        true
    }
    fn label(&self) -> Option<&'static str> {
        None
    }
}

impl AnalogOutput for Absent {
    fn set(&mut self, _value: i64) -> Result<()> {
        Err(Error::NotImplemented)
    }
}

impl CounterInput for Absent {
    fn enable(&mut self, _state: bool) -> Result<()> {
        Err(Error::NotImplemented)
    }
    fn setup(&mut self, _m: IoCntMode, _t: IoCntTrigger, _d: IoCntDirection) -> Result<()> {
        Err(Error::NotImplemented)
    }
    fn set_preload(&mut self, _preload: i32) -> Result<()> {
        Err(Error::NotImplemented)
    }
    fn get(&mut self) -> Result<i32> {
        Err(Error::NotImplemented)
    }
}

impl PwmOutput for Absent {
    fn enable(&mut self, _state: bool) -> Result<()> {
        Err(Error::NotImplemented)
    }
    fn setup(&mut self, _period: u16, _duty_cycle: u16) -> Result<()> {
        Err(Error::NotImplemented)
    }
    fn set_timebase(&mut self, _timebase: IoPwmTimebase) -> Result<()> {
        Err(Error::NotImplemented)
    }
}

fn layout() -> ShmLayout {
    ShmLayout::new(40, 32, 32).unwrap()
}

#[test]
fn layout_is_contiguous_and_bounded() {
    let l = layout();
    assert_eq!(l.analog_values_offset, 0);
    assert_eq!(l.temperature_values_offset, 256);
    assert_eq!(l.analog_config_offset, 512);
    assert_eq!(l.temperature_config_offset, 576);
    assert_eq!(l.lock_offset, 672);
    assert_eq!(l.server_event_offset, 712);
    assert_eq!(l.client_event_offset, 744);
    assert_eq!(l.end, 776);
    assert!(ShmLayout::new(SHM_SIZE - 672, 0, 0).is_some());
    assert!(ShmLayout::new(SHM_SIZE - 672, 1, 0).is_none());
    assert!(ShmLayout::new(usize::MAX, 0, 0).is_none());
}

#[test]
fn values_round_trip_through_the_image() {
    let l = layout();
    let mut seg = vec![0u8; SHM_SIZE];
    l.analog_value_set(&mut seg, 3, -123456789);
    assert_eq!(l.analog_value_get(&seg, 3), -123456789);
    assert_eq!(&seg[24..32], &(-123456789i64).to_le_bytes());
    let t: f64 = 21.5;
    l.temperature_value_set(&mut seg, 31, t.to_bits());
    assert_eq!(f64::from_bits(l.temperature_value_get(&seg, 31)), 21.5);
    assert_eq!(l.analog_value_get(&seg, 2), 0);
}

#[test]
fn config_change_is_taken_once_then_keep() {
    let l = layout();
    let mut seg = vec![0u8; SHM_SIZE];
    l.analog_cfg_set(&mut seg, 2, IoAnalogMode::Current);
    assert_eq!(l.analog_cfg_get(&seg, 2), Config::Change(IoAnalogMode::Current));
    assert_eq!(take_analog_changes(&l, &mut seg, 4), vec![(2, IoAnalogMode::Current)]);
    assert_eq!(l.analog_cfg_get(&seg, 2), Config::Keep);
    assert_eq!(take_analog_changes(&l, &mut seg, 4), vec![]);
    l.analog_cfg_set(&mut seg, 2, IoAnalogMode::Voltage);
    assert_eq!(take_analog_changes(&l, &mut seg, 4), vec![(2, IoAnalogMode::Voltage)]);
}

#[test]
fn entries_beyond_the_count_are_not_taken() {
    let l = layout();
    let mut seg = vec![0u8; SHM_SIZE];
    l.analog_cfg_set(&mut seg, 5, IoAnalogMode::Current);
    assert_eq!(take_analog_changes(&l, &mut seg, 4), vec![]);
    assert_eq!(l.analog_cfg_get(&seg, 5), Config::Change(IoAnalogMode::Current));
}

#[test]
fn temperature_config_round_trip() {
    let l = layout();
    let mut seg = vec![0u8; SHM_SIZE];
    l.temperature_cfg_set(&mut seg, 0, IoTmpMode::RtdThreeWire, IoTmpSensorType::PT1000);
    l.temperature_cfg_set(&mut seg, 1, IoTmpMode::RtdFourWire, IoTmpSensorType::PT100);
    assert_eq!(
        take_temperature_changes(&l, &mut seg, 2),
        vec![
            (0, TmpConfig(IoTmpMode::RtdThreeWire, IoTmpSensorType::PT1000)),
            (1, TmpConfig(IoTmpMode::RtdFourWire, IoTmpSensorType::PT100))
        ]
    );
    assert_eq!(l.temperature_cfg_get(&seg, 0), Config::Keep);
    l.temperature_cfg_set_confirm(&mut seg, 1);
    assert_eq!(take_temperature_changes(&l, &mut seg, 2), vec![]);
}

#[test]
fn garbage_in_a_config_entry_reads_as_keep() {
    let l = layout();
    let mut seg = vec![0u8; SHM_SIZE];
    seg[l.analog_config_offset] = 1;
    seg[l.analog_config_offset + 1] = 9;
    assert_eq!(l.analog_cfg_get(&seg, 0), Config::Keep);
    seg[l.analog_config_offset] = 7;
    seg[l.analog_config_offset + 1] = 1;
    assert_eq!(l.analog_cfg_get(&seg, 0), Config::Keep);
}

#[test]
fn current_mode_request_switches_the_select_lines() {
    let l = layout();
    let mut seg = vec![0u8; SHM_SIZE];
    let mut watch = vec![];
    let mut analog = vec![];
    for _ in 0..4 {
        let v = Line(Rc::new(Cell::new(None)));
        let c = Line(Rc::new(Cell::new(None)));
        watch.push((v.clone(), c.clone()));
        analog.push(AiSwitch::new(Raw(Ok(0)), v, c).unwrap());
    }
    let mut io: Io<null::Output, null::Input, AiSwitch<Raw, Line>, Absent, null::Temp, f64, Absent, Absent, null::Wdg> =
        Io::new(
            null::Wdg::new(),
            null::Output::not_implemented(),
            null::Output::not_implemented(),
            null::Input::not_implemented(),
            null::Input::not_implemented(),
            vec![],
            vec![],
            analog,
            vec![],
            vec![],
            vec![],
            None,
            vec![],
        );
    // client
    l.analog_cfg_set(&mut seg, 0, IoAnalogMode::Current);
    // daemon tick
    let (count_adc, _) = channel_counts(&vec![Channels::AnalogInput(vec![0, 1, 2, 3])]);
    assert_eq!(count_adc, 4);
    let changes = take_analog_changes(&l, &mut seg, count_adc);
    assert_eq!(changes, vec![(0, IoAnalogMode::Current)]);
    for (i, mode) in changes {
        assert_eq!(io.analog_mode_set(i, mode), Ok(()));
    }
    // later ticks see Keep
    assert_eq!(take_analog_changes(&l, &mut seg, count_adc), vec![]);
    assert_eq!(l.analog_cfg_get(&seg, 0), Config::Keep);
    assert_eq!(watch[0].1 .0.get(), Some(true));
    assert_eq!(watch[0].0 .0.get(), Some(false));
    assert_eq!(watch[1].1 .0.get(), None);
}

#[test]
fn value_messages_update_the_image() {
    let l = layout();
    let mut seg = vec![0u8; SHM_SIZE];
    assert_eq!(apply_value_change(&l, &mut seg, ValueChanged::Ain(1, 77)), Ok(false));
    assert_eq!(l.analog_value_get(&seg, 1), 77);
    assert_eq!(apply_value_change(&l, &mut seg, ValueChanged::Temp(0, 5)), Ok(false));
    assert_eq!(l.temperature_value_get(&seg, 0), 5);
    assert_eq!(apply_value_change(&l, &mut seg, ValueChanged::Flush), Ok(true));
    let before = seg.clone();
    assert_eq!(
        apply_value_change(&l, &mut seg, ValueChanged::Ain(NUM_CHANNELS_PER_TYPE, 1)),
        Err(Error::InvalidChannel)
    );
    assert_eq!(seg, before);
}

#[test]
fn channel_counts_sum_per_kind_and_cap_at_table_length() {
    let groups = vec![
        Channels::AnalogInput(vec![0, 1]),
        Channels::TempInput(vec![0]),
        Channels::AnalogInput(vec![2, 3, 4]),
    ];
    assert_eq!(channel_counts(&groups), (5, 1));
    let big = vec![Channels::TempInput((0..40).collect())];
    assert_eq!(channel_counts(&big), (0, NUM_CHANNELS_PER_TYPE));
}

#[test]
fn sweep_reports_readable_channels_then_flush() {
    let mut io: Io<null::Output, null::Input, Raw, Absent, null::Temp, f64, Absent, Absent, null::Wdg> =
        Io::new(
            null::Wdg::new(),
            null::Output::not_implemented(),
            null::Output::not_implemented(),
            null::Input::not_implemented(),
            null::Input::not_implemented(),
            vec![],
            vec![],
            vec![Raw(Ok(10)), Raw(Err(Error::AccessFailed)), Raw(Ok(30))],
            vec![],
            vec![null::Temp::new()],
            vec![],
            None,
            vec![],
        );
    let msgs = sample_group(&mut io, &Channels::AnalogInput(vec![2, 1, 0, 7]));
    assert_eq!(
        msgs,
        vec![ValueChanged::Ain(2, 30), ValueChanged::Ain(0, 10), ValueChanged::Flush]
    );
    let msgs = sample_group(&mut io, &Channels::TempInput(vec![0]));
    assert_eq!(msgs, vec![ValueChanged::Flush]);
}
