use std::cell::Cell;
use std::rc::Rc;

use sysworxx_io::error::{Error, Result};
use sysworxx_io::ffi::{
    IoAnalogMode, IoCntDirection, IoCntMode, IoCntTrigger, IoHwInfo, IoPwmTimebase, IoTmpMode,
    IoTmpSensorType,
};
use sysworxx_io::io::null;
use sysworxx_io::io::util::{normalize_gain, AiIniCalib, AiSwitch, DoOnly, Shift, Shifter};
use sysworxx_io::labeled::Labeled;
use sysworxx_io::{
    AnalogInput, AnalogOutput, CounterInput, DigitalInput, DigitalOutput, Io, IoChannel,
    PwmOutput,
};

/// A digital output whose level the test can watch after handing it over.
#[derive(Debug, Clone)]
struct Line {
    level: Rc<Cell<Option<bool>>>,
    writes: Rc<Cell<u32>>,
    fail: bool,
    dummy: bool,
}

impl Line {
    fn new() -> Line {
        Line {
            level: Rc::new(Cell::new(None)),
            writes: Rc::new(Cell::new(0)),
            fail: false,
            dummy: false,
        }
    }
}

impl IoChannel for Line {
    fn reacquirable(&self) -> bool {
        true
    }
    fn dummy(&self) -> bool {
        self.is_dummy()
    }
    fn label_spec(&self) -> Option<&'static str> {
        None
    }
    fn acquired(&self) -> Option<usize> {
        None
    }
    fn init(&mut self, _chan_number: usize) -> Result<()> {
        Ok(())
    }
    fn shutdown(&mut self) -> Result<()> {
        Ok(())
    }
    fn is_dummy(&self) -> bool {
        self.dummy
    }
    fn label(&self) -> Option<&'static str> {
        None
    }
}

impl DigitalOutput for Line {
    fn level(&self) -> Option<bool> {
        None
    }
    fn set(&mut self, val: bool) -> Result<()> {
        self.writes.set(self.writes.get() + 1);
        if self.fail {
            return Err(Error::AccessFailed);
        }
        self.level.set(Some(val));
        Ok(())
    }
}

/// An analog input that reads a fixed raw value.
#[derive(Debug)]
struct Raw(i64);

impl IoChannel for Raw {
    fn reacquirable(&self) -> bool {
        true
    }
    fn dummy(&self) -> bool {
        self.is_dummy()
    }
    fn label_spec(&self) -> Option<&'static str> {
        None
    }
    fn acquired(&self) -> Option<usize> {
        None
    }
    fn init(&mut self, _chan_number: usize) -> Result<()> {
        Ok(())
    }
    fn shutdown(&mut self) -> Result<()> {
        Ok(())
    }
    fn is_dummy(&self) -> bool {
        false
    }
    fn label(&self) -> Option<&'static str> {
        None
    }
}

impl AnalogInput for Raw {
    fn mode(&self) -> Option<IoAnalogMode> {
        None
    }
    fn get(&mut self) -> Result<i64> {
        Ok(self.0)
    }
    fn set_mode(&mut self, _mode: IoAnalogMode) -> Result<()> {
        Ok(())
    }
}

/// A channel for the capabilities the tested device lacks.
#[derive(Debug)]
struct Absent;

impl IoChannel for Absent {
    fn reacquirable(&self) -> bool {
        true
    }
    fn dummy(&self) -> bool {
        self.is_dummy()
    }
    fn label_spec(&self) -> Option<&'static str> {
        None
    }
    fn acquired(&self) -> Option<usize> {
        None
    }
    fn init(&mut self, _chan_number: usize) -> Result<()> {
        Ok(())
    }
    fn shutdown(&mut self) -> Result<()> {
        Ok(())
    }
    fn is_dummy(&self) -> bool {
        true
    }
    fn label(&self) -> Option<&'static str> {
        None
    }
}

impl AnalogOutput for Absent {
    fn set(&mut self, _value: i64) -> Result<()> {
        Err(Error::NotImplemented)
    }
}

impl CounterInput for Absent {
    fn enable(&mut self, _state: bool) -> Result<()> {
        Err(Error::NotImplemented)
    }
    fn setup(&mut self, _m: IoCntMode, _t: IoCntTrigger, _d: IoCntDirection) -> Result<()> {
        Err(Error::NotImplemented)
    }
    fn set_preload(&mut self, _preload: i32) -> Result<()> {
        Err(Error::NotImplemented)
    }
    fn get(&mut self) -> Result<i32> {
        Err(Error::NotImplemented)
    }
}

impl PwmOutput for Absent {
    fn enable(&mut self, _state: bool) -> Result<()> {
        Err(Error::NotImplemented)
    }
    fn setup(&mut self, _period: u16, _duty_cycle: u16) -> Result<()> {
        Err(Error::NotImplemented)
    }
    fn set_timebase(&mut self, _timebase: IoPwmTimebase) -> Result<()> {
        Err(Error::NotImplemented)
    }
}

type Device = Io<Line, null::Input, Raw, Absent, null::Temp, f64, Absent, Absent, null::Wdg>;

fn device(outputs: Vec<Line>, inputs: Vec<null::Input>, analog: Vec<Raw>) -> Device {
    Io::new(
        null::Wdg::new(),
        Line::new(),
        Line::new(),
        null::Input::always_active(),
        null::Input::not_implemented(),
        outputs,
        inputs,
        analog,
        vec![Absent],
        vec![null::Temp::new()],
        vec![Absent, Absent],
        Some(2),
        vec![Absent],
    )
}

#[test]
fn init_shutdown_init_succeeds() {
    let mut io = device(vec![Line::new(), Line::new()], vec![null::Input::always_active()], vec![Raw(3)]);
    assert_eq!(io.init(), Ok(()));
    assert_eq!(io.shutdown(), Ok(()));
    assert_eq!(io.init(), Ok(()));
}

#[test]
fn out_of_range_index_fails_everywhere() {
    let mut io = device(vec![Line::new()], vec![null::Input::always_active()], vec![Raw(3)]);
    assert_eq!(io.output_set(1, true), Err(Error::InvalidChannel));
    assert_eq!(io.input_get(1), Err(Error::InvalidChannel));
    assert_eq!(io.analog_input_get(1), Err(Error::InvalidChannel));
    assert_eq!(io.analog_mode_set(1, IoAnalogMode::Current), Err(Error::InvalidChannel));
    assert_eq!(io.analog_output_set(1, 5), Err(Error::InvalidChannel));
    assert_eq!(
        io.tmp_set_mode(1, IoTmpMode::RtdTwoWire, IoTmpSensorType::PT100),
        Err(Error::InvalidChannel)
    );
    assert_eq!(io.tmp_input_get(1), Err(Error::InvalidChannel));
    assert_eq!(io.cnt_enable(2, true), Err(Error::InvalidChannel));
    assert_eq!(
        io.cnt_setup(2, IoCntMode::Counter, IoCntTrigger::AnyEdge, IoCntDirection::Up),
        Err(Error::InvalidChannel)
    );
    assert_eq!(io.cnt_set_preload(2, 4), Err(Error::InvalidChannel));
    assert_eq!(io.cnt_get(2), Err(Error::InvalidChannel));
    assert_eq!(io.pwm_enable(1, true), Err(Error::InvalidChannel));
    assert_eq!(io.pwm_setup(1, 10, 5), Err(Error::InvalidChannel));
    assert_eq!(io.pwm_set_timebase(1, IoPwmTimebase::Ms1), Err(Error::InvalidChannel));
    assert_eq!(io.analog_input_get(usize::MAX), Err(Error::InvalidChannel));
}

#[test]
fn output_40_of_33_fails_without_side_effect() {
    let lines: Vec<Line> = (0..33).map(|_| Line::new()).collect();
    let watch = lines.clone();
    let mut io = device(lines, vec![], vec![]);
    assert_eq!(io.output_set(40, true), Err(Error::InvalidChannel));
    for line in &watch {
        assert_eq!(line.writes.get(), 0);
        assert_eq!(line.level.get(), None);
    }
    assert_eq!(io.output_set(32, true), Ok(()));
    assert_eq!(watch[32].level.get(), Some(true));
    assert_eq!(watch[31].writes.get(), 0);
}

#[test]
fn in_range_operations_forward_to_the_channel() {
    let mut io = device(vec![Line::new()], vec![null::Input::always_active()], vec![Raw(42)]);
    assert_eq!(io.input_get(0), Ok(true));
    assert_eq!(io.analog_input_get(0), Ok(42));
    assert_eq!(io.analog_output_set(0, 1), Err(Error::NotImplemented));
    assert_eq!(io.tmp_input_get(0), Err(Error::NotImplemented));
    assert_eq!(io.cnt_get(0), Err(Error::NotImplemented));
    assert_eq!(io.pwm_enable(0, true), Err(Error::NotImplemented));
    assert_eq!(io.get_run_switch(), Ok(true));
    assert_eq!(io.get_config_switch(), Err(Error::NotImplemented));
    assert_eq!(io.watchdog_enable(true), Ok(()));
    assert_eq!(io.watchdog_service(), Ok(()));
    assert_eq!(io.set_run_led(true), Ok(()));
    assert_eq!(io.run_led.level.get(), Some(true));
    assert_eq!(io.set_err_led(false), Ok(()));
    assert_eq!(io.err_led.level.get(), Some(false));
}

#[test]
fn hardware_info_counts_and_legacy_numbering() {
    let mut outputs: Vec<Line> = (0..6).map(|_| Line::new()).collect();
    outputs[1].dummy = true;
    outputs[4].dummy = true;
    let inputs = vec![
        null::Input::always_active(),
        null::Input::always_active(),
        null::Input::not_implemented(),
    ];
    let io = device(outputs, inputs, vec![Raw(0), Raw(0)]);
    let info = io.get_hardware_info(3);
    let expected = IoHwInfo {
        m_uPcbRevision: 3,
        m_uDiChannels: 3,
        m_uDoChannels: 6,
        m_uAiChannels: 2,
        m_uAoChannels: 1,
        m_uTmpChannels: 1,
        m_uCntChannels: 2,
        m_uEncChannels: 0,
        m_uPwmChannels: 1,
        // every null input is a placeholder
        m_uLegacyDiChannels: 0,
        // outputs 0..2 with output 1 a placeholder
        m_uLegacyDoChannels: 1,
        // outputs 2 and 3, up to the placeholder at 4
        m_uLegacyRelayChannels: 2,
        m_uLegacyRelayOffset: 2,
    };
    assert_eq!(info, expected);
}

#[test]
fn ai_switch_drives_exactly_one_line() {
    let v = Line::new();
    let c = Line::new();
    let (vw, cw) = (v.clone(), c.clone());
    let mut ai = AiSwitch::new(Raw(7), v, c).unwrap();
    assert_eq!(ai.set_mode(IoAnalogMode::Current), Ok(()));
    assert_eq!((vw.level.get(), cw.level.get()), (Some(false), Some(true)));
    assert_eq!(ai.set_mode(IoAnalogMode::Voltage), Ok(()));
    assert_eq!((vw.level.get(), cw.level.get()), (Some(true), Some(false)));
    assert_eq!(ai.get(), Ok(7));
}

#[test]
fn ai_switch_reports_a_failing_line() {
    let v = Line::new();
    let mut c = Line::new();
    c.fail = true;
    let vw = v.clone();
    let mut ai = AiSwitch::new(Raw(7), v, c).unwrap();
    assert_eq!(ai.set_mode(IoAnalogMode::Voltage), Err(Error::AccessFailed));
    assert_eq!(vw.level.get(), None);
}

#[test]
fn calibration_is_linear_and_rounded() {
    // voltage: gain 1.5, offset 0.25; current: gain 0.5, offset -1
    let mut ai = AiIniCalib::new_shift(Raw(10), 15000, 2500, 5000, -10000, Shifter::new(Shift::Up(1)));
    // 20 * 1.5 + 0.25 = 30.25
    assert_eq!(ai.get(), Ok(30));
    assert_eq!(ai.calibrate(-10), -30);
    // 2 * 1.5 + 0.25 = 3.25; 3 * 1.5 + 0.25 = 4.75
    assert_eq!(ai.calibrate(1), 3);
    assert_eq!(ai.calibrate(-3), -9);
    assert_eq!(ai.set_mode(IoAnalogMode::Current), Ok(()));
    // 20 * 0.5 - 1 = 9
    assert_eq!(ai.get(), Ok(9));
}

#[test]
fn calibration_rounds_halves_away_from_zero() {
    let ai = AiIniCalib::new(Raw(0), 5000, 0, 10000, 0);
    assert_eq!(ai.calibrate(1), 1);
    assert_eq!(ai.calibrate(-1), -1);
    assert_eq!(ai.calibrate(3), 2);
}

#[test]
fn calibration_saturates() {
    let ai = AiIniCalib::new(Raw(0), 20000, 0, 10000, 0);
    assert_eq!(ai.calibrate(i64::MAX), i64::MAX);
    assert_eq!(ai.calibrate(i64::MIN), i64::MIN);
}

#[test]
fn do_only_passes_expected_level() {
    let line = Line::new();
    let w = line.clone();
    let mut d = DoOnly::new(true, line);
    assert_eq!(d.set(false), Ok(()));
    assert_eq!(w.writes.get(), 0);
    assert_eq!(d.set(true), Ok(()));
    assert_eq!(w.level.get(), Some(true));
}

#[test]
fn labeled_forwards_and_names() {
    let mut l = Labeled::new("DO0", Line::new());
    assert_eq!(l.label(), Some("DO0"));
    assert!(!l.is_dummy());
    assert_eq!(l.set(true), Ok(()));
    assert_eq!(l.inner.level.get(), Some(true));
    let n = Labeled::new("X", null::Output::not_implemented());
    assert!(n.is_dummy());
}

#[test]
fn null_channels() {
    let mut o = null::Output::not_implemented();
    assert_eq!(o.set(true), Err(Error::NotImplemented));
    assert_eq!(o.init(3), Ok(()));
    assert!(o.is_dummy());
    let mut i = null::Input::not_implemented();
    assert_eq!(i.get(), Err(Error::NotImplemented));
    let mut w = sysworxx_io::io::wdg_dev::Wdg::new("/dev/watchdog");
    assert_eq!(sysworxx_io::Watchdog::enable(&mut w, true), Err(Error::NotImplemented));
    assert_eq!(sysworxx_io::Watchdog::service(&mut w), Err(Error::NotImplemented));
}

#[test]
fn large_gains_are_fixed_point() {
    assert_eq!(normalize_gain(15000), 15000);
    assert_eq!(normalize_gain(20000), 20000);
    // a configured gain of 10234 stands for 1.0234
    assert_eq!(normalize_gain(102_340_000), 10234);
    assert_eq!(normalize_gain(102_345_000), 10235);
    assert_eq!(normalize_gain(-50000), -50000);
}

/// A digital input that reads a fixed level and can be a placeholder.
#[derive(Debug)]
struct Level {
    value: bool,
    dummy: bool,
    fail_init: bool,
}

impl IoChannel for Level {
    fn reacquirable(&self) -> bool {
        !self.fail_init
    }
    fn dummy(&self) -> bool {
        self.dummy
    }
    fn label_spec(&self) -> Option<&'static str> {
        None
    }
    fn acquired(&self) -> Option<usize> {
        None
    }
    fn init(&mut self, _chan_number: usize) -> Result<()> {
        if self.fail_init {
            Err(Error::AccessFailed)
        } else {
            Ok(())
        }
    }
    fn shutdown(&mut self) -> Result<()> {
        Ok(())
    }
    fn is_dummy(&self) -> bool {
        self.dummy
    }
    fn label(&self) -> Option<&'static str> {
        None
    }
}

impl DigitalInput for Level {
    fn get(&mut self) -> Result<bool> {
        Ok(self.value)
    }
}

fn level(dummy: bool) -> Level {
    Level { value: true, dummy, fail_init: false }
}

type InputDevice = Io<Line, Level, Raw, Absent, null::Temp, f64, Absent, Absent, null::Wdg>;

fn input_device(inputs: Vec<Level>, outputs: Vec<Line>) -> InputDevice {
    Io::new(
        null::Wdg::new(),
        Line::new(),
        Line::new(),
        level(false),
        level(false),
        outputs,
        inputs,
        vec![],
        vec![],
        vec![],
        vec![],
        None,
        vec![],
    )
}

#[test]
fn legacy_inputs_are_the_leading_real_inputs() {
    let io = input_device(vec![level(true), level(false)], vec![]);
    assert_eq!(io.get_hardware_info(0).m_uLegacyDiChannels, 0);
    let io = input_device(vec![level(false), level(false), level(true), level(false)], vec![]);
    assert_eq!(io.get_hardware_info(0).m_uLegacyDiChannels, 2);
    let io = input_device((0..40).map(|_| level(false)).collect(), vec![]);
    assert_eq!(io.get_hardware_info(0).m_uLegacyDiChannels, 32);
    assert_eq!(io.get_hardware_info(0).m_uLegacyRelayOffset, 0);
    assert_eq!(io.get_hardware_info(0).m_uLegacyRelayChannels, 0);
}

#[test]
fn init_stops_at_the_first_failure() {
    let mut failing = level(false);
    failing.fail_init = true;
    let outputs = vec![Line::new()];
    let mut io = input_device(vec![level(false), failing, level(false)], outputs);
    assert_eq!(io.init(), Err(Error::AccessFailed));
}

#[test]
fn labels_are_collected_with_indices() {
    let io: Io<Labeled<Line>, null::Input, Raw, Absent, null::Temp, f64, Absent, Absent, null::Wdg> =
        Io::new(
            null::Wdg::new(),
            Labeled::new("RUN", Line::new()),
            Labeled::new("ERR", Line::new()),
            null::Input::not_implemented(),
            null::Input::not_implemented(),
            vec![Labeled::new("DO0", Line::new()), Labeled::new("DO1", Line::new())],
            vec![null::Input::always_active()],
            vec![Raw(0)],
            vec![],
            vec![],
            vec![],
            None,
            vec![],
        );
    let labels = io.channel_labels();
    assert_eq!(labels.outputs, vec![(0, "DO0"), (1, "DO1")]);
    assert_eq!(labels.inputs, vec![]);
    assert_eq!(labels.analog_inputs, vec![]);
}

#[test]
fn calibration_mode_reaches_the_switch() {
    let v = Line::new();
    let c = Line::new();
    let (vw, cw) = (v.clone(), c.clone());
    let sw = AiSwitch::new(Raw(10), v, c).unwrap();
    let mut ai = AiIniCalib::new(sw, 10000, 0, 20000, 0);
    assert_eq!(ai.set_mode(IoAnalogMode::Current), Ok(()));
    assert_eq!((vw.level.get(), cw.level.get()), (Some(false), Some(true)));
    assert_eq!(ai.get(), Ok(20));
}
