use sysworxx_io::error::{Error, Result};
use sysworxx_io::ffi::{
    IoAnalogMode, IoBool, IoCntDirection, IoCntMode, IoCntTrigger, IoInputTrigger, IoPwmTimebase,
    IoResult, IoTmpMode, IoTmpSensorType,
};
use sysworxx_io::daemon::{analog_sweep_messages, temperature_sweep_messages, ValueChanged};
use sysworxx_io::io::counter::{parse_count, Am62xCounter, Counter};
use sysworxx_io::io::util::RtdCalib;
use sysworxx_io::io::null;
use sysworxx_io::io::pwm::PwmInner;
use sysworxx_io::io::sampling::{PendingWrites, SampleTable};

#[test]
fn sampler_reads_default_until_first_sweep() {
    let mut t: SampleTable<i64> = SampleTable::new();
    t.register(1);
    t.register(3);
    assert_eq!(t.read_or(1, 0), 0);
    t.sweep(&vec![10, 11, 12]);
    assert_eq!(t.read_or(1, 0), 11);
    // the hardware has no channel 3
    assert_eq!(t.read_or(3, -1), -1);
    t.sweep(&vec![20, 21, 22, 23]);
    assert_eq!(t.read_or(1, 0), 21);
    assert_eq!(t.read_or(3, -1), 23);
    // unregistered channels are not sampled
    assert_eq!(t.read_or(0, -1), -1);
}

#[test]
fn writer_coalesces_and_flushes_in_order() {
    let mut w: PendingWrites<i64> = PendingWrites::new();
    w.write(2, 5);
    w.write(0, 1);
    w.write(2, 6);
    assert_eq!(w.take_pending(), vec![(2, 6), (0, 1)]);
    assert_eq!(w.take_pending(), vec![]);
    w.write(0, 9);
    assert_eq!(w.take_pending(), vec![(0, 9)]);
}

#[test]
fn counter_any_edge_correction() {
    let mut c = Counter::new("/sys/cnt", null::Input::always_active(), None);
    assert_eq!(c.count_value(5), 5);
    c.set_preload(100);
    assert_eq!(c.count_value(5), 105);
    c.setup(IoCntMode::Counter, IoCntTrigger::AnyEdge, IoCntDirection::Up);
    // 5 * 2 + 1 (edge input high, direction low) + 100
    assert_eq!(c.count_value(5), 111);
    assert_eq!(c.count_from(5, true, true), 109);
    assert_eq!(c.count_from(5, false, true), 110);
    c.setup(IoCntMode::Counter, IoCntTrigger::AnyEdge, IoCntDirection::Down);
    assert_eq!(c.count_from(5, true, false), 109);
    assert_eq!(c.count_from(i32::MAX, false, false), (i32::MAX).wrapping_mul(2).wrapping_add(100));
}

#[test]
fn counter_lifecycle_and_attributes() {
    let mut c = Counter::new("/sys/cnt", null::Input::always_active(), Some(null::Input::not_implemented()));
    assert_eq!(c.init_inputs(), Ok(()));
    assert_eq!(c.shutdown_inputs(), Ok(()));
    let a = c.enable_attrs();
    assert_eq!((a.mode, a.trigger, a.direction), ("cnt", "rise", "0"));
    c.setup(IoCntMode::ABEncoder, IoCntTrigger::AnyEdge, IoCntDirection::Down);
    let a = c.enable_attrs();
    assert_eq!((a.mode, a.trigger, a.direction), ("quad", "fall", "1"));
    // a failed direction read counts as low
    assert_eq!(c.count_value(1), 1);
}

#[test]
fn pwm_programming() {
    let mut p = PwmInner::new(0, 1);
    assert_eq!(p.pending_update(), Some((100, 100)));
    assert_eq!(p.switch_for(true), Some(true));
    assert_eq!(p.switch_for(false), Some(false));
    p.mark_updated();
    assert_eq!(p.pending_update(), None);
    p.set_timebase(IoPwmTimebase::Ms1);
    assert_eq!(p.setup(65535, 3), (65535 * 1_000_000, 3_000_000));
    p.is_gpio = false;
    assert_eq!(p.pending_update(), Some((65535 * 1_000_000, 3_000_000)));
    assert_eq!(p.switch_for(false), None);
    p.set_timebase(IoPwmTimebase::Ns800);
    assert_eq!(p.pending_update(), Some((65535 * 800, 2400)));
}

#[test]
fn result_codes() {
    let ok: Result<u8> = Ok(1);
    assert_eq!(IoResult::from_result(&ok), IoResult::Success);
    let cases = [
        (Error::InvalidChannel, IoResult::InvalidChannel, 0xfc),
        (Error::InvalidParameter, IoResult::InvalidParameter, 0xfd),
        (Error::NotImplemented, IoResult::NotImplemented, 0xfe),
        (Error::WatchdogTimeout, IoResult::WatchdogTimeout, 0xf2),
        (Error::AccessFailed, IoResult::DevAccessFailed, 0xf7),
        (Error::ParseIntError, IoResult::Error, 0xff),
        (Error::GenericError, IoResult::Error, 0xff),
    ];
    for (e, r, code) in cases {
        let res: Result<()> = Err(e);
        assert_eq!(IoResult::from_result(&res), r);
        assert_eq!(r.code(), code);
    }
    assert_eq!(IoResult::Success.code(), 0);
    assert_eq!(Error::generic_access_error(), Error::AccessFailed);
    assert_eq!(Error::InvalidChannel.message(), "Invalid channel specified");
}

#[test]
fn enum_codes() {
    assert_eq!(IoBool::from_code(7), IoBool::True);
    assert_eq!(IoBool::from_code(0), IoBool::False);
    assert_eq!(IoBool::True.negate(), IoBool::False);
    assert!(IoBool::from_bool(true).as_bool());
    assert_eq!(IoInputTrigger::from_code(3), IoInputTrigger::BothEdge);
    assert_eq!(IoInputTrigger::from_code(9), IoInputTrigger::Disabled);
    assert_eq!(IoAnalogMode::from_code(1), IoAnalogMode::Current);
    assert_eq!(IoAnalogMode::from_code(5), IoAnalogMode::Voltage);
    assert_eq!(IoTmpMode::from_code(2), IoTmpMode::RtdFourWire);
    assert_eq!(IoTmpSensorType::from_code(1), IoTmpSensorType::PT1000);
    assert_eq!(IoCntMode::from_code(1), IoCntMode::ABEncoder);
    assert_eq!(IoCntTrigger::from_code(2), IoCntTrigger::AnyEdge);
    assert_eq!(IoCntDirection::from_code(1), IoCntDirection::Down);
    assert_eq!(IoPwmTimebase::from_code(2), IoPwmTimebase::Ms1);
    assert_eq!(IoPwmTimebase::from_code(0), IoPwmTimebase::Ns800);
    assert_eq!(IoPwmTimebase::Ms1.code(), 2);
    assert_eq!(IoTmpMode::RtdThreeWire.code(), 1);
}

#[test]
fn count_file_parsing() {
    assert_eq!(parse_count(b"123\n"), Some(123));
    assert_eq!(parse_count(b"  -42 \t\n"), Some(-42));
    assert_eq!(parse_count(b"+7"), Some(7));
    assert_eq!(parse_count(b"2147483647"), Some(i32::MAX));
    assert_eq!(parse_count(b"-2147483648"), Some(i32::MIN));
    assert_eq!(parse_count(b"2147483648"), None);
    assert_eq!(parse_count(b"-2147483649"), None);
    assert_eq!(parse_count(b""), None);
    assert_eq!(parse_count(b" \n"), None);
    assert_eq!(parse_count(b"-"), None);
    assert_eq!(parse_count(b"12a"), None);
    assert_eq!(parse_count(b"1 2"), None);
}

#[test]
fn rtd_calibration_by_wiring_mode() {
    let mut c = RtdCalib::new(11000, 200, 9000, -300);
    assert_eq!(c.gain_offset(), (11000, 200));
    c.set_mode(IoTmpMode::RtdThreeWire);
    assert_eq!(c.gain_offset(), (9000, -300));
    c.set_mode(IoTmpMode::RtdTwoWire);
    assert_eq!(c.gain_offset(), (11000, 200));
}

#[test]
fn am62x_counter_decisions() {
    let mut c = Am62xCounter::new("/sys/cnt", null::Input::always_active());
    assert_eq!(c.init_input(), Ok(()));
    assert_eq!(
        c.setup(IoCntMode::Counter, IoCntTrigger::RisingEdge, IoCntDirection::Down),
        Err(Error::NotImplemented)
    );
    assert_eq!(c.function_attr(), "increase");
    assert_eq!(
        c.setup(IoCntMode::Counter, IoCntTrigger::AnyEdge, IoCntDirection::Down),
        Ok(())
    );
    assert_eq!(c.function_attr(), "decrease");
    c.setup(IoCntMode::ABEncoder, IoCntTrigger::AnyEdge, IoCntDirection::Up).unwrap();
    assert_eq!(c.function_attr(), "quadrature x4");
    c.set_preload(10);
    assert_eq!(c.count_from(5), 15);
    assert_eq!(c.count_from(i32::MAX), i32::MAX.wrapping_add(10));
}

#[test]
fn sweep_messages_follow_the_reads() {
    let cs = vec![4, 2, 9];
    let reads: Vec<Result<i64>> = vec![Ok(40), Err(Error::AccessFailed), Ok(90)];
    let msgs: Vec<ValueChanged<f64>> = analog_sweep_messages(&cs, &reads);
    assert_eq!(
        msgs,
        vec![ValueChanged::Ain(4, 40), ValueChanged::Ain(9, 90), ValueChanged::Flush]
    );
    let reads: Vec<Result<f64>> = vec![Err(Error::InvalidChannel), Ok(1.5), Ok(2.5)];
    assert_eq!(
        temperature_sweep_messages(&cs, &reads),
        vec![ValueChanged::Temp(2, 1.5), ValueChanged::Temp(9, 2.5), ValueChanged::Flush]
    );
}
