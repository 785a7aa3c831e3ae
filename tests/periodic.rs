use sysworxx_io::periodic::Periodic;

const MS: u64 = 1_000_000;
const START: u64 = 5_000 * MS;

#[test]
fn calc_delay_immediately_test() {
    let now = START;
    let mut i = Periodic::new(100 * MS);
    assert_eq!(i.calc_delay(now, now), 100 * MS);
}

#[test]
fn calc_delay_on_exact_interval_test() {
    let now = START;
    let t = now + 100 * MS;
    let mut i = Periodic::new(100 * MS);
    assert_eq!(i.calc_delay(t, now), 0);
}

#[test]
fn calc_delay_in_time_test() {
    let now = START;
    let t = now + 50 * MS;
    let mut i = Periodic::new(100 * MS);
    assert_eq!(i.calc_delay(t, now), 50 * MS);
}

#[test]
fn calc_delay_missed_one_interval_test() {
    let now = START;
    let t = now + 130 * MS;
    let mut i = Periodic::new(100 * MS);
    assert_eq!(i.calc_delay(t, now), 70 * MS);
    assert_eq!(i.last, Some(now + 200 * MS));
}

#[test]
fn first_run_is_immediate_then_periodic() {
    let mut p = Periodic::new(100 * MS);
    assert_eq!(p.elapsed(START), 0);
    assert_eq!(p.next(START), 0);
    assert_eq!(p.last, Some(START));
    assert_eq!(p.next(START + 30 * MS), 70 * MS);
    assert_eq!(p.last, Some(START + 100 * MS));
    assert_eq!(p.elapsed(START + 150 * MS), 50 * MS);
}

#[test]
fn clock_before_deadline_waits_full_period() {
    let mut p = Periodic::new(100 * MS);
    assert_eq!(p.calc_delay(START, START + 10 * MS), 100 * MS);
}

#[test]
fn zero_interval_never_waits() {
    let mut p = Periodic::new(0);
    assert_eq!(p.calc_delay(START + 7, START), 0);
    assert_eq!(p.last, Some(START + 7));
}
