use sysworxx_io::io::lookup::Lookup;
use sysworxx_io::io::util::{Ao, Clip, PairMap, Shift, Shifter};

#[derive(Default, Debug, PartialEq, Eq)]
struct Foo(u32);

#[test]
fn clip_test() {
    let clip = Clip::new(2, 8);

    assert_eq!(2, clip.clip(1));
    assert_eq!(2, clip.clip(2));
    assert_eq!(3, clip.clip(3));

    assert_eq!(7, clip.clip(7));
    assert_eq!(8, clip.clip(8));
    assert_eq!(8, clip.clip(9));
}

#[test]
fn test_shifter_test() {
    let shifter = Shifter::new(Shift::Down(3));
    assert_eq!(1, shifter.shift(8));
    let shifter = Shifter::new(Shift::Up(3));
    assert_eq!(8, shifter.shift(1));
}

#[test]
fn shifter_rounds_down_negative_values() {
    assert_eq!(-2, Shifter::new(Shift::Down(2)).shift(-5));
    assert_eq!(-20, Shifter::new(Shift::Up(2)).shift(-5));
}

#[test]
fn shifter_full_width() {
    assert_eq!(-1, Shifter::new(Shift::Down(64)).shift(-5));
    assert_eq!(0, Shifter::new(Shift::Down(200)).shift(5));
    assert_eq!(0, Shifter::new(Shift::Up(64)).shift(5));
}

#[test]
fn pairmap_test() {
    let mut pm: PairMap<u16, u64> = PairMap::default();
    pm.set(0, 123);
    pm.set(1, 456);
    pm.set(2, 789);

    assert_eq!(pm.get(0), Some(&123));
    assert_eq!(pm.get(1), Some(&456));
    assert_eq!(pm.get(2), Some(&789));
    assert_eq!(pm.get(3), None);

    let v = pm.get_mut(0).unwrap();
    *v = 321;
    let v = pm.get_mut(1).unwrap();
    *v = 654;
    let v = pm.get_mut(2).unwrap();
    *v = 987;

    assert_eq!(pm.get(0), Some(&321));
    assert_eq!(pm.get(1), Some(&654));
    assert_eq!(pm.get(2), Some(&987));
    assert_eq!(pm.get(3), None);

    let mut iter = pm.iter();
    assert_eq!(iter.next(), Some(&(0, 321)));
    assert_eq!(iter.next(), Some(&(1, 654)));
    assert_eq!(iter.next(), Some(&(2, 987)));
    assert_eq!(iter.next(), None);
    drop(iter);

    let mut iter_mut = pm.iter_mut();
    *iter_mut.next().unwrap() = (0, 111);
    *iter_mut.next().unwrap() = (1, 222);
    *iter_mut.next().unwrap() = (2, 333);
    assert_eq!(iter_mut.next(), None);
    drop(iter_mut);

    assert_eq!(pm.get(0), Some(&111));
    assert_eq!(pm.get(1), Some(&222));
    assert_eq!(pm.get(2), Some(&333));
}

#[test]
fn pairmap_test_struct() {
    let mut pm: PairMap<u16, Foo> = PairMap::default();

    pm.set(0, Foo(123));
    pm.set(1, Foo(456));
    pm.set(2, Foo(789));

    assert_eq!(pm.get(0), Some(&Foo(123)));
    assert_eq!(pm.get(1), Some(&Foo(456)));
    assert_eq!(pm.get(2), Some(&Foo(789)));

    let v = pm.get_mut(0).unwrap();
    *v = Foo(321);
    let v = pm.get_mut(1).unwrap();
    *v = Foo(654);
    let v = pm.get_mut(2).unwrap();
    *v = Foo(987);

    assert_eq!(pm.get(0), Some(&Foo(321)));
    assert_eq!(pm.get(1), Some(&Foo(654)));
    assert_eq!(pm.get(2), Some(&Foo(987)));
}

#[test]
fn pairmap_set_existing_key_keeps_order() {
    let mut pm: PairMap<usize, i32> = PairMap::new();
    pm.set(5, 1);
    pm.set(7, 2);
    pm.set(5, 3);
    assert!(pm.contains(5));
    assert!(!pm.contains(6));
    let pairs: Vec<(usize, i32)> = pm.iter().copied().collect();
    assert_eq!(pairs, vec![(5, 3), (7, 2)]);
    assert_eq!(pm.get_mut(6), None);
}

#[test]
fn gpio_lookup_by_chip_label() {
    let lookup = Lookup::new(vec![
        ("gpiochip-a".to_string(), 0),
        ("30e0000.gpio".to_string(), 480),
    ]);
    assert_eq!(lookup.base("30e0000.gpio"), Some(480));
    assert_eq!(lookup.gpio_pin("30e0000.gpio", 7), Some(487));
    assert_eq!(lookup.gpio_pin("missing", 7), None);
    assert_eq!(lookup.gpio_pair_adc("gpiochip-a", 3), Some((3, 7)));
    assert_eq!(lookup.gpio_pair_adc("missing", 3), None);
    let big = Lookup::new(vec![("top".to_string(), usize::MAX - 5)]);
    assert_eq!(big.gpio_pin("top", 6), None);
    assert_eq!(big.gpio_pair_adc("top", 2), None);
    assert_eq!(big.gpio_pin("top", 5), Some(usize::MAX));
}

#[test]
fn analog_output_calibrates_clips_and_skips_repeats() {
    let mut ao = Ao::new(0, Shifter::new(Shift::Down(1)), Clip::new(0, 4095), 20000, 5000);
    assert_eq!(ao.prepare(100), Some(101));
    assert_eq!(ao.prepare(100), None);
    assert_eq!(ao.prepare(10000), Some(4095));
    assert_eq!(ao.prepare(-7), Some(0));
    assert_eq!(ao.last_value, -7);
}
