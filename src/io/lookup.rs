//! Resolution of GPIO line numbers from the labels of the GPIO chips.
use vstd::prelude::*;
use vstd::string::StringSliceAdditionalSpecFns;
use vstd::utf8::encode_utf8;

verus! {

/// Whether a digital input reads active on a low or on a high line.
#[derive(Debug, Clone, Copy, PartialEq, Eq, Structural)]
pub enum LogicLevel {
    ActiveLow,
    ActiveHigh,
}

/// Offset from a voltage-select line of an analog input to its current-select line.
pub const ADC_CURRENT_PIN_DISTANCE: usize = 4;

/// The base line number of the first chip in `map` labelled `chip`.
pub open spec fn base_of(map: Seq<(String, usize)>, chip: Seq<u8>) -> Option<usize>
    decreases map.len(),
{
    if map.len() == 0 {
        None
    } else if encode_utf8(map[0].0@) == chip {
        Some(map[0].1)
    } else {
        base_of(map.skip(1), chip)
    }
}

/// The line `offset` of chip `chip`, where the chip is known and the number fits.
pub open spec fn pin_of(map: Seq<(String, usize)>, chip: Seq<u8>, offset: usize) -> Option<usize> {
    match base_of(map, chip) {
        Some(base) => if base + offset <= usize::MAX {
            Some((base + offset) as usize)
        } else {
            None
        },
        None => None,
    }
}

fn bytes_eq(a: &[u8], b: &[u8]) -> (r: bool)
    ensures
        r == (a@ == b@),
{
    if a.len() != b.len() {
        return false;
    }
    let mut i: usize = 0;
    while i < a.len()
        invariant
            a@.len() == b@.len(),
            i <= a@.len(),
            forall|j: int| 0 <= j < i ==> a@[j] == b@[j],
        decreases a@.len() - i,
    {
        if a[i] != b[i] {
            return false;
        }
        i = i + 1;
    }
    assert(a@ =~= b@);
    true
}

/// The base line numbers of the GPIO chips, by chip label.
pub struct Lookup {
    pub gpio_map: Vec<(String, usize)>,
}

impl Lookup {
    /// `gpio_map` pairs each chip label with the chip's first line number.
    pub fn new(gpio_map: Vec<(String, usize)>) -> (r: Lookup)
        ensures
            r.gpio_map == gpio_map,
    {
        Lookup { gpio_map }
    }

    /// The base line number of chip `chip`.
    pub fn base(&self, chip: &str) -> (r: Option<usize>)
        ensures
            r == base_of(self.gpio_map@, chip.spec_bytes()),
    {
        let key = chip.as_bytes();
        let mut i: usize = 0;
        assert(self.gpio_map@.skip(0) =~= self.gpio_map@);
        while i < self.gpio_map.len()
            invariant
                i <= self.gpio_map@.len(),
                key@ == chip.spec_bytes(),
                base_of(self.gpio_map@, key@) == base_of(self.gpio_map@.skip(i as int), key@),
            decreases self.gpio_map@.len() - i,
        {
            assert(self.gpio_map@.skip(i as int).skip(1) =~= self.gpio_map@.skip(i + 1));
            let label = self.gpio_map[i].0.as_str().as_bytes();
            if bytes_eq(label, key) {
                return Some(self.gpio_map[i].1);
            }
            i = i + 1;
        }
        None
    }

    /// The number of line `gpio_pin_offset` of chip `gpio_chip`; `None` where
    /// the chip is unknown or the number does not fit.
    pub fn gpio_pin(&self, gpio_chip: &str, gpio_pin_offset: usize) -> (r: Option<usize>)
        ensures
            r == pin_of(self.gpio_map@, gpio_chip.spec_bytes(), gpio_pin_offset),
    {
        match self.base(gpio_chip) {
            Some(base) => base.checked_add(gpio_pin_offset),
            None => None,
        }
    }

    /// The voltage-select and current-select lines of an analog input whose
    /// voltage-select line is `gpio_pin_offset` of chip `gpio_chip`.
    pub fn gpio_pair_adc(&self, gpio_chip: &str, gpio_pin_offset: usize) -> (r: Option<(usize, usize)>)
        ensures
            ({
                let v = pin_of(self.gpio_map@, gpio_chip.spec_bytes(), gpio_pin_offset);
                match v {
                    Some(p) => if p + ADC_CURRENT_PIN_DISTANCE <= usize::MAX {
                        r == Some((p, (p + ADC_CURRENT_PIN_DISTANCE) as usize))
                    } else {
                        r is None
                    },
                    None => r is None,
                }
            }),
    {
        match self.gpio_pin(gpio_chip, gpio_pin_offset) {
            Some(v) => match v.checked_add(ADC_CURRENT_PIN_DISTANCE) {
                Some(i) => Some((v, i)),
                None => None,
            },
            None => None,
        }
    }
}

} // verus!
