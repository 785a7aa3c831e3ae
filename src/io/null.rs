//! Placeholder channels for capabilities a device does not have.
use vstd::prelude::*;

use crate::error::{Error, Result};
use crate::ffi::{IoTmpMode, IoTmpSensorType};
use crate::{DigitalInput, DigitalOutput, IoChannel, TempSensor, Watchdog};

verus! {

#[derive(Debug, Clone, Copy, PartialEq, Eq, Structural)]
pub enum Behaviour {
    NotImplemented,
    AlwaysActive,
}

/// A digital output that does not exist: every write fails with `NotImplemented`.
pub struct Output {
    /// The channel number of the last acquisition, while acquired.
    pub acquired: Ghost<Option<usize>>,
}

impl Output {
    pub fn not_implemented() -> (r: Output)
        ensures
            r.acquired@ is None,
    {
        Output { acquired: Ghost(None) }
    }
}

impl IoChannel for Output {
    open spec fn reacquirable(&self) -> bool {
        true
    }

    open spec fn dummy(&self) -> bool {
        true
    }

    open spec fn label_spec(&self) -> Option<&'static str> {
        None
    }

    open spec fn acquired(&self) -> Option<usize> {
        self.acquired@
    }

    fn init(&mut self, chan_number: usize) -> (r: Result<()>) {
        self.acquired = Ghost(Some(chan_number));
        Ok(())
    }

    fn shutdown(&mut self) -> (r: Result<()>) {
        self.acquired = Ghost(None);
        Ok(())
    }

    fn is_dummy(&self) -> (r: bool) {
        true
    }

    fn label(&self) -> (r: Option<&'static str>) {
        None
    }
}

impl DigitalOutput for Output {
    open spec fn level(&self) -> Option<bool> {
        None
    }

    fn set(&mut self, _val: bool) -> (r: Result<()>)
        ensures
            r == Err::<(), Error>(Error::NotImplemented),
    {
        Err(Error::NotImplemented)
    }
}

/// A digital input that does not exist: it either fails with
/// `NotImplemented` or always reads as active.
pub struct Input {
    pub behaviour: Behaviour,
    /// The channel number of the last acquisition, while acquired.
    pub acquired: Ghost<Option<usize>>,
}

impl Input {
    pub fn not_implemented() -> (r: Input)
        ensures
            r.behaviour == Behaviour::NotImplemented,
            r.acquired@ is None,
    {
        Input { behaviour: Behaviour::NotImplemented, acquired: Ghost(None) }
    }

    pub fn always_active() -> (r: Input)
        ensures
            r.behaviour == Behaviour::AlwaysActive,
            r.acquired@ is None,
    {
        Input { behaviour: Behaviour::AlwaysActive, acquired: Ghost(None) }
    }
}

impl IoChannel for Input {
    open spec fn reacquirable(&self) -> bool {
        true
    }

    open spec fn dummy(&self) -> bool {
        true
    }

    open spec fn label_spec(&self) -> Option<&'static str> {
        None
    }

    open spec fn acquired(&self) -> Option<usize> {
        self.acquired@
    }

    fn init(&mut self, chan_number: usize) -> (r: Result<()>)
        ensures
            final(self).behaviour == old(self).behaviour,
    {
        self.acquired = Ghost(Some(chan_number));
        Ok(())
    }

    fn shutdown(&mut self) -> (r: Result<()>)
        ensures
            final(self).behaviour == old(self).behaviour,
    {
        self.acquired = Ghost(None);
        Ok(())
    }

    fn is_dummy(&self) -> (r: bool) {
        true
    }

    fn label(&self) -> (r: Option<&'static str>) {
        None
    }
}

impl DigitalInput for Input {
    fn get(&mut self) -> (r: Result<bool>)
        ensures
            final(self).behaviour == old(self).behaviour,
            final(self).acquired == old(self).acquired,
            r == (match old(self).behaviour {
                Behaviour::NotImplemented => Err(Error::NotImplemented),
                Behaviour::AlwaysActive => Ok(true),
            }),
    {
        match self.behaviour {
            Behaviour::NotImplemented => Err(Error::NotImplemented),
            Behaviour::AlwaysActive => Ok(true),
        }
    }
}

/// A temperature sensor that does not exist.
pub struct Temp {
    /// The channel number of the last acquisition, while acquired.
    pub acquired: Ghost<Option<usize>>,
}

impl Temp {
    pub fn new() -> (r: Temp)
        ensures
            r.acquired@ is None,
    {
        Temp { acquired: Ghost(None) }
    }
}

impl IoChannel for Temp {
    open spec fn reacquirable(&self) -> bool {
        true
    }

    open spec fn dummy(&self) -> bool {
        true
    }

    open spec fn label_spec(&self) -> Option<&'static str> {
        None
    }

    open spec fn acquired(&self) -> Option<usize> {
        self.acquired@
    }

    fn init(&mut self, chan_number: usize) -> (r: Result<()>) {
        self.acquired = Ghost(Some(chan_number));
        Ok(())
    }

    fn shutdown(&mut self) -> (r: Result<()>) {
        self.acquired = Ghost(None);
        Ok(())
    }

    fn is_dummy(&self) -> (r: bool) {
        true
    }

    fn label(&self) -> (r: Option<&'static str>) {
        None
    }
}

impl<V> TempSensor<V> for Temp {
    open spec fn tmp_config(&self) -> Option<(IoTmpMode, IoTmpSensorType)> {
        None
    }

    fn get(&mut self) -> (r: Result<V>) {
        Err(Error::NotImplemented)
    }

    fn set_mode(&mut self, _mode: IoTmpMode, _sensor_type: IoTmpSensorType) -> (r: Result<()>) {
        Err(Error::NotImplemented)
    }
}

/// A watchdog that accepts every request and does nothing.
#[derive(Debug, Default)]
pub struct Wdg {}

impl Wdg {
    pub fn new() -> (r: Wdg) {
        Wdg {}
    }
}

impl Watchdog for Wdg {
    fn enable(&mut self, _monitor: bool) -> (r: Result<()>)
        ensures
            r is Ok,
    {
        Ok(())
    }

    fn service(&mut self) -> (r: Result<()>)
        ensures
            r is Ok,
    {
        Ok(())
    }
}

} // verus!
