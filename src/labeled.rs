//! A decorator that attaches a static name to a channel.
use vstd::prelude::*;

use crate::error::Result;
use crate::ffi::{
    IoAnalogMode, IoCntDirection, IoCntMode, IoCntTrigger, IoPwmTimebase, IoTmpMode,
    IoTmpSensorType,
};
use crate::{
    AnalogInput, AnalogOutput, CounterInput, DigitalInput, DigitalOutput, IoChannel, PwmOutput,
    TempSensor, Watchdog,
};

verus! {

/// A channel with a name. Every operation is forwarded to `inner` unchanged;
/// only `label` answers with the attached name.
#[derive(Debug)]
pub struct Labeled<T> {
    pub label: &'static str,
    pub inner: T,
}

impl<T> Labeled<T> {
    pub fn new(label: &'static str, inner: T) -> (r: Labeled<T>)
        ensures
            r.label == label,
            r.inner == inner,
    {
        Labeled { label, inner }
    }
}

impl<T: IoChannel> IoChannel for Labeled<T> {
    open spec fn reacquirable(&self) -> bool {
        self.inner.reacquirable()
    }

    open spec fn dummy(&self) -> bool {
        self.inner.dummy()
    }

    open spec fn label_spec(&self) -> Option<&'static str> {
        Some(self.label)
    }

    open spec fn acquired(&self) -> Option<usize> {
        self.inner.acquired()
    }

    fn init(&mut self, chan_number: usize) -> (r: Result<()>) {
        self.inner.init(chan_number)
    }

    fn shutdown(&mut self) -> (r: Result<()>) {
        self.inner.shutdown()
    }

    fn is_dummy(&self) -> (r: bool) {
        self.inner.is_dummy()
    }

    fn label(&self) -> (r: Option<&'static str>) {
        Some(self.label)
    }
}

impl<T: DigitalOutput> DigitalOutput for Labeled<T> {
    open spec fn level(&self) -> Option<bool> {
        self.inner.level()
    }

    fn set(&mut self, val: bool) -> (r: Result<()>) {
        self.inner.set(val)
    }
}

impl<T: DigitalInput> DigitalInput for Labeled<T> {
    fn get(&mut self) -> (r: Result<bool>) {
        self.inner.get()
    }
}

impl<T: AnalogInput> AnalogInput for Labeled<T> {
    open spec fn mode(&self) -> Option<IoAnalogMode> {
        self.inner.mode()
    }

    fn get(&mut self) -> (r: Result<i64>) {
        self.inner.get()
    }

    fn set_mode(&mut self, mode: IoAnalogMode) -> (r: Result<()>) {
        self.inner.set_mode(mode)
    }
}

impl<T: AnalogOutput> AnalogOutput for Labeled<T> {
    fn set(&mut self, value: i64) -> (r: Result<()>) {
        self.inner.set(value)
    }
}

impl<T: TempSensor<U>, U> TempSensor<U> for Labeled<T> {
    open spec fn tmp_config(&self) -> Option<(IoTmpMode, IoTmpSensorType)> {
        self.inner.tmp_config()
    }

    fn get(&mut self) -> (r: Result<U>) {
        self.inner.get()
    }

    fn set_mode(&mut self, mode: IoTmpMode, sensor_type: IoTmpSensorType) -> (r: Result<()>) {
        self.inner.set_mode(mode, sensor_type)
    }
}

impl<T: Watchdog> Watchdog for Labeled<T> {
    fn enable(&mut self, monitor: bool) -> (r: Result<()>) {
        self.inner.enable(monitor)
    }

    fn service(&mut self) -> (r: Result<()>) {
        self.inner.service()
    }
}

impl<T: CounterInput> CounterInput for Labeled<T> {
    fn enable(&mut self, state: bool) -> (r: Result<()>) {
        self.inner.enable(state)
    }

    fn setup(
        &mut self,
        mode: IoCntMode,
        trigger: IoCntTrigger,
        direction: IoCntDirection,
    ) -> (r: Result<()>) {
        self.inner.setup(mode, trigger, direction)
    }

    fn set_preload(&mut self, preload: i32) -> (r: Result<()>) {
        self.inner.set_preload(preload)
    }

    fn get(&mut self) -> (r: Result<i32>) {
        self.inner.get()
    }
}

impl<T: PwmOutput> PwmOutput for Labeled<T> {
    fn enable(&mut self, state: bool) -> (r: Result<()>) {
        self.inner.enable(state)
    }

    fn setup(&mut self, period: u16, duty_cycle: u16) -> (r: Result<()>) {
        self.inner.setup(period, duty_cycle)
    }

    fn set_timebase(&mut self, timebase: IoPwmTimebase) -> (r: Result<()>) {
        self.inner.set_timebase(timebase)
    }
}

} // verus!
