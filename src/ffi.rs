//! Plain value types shared by the foreign-call surface and the channel traits.
use vstd::prelude::*;

use crate::error::{Error, Result};

verus! {

/// Status code reported across the foreign-call boundary.
#[derive(Debug, Clone, Copy, PartialEq, Eq, Structural)]
pub enum IoResult {
    Success,
    Error,
    NotImplemented,
    InvalidParameter,
    InvalidChannel,
    InvalidMode,
    InvalidTimebase,
    InvalidDelta,
    PtoParamTabFull,
    DevAccessFailed,
    Reserved0,
    Reserved1,
    ShpImgError,
    AddressOutOfRange,
    WatchdogTimeout,
}

/// The status code that stands for the outcome `r`.
pub open spec fn io_result_spec<T>(r: Result<T>) -> IoResult {
    match r {
        Ok(_) => IoResult::Success,
        Err(Error::InvalidChannel) => IoResult::InvalidChannel,
        Err(Error::InvalidParameter) => IoResult::InvalidParameter,
        Err(Error::NotImplemented) => IoResult::NotImplemented,
        Err(Error::WatchdogTimeout) => IoResult::WatchdogTimeout,
        Err(Error::AccessFailed) => IoResult::DevAccessFailed,
        Err(Error::ParseIntError) => IoResult::Error,
        Err(Error::GenericError) => IoResult::Error,
    }
}

impl IoResult {
    /// Converts an operation outcome to the status code reported to C callers.
    pub fn from_result<T>(r: &Result<T>) -> (c: IoResult)
        ensures
            c == io_result_spec(*r),
    {
        match r {
            Ok(_) => IoResult::Success,
            Err(Error::InvalidChannel) => IoResult::InvalidChannel,
            Err(Error::InvalidParameter) => IoResult::InvalidParameter,
            Err(Error::NotImplemented) => IoResult::NotImplemented,
            Err(Error::WatchdogTimeout) => IoResult::WatchdogTimeout,
            Err(Error::AccessFailed) => IoResult::DevAccessFailed,
            Err(Error::ParseIntError) => IoResult::Error,
            Err(Error::GenericError) => IoResult::Error,
        }
    }

    /// The numeric code of the status on the C interface.
    pub fn code(&self) -> (r: u32)
        ensures
            *self == IoResult::Success <==> r == 0,
            r == 0 || 0xf2 <= r <= 0xff,
    {
        match self {
            IoResult::Success => 0x00,
            IoResult::Error => 0xff,
            IoResult::NotImplemented => 0xfe,
            IoResult::InvalidParameter => 0xfd,
            IoResult::InvalidChannel => 0xfc,
            IoResult::InvalidMode => 0xfb,
            IoResult::InvalidTimebase => 0xfa,
            IoResult::InvalidDelta => 0xf9,
            IoResult::PtoParamTabFull => 0xf8,
            IoResult::DevAccessFailed => 0xf7,
            IoResult::Reserved0 => 0xf6,
            IoResult::Reserved1 => 0xf5,
            IoResult::ShpImgError => 0xf4,
            IoResult::AddressOutOfRange => 0xf3,
            IoResult::WatchdogTimeout => 0xf2,
        }
    }
}

/// Hardware information: revision and channel counts of the device.
#[derive(Debug, Clone, Copy, PartialEq, Eq, Structural, Default)]
#[allow(non_snake_case)]
pub struct IoHwInfo {
    pub m_uPcbRevision: u8,
    pub m_uDiChannels: u8,
    pub m_uDoChannels: u8,
    pub m_uAiChannels: u8,
    pub m_uAoChannels: u8,
    pub m_uTmpChannels: u8,
    pub m_uCntChannels: u8,
    pub m_uEncChannels: u8,
    pub m_uPwmChannels: u8,
    pub m_uLegacyDiChannels: u8,
    pub m_uLegacyDoChannels: u8,
    pub m_uLegacyRelayChannels: u8,
    pub m_uLegacyRelayOffset: u8,
}

/// Boolean type of the C interface.
#[derive(Debug, Clone, Copy, PartialEq, Eq, Structural)]
pub enum IoBool {
    False,
    True,
}

impl IoBool {
    pub fn from_bool(value: bool) -> (r: IoBool)
        ensures
            r == (if value { IoBool::True } else { IoBool::False }),
    {
        if value {
            IoBool::True
        } else {
            IoBool::False
        }
    }

    /// The value of the C code `code`: any non-zero code is true.
    pub fn from_code(code: u8) -> (r: IoBool)
        ensures
            r == (if code != 0 { IoBool::True } else { IoBool::False }),
    {
        if code != 0 {
            IoBool::True
        } else {
            IoBool::False
        }
    }

    pub fn negate(self) -> (r: IoBool)
        ensures
            r == (if self == IoBool::True { IoBool::False } else { IoBool::True }),
    {
        match self {
            IoBool::True => IoBool::False,
            IoBool::False => IoBool::True,
        }
    }

    pub fn as_bool(&self) -> (r: bool)
        ensures
            r == (*self == IoBool::True),
    {
        match self {
            IoBool::True => true,
            IoBool::False => false,
        }
    }
}

/// Trigger for asynchronous digital input handling.
#[derive(Debug, Clone, Copy, PartialEq, Eq, Structural)]
pub enum IoInputTrigger {
    Disabled,
    RisingEdge,
    FallingEdge,
    BothEdge,
}

/// Analog channel mode.
#[derive(Debug, Clone, Copy, PartialEq, Eq, Structural)]
pub enum IoAnalogMode {
    Voltage,
    Current,
}

/// Temperature channel wiring mode.
#[derive(Debug, Clone, Copy, PartialEq, Eq, Structural)]
pub enum IoTmpMode {
    RtdTwoWire,
    RtdThreeWire,
    RtdFourWire,
}

/// Temperature sensor type.
#[derive(Debug, Clone, Copy, PartialEq, Eq, Structural)]
pub enum IoTmpSensorType {
    PT100,
    PT1000,
}

/// Counter mode.
#[derive(Debug, Clone, Copy, PartialEq, Eq, Structural)]
pub enum IoCntMode {
    Counter,
    ABEncoder,
}

/// Edge on which a counter counts.
#[derive(Debug, Clone, Copy, PartialEq, Eq, Structural)]
pub enum IoCntTrigger {
    RisingEdge,
    FallingEdge,
    AnyEdge,
}

/// Counting direction.
#[derive(Debug, Clone, Copy, PartialEq, Eq, Structural)]
pub enum IoCntDirection {
    Up,
    Down,
}

/// Time base of a PWM output.
#[derive(Debug, Clone, Copy, PartialEq, Eq, Structural)]
pub enum IoPwmTimebase {
    Ns800,
    Ms1,
}

impl IoInputTrigger {
    /// The numeric code of the value on the C interface.
    pub open spec fn code_spec(&self) -> u32 {
        match self {
            IoInputTrigger::Disabled => 0,
            IoInputTrigger::RisingEdge => 1,
            IoInputTrigger::FallingEdge => 2,
            IoInputTrigger::BothEdge => 3,
        }
    }

    pub fn code(&self) -> (r: u32)
        ensures
            r == self.code_spec(),
    {
        match self {
            IoInputTrigger::Disabled => 0,
            IoInputTrigger::RisingEdge => 1,
            IoInputTrigger::FallingEdge => 2,
            IoInputTrigger::BothEdge => 3,
        }
    }

    /// The value with C code `code`; an unknown code gives `Disabled`.
    pub fn from_code(code: u32) -> (r: IoInputTrigger)
        ensures
            r == (if code == 0 {
                    IoInputTrigger::Disabled
                } else if code == 1 {
                    IoInputTrigger::RisingEdge
                } else if code == 2 {
                    IoInputTrigger::FallingEdge
                } else if code == 3 {
                    IoInputTrigger::BothEdge
                } else {
                    IoInputTrigger::Disabled
                }),
    {
        if code == 0 {
            IoInputTrigger::Disabled
        } else if code == 1 {
            IoInputTrigger::RisingEdge
        } else if code == 2 {
            IoInputTrigger::FallingEdge
        } else if code == 3 {
            IoInputTrigger::BothEdge
        } else {
            IoInputTrigger::Disabled
        }
    }
}

impl IoAnalogMode {
    /// The numeric code of the value on the C interface.
    pub open spec fn code_spec(&self) -> u8 {
        match self {
            IoAnalogMode::Voltage => 0,
            IoAnalogMode::Current => 1,
        }
    }

    pub fn code(&self) -> (r: u8)
        ensures
            r == self.code_spec(),
    {
        match self {
            IoAnalogMode::Voltage => 0,
            IoAnalogMode::Current => 1,
        }
    }

    /// The value with C code `code`; an unknown code gives `Voltage`.
    pub fn from_code(code: u8) -> (r: IoAnalogMode)
        ensures
            r == (if code == 0 {
                    IoAnalogMode::Voltage
                } else if code == 1 {
                    IoAnalogMode::Current
                } else {
                    IoAnalogMode::Voltage
                }),
    {
        if code == 0 {
            IoAnalogMode::Voltage
        } else if code == 1 {
            IoAnalogMode::Current
        } else {
            IoAnalogMode::Voltage
        }
    }
}

impl IoTmpMode {
    /// The numeric code of the value on the C interface.
    pub open spec fn code_spec(&self) -> u8 {
        match self {
            IoTmpMode::RtdTwoWire => 0,
            IoTmpMode::RtdThreeWire => 1,
            IoTmpMode::RtdFourWire => 2,
        }
    }

    pub fn code(&self) -> (r: u8)
        ensures
            r == self.code_spec(),
    {
        match self {
            IoTmpMode::RtdTwoWire => 0,
            IoTmpMode::RtdThreeWire => 1,
            IoTmpMode::RtdFourWire => 2,
        }
    }

    /// The value with C code `code`; an unknown code gives `RtdTwoWire`.
    pub fn from_code(code: u8) -> (r: IoTmpMode)
        ensures
            r == (if code == 0 {
                    IoTmpMode::RtdTwoWire
                } else if code == 1 {
                    IoTmpMode::RtdThreeWire
                } else if code == 2 {
                    IoTmpMode::RtdFourWire
                } else {
                    IoTmpMode::RtdTwoWire
                }),
    {
        if code == 0 {
            IoTmpMode::RtdTwoWire
        } else if code == 1 {
            IoTmpMode::RtdThreeWire
        } else if code == 2 {
            IoTmpMode::RtdFourWire
        } else {
            IoTmpMode::RtdTwoWire
        }
    }
}

impl IoTmpSensorType {
    /// The numeric code of the value on the C interface.
    pub open spec fn code_spec(&self) -> u8 {
        match self {
            IoTmpSensorType::PT100 => 0,
            IoTmpSensorType::PT1000 => 1,
        }
    }

    pub fn code(&self) -> (r: u8)
        ensures
            r == self.code_spec(),
    {
        match self {
            IoTmpSensorType::PT100 => 0,
            IoTmpSensorType::PT1000 => 1,
        }
    }

    /// The value with C code `code`; an unknown code gives `PT100`.
    pub fn from_code(code: u8) -> (r: IoTmpSensorType)
        ensures
            r == (if code == 0 {
                    IoTmpSensorType::PT100
                } else if code == 1 {
                    IoTmpSensorType::PT1000
                } else {
                    IoTmpSensorType::PT100
                }),
    {
        if code == 0 {
            IoTmpSensorType::PT100
        } else if code == 1 {
            IoTmpSensorType::PT1000
        } else {
            IoTmpSensorType::PT100
        }
    }
}

impl IoCntMode {
    /// The numeric code of the value on the C interface.
    pub open spec fn code_spec(&self) -> u8 {
        match self {
            IoCntMode::Counter => 0,
            IoCntMode::ABEncoder => 1,
        }
    }

    pub fn code(&self) -> (r: u8)
        ensures
            r == self.code_spec(),
    {
        match self {
            IoCntMode::Counter => 0,
            IoCntMode::ABEncoder => 1,
        }
    }

    /// The value with C code `code`; an unknown code gives `Counter`.
    pub fn from_code(code: u8) -> (r: IoCntMode)
        ensures
            r == (if code == 0 {
                    IoCntMode::Counter
                } else if code == 1 {
                    IoCntMode::ABEncoder
                } else {
                    IoCntMode::Counter
                }),
    {
        if code == 0 {
            IoCntMode::Counter
        } else if code == 1 {
            IoCntMode::ABEncoder
        } else {
            IoCntMode::Counter
        }
    }
}

impl IoCntTrigger {
    /// The numeric code of the value on the C interface.
    pub open spec fn code_spec(&self) -> u8 {
        match self {
            IoCntTrigger::RisingEdge => 0,
            IoCntTrigger::FallingEdge => 1,
            IoCntTrigger::AnyEdge => 2,
        }
    }

    pub fn code(&self) -> (r: u8)
        ensures
            r == self.code_spec(),
    {
        match self {
            IoCntTrigger::RisingEdge => 0,
            IoCntTrigger::FallingEdge => 1,
            IoCntTrigger::AnyEdge => 2,
        }
    }

    /// The value with C code `code`; an unknown code gives `RisingEdge`.
    pub fn from_code(code: u8) -> (r: IoCntTrigger)
        ensures
            r == (if code == 0 {
                    IoCntTrigger::RisingEdge
                } else if code == 1 {
                    IoCntTrigger::FallingEdge
                } else if code == 2 {
                    IoCntTrigger::AnyEdge
                } else {
                    IoCntTrigger::RisingEdge
                }),
    {
        if code == 0 {
            IoCntTrigger::RisingEdge
        } else if code == 1 {
            IoCntTrigger::FallingEdge
        } else if code == 2 {
            IoCntTrigger::AnyEdge
        } else {
            IoCntTrigger::RisingEdge
        }
    }
}

impl IoCntDirection {
    /// The numeric code of the value on the C interface.
    pub open spec fn code_spec(&self) -> u8 {
        match self {
            IoCntDirection::Up => 0,
            IoCntDirection::Down => 1,
        }
    }

    pub fn code(&self) -> (r: u8)
        ensures
            r == self.code_spec(),
    {
        match self {
            IoCntDirection::Up => 0,
            IoCntDirection::Down => 1,
        }
    }

    /// The value with C code `code`; an unknown code gives `Up`.
    pub fn from_code(code: u8) -> (r: IoCntDirection)
        ensures
            r == (if code == 0 {
                    IoCntDirection::Up
                } else if code == 1 {
                    IoCntDirection::Down
                } else {
                    IoCntDirection::Up
                }),
    {
        if code == 0 {
            IoCntDirection::Up
        } else if code == 1 {
            IoCntDirection::Down
        } else {
            IoCntDirection::Up
        }
    }
}

impl IoPwmTimebase {
    /// The numeric code of the value on the C interface.
    pub open spec fn code_spec(&self) -> u8 {
        match self {
            IoPwmTimebase::Ns800 => 1,
            IoPwmTimebase::Ms1 => 2,
        }
    }

    pub fn code(&self) -> (r: u8)
        ensures
            r == self.code_spec(),
    {
        match self {
            IoPwmTimebase::Ns800 => 1,
            IoPwmTimebase::Ms1 => 2,
        }
    }

    /// The value with C code `code`; an unknown code gives `Ns800`.
    pub fn from_code(code: u8) -> (r: IoPwmTimebase)
        ensures
            r == (if code == 1 {
                    IoPwmTimebase::Ns800
                } else if code == 2 {
                    IoPwmTimebase::Ms1
                } else {
                    IoPwmTimebase::Ns800
                }),
    {
        if code == 1 {
            IoPwmTimebase::Ns800
        } else if code == 2 {
            IoPwmTimebase::Ms1
        } else {
            IoPwmTimebase::Ns800
        }
    }
}

} // verus!
