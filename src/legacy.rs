//! Structures of the legacy driver interface and their derivation from the
//! device facade.
use vstd::prelude::*;

use crate::ffi::IoHwInfo;
use crate::{
    AnalogInput, AnalogOutput, CounterInput, DigitalInput, DigitalOutput, Io, PwmOutput,
    TempSensor, Watchdog,
};

verus! {

/// Hardware information in the layout of the legacy driver interface.
#[allow(non_camel_case_types, non_snake_case)]
#[derive(Debug, Clone, Copy, PartialEq, Eq, Structural, Default)]
pub struct tCtr700DrvHwInfo {
    pub m_uPcbRevision: u16,
    pub m_uDiChannels: u16,
    pub m_uDoChannels: u16,
    pub m_uRelayChannels: u16,
    pub m_uAiChannels: u16,
    pub m_uAoChannels: u16,
    pub m_uCntChannels: u16,
    pub m_uEncChannels: u16,
    pub m_uPwmChannels: u16,
    pub m_uTmpChannels: u16,
}

/// Diagnostic flags of the legacy driver interface, one byte each (1 = set).
#[allow(non_camel_case_types, non_snake_case)]
#[derive(Debug, Clone, Copy, PartialEq, Eq, Structural, Default)]
pub struct tCtr700DrvDiagInfo {
    pub m_fDigiOutPowerFail: u8,
    pub m_fDigiOutDiag: u8,
    pub m_fDigiInError: u8,
    pub m_fUsbOverCurrent: u8,
}

/// Digital inputs that carry the diagnostic signals.
pub const DIAG_DIGI_IN_ERROR: usize = 33;

pub const DIAG_USB_OVER_CURRENT: usize = 34;

pub const DIAG_DIGI_OUT_POWER_FAIL: usize = 35;

pub const DIAG_DIGI_OUT_DIAG: usize = 36;

/// The legacy hardware information: the legacy channel counts stand for
/// the digital inputs, outputs and relays.
pub fn legacy_hw_info(info: &IoHwInfo) -> (r: tCtr700DrvHwInfo)
    ensures
        r == (tCtr700DrvHwInfo {
            m_uPcbRevision: info.m_uPcbRevision as u16,
            m_uDiChannels: info.m_uLegacyDiChannels as u16,
            m_uDoChannels: info.m_uLegacyDoChannels as u16,
            m_uRelayChannels: info.m_uLegacyRelayChannels as u16,
            m_uAiChannels: info.m_uAiChannels as u16,
            m_uAoChannels: info.m_uAoChannels as u16,
            m_uCntChannels: info.m_uCntChannels as u16,
            m_uEncChannels: info.m_uEncChannels as u16,
            m_uPwmChannels: info.m_uPwmChannels as u16,
            m_uTmpChannels: info.m_uTmpChannels as u16,
        }),
{
    tCtr700DrvHwInfo {
        m_uPcbRevision: info.m_uPcbRevision as u16,
        m_uDiChannels: info.m_uLegacyDiChannels as u16,
        m_uDoChannels: info.m_uLegacyDoChannels as u16,
        m_uRelayChannels: info.m_uLegacyRelayChannels as u16,
        m_uAiChannels: info.m_uAiChannels as u16,
        m_uAoChannels: info.m_uAoChannels as u16,
        m_uCntChannels: info.m_uCntChannels as u16,
        m_uEncChannels: info.m_uEncChannels as u16,
        m_uPwmChannels: info.m_uPwmChannels as u16,
        m_uTmpChannels: info.m_uTmpChannels as u16,
    }
}

/// 1 for a successful read of an active input, 0 otherwise.
fn diag_flag<O, I, A, Q, S, V, C, P, W>(
    io: &mut Io<O, I, A, Q, S, V, C, P, W>,
    channel: usize,
) -> (r: u8) where
    O: DigitalOutput,
    I: DigitalInput,
    A: AnalogInput,
    Q: AnalogOutput,
    S: TempSensor<V>,
    C: CounterInput,
    P: PwmOutput,
    W: Watchdog,

    ensures
        r <= 1,
        channel >= old(io).inputs@.len() ==> r == 0 && *final(io) == *old(io),
        final(io).same_shape(old(io)),
{
    match io.input_get(channel) {
        Ok(true) => 1,
        _ => 0,
    }
}

/// Reads the diagnostic inputs; an input that is missing or fails to read counts as 0.
pub fn diag_info<O, I, A, Q, S, V, C, P, W>(
    io: &mut Io<O, I, A, Q, S, V, C, P, W>,
) -> (r: tCtr700DrvDiagInfo) where
    O: DigitalOutput,
    I: DigitalInput,
    A: AnalogInput,
    Q: AnalogOutput,
    S: TempSensor<V>,
    C: CounterInput,
    P: PwmOutput,
    W: Watchdog,

    ensures
        r.m_fDigiOutPowerFail <= 1 && r.m_fDigiOutDiag <= 1 && r.m_fDigiInError <= 1
            && r.m_fUsbOverCurrent <= 1,
        old(io).inputs@.len() <= DIAG_DIGI_IN_ERROR ==> r == (tCtr700DrvDiagInfo {
            m_fDigiOutPowerFail: 0,
            m_fDigiOutDiag: 0,
            m_fDigiInError: 0,
            m_fUsbOverCurrent: 0,
        }),
        final(io).same_shape(old(io)),
{
    let power_fail = diag_flag(io, DIAG_DIGI_OUT_POWER_FAIL);
    let out_diag = diag_flag(io, DIAG_DIGI_OUT_DIAG);
    let in_error = diag_flag(io, DIAG_DIGI_IN_ERROR);
    let usb = diag_flag(io, DIAG_USB_OVER_CURRENT);
    tCtr700DrvDiagInfo {
        m_fDigiOutPowerFail: power_fail,
        m_fDigiOutDiag: out_diag,
        m_fDigiInError: in_error,
        m_fUsbOverCurrent: usb,
    }
}

} // verus!
