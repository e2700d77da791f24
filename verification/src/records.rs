//! The fixed-layout records and operation codes of the control channel.
//!
//! Each control operation is one request/response exchange built from one of
//! these records; the field names follow the driver's own header so that the
//! records can be matched against it at a glance.

use vstd::prelude::*;

verus! {

/// Highest address of a device mounted to the right of the base module.
pub const REV_PI_DEV_FIRST_RIGHT: usize = 32;

/// Maximum number of connected devices; a resource reporting more violates
/// the protocol.
pub const REV_PI_DEV_CNT_MAX: usize = 64;

/// Maximum length of a diagnostic message, terminator included.
pub const REV_PI_ERROR_MSG_LEN: usize = 256;

/// A read-only snapshot describing one connected hardware module.
#[allow(non_snake_case)]
#[derive(Debug, PartialEq, Eq, Clone, Copy)]
pub struct SDeviceInfo {
    pub i8uAddress: u8,
    pub i32uSerialNumber: u32,
    pub i16uModuleType: u16,
    pub i16uHW_Revision: u16,
    pub i16uSW_Major: u16,
    pub i16uSW_Minor: u16,
    pub i32uSVN_Revision: u32,
    pub i16uInputLength: u16,
    pub i16uOutputLength: u16,
    pub i16uConfigLength: u16,
    pub i16uBaseOffset: u16,
    pub i16uInputOffset: u16,
    pub i16uOutputOffset: u16,
    pub i16uConfigOffset: u16,
    pub i16uFirstEntry: u16,
    pub i8uModuleState: u8,
    pub i8uActive: u8,
    pub i8uReserve: [u8; 30],
}

/// The parameter record of a bit or byte transfer: an address, a bit
/// selector (zero through seven for one bit, eight for the whole byte) and
/// the byte carried in or out.
#[allow(non_snake_case)]
#[derive(Debug, PartialEq, Eq, Structural, Clone, Copy)]
pub struct SPIValue {
    pub i16uAddress: u16,
    pub i8uBit: u8,
    pub i8uValue: u8,
}

/// The parameter record of a name lookup: the name, terminated by a zero
/// byte, and the resolved address, bit position and bit length.
#[allow(non_snake_case)]
#[derive(Debug, PartialEq, Eq, Clone, Copy)]
pub struct SPIVariable {
    pub strVarName: [u8; 32],
    pub i16uAddress: u16,
    pub i8uBit: u8,
    pub i16uLength: u16,
}

/// The parameter record of a counter reset: the module's address and a
/// non-zero bitfield selecting the counters to zero.
#[allow(non_snake_case)]
#[derive(Debug, PartialEq, Eq, Structural, Clone, Copy)]
pub struct SDIOResetCounter {
    pub i8uAddress: u8,
    pub i16uBitfield: u16,
}

/// An event signalled by the driver. Only a driver reset is defined.
#[derive(Debug, PartialEq, Eq, Structural, Clone, Copy)]
pub enum Event {
    /// The driver was reset.
    Reset,
}

impl Event {
    /// The wire code of this event.
    pub open spec fn spec_code(self) -> i32 {
        match self {
            Event::Reset => 1,
        }
    }

    /// The wire code of this event.
    pub fn code(&self) -> (c: i32)
        ensures
            c == self.spec_code(),
    {
        match self {
            Event::Reset => 1,
        }
    }
}

/// The catalog of control operations, one per request the driver accepts.
#[derive(Debug, PartialEq, Eq, Structural, Clone, Copy)]
pub enum KBRequests {
    /// Reset the driver including the configuration.
    Reset,
    /// Get the device info of all detected devices.
    GetDeviceInfoList,
    /// Get the device info of one device.
    GetDeviceInfo,
    /// Get the value of one bit or byte in the process image.
    GetValue,
    /// Set the value of one bit or byte in the process image.
    SetValue,
    /// Find a configured variable by name.
    FindVariable,
    /// Replace the exported outputs with an application's process image.
    SetExportedOutputs,
    /// Try to update the firmware of a connected device.
    UpdateDeviceFirmware,
    /// Set a counter or encoder to zero.
    DIOResetCounter,
    /// Copy the last diagnostic message.
    GetLastMessage,
    /// Stop, start or toggle I/O communication.
    StopIO,
    /// Arm a watchdog that zeroes all outputs when no transfer happens
    /// within its period.
    SetOutputWatchdog,
    /// Block until the driver signals an event.
    WaitForEvent,
}

impl KBRequests {
    /// The fixed operation code of this request.
    pub open spec fn spec_code(self) -> u64 {
        match self {
            KBRequests::Reset => 0x4b0c,
            KBRequests::GetDeviceInfoList => 0x4b0d,
            KBRequests::GetDeviceInfo => 0x4b0e,
            KBRequests::GetValue => 0x4b0f,
            KBRequests::SetValue => 0x4b10,
            KBRequests::FindVariable => 0x4b11,
            KBRequests::SetExportedOutputs => 0x4b12,
            KBRequests::UpdateDeviceFirmware => 0x4b13,
            KBRequests::DIOResetCounter => 0x4b14,
            KBRequests::GetLastMessage => 0x4b15,
            KBRequests::StopIO => 0x4b16,
            KBRequests::SetOutputWatchdog => 0x4b17,
            KBRequests::WaitForEvent => 0x4b32,
        }
    }

    /// The fixed operation code of this request.
    pub fn code(&self) -> (c: u64)
        ensures
            c == self.spec_code(),
    {
        match self {
            KBRequests::Reset => 0x4b0c,
            KBRequests::GetDeviceInfoList => 0x4b0d,
            KBRequests::GetDeviceInfo => 0x4b0e,
            KBRequests::GetValue => 0x4b0f,
            KBRequests::SetValue => 0x4b10,
            KBRequests::FindVariable => 0x4b11,
            KBRequests::SetExportedOutputs => 0x4b12,
            KBRequests::UpdateDeviceFirmware => 0x4b13,
            KBRequests::DIOResetCounter => 0x4b14,
            KBRequests::GetLastMessage => 0x4b15,
            KBRequests::StopIO => 0x4b16,
            KBRequests::SetOutputWatchdog => 0x4b17,
            KBRequests::WaitForEvent => 0x4b32,
        }
    }
}

} // verus!
