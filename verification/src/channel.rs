//! The decision layer of the control channel: request builders that validate
//! their arguments before any transfer is attempted, and response decoders
//! that map the driver's result codes onto this crate's error kinds.
//!
//! The embedding application owns the open handle and performs the actual
//! exchange; everything it may decide is decided here. A driver result is
//! handed in as a plain `Result<u32, i32>`, the success value or the error
//! number of the failed exchange.

use vstd::prelude::*;
use vstd::string::StringSliceAdditionalSpecFns;

use crate::error::{invalid_arg, PiControlError};
use crate::image::KB_PI_LEN;
use crate::records::{Event, SDIOResetCounter, SDeviceInfo, SPIValue, SPIVariable,
    REV_PI_DEV_CNT_MAX};

verus! {

/// Operation not permitted; the resource is not a base module.
pub const EPERM: i32 = 1;

/// No such entry; the resource has no configured variables.
pub const ENOENT: i32 = 2;

/// No such device or address.
pub const ENXIO: i32 = 6;

/// The kernel module ran out of memory.
pub const ENOMEM: i32 = 12;

/// Bad address; also the driver's catch-all while the bridge is down.
pub const EFAULT: i32 = 14;

/// Invalid argument.
pub const EINVAL: i32 = 22;

/// The bridge did not come up again within the driver's bound.
pub const ETIMEDOUT: i32 = 110;

/// Bit selector meaning "the whole byte" in a bit-or-byte transfer.
pub const WHOLE_BYTE: u8 = 8;

/// Whether the byte sequence contains a zero byte.
pub open spec fn has_nul(q: Seq<u8>) -> bool {
    exists|i: int| 0 <= i < q.len() && q[i] == 0
}

/// Builds the parameter record of a bit or byte read, validating the
/// address against the image length before any transfer. `bit` is the bit
/// selector: zero through seven for one bit, eight for the whole byte.
pub fn value_request(address: u16, bit: u8) -> (r: Result<SPIValue, PiControlError>)
    ensures
        address < KB_PI_LEN ==> r == Ok::<SPIValue, PiControlError>(
            SPIValue { i16uAddress: address, i8uBit: bit, i8uValue: 0 },
        ),
        address >= KB_PI_LEN ==> invalid_arg(r, "address"@),
{
    if (address as usize) < KB_PI_LEN {
        Ok(SPIValue { i16uAddress: address, i8uBit: bit, i8uValue: 0 })
    } else {
        Err(PiControlError::InvalidArgument("address"))
    }
}

/// Builds the parameter record of a bit or byte write, validating the
/// address against the image length before any transfer.
pub fn set_value_request(address: u16, bit: u8, value: u8) -> (r: Result<
    SPIValue,
    PiControlError,
>)
    ensures
        address < KB_PI_LEN ==> r == Ok::<SPIValue, PiControlError>(
            SPIValue { i16uAddress: address, i8uBit: bit, i8uValue: value },
        ),
        address >= KB_PI_LEN ==> invalid_arg(r, "address"@),
{
    if (address as usize) < KB_PI_LEN {
        Ok(SPIValue { i16uAddress: address, i8uBit: bit, i8uValue: value })
    } else {
        Err(PiControlError::InvalidArgument("address"))
    }
}

/// The result of a completed bit or byte read: the byte the driver wrote
/// into the record, or an I/O failure.
pub fn decode_get_value(val: &SPIValue, res: Result<u32, i32>) -> (r: Result<u8, PiControlError>)
    ensures
        res matches Ok(_) ==> r == Ok::<u8, PiControlError>(val.i8uValue),
        res matches Err(_) ==> r == Err::<u8, PiControlError>(PiControlError::IoFailure),
{
    match res {
        Ok(_) => Ok(val.i8uValue),
        Err(_) => Err(PiControlError::IoFailure),
    }
}

/// The result of an exchange whose only failure mode is the transport
/// itself (a write, a watchdog arming, an image replacement).
pub fn decode_plain(res: Result<u32, i32>) -> (r: Result<(), PiControlError>)
    ensures
        res matches Ok(_) ==> r == Ok::<(), PiControlError>(()),
        res matches Err(_) ==> r == Err::<(), PiControlError>(PiControlError::IoFailure),
{
    match res {
        Ok(_) => Ok(()),
        Err(_) => Err(PiControlError::IoFailure),
    }
}

/// The raw byte of a completed bit read as a boolean: any non-zero byte
/// means the bit is set.
pub fn bit_from_raw(raw: u8) -> (r: bool)
    ensures
        r == (raw >= 1),
{
    raw >= 1
}

/// Builds the parameter record of a name lookup. The name must be free of
/// zero bytes and at most 31 bytes long, terminator excluded; an oversized
/// name is rejected here, before any transfer.
pub fn find_variable_request(name: &str) -> (r: Result<SPIVariable, PiControlError>)
    ensures
        has_nul(name.spec_bytes()) ==> invalid_arg(r, "name"@),
        !has_nul(name.spec_bytes()) && name.spec_bytes().len() > 31 ==> invalid_arg(
            r,
            "length of name"@,
        ),
        !has_nul(name.spec_bytes()) && name.spec_bytes().len() <= 31 ==> (r matches Ok(var)
            && var.strVarName@.len() == 32
            && var.strVarName@.subrange(0, name.spec_bytes().len() as int) == name.spec_bytes()
            && (forall|i: int|
                name.spec_bytes().len() <= i < 32 ==> var.strVarName@[i] == 0u8)
            && var.i16uAddress == 0 && var.i8uBit == 0 && var.i16uLength == 0),
{
    let bytes = name.as_bytes();
    let n = bytes.len();
    let mut i: usize = 0;
    while i < n
        invariant
            n == name.spec_bytes().len(),
            bytes@ == name.spec_bytes(),
            i <= n,
            forall|j: int| 0 <= j < i ==> bytes@[j] != 0u8,
        decreases n - i,
    {
        if bytes[i] == 0 {
            return Err(PiControlError::InvalidArgument("name"));
        }
        i += 1;
    }
    if n > 31 {
        return Err(PiControlError::InvalidArgument("length of name"));
    }
    let mut arr = [0u8; 32];
    let mut k: usize = 0;
    while k < n
        invariant
            n == name.spec_bytes().len(),
            bytes@ == name.spec_bytes(),
            n <= 31,
            k <= n,
            arr@.len() == 32,
            forall|j: int| 0 <= j < k ==> arr@[j] == bytes@[j],
            forall|j: int| k <= j < 32 ==> arr@[j] == 0u8,
        decreases n - k,
    {
        arr[k] = bytes[k];
        k += 1;
    }
    proof {
        assert(arr@.subrange(0, n as int) =~= name.spec_bytes());
    }
    Ok(SPIVariable { strVarName: arr, i16uAddress: 0, i8uBit: 0, i16uLength: 0 })
}

/// Whether a failed lookup's record carries the driver's "name not found"
/// sentinel.
pub open spec fn spec_not_found_sentinel(var: SPIVariable) -> bool {
    var.i16uAddress == 0xffff && var.i8uBit == 0xff && var.i16uLength == 0xffff
}

/// The result of a completed name lookup. The driver answers a lookup of an
/// unknown name with a bad-address code and an all-ones record; a resource
/// without any configured variables answers with a no-entry code.
pub fn decode_find_variable(var: &SPIVariable, res: Result<u32, i32>) -> (r: Result<
    SPIVariable,
    PiControlError,
>)
    ensures
        res matches Ok(_) ==> r == Ok::<SPIVariable, PiControlError>(*var),
        res == Err::<u32, i32>(EFAULT) && spec_not_found_sentinel(*var) ==> invalid_arg(
            r,
            "name"@,
        ),
        res == Err::<u32, i32>(EFAULT) && !spec_not_found_sentinel(*var) ==> r == Err::<
            SPIVariable,
            PiControlError,
        >(PiControlError::IoFailure),
        res == Err::<u32, i32>(ENOENT) ==> r == Err::<SPIVariable, PiControlError>(
            PiControlError::NoVarEntries,
        ),
        (res matches Err(e) && e != EFAULT && e != ENOENT) ==> r == Err::<
            SPIVariable,
            PiControlError,
        >(PiControlError::IoFailure),
{
    match res {
        Ok(_) => Ok(*var),
        Err(e) => {
            if e == EFAULT {
                if var.i16uAddress == 0xffff && var.i8uBit == 0xff && var.i16uLength == 0xffff {
                    Err(PiControlError::InvalidArgument("name"))
                } else {
                    Err(PiControlError::IoFailure)
                }
            } else if e == ENOENT {
                Err(PiControlError::NoVarEntries)
            } else {
                Err(PiControlError::IoFailure)
            }
        },
    }
}

/// Builds the query record of a device-info request: all fields zero but
/// for the address of the device asked about.
pub fn device_info_request(address: u8) -> (r: SDeviceInfo)
    ensures
        r.i8uAddress == address,
        r.i32uSerialNumber == 0 && r.i16uModuleType == 0 && r.i16uHW_Revision == 0,
        r.i16uSW_Major == 0 && r.i16uSW_Minor == 0 && r.i32uSVN_Revision == 0,
        r.i16uInputLength == 0 && r.i16uOutputLength == 0 && r.i16uConfigLength == 0,
        r.i16uBaseOffset == 0 && r.i16uInputOffset == 0 && r.i16uOutputOffset == 0,
        r.i16uConfigOffset == 0 && r.i16uFirstEntry == 0 && r.i8uModuleState == 0,
        r.i8uActive == 0,
        forall|i: int| 0 <= i < 30 ==> r.i8uReserve@[i] == 0u8,
{
    SDeviceInfo {
        i8uAddress: address,
        i32uSerialNumber: 0,
        i16uModuleType: 0,
        i16uHW_Revision: 0,
        i16uSW_Major: 0,
        i16uSW_Minor: 0,
        i32uSVN_Revision: 0,
        i16uInputLength: 0,
        i16uOutputLength: 0,
        i16uConfigLength: 0,
        i16uBaseOffset: 0,
        i16uInputOffset: 0,
        i16uOutputOffset: 0,
        i16uConfigOffset: 0,
        i16uFirstEntry: 0,
        i8uModuleState: 0,
        i8uActive: 0,
        i8uReserve: [0u8; 30],
    }
}

/// The result of a completed device-info request: a no-device code names
/// the address that was not found.
pub fn decode_device_info(address: u8, res: Result<u32, i32>) -> (r: Result<(), PiControlError>)
    ensures
        res matches Ok(_) ==> r == Ok::<(), PiControlError>(()),
        res == Err::<u32, i32>(ENXIO) ==> r == Err::<(), PiControlError>(
            PiControlError::DeviceNotFound(address),
        ),
        (res matches Err(e) && e != ENXIO) ==> r == Err::<(), PiControlError>(
            PiControlError::IoFailure,
        ),
{
    match res {
        Ok(_) => Ok(()),
        Err(e) => {
            if e == ENXIO {
                Err(PiControlError::DeviceNotFound(address))
            } else {
                Err(PiControlError::IoFailure)
            }
        },
    }
}

/// The result of a device enumeration: the driver's device count, held to
/// the fixed maximum. A count above the maximum is a protocol violation and
/// is surfaced, never truncated.
pub fn decode_device_list(res: Result<u32, i32>) -> (r: Result<usize, PiControlError>)
    ensures
        (res matches Ok(cnt) && cnt <= REV_PI_DEV_CNT_MAX) ==> r == Ok::<usize, PiControlError>(
            res->Ok_0 as usize,
        ),
        (res matches Ok(cnt) && cnt > REV_PI_DEV_CNT_MAX) ==> r == Err::<usize, PiControlError>(
            PiControlError::ProtocolViolation,
        ),
        res matches Err(_) ==> r == Err::<usize, PiControlError>(PiControlError::IoFailure),
{
    match res {
        Ok(cnt) => {
            if cnt as usize <= REV_PI_DEV_CNT_MAX {
                Ok(cnt as usize)
            } else {
                Err(PiControlError::ProtocolViolation)
            }
        },
        Err(_) => Err(PiControlError::IoFailure),
    }
}

/// Builds the parameter record of a counter reset. Each set bit of
/// `bitfield` selects one counter channel to zero; an empty bitfield is
/// rejected here, before any transfer.
pub fn reset_counters_request(dio_address: u8, bitfield: u16) -> (r: Result<
    SDIOResetCounter,
    PiControlError,
>)
    ensures
        bitfield != 0 ==> r == Ok::<SDIOResetCounter, PiControlError>(
            SDIOResetCounter { i8uAddress: dio_address, i16uBitfield: bitfield },
        ),
        bitfield == 0 ==> invalid_arg(r, "bitfield"@),
{
    if bitfield != 0 {
        Ok(SDIOResetCounter { i8uAddress: dio_address, i16uBitfield: bitfield })
    } else {
        Err(PiControlError::InvalidArgument("bitfield"))
    }
}

/// The result of a completed counter reset: an invalid-argument code means
/// the module address named no counter module.
pub fn decode_reset_counters(res: Result<u32, i32>) -> (r: Result<(), PiControlError>)
    ensures
        res matches Ok(_) ==> r == Ok::<(), PiControlError>(()),
        res == Err::<u32, i32>(EINVAL) ==> invalid_arg(r, "dio_address"@),
        (res matches Err(e) && e != EINVAL) ==> r == Err::<(), PiControlError>(
            PiControlError::IoFailure,
        ),
{
    match res {
        Ok(_) => Ok(()),
        Err(e) => {
            if e == EINVAL {
                Err(PiControlError::InvalidArgument("dio_address"))
            } else {
                Err(PiControlError::IoFailure)
            }
        },
    }
}

/// The result of a driver reset: the wait for the bridge to restart may
/// exceed the driver's bound.
pub fn decode_reset(res: Result<u32, i32>) -> (r: Result<(), PiControlError>)
    ensures
        res matches Ok(_) ==> r == Ok::<(), PiControlError>(()),
        res == Err::<u32, i32>(ETIMEDOUT) ==> r == Err::<(), PiControlError>(
            PiControlError::Timeout,
        ),
        (res matches Err(e) && e != ETIMEDOUT) ==> r == Err::<(), PiControlError>(
            PiControlError::IoFailure,
        ),
{
    match res {
        Ok(_) => Ok(()),
        Err(e) => {
            if e == ETIMEDOUT {
                Err(PiControlError::Timeout)
            } else {
                Err(PiControlError::IoFailure)
            }
        },
    }
}

/// The result of a stop, start or toggle of I/O communication: the mode now
/// in force.
pub fn decode_stop_io(res: Result<u32, i32>) -> (r: Result<u32, PiControlError>)
    ensures
        res matches Ok(mode) ==> r == Ok::<u32, PiControlError>(res->Ok_0),
        res matches Err(_) ==> r == Err::<u32, PiControlError>(PiControlError::IoFailure),
{
    match res {
        Ok(mode) => Ok(mode),
        Err(_) => Err(PiControlError::IoFailure),
    }
}

/// The event behind a wire code; a code outside the defined catalog is a
/// protocol violation.
pub fn decode_event(code: i32) -> (r: Result<Event, PiControlError>)
    ensures
        code == 1 ==> r == Ok::<Event, PiControlError>(Event::Reset),
        code != 1 ==> r == Err::<Event, PiControlError>(PiControlError::ProtocolViolation),
{
    if code == 1 {
        Ok(Event::Reset)
    } else {
        Err(PiControlError::ProtocolViolation)
    }
}

/// Which transfer a resolved bit length selects.
#[derive(Debug, PartialEq, Eq, Structural, Clone, Copy)]
pub enum TransferKind {
    /// A one-bit transfer through the control channel.
    Bit,
    /// A whole-byte transfer through the control channel.
    Byte,
    /// A two-byte positioned transfer.
    Word,
    /// A four-byte positioned transfer.
    DWord,
}

/// The transfer a resolved bit length selects; any length outside the four
/// defined widths reaching this layer is a protocol fault and is never
/// silently coerced.
pub fn transfer_kind(length: u16) -> (r: Result<TransferKind, PiControlError>)
    ensures
        length == 1 ==> r == Ok::<TransferKind, PiControlError>(TransferKind::Bit),
        length == 8 ==> r == Ok::<TransferKind, PiControlError>(TransferKind::Byte),
        length == 16 ==> r == Ok::<TransferKind, PiControlError>(TransferKind::Word),
        length == 32 ==> r == Ok::<TransferKind, PiControlError>(TransferKind::DWord),
        length != 1 && length != 8 && length != 16 && length != 32 ==> r == Err::<
            TransferKind,
            PiControlError,
        >(PiControlError::ProtocolViolation),
{
    match length {
        1 => Ok(TransferKind::Bit),
        8 => Ok(TransferKind::Byte),
        16 => Ok(TransferKind::Word),
        32 => Ok(TransferKind::DWord),
        _ => Err(PiControlError::ProtocolViolation),
    }
}

/// The diagnostic message inside a driver-filled buffer: the bytes before
/// the first zero byte.
pub fn message_from_buffer(buf: &[u8]) -> (r: Vec<u8>)
    ensures
        r@.len() <= buf@.len(),
        forall|i: int| 0 <= i < r@.len() ==> r@[i] == buf@[i] && r@[i] != 0u8,
        r@.len() < buf@.len() ==> buf@[r@.len() as int] == 0u8,
{
    let mut out: Vec<u8> = Vec::new();
    let mut i: usize = 0;
    let n = buf.len();
    while i < n
        invariant
            n == buf@.len(),
            i <= n,
            out@.len() == i,
            forall|j: int| 0 <= j < i ==> out@[j] == buf@[j] && out@[j] != 0u8,
        decreases n - i,
    {
        let b = buf[i];
        if b == 0 {
            return out;
        }
        out.push(b);
        i += 1;
    }
    out
}

} // verus!
