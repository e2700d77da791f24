use revpi::channel::{
    bit_from_raw, decode_device_info, decode_device_list, decode_event, decode_find_variable,
    decode_get_value, decode_plain, decode_reset, decode_reset_counters, decode_stop_io,
    find_variable_request, reset_counters_request, set_value_request, value_request, EFAULT,
    EINVAL, ENOENT, ENXIO, ETIMEDOUT,
};
use revpi::channel::{transfer_kind, TransferKind};
use revpi::error::PiControlError;
use revpi::records::{Event, KBRequests, SPIValue, SPIVariable};

#[test]
fn value_request_checks_bounds() {
    assert_eq!(
        value_request(4095, 8),
        Ok(SPIValue { i16uAddress: 4095, i8uBit: 8, i8uValue: 0 })
    );
    assert_eq!(value_request(4096, 0), Err(PiControlError::InvalidArgument("address")));
    assert_eq!(
        set_value_request(3, 2, 1),
        Ok(SPIValue { i16uAddress: 3, i8uBit: 2, i8uValue: 1 })
    );
    assert_eq!(set_value_request(4096, 8, 1), Err(PiControlError::InvalidArgument("address")));
}

#[test]
fn find_variable_request_accepts_a_31_byte_name() {
    let name = "a234567890123456789012345678901";
    assert_eq!(name.len(), 31);
    let var = find_variable_request(name).unwrap();
    assert_eq!(&var.strVarName[..31], name.as_bytes());
    assert_eq!(var.strVarName[31], 0);
    assert_eq!(var.i16uAddress, 0);
    assert_eq!(var.i8uBit, 0);
    assert_eq!(var.i16uLength, 0);
}

#[test]
fn find_variable_request_rejects_a_32_byte_name() {
    let name = "a2345678901234567890123456789012";
    assert_eq!(name.len(), 32);
    assert_eq!(
        find_variable_request(name),
        Err(PiControlError::InvalidArgument("length of name"))
    );
}

#[test]
fn find_variable_request_rejects_interior_nul() {
    assert_eq!(
        find_variable_request("ab\0cd"),
        Err(PiControlError::InvalidArgument("name"))
    );
}

#[test]
fn decode_find_variable_maps_driver_answers() {
    let found = SPIVariable {
        strVarName: [0; 32],
        i16uAddress: 20,
        i8uBit: 3,
        i16uLength: 1,
    };
    assert_eq!(decode_find_variable(&found, Ok(0)), Ok(found));
    let sentinel = SPIVariable {
        strVarName: [0; 32],
        i16uAddress: 0xffff,
        i8uBit: 0xff,
        i16uLength: 0xffff,
    };
    assert_eq!(
        decode_find_variable(&sentinel, Err(EFAULT)),
        Err(PiControlError::InvalidArgument("name"))
    );
    assert_eq!(decode_find_variable(&found, Err(EFAULT)), Err(PiControlError::IoFailure));
    assert_eq!(decode_find_variable(&found, Err(ENOENT)), Err(PiControlError::NoVarEntries));
    assert_eq!(decode_find_variable(&found, Err(7)), Err(PiControlError::IoFailure));
}

#[test]
fn device_count_above_maximum_is_a_protocol_violation() {
    assert_eq!(decode_device_list(Ok(0)), Ok(0));
    assert_eq!(decode_device_list(Ok(64)), Ok(64));
    assert_eq!(decode_device_list(Ok(65)), Err(PiControlError::ProtocolViolation));
    assert_eq!(decode_device_list(Ok(1000)), Err(PiControlError::ProtocolViolation));
    assert_eq!(decode_device_list(Err(12)), Err(PiControlError::IoFailure));
}

#[test]
fn decode_device_info_names_the_missing_address() {
    assert_eq!(decode_device_info(31, Ok(0)), Ok(()));
    assert_eq!(decode_device_info(31, Err(ENXIO)), Err(PiControlError::DeviceNotFound(31)));
    assert_eq!(decode_device_info(31, Err(EFAULT)), Err(PiControlError::IoFailure));
}

#[test]
fn reset_counters_rejects_an_empty_bitfield() {
    assert_eq!(
        reset_counters_request(32, 0),
        Err(PiControlError::InvalidArgument("bitfield"))
    );
    let req = reset_counters_request(32, 0b101).unwrap();
    assert_eq!(req.i8uAddress, 32);
    assert_eq!(req.i16uBitfield, 0b101);
}

#[test]
fn decode_reset_counters_maps_driver_answers() {
    assert_eq!(decode_reset_counters(Ok(0)), Ok(()));
    assert_eq!(
        decode_reset_counters(Err(EINVAL)),
        Err(PiControlError::InvalidArgument("dio_address"))
    );
    assert_eq!(decode_reset_counters(Err(EFAULT)), Err(PiControlError::IoFailure));
}

#[test]
fn decode_reset_reports_a_timed_out_bridge() {
    assert_eq!(decode_reset(Ok(0)), Ok(()));
    assert_eq!(decode_reset(Err(ETIMEDOUT)), Err(PiControlError::Timeout));
    assert_eq!(decode_reset(Err(EFAULT)), Err(PiControlError::IoFailure));
}

#[test]
fn decode_event_knows_only_the_reset_event() {
    assert_eq!(decode_event(1), Ok(Event::Reset));
    assert_eq!(decode_event(0), Err(PiControlError::ProtocolViolation));
    assert_eq!(decode_event(2), Err(PiControlError::ProtocolViolation));
    assert_eq!(Event::Reset.code(), 1);
}

#[test]
fn message_is_cut_at_the_first_nul() {
    let buf = [b'h', b'i', 0, b'x', b'y'];
    assert_eq!(revpi::channel::message_from_buffer(&buf), vec![b'h', b'i']);
    let no_nul = [b'a', b'b'];
    assert_eq!(revpi::channel::message_from_buffer(&no_nul), vec![b'a', b'b']);
    let empty = [0u8; 4];
    assert_eq!(revpi::channel::message_from_buffer(&empty), Vec::<u8>::new());
}

#[test]
fn raw_bit_bytes_decode_to_booleans() {
    assert!(!bit_from_raw(0));
    assert!(bit_from_raw(1));
    assert!(bit_from_raw(200));
}

#[test]
fn transfer_decoders_pass_results_through() {
    let val = SPIValue { i16uAddress: 1, i8uBit: 8, i8uValue: 99 };
    assert_eq!(decode_get_value(&val, Ok(0)), Ok(99));
    assert_eq!(decode_get_value(&val, Err(EFAULT)), Err(PiControlError::IoFailure));
    assert_eq!(decode_plain(Ok(0)), Ok(()));
    assert_eq!(decode_plain(Err(EFAULT)), Err(PiControlError::IoFailure));
    assert_eq!(decode_stop_io(Ok(2)), Ok(2));
    assert_eq!(decode_stop_io(Err(EFAULT)), Err(PiControlError::IoFailure));
}

#[test]
fn operation_codes_match_the_driver_catalog() {
    assert_eq!(KBRequests::Reset.code(), 0x4b0c);
    assert_eq!(KBRequests::GetDeviceInfoList.code(), 0x4b0d);
    assert_eq!(KBRequests::GetDeviceInfo.code(), 0x4b0e);
    assert_eq!(KBRequests::GetValue.code(), 0x4b0f);
    assert_eq!(KBRequests::SetValue.code(), 0x4b10);
    assert_eq!(KBRequests::FindVariable.code(), 0x4b11);
    assert_eq!(KBRequests::SetExportedOutputs.code(), 0x4b12);
    assert_eq!(KBRequests::UpdateDeviceFirmware.code(), 0x4b13);
    assert_eq!(KBRequests::DIOResetCounter.code(), 0x4b14);
    assert_eq!(KBRequests::GetLastMessage.code(), 0x4b15);
    assert_eq!(KBRequests::StopIO.code(), 0x4b16);
    assert_eq!(KBRequests::SetOutputWatchdog.code(), 0x4b17);
    assert_eq!(KBRequests::WaitForEvent.code(), 0x4b32);
}

#[test]
fn device_info_request_carries_only_the_address() {
    let req = revpi::channel::device_info_request(17);
    assert_eq!(req.i8uAddress, 17);
    assert_eq!(req.i32uSerialNumber, 0);
    assert_eq!(req.i16uBaseOffset, 0);
    assert_eq!(req.i8uReserve, [0u8; 30]);
}

#[test]
fn transfer_kinds_follow_the_bit_length() {
    assert_eq!(transfer_kind(1), Ok(TransferKind::Bit));
    assert_eq!(transfer_kind(8), Ok(TransferKind::Byte));
    assert_eq!(transfer_kind(16), Ok(TransferKind::Word));
    assert_eq!(transfer_kind(32), Ok(TransferKind::DWord));
    assert_eq!(transfer_kind(0), Err(PiControlError::ProtocolViolation));
    assert_eq!(transfer_kind(7), Err(PiControlError::ProtocolViolation));
    assert_eq!(transfer_kind(64), Err(PiControlError::ProtocolViolation));
}
