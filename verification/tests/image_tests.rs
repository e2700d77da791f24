use revpi::error::PiControlError;
use revpi::image::{ProcessImage, KB_PI_LEN};
use revpi::value::Bit;

#[test]
fn new_image_is_zeroed() {
    let img = ProcessImage::new();
    assert_eq!(img.get_byte(0), Ok(0));
    assert_eq!(img.get_byte(4095), Ok(0));
    assert_eq!(img.get_word(2048), Ok(0));
}

#[test]
fn byte_round_trip() {
    let mut img = ProcessImage::new();
    assert_eq!(img.set_byte(7, 42), Ok(()));
    assert_eq!(img.get_byte(7), Ok(42));
}

#[test]
fn bit_round_trip() {
    let mut img = ProcessImage::new();
    assert_eq!(img.set_bit(5, Bit::Three, true), Ok(()));
    assert_eq!(img.get_bit(5, Bit::Three), Ok(true));
    assert_eq!(img.set_bit(5, Bit::Three, false), Ok(()));
    assert_eq!(img.get_bit(5, Bit::Three), Ok(false));
}

#[test]
fn bit_write_leaves_other_bits_alone() {
    let mut img = ProcessImage::new();
    assert_eq!(img.set_byte(9, 0xff), Ok(()));
    assert_eq!(img.set_bit(9, Bit::Three, false), Ok(()));
    assert_eq!(img.get_byte(9), Ok(0xf7));
    assert_eq!(img.get_bit(9, Bit::Two), Ok(true));
    assert_eq!(img.get_bit(9, Bit::Four), Ok(true));
}

#[test]
fn word_is_stored_little_endian() {
    let mut img = ProcessImage::new();
    assert_eq!(img.set_word(10, 0x1234), Ok(()));
    assert_eq!(img.get_byte(10), Ok(0x34));
    assert_eq!(img.get_byte(11), Ok(0x12));
}

#[test]
fn dword_is_stored_little_endian() {
    let mut img = ProcessImage::new();
    assert_eq!(img.set_dword(20, 0xaabbccdd), Ok(()));
    assert_eq!(img.get_byte(20), Ok(0xdd));
    assert_eq!(img.get_byte(21), Ok(0xcc));
    assert_eq!(img.get_byte(22), Ok(0xbb));
    assert_eq!(img.get_byte(23), Ok(0xaa));
}

#[test]
fn word_round_trip() {
    let mut img = ProcessImage::new();
    assert_eq!(img.set_word(100, 0xbeef), Ok(()));
    assert_eq!(img.get_word(100), Ok(0xbeef));
}

#[test]
fn dword_round_trip() {
    let mut img = ProcessImage::new();
    assert_eq!(img.set_dword(200, 0xdeadbeef), Ok(()));
    assert_eq!(img.get_dword(200), Ok(0xdeadbeef));
}

#[test]
fn byte_access_at_image_length_is_rejected() {
    let mut img = ProcessImage::new();
    assert_eq!(img.get_byte(4096), Err(PiControlError::InvalidArgument("address")));
    assert_eq!(img.set_byte(4096, 1), Err(PiControlError::InvalidArgument("address")));
    assert_eq!(img.get_byte(5000), Err(PiControlError::InvalidArgument("address")));
}

#[test]
fn bit_access_at_image_length_is_rejected() {
    let mut img = ProcessImage::new();
    assert_eq!(img.get_bit(4096, Bit::Zero), Err(PiControlError::InvalidArgument("address")));
    assert_eq!(
        img.set_bit(4096, Bit::Zero, true),
        Err(PiControlError::InvalidArgument("address"))
    );
}

#[test]
fn last_byte_of_image_is_accessible() {
    let mut img = ProcessImage::new();
    assert_eq!(img.set_byte(4095, 9), Ok(()));
    assert_eq!(img.get_byte(4095), Ok(9));
    assert_eq!(img.set_bit(4095, Bit::Seven, true), Ok(()));
    assert_eq!(img.get_bit(4095, Bit::Seven), Ok(true));
}

#[test]
fn word_transfer_past_end_is_io_failure() {
    let mut img = ProcessImage::new();
    assert_eq!(img.get_word(4095), Err(PiControlError::IoFailure));
    assert_eq!(img.set_word(4095, 1), Err(PiControlError::IoFailure));
    assert_eq!(img.set_word(4094, 0x0102), Ok(()));
    assert_eq!(img.get_word(4094), Ok(0x0102));
}

#[test]
fn dword_transfer_past_end_is_io_failure() {
    let mut img = ProcessImage::new();
    assert_eq!(img.get_dword(4093), Err(PiControlError::IoFailure));
    assert_eq!(img.set_dword(4093, 1), Err(PiControlError::IoFailure));
    assert_eq!(img.set_dword(4092, 0x01020304), Ok(()));
    assert_eq!(img.get_dword(4092), Ok(0x01020304));
}

#[test]
fn set_exported_outputs_replaces_whole_image() {
    let mut img = ProcessImage::new();
    let mut replacement = [0u8; KB_PI_LEN];
    replacement[0] = 1;
    replacement[4095] = 255;
    img.set_exported_outputs(&replacement);
    assert_eq!(img.get_byte(0), Ok(1));
    assert_eq!(img.get_byte(1), Ok(0));
    assert_eq!(img.get_byte(4095), Ok(255));
}

#[test]
fn from_bytes_demands_exact_length() {
    let short = vec![0u8; 10];
    assert!(matches!(
        ProcessImage::from_bytes(short),
        Err(PiControlError::InvalidArgument("image"))
    ));
    let mut right = vec![0u8; KB_PI_LEN];
    right[3] = 7;
    let img = ProcessImage::from_bytes(right).unwrap();
    assert_eq!(img.get_byte(3), Ok(7));
}
