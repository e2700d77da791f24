use revpi::error::PiControlError;
use revpi::image::ProcessImage;
use revpi::picontrol::PiControl;
use revpi::rsc::{App, Device, InOutMem, Summary, RSC};
use revpi::table::AccessorEntry;
use revpi::value::Value;

fn field(name: &str, bit_length: u8, offset: u64, bit_position: Option<u8>) -> InOutMem {
    InOutMem {
        name: name.to_string(),
        default: 0,
        bit_length,
        offset,
        exported: true,
        sort_pos: 0,
        comment: String::new(),
        bit_position,
    }
}

fn device(offset: u64, inp: Vec<(u64, InOutMem)>, out: Vec<(u64, InOutMem)>,
          mem: Vec<(u64, InOutMem)>) -> Device {
    Device {
        guid: String::new(),
        id: String::new(),
        dev_type: String::new(),
        product_type: 95,
        position: 0,
        name: String::new(),
        bmk: String::new(),
        inp_variant: 0,
        out_variant: 0,
        comment: String::new(),
        offset,
        inp,
        out,
        mem,
        active: None,
    }
}

fn rsc(devices: Vec<Device>) -> RSC {
    RSC {
        app: App {
            name: "PiCtory".to_string(),
            version: "2.0.6".to_string(),
            save_ts: String::new(),
            language: "en".to_string(),
        },
        summary: Summary { inp_total: 0, out_total: 0 },
        devices,
    }
}

fn entry(name: &str, address: u16, bit_position: Option<u8>, bit_length: u8,
         writable: bool) -> AccessorEntry {
    AccessorEntry {
        name: name.to_string(),
        address,
        bit_position,
        bit_length,
        writable,
    }
}

/// A façade over one device with one writable field of every width.
fn four_field_facade() -> PiControl {
    let d = device(
        0,
        vec![],
        vec![
            (0, field("flag", 1, 0, Some(2))),
            (1, field("led", 8, 1, None)),
            (2, field("limit", 16, 2, None)),
            (3, field("counter", 32, 4, None)),
        ],
        vec![],
    );
    PiControl::new(&rsc(vec![d])).unwrap()
}

#[test]
fn led_scenario_writes_byte_42_at_address_0() {
    let d = device(0, vec![], vec![(0, field("LED", 8, 0, None))], vec![]);
    let mut pi = PiControl::new(&rsc(vec![d])).unwrap();
    assert_eq!(pi.set_value("LED", Value::Byte(42)), Ok(()));
    assert_eq!(pi.image().get_byte(0), Ok(42));
    // The generated setter for the same field is its table entry,
    // consulted by index.
    assert_eq!(pi.accessors().len(), 1);
    assert_eq!(pi.accessors()[0].name, "LED");
    assert_eq!(pi.set_by_index(0, Value::Byte(42)), Ok(()));
    assert_eq!(pi.image().get_byte(0), Ok(42));
    assert_eq!(pi.get_by_index(0), Ok(Value::Byte(42)));
}

#[test]
fn every_width_round_trips_through_the_facade() {
    let mut pi = four_field_facade();
    assert_eq!(pi.set_value("flag", Value::Bit(true)), Ok(()));
    assert_eq!(pi.get_value("flag"), Ok(Value::Bit(true)));
    assert_eq!(pi.set_value("led", Value::Byte(0x5a)), Ok(()));
    assert_eq!(pi.get_value("led"), Ok(Value::Byte(0x5a)));
    assert_eq!(pi.set_value("limit", Value::Word(0x1234)), Ok(()));
    assert_eq!(pi.get_value("limit"), Ok(Value::Word(0x1234)));
    assert_eq!(pi.set_value("counter", Value::DWord(0xcafebabe)), Ok(()));
    assert_eq!(pi.get_value("counter"), Ok(Value::DWord(0xcafebabe)));
}

#[test]
fn mismatched_widths_are_rejected_in_every_combination() {
    let mut pi = four_field_facade();
    let names = ["flag", "led", "limit", "counter"];
    let values = [
        Value::Bit(true),
        Value::Byte(1),
        Value::Word(1),
        Value::DWord(1),
    ];
    for (fi, name) in names.iter().enumerate() {
        for (vi, value) in values.iter().enumerate() {
            let r = pi.set_value(name, *value);
            if fi == vi {
                assert_eq!(r, Ok(()));
            } else {
                assert_eq!(r, Err(PiControlError::InvalidArgument("value or str")));
            }
        }
    }
}

#[test]
fn a_rejected_write_leaves_the_image_unchanged() {
    let mut pi = four_field_facade();
    assert_eq!(pi.set_value("led", Value::Byte(7)), Ok(()));
    assert_eq!(
        pi.set_value("led", Value::Word(0xffff)),
        Err(PiControlError::InvalidArgument("value or str"))
    );
    assert_eq!(pi.image().get_byte(1), Ok(7));
    assert_eq!(pi.image().get_byte(2), Ok(0));
}

#[test]
fn get_value_wraps_the_width_of_the_field() {
    let pi = four_field_facade();
    assert_eq!(pi.get_value("flag"), Ok(Value::Bit(false)));
    assert_eq!(pi.get_value("led"), Ok(Value::Byte(0)));
    assert_eq!(pi.get_value("limit"), Ok(Value::Word(0)));
    assert_eq!(pi.get_value("counter"), Ok(Value::DWord(0)));
}

#[test]
fn an_unknown_name_is_an_invalid_argument() {
    let pi = four_field_facade();
    assert_eq!(pi.get_value("nosuch"), Err(PiControlError::InvalidArgument("name")));
}

#[test]
fn an_empty_table_reports_no_entries() {
    let pi = PiControl::new(&rsc(vec![])).unwrap();
    assert_eq!(pi.get_value("anything"), Err(PiControlError::NoVarEntries));
}

#[test]
fn an_oversized_name_is_rejected_before_resolution() {
    let pi = PiControl::new(&rsc(vec![])).unwrap();
    let long = "a2345678901234567890123456789012";
    assert_eq!(long.len(), 32);
    // 32 bytes: rejected for its length, not answered with NoVarEntries.
    assert_eq!(
        pi.get_value(long),
        Err(PiControlError::InvalidArgument("length of name"))
    );
    let edge = "a234567890123456789012345678901";
    assert_eq!(edge.len(), 31);
    assert_eq!(pi.get_value(edge), Err(PiControlError::NoVarEntries));
}

#[test]
fn find_variable_reports_the_resolved_triple() {
    let pi = four_field_facade();
    let var = pi.find_variable("flag").unwrap();
    assert_eq!(var.i16uAddress, 0);
    assert_eq!(var.i8uBit, 2);
    assert_eq!(var.i16uLength, 1);
    assert_eq!(&var.strVarName[..4], b"flag");
    assert_eq!(var.strVarName[4], 0);
    let var = pi.find_variable("counter").unwrap();
    assert_eq!(var.i16uAddress, 4);
    assert_eq!(var.i8uBit, 0);
    assert_eq!(var.i16uLength, 32);
}

#[test]
fn the_first_matching_entry_wins() {
    let image = ProcessImage::new();
    let vars = vec![
        entry("twin", 10, None, 8, true),
        entry("twin", 20, None, 8, true),
    ];
    let mut pi = PiControl::from_parts(image, vars).unwrap();
    assert_eq!(pi.set_value("twin", Value::Byte(9)), Ok(()));
    assert_eq!(pi.image().get_byte(10), Ok(9));
    assert_eq!(pi.image().get_byte(20), Ok(0));
    assert_eq!(pi.get_value("twin"), Ok(Value::Byte(9)));
}

#[test]
fn inputs_have_no_generated_setter() {
    let d = device(0, vec![(0, field("status", 8, 0, None))], vec![], vec![]);
    let mut pi = PiControl::new(&rsc(vec![d])).unwrap();
    assert!(!pi.accessors()[0].writable);
    assert_eq!(
        pi.set_by_index(0, Value::Byte(1)),
        Err(PiControlError::InvalidArgument("writable"))
    );
    // But set_value goes through the resource's name table, which does not
    // distinguish inputs, just as the underlying driver does not.
    assert_eq!(pi.set_value("status", Value::Byte(1)), Ok(()));
    assert_eq!(pi.get_by_index(0), Ok(Value::Byte(1)));
}

#[test]
fn an_index_outside_the_table_is_rejected() {
    let mut pi = four_field_facade();
    assert_eq!(pi.get_by_index(4), Err(PiControlError::InvalidArgument("index")));
    assert_eq!(
        pi.set_by_index(4, Value::Byte(0)),
        Err(PiControlError::InvalidArgument("index"))
    );
}

#[test]
fn an_out_of_bounds_entry_fails_like_the_transfer_it_stands_for() {
    let image = ProcessImage::new();
    let vars = vec![
        entry("edge_byte", 4096, None, 8, true),
        entry("edge_word", 4095, None, 16, true),
    ];
    let mut pi = PiControl::from_parts(image, vars).unwrap();
    assert_eq!(
        pi.get_value("edge_byte"),
        Err(PiControlError::InvalidArgument("address"))
    );
    assert_eq!(pi.get_value("edge_word"), Err(PiControlError::IoFailure));
    assert_eq!(
        pi.set_value("edge_byte", Value::Byte(1)),
        Err(PiControlError::InvalidArgument("address"))
    );
    assert_eq!(
        pi.set_value("edge_word", Value::Word(1)),
        Err(PiControlError::IoFailure)
    );
}

#[test]
fn from_parts_rejects_a_malformed_table() {
    let image = ProcessImage::new();
    let vars = vec![entry("bad", 0, None, 7, true)];
    assert!(matches!(
        PiControl::from_parts(image, vars),
        Err(PiControlError::InvalidArgument("table"))
    ));
}

#[test]
fn bitcnt_gives_the_width_of_each_variant() {
    assert_eq!(Value::Bit(false).bitcnt(), 1);
    assert_eq!(Value::Byte(0).bitcnt(), 8);
    assert_eq!(Value::Word(0).bitcnt(), 16);
    assert_eq!(Value::DWord(0).bitcnt(), 32);
}

#[test]
fn values_wrap_their_primitives() {
    assert_eq!(Value::from(true), Value::Bit(true));
    assert_eq!(Value::from(42u8), Value::Byte(42));
    assert_eq!(Value::from(0x1234u16), Value::Word(0x1234));
    assert_eq!(Value::from(0xdeadbeefu32), Value::DWord(0xdeadbeef));
}

#[test]
fn a_31_byte_name_resolves_and_round_trips() {
    let name = "a234567890123456789012345678901";
    assert_eq!(name.len(), 31);
    let d = device(0, vec![], vec![(0, field(name, 8, 3, None))], vec![]);
    let mut pi = PiControl::new(&rsc(vec![d])).unwrap();
    assert_eq!(pi.set_value(name, Value::Byte(0x77)), Ok(()));
    assert_eq!(pi.get_value(name), Ok(Value::Byte(0x77)));
    let var = pi.find_variable(name).unwrap();
    assert_eq!(var.i16uAddress, 3);
    assert_eq!(&var.strVarName[..31], name.as_bytes());
    assert_eq!(var.strVarName[31], 0);
}
