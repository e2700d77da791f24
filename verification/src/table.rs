//! The accessor table: the configuration metadata turned, once, into a
//! registration table of pre-resolved accessors.
//!
//! Devices are walked in the document's order; for each device its input
//! fields come first (read-only), then its output fields, then its memory
//! fields (both writable). Every entry carries the field's address inside
//! the process image, pre-computed as the device's base offset plus the
//! field's own offset, so no name lookup happens at access time. A bit
//! length outside the four defined widths, a bit position that does not
//! agree with the bit length, or an address overflowing the sixteen-bit
//! address space is a configuration fault, and generation aborts instead of
//! emitting an accessor with undefined behaviour.

use vstd::prelude::*;
use vstd::string::StringSliceAdditionalSpecFns;
use vstd::utf8::encode_utf8;

use crate::error::PiControlError;
use crate::rsc::{Device, InOutMem, RSC};

verus! {

/// The payload of one accessor table entry, abstracted for specification:
/// name, address, bit position, bit length and writability.
pub type FieldAbs = (Seq<char>, u16, Option<u8>, u8, bool);

/// One pre-resolved accessor: a getter for every field, plus a setter when
/// the field is writable.
#[derive(Debug, Clone, PartialEq, Eq)]
pub struct AccessorEntry {
    /// The field's name.
    pub name: String,
    /// The field's absolute byte address inside the process image.
    pub address: u16,
    /// The bit inside the byte at `address`; present exactly when
    /// `bit_length` is one.
    pub bit_position: Option<u8>,
    /// The field's width in bits; one of 1, 8, 16 and 32.
    pub bit_length: u8,
    /// Whether a setter exists for the field; inputs are read-only.
    pub writable: bool,
}

/// Whether a field record is sound for a device at `base`: a defined bit
/// length, a bit position exactly when bit-sized (and then below eight),
/// and an absolute address that fits the sixteen-bit address space.
pub open spec fn valid_field(base: u64, item: InOutMem) -> bool {
    &&& (item.bit_length == 1 || item.bit_length == 8 || item.bit_length == 16
        || item.bit_length == 32)
    &&& ((item.bit_length == 1) <==> (item.bit_position is Some))
    &&& (item.bit_position matches Some(b) ==> b < 8)
    &&& base + item.offset <= 0xffff
}

/// The abstract entry generated for a field of a device at `base`.
pub open spec fn field_abs(base: u64, writable: bool, item: InOutMem) -> FieldAbs {
    (item.name@, (base + item.offset) as u16, item.bit_position, item.bit_length, writable)
}

/// The abstract entries generated for one field section, in section order.
pub open spec fn section_abs(base: u64, writable: bool, items: Seq<(u64, InOutMem)>) -> Seq<
    FieldAbs,
> {
    items.map_values(|p: (u64, InOutMem)| field_abs(base, writable, p.1))
}

/// Whether every field of a section is sound.
pub open spec fn section_valid(base: u64, items: Seq<(u64, InOutMem)>) -> bool {
    forall|i: int| 0 <= i < items.len() ==> valid_field(base, (#[trigger] items[i]).1)
}

/// The abstract entries generated for one device: inputs, then outputs,
/// then memory fields.
pub open spec fn device_abs(d: Device) -> Seq<FieldAbs> {
    section_abs(d.offset, false, d.inp@) + section_abs(d.offset, true, d.out@) + section_abs(
        d.offset,
        true,
        d.mem@,
    )
}

/// Whether every field of a device is sound.
pub open spec fn device_valid(d: Device) -> bool {
    section_valid(d.offset, d.inp@) && section_valid(d.offset, d.out@) && section_valid(
        d.offset,
        d.mem@,
    )
}

/// The abstract entries generated for a device list, in device order.
pub open spec fn devices_abs(devices: Seq<Device>) -> Seq<FieldAbs>
    decreases devices.len(),
{
    if devices.len() == 0 {
        Seq::empty()
    } else {
        devices_abs(devices.drop_last()) + device_abs(devices.last())
    }
}

/// Whether every field of every device is sound.
pub open spec fn devices_valid(devices: Seq<Device>) -> bool {
    forall|i: int| 0 <= i < devices.len() ==> device_valid(#[trigger] devices[i])
}

/// The abstraction of one built entry.
pub open spec fn entry_abs(e: AccessorEntry) -> FieldAbs {
    (e.name@, e.address, e.bit_position, e.bit_length, e.writable)
}

/// The abstraction of a built table.
pub open spec fn table_abs(t: Seq<AccessorEntry>) -> Seq<FieldAbs> {
    t.map_values(|e: AccessorEntry| entry_abs(e))
}

/// The shape every entry of a built table has: a defined bit length and a
/// bit position exactly when bit-sized, and then below eight.
pub open spec fn valid_entry(e: AccessorEntry) -> bool {
    &&& (e.bit_length == 1 || e.bit_length == 8 || e.bit_length == 16 || e.bit_length == 32)
    &&& ((e.bit_length == 1) <==> (e.bit_position is Some))
    &&& (e.bit_position matches Some(b) ==> b < 8)
}

/// Whether every entry of a table has the generated shape.
pub open spec fn valid_table(t: Seq<AccessorEntry>) -> bool {
    forall|i: int| 0 <= i < t.len() ==> valid_entry(#[trigger] t[i])
}

/// Whether the entry's name encodes to exactly the queried bytes.
pub open spec fn name_matches(e: AccessorEntry, q: Seq<u8>) -> bool {
    encode_utf8(e.name@) == q
}

/// Builds the table entry of one field, or rejects the field as a
/// configuration fault.
fn make_entry(base: u64, writable: bool, item: &InOutMem) -> (r: Result<
    AccessorEntry,
    PiControlError,
>)
    ensures
        valid_field(base, *item) ==> (r matches Ok(e) && entry_abs(e) == field_abs(
            base,
            writable,
            *item,
        ) && valid_entry(e)),
        !valid_field(base, *item) ==> (r matches Err(e) && e matches
            PiControlError::InvalidArgument(_)),
{
    let bl = item.bit_length;
    if !(bl == 1 || bl == 8 || bl == 16 || bl == 32) {
        return Err(PiControlError::InvalidArgument("bit_length"));
    }
    match item.bit_position {
        Some(b) => {
            if bl != 1 || b >= 8 {
                return Err(PiControlError::InvalidArgument("bit_position"));
            }
        },
        None => {
            if bl == 1 {
                return Err(PiControlError::InvalidArgument("bit_position"));
            }
        },
    }
    if item.offset > 0xffff || base > 0xffff - item.offset {
        return Err(PiControlError::InvalidArgument("offset"));
    }
    let address = (base + item.offset) as u16;
    Ok(
        AccessorEntry {
            name: item.name.clone(),
            address,
            bit_position: item.bit_position,
            bit_length: bl,
            writable,
        },
    )
}

/// Appends the entries of one field section to the table, or rejects the
/// section's first unsound field as a configuration fault.
fn push_section(
    table: &mut Vec<AccessorEntry>,
    base: u64,
    writable: bool,
    items: &Vec<(u64, InOutMem)>,
) -> (r: Result<(), PiControlError>)
    ensures
        section_valid(base, items@) ==> (r matches Ok(()) && final(table)@.len() == old(
            table,
        )@.len() + items@.len() && (forall|i: int|
            0 <= i < old(table)@.len() ==> final(table)@[i] == old(table)@[i]) && table_abs(
            final(table)@,
        ) == table_abs(old(table)@) + section_abs(base, writable, items@) && (forall|i: int|
            old(table)@.len() <= i < final(table)@.len() ==> valid_entry(
                #[trigger] final(table)@[i],
            ))),
        !section_valid(base, items@) ==> (r matches Err(e) && e matches
            PiControlError::InvalidArgument(_)),
{
    let n = items.len();
    let mut j: usize = 0;
    while j < n
        invariant
            n == items@.len(),
            j <= n,
            forall|i: int| 0 <= i < j ==> valid_field(base, (#[trigger] items@[i]).1),
            table@.len() == old(table)@.len() + j,
            forall|i: int| 0 <= i < old(table)@.len() ==> table@[i] == old(table)@[i],
            table_abs(table@) == table_abs(old(table)@) + section_abs(
                base,
                writable,
                items@.take(j as int),
            ),
            forall|i: int|
                old(table)@.len() <= i < table@.len() ==> valid_entry(#[trigger] table@[i]),
        decreases n - j,
    {
        let ghost prev = table@;
        match make_entry(base, writable, &items[j].1) {
            Ok(e) => {
                table.push(e);
                proof {
                    assert(table_abs(table@) =~= table_abs(prev).push(entry_abs(e)));
                    assert(section_abs(base, writable, items@.take(j + 1)) =~= section_abs(
                        base,
                        writable,
                        items@.take(j as int),
                    ).push(field_abs(base, writable, items@[j as int].1)));
                    assert(table_abs(table@) =~= table_abs(old(table)@) + section_abs(
                        base,
                        writable,
                        items@.take(j + 1),
                    ));
                }
            },
            Err(err) => {
                proof {
                    assert(!valid_field(base, items@[j as int].1));
                }
                return Err(err);
            },
        }
        j += 1;
    }
    proof {
        assert(items@.take(n as int) =~= items@);
    }
    Ok(())
}

/// Turns a configuration document into the accessor table: one entry per
/// configured field, devices in document order, inputs before outputs
/// before memory fields, addresses pre-computed from the device's base
/// offset. Generation aborts on the first configuration fault instead of
/// emitting an accessor with undefined behaviour.
pub fn build_accessor_table(rsc: &RSC) -> (r: Result<Vec<AccessorEntry>, PiControlError>)
    ensures
        devices_valid(rsc.devices@) ==> (r matches Ok(t) && table_abs(t@) == devices_abs(
            rsc.devices@,
        ) && valid_table(t@)),
        !devices_valid(rsc.devices@) ==> (r matches Err(e) && e matches
            PiControlError::InvalidArgument(_)),
{
    let mut table: Vec<AccessorEntry> = Vec::new();
    let nd = rsc.devices.len();
    let mut di: usize = 0;
    proof {
        assert(table_abs(table@) =~= devices_abs(rsc.devices@.take(0)));
    }
    while di < nd
        invariant
            nd == rsc.devices@.len(),
            di <= nd,
            forall|i: int| 0 <= i < di ==> device_valid(#[trigger] rsc.devices@[i]),
            table_abs(table@) == devices_abs(rsc.devices@.take(di as int)),
            forall|i: int| 0 <= i < table@.len() ==> valid_entry(#[trigger] table@[i]),
        decreases nd - di,
    {
        let d = &rsc.devices[di];
        let ghost at_start = table@;
        if let Err(e) = push_section(&mut table, d.offset, false, &d.inp) {
            return Err(e);
        }
        let ghost after_inp = table@;
        if let Err(e) = push_section(&mut table, d.offset, true, &d.out) {
            return Err(e);
        }
        let ghost after_out = table@;
        if let Err(e) = push_section(&mut table, d.offset, true, &d.mem) {
            return Err(e);
        }
        proof {
            assert(table_abs(table@) =~= table_abs(at_start) + device_abs(rsc.devices@[di as int]));
            let s = rsc.devices@;
            assert(s.take(di + 1).drop_last() =~= s.take(di as int));
            assert(s.take(di + 1).last() == s[di as int]);
            assert(devices_abs(s.take(di + 1)) == devices_abs(s.take(di as int)) + device_abs(
                s[di as int],
            ));
            assert(table_abs(table@) =~= devices_abs(s.take(di + 1)));
        }
        di += 1;
    }
    proof {
        assert(rsc.devices@.take(nd as int) =~= rsc.devices@);
    }
    Ok(table)
}

/// Looks up the first entry whose name encodes to the queried bytes; the
/// resource's own name table works first-match-wise too.
pub fn find_entry<'a>(table: &'a Vec<AccessorEntry>, query: &str) -> (r: Option<
    &'a AccessorEntry,
>)
    ensures
        r matches Some(e) ==> exists|i: int|
            0 <= i < table@.len() && *e == table@[i] && name_matches(table@[i], query.spec_bytes())
                && (forall|j: int|
                0 <= j < i ==> !name_matches(#[trigger] table@[j], query.spec_bytes())),
        r is None ==> forall|i: int|
            0 <= i < table@.len() ==> !name_matches(#[trigger] table@[i], query.spec_bytes()),
{
    let qb = query.as_bytes();
    let n = table.len();
    let mut i: usize = 0;
    while i < n
        invariant
            n == table@.len(),
            i <= n,
            qb@ == query.spec_bytes(),
            forall|j: int| 0 <= j < i ==> !name_matches(#[trigger] table@[j], query.spec_bytes()),
        decreases n - i,
    {
        let eb = table[i].name.as_str().as_bytes();
        if bytes_eq(qb, eb) {
            return Some(&table[i]);
        }
        i += 1;
    }
    None
}

/// Whether two byte slices hold the same bytes.
fn bytes_eq(a: &[u8], b: &[u8]) -> (r: bool)
    ensures
        r == (a@ == b@),
{
    if a.len() != b.len() {
        proof {
            assert(a@.len() != b@.len());
        }
        return false;
    }
    let n = a.len();
    let mut i: usize = 0;
    while i < n
        invariant
            n == a@.len(),
            n == b@.len(),
            i <= n,
            forall|j: int| 0 <= j < i ==> a@[j] == b@[j],
        decreases n - i,
    {
        if a[i] != b[i] {
            return false;
        }
        i += 1;
    }
    proof {
        assert(a@ =~= b@);
    }
    true
}

} // verus!
