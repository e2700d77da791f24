//! The typed value façade: name-addressable, type-checked access to an
//! owned process image.
//!
//! A [`PiControl`] owns a [`ProcessImage`] and the accessor table built
//! from the configuration. Every call is a stateless resolve-then-transfer
//! sequence: the name is resolved against the table, the resolved bit
//! length picks the transfer, and the transfer is bounds-checked against
//! the image. A value whose implied bit length differs from the resolved
//! field's is rejected before anything is written.

use vstd::prelude::*;
use vstd::string::StringSliceAdditionalSpecFns;

use crate::channel::{find_variable_request, has_nul};
use crate::codec::{
    bit_of_byte, byte_with_bit, dword_byte, dword_of_bytes, lemma_bit_round_trip,
    lemma_dword_round_trip, lemma_word_round_trip, word_hi, word_lo, word_of_bytes,
};
use crate::error::{invalid_arg, PiControlError};
use crate::image::{ProcessImage, KB_PI_LEN};
use crate::records::SPIVariable;
use crate::table::{
    build_accessor_table, devices_abs, devices_valid, find_entry, name_matches, table_abs,
    valid_entry, valid_table, AccessorEntry,
};
use crate::rsc::RSC;
use crate::value::{Bit, Value};

verus! {

/// The bit position of a bit-sized entry, and zero for the wider ones, as
/// the resource reports it in a resolved variable record.
pub open spec fn entry_bit(e: AccessorEntry) -> u8 {
    match e.bit_position {
        Some(b) => b,
        None => 0u8,
    }
}

/// How many image bytes a transfer of this entry touches.
pub open spec fn field_width_bytes(e: AccessorEntry) -> int {
    if e.bit_length == 16 {
        2
    } else if e.bit_length == 32 {
        4
    } else {
        1
    }
}

/// Whether the entry's whole transfer lies inside the image.
pub open spec fn field_in_bounds(e: AccessorEntry) -> bool {
    e.address + field_width_bytes(e) <= KB_PI_LEN
}

/// The value a typed read of `e` takes from the image `img`.
pub open spec fn read_field(img: Seq<u8>, e: AccessorEntry) -> Value {
    if e.bit_length == 1 {
        Value::Bit(bit_of_byte(img[e.address as int], entry_bit(e)))
    } else if e.bit_length == 8 {
        Value::Byte(img[e.address as int])
    } else if e.bit_length == 16 {
        Value::Word(word_of_bytes(img[e.address as int], img[e.address as int + 1]))
    } else {
        Value::DWord(
            dword_of_bytes(
                img[e.address as int],
                img[e.address as int + 1],
                img[e.address as int + 2],
                img[e.address as int + 3],
            ),
        )
    }
}

/// The image after a typed write of `v` into `e`.
pub open spec fn write_field(img: Seq<u8>, e: AccessorEntry, v: Value) -> Seq<u8> {
    let a = e.address as int;
    match v {
        Value::Bit(b) => img.update(a, byte_with_bit(img[a], entry_bit(e), b)),
        Value::Byte(x) => img.update(a, x),
        Value::Word(w) => img.update(a, word_lo(w)).update(a + 1, word_hi(w)),
        Value::DWord(d) => img.update(a, dword_byte(d, 0)).update(a + 1, dword_byte(d, 1)).update(
            a + 2,
            dword_byte(d, 2),
        ).update(a + 3, dword_byte(d, 3)),
    }
}

/// Whether entry `i` is the first of the table whose name encodes to the
/// queried bytes.
pub open spec fn is_first_match(t: Seq<AccessorEntry>, q: Seq<u8>, i: int) -> bool {
    &&& 0 <= i < t.len()
    &&& name_matches(t[i], q)
    &&& forall|j: int| 0 <= j < i ==> !name_matches(#[trigger] t[j], q)
}

/// Whether no entry of the table matches the queried bytes.
pub open spec fn no_match(t: Seq<AccessorEntry>, q: Seq<u8>) -> bool {
    forall|i: int| 0 <= i < t.len() ==> !name_matches(#[trigger] t[i], q)
}

/// Whether a lookup of the queried bytes succeeds against the table: the
/// query is a sound name and some entry carries it.
pub open spec fn resolvable(t: Seq<AccessorEntry>, q: Seq<u8>) -> bool {
    !has_nul(q) && q.len() <= 31 && !no_match(t, q)
}

/// The error every name-keyed operation answers when resolution fails: a
/// name with an interior zero byte or an unknown name is an invalid
/// argument, an oversized name is rejected before any transfer, and a
/// lookup against an empty table reports that no variables are configured.
pub open spec fn resolution_error<T>(
    t: Seq<AccessorEntry>,
    q: Seq<u8>,
    r: Result<T, PiControlError>,
) -> bool {
    &&& (has_nul(q) ==> invalid_arg(r, "name"@))
    &&& (!has_nul(q) && q.len() > 31 ==> invalid_arg(r, "length of name"@))
    &&& (!has_nul(q) && q.len() <= 31 && t.len() == 0 ==> r == Err::<T, PiControlError>(
        PiControlError::NoVarEntries,
    ))
    &&& (!has_nul(q) && q.len() <= 31 && t.len() > 0 && no_match(t, q) ==> invalid_arg(
        r,
        "name"@,
    ))
}

/// A first match is unique: no two indices can both be first.
pub proof fn lemma_first_match_unique(t: Seq<AccessorEntry>, q: Seq<u8>, i: int, j: int)
    requires
        is_first_match(t, q, i),
        is_first_match(t, q, j),
    ensures
        i == j,
{
    if i < j {
        assert(!name_matches(t[i], q));
    }
    if j < i {
        assert(!name_matches(t[j], q));
    }
}

/// Reading a field back right after writing it yields the value written,
/// for every defined bit length and every in-bounds address, provided the
/// value's width is the field's.
pub proof fn lemma_field_round_trip(img: Seq<u8>, e: AccessorEntry, v: Value)
    requires
        img.len() == KB_PI_LEN,
        valid_entry(e),
        e.bit_length as usize == v.spec_bitcnt(),
        field_in_bounds(e),
    ensures
        read_field(write_field(img, e, v), e) == v,
{
    let a = e.address as int;
    match v {
        Value::Bit(b) => {
            lemma_bit_round_trip(img[a], entry_bit(e), b);
        },
        Value::Byte(x) => {},
        Value::Word(w) => {
            lemma_word_round_trip(w);
        },
        Value::DWord(d) => {
            lemma_dword_round_trip(d);
        },
    }
}

/// Typed, name-addressable access to an owned process image.
#[derive(Debug)]
pub struct PiControl {
    image: ProcessImage,
    vars: Vec<AccessorEntry>,
}

impl PiControl {
    /// The bytes of the owned image.
    pub closed spec fn img(self) -> Seq<u8> {
        self.image@
    }

    /// The accessor table the names resolve against.
    pub closed spec fn entries(self) -> Seq<AccessorEntry> {
        self.vars@
    }

    /// The image has its fixed length and every table entry has the
    /// generated shape.
    pub open spec fn wf(self) -> bool {
        self.img().len() == KB_PI_LEN && valid_table(self.entries())
    }

    /// Builds the façade from a configuration document: the accessor table
    /// is generated once, and the image starts zero-filled.
    pub fn new(rsc: &RSC) -> (r: Result<PiControl, PiControlError>)
        ensures
            devices_valid(rsc.devices@) ==> (r matches Ok(pc) && pc.wf() && table_abs(pc.entries())
                == devices_abs(rsc.devices@) && (forall|i: int|
                0 <= i < KB_PI_LEN ==> pc.img()[i] == 0u8)),
            !devices_valid(rsc.devices@) ==> (r matches Err(e) && e matches
                PiControlError::InvalidArgument(_)),
    {
        match build_accessor_table(rsc) {
            Ok(vars) => Ok(PiControl { image: ProcessImage::new(), vars }),
            Err(e) => Err(e),
        }
    }

    /// Builds the façade from an image and a ready-made table, rejecting a
    /// table with an entry outside the generated shape.
    pub fn from_parts(image: ProcessImage, vars: Vec<AccessorEntry>) -> (r: Result<
        PiControl,
        PiControlError,
    >)
        requires
            image.wf(),
        ensures
            valid_table(vars@) ==> (r matches Ok(pc) && pc.wf() && pc.img() == image@
                && pc.entries() == vars@),
            !valid_table(vars@) ==> invalid_arg(r, "table"@),
    {
        let n = vars.len();
        let mut i: usize = 0;
        while i < n
            invariant
                n == vars@.len(),
                i <= n,
                forall|j: int| 0 <= j < i ==> valid_entry(#[trigger] vars@[j]),
            decreases n - i,
        {
            let e = &vars[i];
            let bl = e.bit_length;
            let length_ok = bl == 1 || bl == 8 || bl == 16 || bl == 32;
            let bit_ok = match e.bit_position {
                Some(b) => bl == 1 && b < 8,
                None => bl != 1,
            };
            if !(length_ok && bit_ok) {
                return Err(PiControlError::InvalidArgument("table"));
            }
            i += 1;
        }
        Ok(PiControl { image, vars })
    }

    /// The owned image, for direct byte-level inspection.
    pub fn image(&self) -> (r: &ProcessImage)
        ensures
            r@ == self.img(),
    {
        &self.image
    }

    /// The accessor table, in generation order.
    pub fn accessors(&self) -> (r: &Vec<AccessorEntry>)
        ensures
            r@ == self.entries(),
    {
        &self.vars
    }

    /// Resolves a field name to its variable record: the name echoed back
    /// zero-padded, with the entry's address, bit position and bit length.
    pub fn find_variable(&self, name: &str) -> (r: Result<SPIVariable, PiControlError>)
        requires
            self.wf(),
        ensures
            resolution_error(self.entries(), name.spec_bytes(), r),
            forall|i: int|
                resolvable(self.entries(), name.spec_bytes()) && is_first_match(
                    self.entries(),
                    name.spec_bytes(),
                    i,
                ) ==> (r matches Ok(v) && v.i16uAddress == self.entries()[i].address && v.i8uBit
                    == entry_bit(self.entries()[i]) && v.i16uLength == self.entries()[i].bit_length
                    && v.strVarName@.subrange(0, name.spec_bytes().len() as int)
                    == name.spec_bytes() && (forall|k: int|
                    name.spec_bytes().len() <= k < 32 ==> v.strVarName@[k] == 0u8)),
    {
        let req = match find_variable_request(name) {
            Ok(v) => v,
            Err(e) => {
                return Err(e);
            },
        };
        if self.vars.len() == 0 {
            return Err(PiControlError::NoVarEntries);
        }
        match find_entry(&self.vars, name) {
            None => Err(PiControlError::InvalidArgument("name")),
            Some(entry) => {
                let bit = match entry.bit_position {
                    Some(b) => b,
                    None => 0,
                };
                let r = SPIVariable {
                    strVarName: req.strVarName,
                    i16uAddress: entry.address,
                    i8uBit: bit,
                    i16uLength: entry.bit_length as u16,
                };
                proof {
                    let t = self.entries();
                    let q = name.spec_bytes();
                    let i0 = choose|i0: int|
                        0 <= i0 < t.len() && *entry == t[i0] && name_matches(t[i0], q) && (
                        forall|j: int| 0 <= j < i0 ==> !name_matches(#[trigger] t[j], q));
                    assert forall|i: int|
                        resolvable(t, q) && is_first_match(t, q, i) implies t[i]
                        == *entry by {
                        lemma_first_match_unique(t, q, i, i0);
                    }
                }
                Ok(r)
            },
        }
    }

    /// Reads the field named `name`, wrapping the raw transfer in the
    /// variant matching the field's bit length.
    pub fn get_value(&self, name: &str) -> (r: Result<Value, PiControlError>)
        requires
            self.wf(),
        ensures
            resolution_error(self.entries(), name.spec_bytes(), r),
            forall|i: int|
                resolvable(self.entries(), name.spec_bytes()) && is_first_match(
                    self.entries(),
                    name.spec_bytes(),
                    i,
                ) ==> {
                    let e = self.entries()[i];
                    &&& (field_in_bounds(e) ==> r == Ok::<Value, PiControlError>(
                        read_field(self.img(), e),
                    ))
                    &&& (!field_in_bounds(e) && field_width_bytes(e) == 1 ==> invalid_arg(
                        r,
                        "address"@,
                    ))
                    &&& (!field_in_bounds(e) && field_width_bytes(e) > 1 ==> r == Err::<
                        Value,
                        PiControlError,
                    >(PiControlError::IoFailure))
                },
    {
        if let Err(e) = find_variable_request(name) {
            return Err(e);
        }
        if self.vars.len() == 0 {
            return Err(PiControlError::NoVarEntries);
        }
        let entry = match find_entry(&self.vars, name) {
            None => {
                return Err(PiControlError::InvalidArgument("name"));
            },
            Some(entry) => entry,
        };
        proof {
            let t = self.entries();
            let q = name.spec_bytes();
            let i0 = choose|i0: int|
                0 <= i0 < t.len() && *entry == t[i0] && name_matches(t[i0], q) && (forall|j: int|
                    0 <= j < i0 ==> !name_matches(#[trigger] t[j], q));
            assert(valid_entry(t[i0]));
            assert forall|i: int|
                resolvable(t, q) && is_first_match(t, q, i) implies t[i] == *entry by {
                lemma_first_match_unique(t, q, i, i0);
            }
        }
        match entry.bit_length {
            1 => {
                let bit = match entry.bit_position {
                    Some(b) => b,
                    None => 0,
                };
                match self.image.get_bit(entry.address, Bit::from_u8(bit)) {
                    Ok(b) => Ok(Value::Bit(b)),
                    Err(e) => Err(e),
                }
            },
            8 => {
                match self.image.get_byte(entry.address) {
                    Ok(b) => Ok(Value::Byte(b)),
                    Err(e) => Err(e),
                }
            },
            16 => {
                match self.image.get_word(entry.address) {
                    Ok(w) => Ok(Value::Word(w)),
                    Err(e) => Err(e),
                }
            },
            32 => {
                match self.image.get_dword(entry.address) {
                    Ok(d) => Ok(Value::DWord(d)),
                    Err(e) => Err(e),
                }
            },
            _ => Err(PiControlError::ProtocolViolation),
        }
    }

    /// Writes `value` to the field named `name`. The value's implied bit
    /// length must equal the resolved field's bit length exactly; a
    /// mismatch is rejected before anything is written.
    pub fn set_value(&mut self, name: &str, value: Value) -> (r: Result<(), PiControlError>)
        requires
            old(self).wf(),
        ensures
            final(self).wf(),
            final(self).entries() == old(self).entries(),
            resolution_error(old(self).entries(), name.spec_bytes(), r),
            !resolvable(old(self).entries(), name.spec_bytes()) ==> final(self).img()
                == old(self).img(),
            forall|i: int|
                resolvable(old(self).entries(), name.spec_bytes()) && is_first_match(
                    old(self).entries(),
                    name.spec_bytes(),
                    i,
                ) ==> {
                    let e = old(self).entries()[i];
                    &&& (e.bit_length as usize != value.spec_bitcnt() ==> invalid_arg(
                        r,
                        "value or str"@,
                    ) && final(self).img() == old(self).img())
                    &&& (e.bit_length as usize == value.spec_bitcnt() && field_in_bounds(e)
                        ==> (r matches Ok(()) && final(self).img() == write_field(
                        old(self).img(),
                        e,
                        value,
                    )))
                    &&& (e.bit_length as usize == value.spec_bitcnt() && !field_in_bounds(e)
                        && field_width_bytes(e) == 1 ==> invalid_arg(r, "address"@)
                        && final(self).img() == old(self).img())
                    &&& (e.bit_length as usize == value.spec_bitcnt() && !field_in_bounds(e)
                        && field_width_bytes(e) > 1 ==> r == Err::<(), PiControlError>(
                        PiControlError::IoFailure,
                    ) && final(self).img() == old(self).img())
                },
    {
        if let Err(e) = find_variable_request(name) {
            return Err(e);
        }
        if self.vars.len() == 0 {
            return Err(PiControlError::NoVarEntries);
        }
        let (address, bit_position, bit_length) = match find_entry(&self.vars, name) {
            None => {
                return Err(PiControlError::InvalidArgument("name"));
            },
            Some(entry) => {
                proof {
                    let t = self.entries();
                    let q = name.spec_bytes();
                    let i0 = choose|i0: int|
                        0 <= i0 < t.len() && *entry == t[i0] && name_matches(t[i0], q) && (
                        forall|j: int| 0 <= j < i0 ==> !name_matches(#[trigger] t[j], q));
                    assert(valid_entry(t[i0]));
                    assert forall|i: int|
                        resolvable(t, q) && is_first_match(t, q, i) implies t[i]
                        == *entry by {
                        lemma_first_match_unique(t, q, i, i0);
                    }
                }
                (entry.address, entry.bit_position, entry.bit_length)
            },
        };
        if bit_length as usize != value.bitcnt() {
            return Err(PiControlError::InvalidArgument("value or str"));
        }
        match value {
            Value::Bit(b) => {
                let bit = match bit_position {
                    Some(b) => b,
                    None => 0,
                };
                self.image.set_bit(address, Bit::from_u8(bit), b)
            },
            Value::Byte(b) => self.image.set_byte(address, b),
            Value::Word(w) => self.image.set_word(address, w),
            Value::DWord(d) => self.image.set_dword(address, d),
        }
    }

    /// Reads the field at table index `idx` directly, with no name lookup:
    /// the run-time form of the generated getter of that field.
    pub fn get_by_index(&self, idx: usize) -> (r: Result<Value, PiControlError>)
        requires
            self.wf(),
        ensures
            idx >= self.entries().len() ==> invalid_arg(r, "index"@),
            idx < self.entries().len() ==> {
                let e = self.entries()[idx as int];
                &&& (field_in_bounds(e) ==> r == Ok::<Value, PiControlError>(
                    read_field(self.img(), e),
                ))
                &&& (!field_in_bounds(e) && field_width_bytes(e) == 1 ==> invalid_arg(
                    r,
                    "address"@,
                ))
                &&& (!field_in_bounds(e) && field_width_bytes(e) > 1 ==> r == Err::<
                    Value,
                    PiControlError,
                >(PiControlError::IoFailure))
            },
    {
        if idx >= self.vars.len() {
            return Err(PiControlError::InvalidArgument("index"));
        }
        let entry = &self.vars[idx];
        match entry.bit_length {
            1 => {
                let bit = match entry.bit_position {
                    Some(b) => b,
                    None => 0,
                };
                match self.image.get_bit(entry.address, Bit::from_u8(bit)) {
                    Ok(b) => Ok(Value::Bit(b)),
                    Err(e) => Err(e),
                }
            },
            8 => {
                match self.image.get_byte(entry.address) {
                    Ok(b) => Ok(Value::Byte(b)),
                    Err(e) => Err(e),
                }
            },
            16 => {
                match self.image.get_word(entry.address) {
                    Ok(w) => Ok(Value::Word(w)),
                    Err(e) => Err(e),
                }
            },
            32 => {
                match self.image.get_dword(entry.address) {
                    Ok(d) => Ok(Value::DWord(d)),
                    Err(e) => Err(e),
                }
            },
            _ => Err(PiControlError::ProtocolViolation),
        }
    }

    /// Writes the field at table index `idx` directly, with no name
    /// lookup: the run-time form of the generated setter of that field.
    /// Inputs get no setter, so a read-only entry is rejected, as is a
    /// value whose implied bit length differs from the field's.
    pub fn set_by_index(&mut self, idx: usize, value: Value) -> (r: Result<(), PiControlError>)
        requires
            old(self).wf(),
        ensures
            final(self).wf(),
            final(self).entries() == old(self).entries(),
            idx >= old(self).entries().len() ==> invalid_arg(r, "index"@) && final(self).img()
                == old(self).img(),
            idx < old(self).entries().len() ==> {
                let e = old(self).entries()[idx as int];
                &&& (!e.writable ==> invalid_arg(r, "writable"@) && final(self).img() == old(
                    self,
                ).img())
                &&& (e.writable && e.bit_length as usize != value.spec_bitcnt() ==> invalid_arg(
                    r,
                    "value or str"@,
                ) && final(self).img() == old(self).img())
                &&& (e.writable && e.bit_length as usize == value.spec_bitcnt()
                    && field_in_bounds(e) ==> (r matches Ok(()) && final(self).img()
                    == write_field(old(self).img(), e, value)))
                &&& (e.writable && e.bit_length as usize == value.spec_bitcnt()
                    && !field_in_bounds(e) && field_width_bytes(e) == 1 ==> invalid_arg(
                    r,
                    "address"@,
                ) && final(self).img() == old(self).img())
                &&& (e.writable && e.bit_length as usize == value.spec_bitcnt()
                    && !field_in_bounds(e) && field_width_bytes(e) > 1 ==> r == Err::<
                    (),
                    PiControlError,
                >(PiControlError::IoFailure) && final(self).img() == old(self).img())
            },
    {
        if idx >= self.vars.len() {
            return Err(PiControlError::InvalidArgument("index"));
        }
        let (address, bit_position, bit_length, writable) = {
            let entry = &self.vars[idx];
            (entry.address, entry.bit_position, entry.bit_length, entry.writable)
        };
        if !writable {
            return Err(PiControlError::InvalidArgument("writable"));
        }
        if bit_length as usize != value.bitcnt() {
            return Err(PiControlError::InvalidArgument("value or str"));
        }
        match value {
            Value::Bit(b) => {
                let bit = match bit_position {
                    Some(b) => b,
                    None => 0,
                };
                self.image.set_bit(address, Bit::from_u8(bit), b)
            },
            Value::Byte(b) => self.image.set_byte(address, b),
            Value::Word(w) => self.image.set_word(address, w),
            Value::DWord(d) => self.image.set_dword(address, d),
        }
    }
}

} // verus!
