//! The configuration document model: the metadata that describes, per
//! device, a base offset and the input, output and memory fields laid out
//! inside the process image.
//!
//! The document itself is parsed outside this crate; here it appears as
//! plain values. Each field collection is a sequence of records paired with
//! their positional index, kept in ascending index order, which makes the
//! emission order of the accessor table deterministic.

use vstd::prelude::*;

verus! {

/// The application section of a configuration document.
#[derive(Debug, Clone, PartialEq, Eq)]
pub struct App {
    pub name: String,
    pub version: String,
    pub save_ts: String,
    pub language: String,
}

/// The summary section: the totals of input and output bytes.
#[derive(Debug, Clone, PartialEq, Eq, Structural)]
pub struct Summary {
    pub inp_total: usize,
    pub out_total: usize,
}

/// One field record of a device's input, output or memory section.
#[derive(Debug, Clone, PartialEq, Eq)]
pub struct InOutMem {
    /// The field's name, unique within the whole configuration.
    pub name: String,
    /// The field's default value.
    pub default: u64,
    /// The field's width in bits; one of 1, 8, 16 and 32.
    pub bit_length: u8,
    /// The field's byte offset inside its device.
    pub offset: u64,
    /// Whether the field is exported.
    pub exported: bool,
    /// The field's sort position in the configuration editor.
    pub sort_pos: u16,
    /// A free-text comment.
    pub comment: String,
    /// The bit inside the byte at `offset`; present exactly when
    /// `bit_length` is one.
    pub bit_position: Option<u8>,
}

/// One configured device: its identity, its base offset inside the process
/// image, and its three field sections.
#[derive(Debug, Clone, PartialEq, Eq)]
pub struct Device {
    pub guid: String,
    pub id: String,
    pub dev_type: String,
    pub product_type: u64,
    pub position: u64,
    pub name: String,
    pub bmk: String,
    pub inp_variant: u64,
    pub out_variant: u64,
    pub comment: String,
    /// The device's base offset inside the process image.
    pub offset: u64,
    /// Input fields by ascending positional index; read-only.
    pub inp: Vec<(u64, InOutMem)>,
    /// Output fields by ascending positional index; readable and writable.
    pub out: Vec<(u64, InOutMem)>,
    /// Memory fields by ascending positional index; readable and writable.
    pub mem: Vec<(u64, InOutMem)>,
    pub active: Option<bool>,
}

/// A whole configuration document.
#[derive(Debug, Clone, PartialEq, Eq)]
pub struct RSC {
    pub app: App,
    pub summary: Summary,
    /// The configured devices, in the document's order.
    pub devices: Vec<Device>,
}

} // verus!
