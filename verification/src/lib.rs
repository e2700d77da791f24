//! Typed, name-addressable access to the process image of a RevPi I/O
//! controller.
//!
//! The crate is organised around a fixed-size byte buffer, the process image,
//! that mirrors the state of every configured I/O field. [`picontrol::PiControl`]
//! resolves a field name to an address and performs a bounds-checked, typed
//! transfer against an owned [`image::ProcessImage`]. The [`channel`] module
//! holds the request builders and response decoders for the control-operation
//! catalog of the underlying driver, so that an embedding application can run
//! the same validated exchanges against the real character device. The [`rsc`]
//! module models the configuration document, and [`table`] turns it into a
//! registration table of pre-resolved accessors, one getter and (for writable
//! fields) one setter per configured field.

pub mod channel;
pub mod codec;
pub mod error;
pub mod image;
pub mod picontrol;
pub mod records;
pub mod rsc;
pub mod table;
pub mod value;
