//! An owned mirror of the process image: a fixed-length byte buffer with
//! bounds-checked, typed accessors for bit, byte, word and double-word
//! transfers.
//!
//! Bit and byte transfers validate the address against the image length
//! before touching the buffer, exactly as the control channel demands of its
//! callers. Word and double-word transfers are positioned transfers whose
//! bounds are enforced by the transfer itself; an out-of-range one surfaces
//! as an I/O failure, not as an argument error.

use vstd::prelude::*;

use crate::codec::{
    bit_of_byte, byte_with_bit, bytes_to_dword, bytes_to_word, dword_byte, dword_of_bytes,
    dword_to_bytes, get_bit_of_byte, set_bit_of_byte, word_hi, word_lo, word_of_bytes,
    word_to_bytes,
};
use crate::error::{invalid_arg, PiControlError};
use crate::value::Bit;

verus! {

/// Length of the process image in bytes.
pub const KB_PI_LEN: usize = 4096;

/// A fixed-length byte buffer mirroring the controller's process image.
#[derive(Debug)]
pub struct ProcessImage {
    data: Vec<u8>,
}

impl View for ProcessImage {
    type V = Seq<u8>;

    closed spec fn view(&self) -> Seq<u8> {
        self.data@
    }
}

impl ProcessImage {
    /// The buffer always has exactly the image length.
    pub open spec fn wf(self) -> bool {
        self@.len() == KB_PI_LEN
    }

    /// A zero-filled image.
    pub fn new() -> (r: Self)
        ensures
            r.wf(),
            forall|i: int| 0 <= i < KB_PI_LEN ==> r@[i] == 0u8,
    {
        let mut data: Vec<u8> = Vec::new();
        while data.len() < KB_PI_LEN
            invariant
                data@.len() <= KB_PI_LEN,
                forall|i: int| 0 <= i < data@.len() ==> data@[i] == 0u8,
            decreases KB_PI_LEN - data@.len(),
        {
            data.push(0u8);
        }
        ProcessImage { data }
    }

    /// An image holding the given bytes; rejects a buffer whose length is
    /// not exactly the image length.
    pub fn from_bytes(data: Vec<u8>) -> (r: Result<Self, PiControlError>)
        ensures
            data@.len() == KB_PI_LEN ==> (r matches Ok(img) && img@ == data@),
            data@.len() != KB_PI_LEN ==> invalid_arg(r, "image"@),
    {
        if data.len() == KB_PI_LEN {
            Ok(ProcessImage { data })
        } else {
            Err(PiControlError::InvalidArgument("image"))
        }
    }

    /// Replaces the whole image with the given one, byte for byte.
    pub fn set_exported_outputs(&mut self, image: &[u8; KB_PI_LEN])
        requires
            old(self).wf(),
        ensures
            final(self).wf(),
            final(self)@ == image@,
    {
        let mut i: usize = 0;
        while i < KB_PI_LEN
            invariant
                self.wf(),
                i <= KB_PI_LEN,
                image@.len() == KB_PI_LEN,
                forall|j: int| 0 <= j < i ==> self@[j] == image@[j],
                forall|j: int| i <= j < KB_PI_LEN ==> self@[j] == old(self)@[j],
            decreases KB_PI_LEN - i,
        {
            self.data[i] = image[i];
            i += 1;
        }
        proof {
            assert(self@ =~= image@);
        }
    }

    /// Reads the byte at `address`; fails before any transfer when the
    /// address lies outside the image.
    pub fn get_byte(&self, address: u16) -> (r: Result<u8, PiControlError>)
        requires
            self.wf(),
        ensures
            address < KB_PI_LEN ==> r == Ok::<u8, PiControlError>(self@[address as int]),
            address >= KB_PI_LEN ==> invalid_arg(r, "address"@),
    {
        if (address as usize) < KB_PI_LEN {
            Ok(self.data[address as usize])
        } else {
            Err(PiControlError::InvalidArgument("address"))
        }
    }

    /// Writes the byte at `address`; fails before any transfer when the
    /// address lies outside the image.
    pub fn set_byte(&mut self, address: u16, value: u8) -> (r: Result<(), PiControlError>)
        requires
            old(self).wf(),
        ensures
            final(self).wf(),
            address < KB_PI_LEN ==> (r matches Ok(()) && final(self)@ == old(self)@.update(
                address as int,
                value,
            )),
            address >= KB_PI_LEN ==> invalid_arg(r, "address"@) && final(self)@ == old(self)@,
    {
        if (address as usize) < KB_PI_LEN {
            self.data[address as usize] = value;
            Ok(())
        } else {
            Err(PiControlError::InvalidArgument("address"))
        }
    }

    /// Reads bit `bit` of the byte at `address`; fails before any transfer
    /// when the address lies outside the image.
    pub fn get_bit(&self, address: u16, bit: Bit) -> (r: Result<bool, PiControlError>)
        requires
            self.wf(),
        ensures
            address < KB_PI_LEN ==> r == Ok::<bool, PiControlError>(
                bit_of_byte(self@[address as int], bit.spec_index()),
            ),
            address >= KB_PI_LEN ==> invalid_arg(r, "address"@),
    {
        if (address as usize) < KB_PI_LEN {
            Ok(get_bit_of_byte(self.data[address as usize], bit.index()))
        } else {
            Err(PiControlError::InvalidArgument("address"))
        }
    }

    /// Writes bit `bit` of the byte at `address`, leaving the other bits of
    /// that byte unchanged; fails before any transfer when the address lies
    /// outside the image.
    pub fn set_bit(&mut self, address: u16, bit: Bit, value: bool) -> (r: Result<
        (),
        PiControlError,
    >)
        requires
            old(self).wf(),
        ensures
            final(self).wf(),
            address < KB_PI_LEN ==> (r matches Ok(()) && final(self)@ == old(self)@.update(
                address as int,
                byte_with_bit(old(self)@[address as int], bit.spec_index(), value),
            )),
            address >= KB_PI_LEN ==> invalid_arg(r, "address"@) && final(self)@ == old(self)@,
    {
        if (address as usize) < KB_PI_LEN {
            let b = set_bit_of_byte(self.data[address as usize], bit.index(), value);
            self.data[address as usize] = b;
            Ok(())
        } else {
            Err(PiControlError::InvalidArgument("address"))
        }
    }

    /// Reads the word stored little-endian at `address` and `address + 1`.
    /// A transfer reaching past the end of the image fails as an I/O
    /// failure.
    pub fn get_word(&self, address: u16) -> (r: Result<u16, PiControlError>)
        requires
            self.wf(),
        ensures
            address + 2 <= KB_PI_LEN ==> r == Ok::<u16, PiControlError>(
                word_of_bytes(self@[address as int], self@[address as int + 1]),
            ),
            address + 2 > KB_PI_LEN ==> r == Err::<u16, PiControlError>(PiControlError::IoFailure),
    {
        if (address as usize) + 2 <= KB_PI_LEN {
            let lo = self.data[address as usize];
            let hi = self.data[address as usize + 1];
            Ok(bytes_to_word(lo, hi))
        } else {
            Err(PiControlError::IoFailure)
        }
    }

    /// Writes the word little-endian at `address` and `address + 1`. A
    /// transfer reaching past the end of the image fails as an I/O failure.
    pub fn set_word(&mut self, address: u16, value: u16) -> (r: Result<(), PiControlError>)
        requires
            old(self).wf(),
        ensures
            final(self).wf(),
            address + 2 <= KB_PI_LEN ==> (r matches Ok(()) && final(self)@ == old(self)@.update(
                address as int,
                word_lo(value),
            ).update(address as int + 1, word_hi(value))),
            address + 2 > KB_PI_LEN ==> r == Err::<(), PiControlError>(PiControlError::IoFailure)
                && final(self)@ == old(self)@,
    {
        if (address as usize) + 2 <= KB_PI_LEN {
            let (lo, hi) = word_to_bytes(value);
            self.data[address as usize] = lo;
            self.data[address as usize + 1] = hi;
            Ok(())
        } else {
            Err(PiControlError::IoFailure)
        }
    }

    /// Reads the double word stored little-endian at `address` through
    /// `address + 3`. A transfer reaching past the end of the image fails as
    /// an I/O failure.
    pub fn get_dword(&self, address: u16) -> (r: Result<u32, PiControlError>)
        requires
            self.wf(),
        ensures
            address + 4 <= KB_PI_LEN ==> r == Ok::<u32, PiControlError>(
                dword_of_bytes(
                    self@[address as int],
                    self@[address as int + 1],
                    self@[address as int + 2],
                    self@[address as int + 3],
                ),
            ),
            address + 4 > KB_PI_LEN ==> r == Err::<u32, PiControlError>(PiControlError::IoFailure),
    {
        if (address as usize) + 4 <= KB_PI_LEN {
            let b0 = self.data[address as usize];
            let b1 = self.data[address as usize + 1];
            let b2 = self.data[address as usize + 2];
            let b3 = self.data[address as usize + 3];
            Ok(bytes_to_dword(b0, b1, b2, b3))
        } else {
            Err(PiControlError::IoFailure)
        }
    }

    /// Writes the double word little-endian at `address` through
    /// `address + 3`. A transfer reaching past the end of the image fails as
    /// an I/O failure.
    pub fn set_dword(&mut self, address: u16, value: u32) -> (r: Result<(), PiControlError>)
        requires
            old(self).wf(),
        ensures
            final(self).wf(),
            address + 4 <= KB_PI_LEN ==> (r matches Ok(()) && final(self)@ == old(self)@.update(
                address as int,
                dword_byte(value, 0),
            ).update(address as int + 1, dword_byte(value, 1)).update(
                address as int + 2,
                dword_byte(value, 2),
            ).update(address as int + 3, dword_byte(value, 3))),
            address + 4 > KB_PI_LEN ==> r == Err::<(), PiControlError>(PiControlError::IoFailure)
                && final(self)@ == old(self)@,
    {
        if (address as usize) + 4 <= KB_PI_LEN {
            let (b0, b1, b2, b3) = dword_to_bytes(value);
            self.data[address as usize] = b0;
            self.data[address as usize + 1] = b1;
            self.data[address as usize + 2] = b2;
            self.data[address as usize + 3] = b3;
            Ok(())
        } else {
            Err(PiControlError::IoFailure)
        }
    }
}

} // verus!
