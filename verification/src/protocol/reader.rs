//! Sequential reader for packed C-style structs from a byte slice.
use vstd::prelude::*;

use crate::error::WheelError;
use crate::protocol::bytes::{
    byte_as_i8, byte_to_i8, le_i16, le_u16, le_u32, read_le_i16, read_le_u16, read_le_u32,
};

verus! {

/// Sequential reader for packed C-style structs from a byte slice.
///
/// All multi-byte values are read as little-endian, matching the device's packed structs.
pub struct StructReader<'a> {
    data: &'a [u8],
    offset: usize,
}

/// What a read of `width` bytes returns from a reader over `bytes` at `position`: the
/// value that `decode` finds there when the bytes are present, else the shortfall error.
pub open spec fn read_outcome<T>(bytes: Seq<u8>, position: nat, width: nat, value: T) -> Result<
    T,
    WheelError,
> {
    if position + width <= bytes.len() {
        Ok(value)
    } else {
        Err(WheelError::BufferTooSmall { expected: (position + width) as usize, got: bytes.len() as usize })
    }
}

/// The position a reader at `position` moves to after a read of `width` bytes: forward by
/// `width` when the bytes are present, unchanged otherwise.
pub open spec fn position_after(bytes: Seq<u8>, position: nat, width: nat) -> nat {
    if position + width <= bytes.len() {
        position + width
    } else {
        position
    }
}

/// A read of `width` bytes at `position` succeeds, with the decoded value, exactly when the
/// bytes are there, and then moves the reader on by `width`; otherwise it fails with the
/// number of bytes the read needed in total and the number there are, and the reader stays.
pub proof fn lemma_read_meaning<T>(bytes: Seq<u8>, position: nat, width: nat, value: T)
    requires
        position + width <= usize::MAX,
        bytes.len() <= usize::MAX,
    ensures
        read_outcome(bytes, position, width, value) is Ok <==> position + width <= bytes.len(),
        position + width <= bytes.len() ==> read_outcome(bytes, position, width, value) == Ok::<
            T,
            WheelError,
        >(value) && position_after(bytes, position, width) == position + width,
        position + width > bytes.len() ==> position_after(bytes, position, width) == position
            && (read_outcome(bytes, position, width, value) matches Err(
            WheelError::BufferTooSmall { expected, got },
        ) && expected == position + width && got == bytes.len()),
{
}

impl<'a> StructReader<'a> {
    #[verifier::type_invariant]
    spec fn inv(self) -> bool {
        &&& self.offset <= self.data@.len()
        &&& self.data@.len() <= isize::MAX
    }

    /// The bytes being read.
    pub closed spec fn bytes(self) -> Seq<u8> {
        self.data@
    }

    /// The number of bytes consumed so far.
    pub closed spec fn position(self) -> nat {
        self.offset as nat
    }

    /// Creates a new reader positioned at the start of `data`.
    pub fn new(data: &'a [u8]) -> (r: Self)
        requires
            data@.len() <= isize::MAX,
        ensures
            r.bytes() == data@,
            r.position() == 0,
    {
        StructReader { data, offset: 0 }
    }

    /// Checks that `n` more bytes are available.
    fn require(&self, n: usize) -> (r: Result<(), WheelError>)
        requires
            n <= 4,
        ensures
            r == read_outcome(self.bytes(), self.position(), n as nat, ()),
    {
        proof {
            use_type_invariant(self);
        }
        if self.offset + n > self.data.len() {
            Err(WheelError::BufferTooSmall { expected: self.offset + n, got: self.data.len() })
        } else {
            Ok(())
        }
    }

    /// Reads the next byte as `u8` and advances the cursor.
    pub fn u8(&mut self) -> (r: Result<u8, WheelError>)
        ensures
            final(self).bytes() == old(self).bytes(),
            final(self).position() == position_after(old(self).bytes(), old(self).position(), 1),
            r == read_outcome(
                old(self).bytes(),
                old(self).position(),
                1,
                old(self).bytes()[old(self).position() as int],
            ),
    {
        proof {
            use_type_invariant(&*self);
        }
        match self.require(1) {
            Err(e) => Err(e),
            Ok(()) => {
                let val = self.data[self.offset];
                self.offset = self.offset + 1;
                Ok(val)
            },
        }
    }

    /// Reads the next byte as `i8` (reinterpret cast) and advances the cursor.
    pub fn i8(&mut self) -> (r: Result<i8, WheelError>)
        ensures
            final(self).bytes() == old(self).bytes(),
            final(self).position() == position_after(old(self).bytes(), old(self).position(), 1),
            r == read_outcome(
                old(self).bytes(),
                old(self).position(),
                1,
                byte_as_i8(old(self).bytes()[old(self).position() as int]),
            ),
    {
        match self.u8() {
            Err(e) => Err(e),
            Ok(b) => Ok(byte_to_i8(b)),
        }
    }

    /// Reads the next 2 bytes as a little-endian `u16` and advances the cursor.
    pub fn u16(&mut self) -> (r: Result<u16, WheelError>)
        ensures
            final(self).bytes() == old(self).bytes(),
            final(self).position() == position_after(old(self).bytes(), old(self).position(), 2),
            r == read_outcome(
                old(self).bytes(),
                old(self).position(),
                2,
                le_u16(old(self).bytes(), old(self).position() as int),
            ),
    {
        proof {
            use_type_invariant(&*self);
        }
        match self.require(2) {
            Err(e) => Err(e),
            Ok(()) => {
                let val = read_le_u16(self.data, self.offset);
                self.offset = self.offset + 2;
                Ok(val)
            },
        }
    }

    /// Reads the next 2 bytes as a little-endian `i16` and advances the cursor.
    pub fn i16(&mut self) -> (r: Result<i16, WheelError>)
        ensures
            final(self).bytes() == old(self).bytes(),
            final(self).position() == position_after(old(self).bytes(), old(self).position(), 2),
            r == read_outcome(
                old(self).bytes(),
                old(self).position(),
                2,
                le_i16(old(self).bytes(), old(self).position() as int),
            ),
    {
        proof {
            use_type_invariant(&*self);
        }
        match self.require(2) {
            Err(e) => Err(e),
            Ok(()) => {
                let val = read_le_i16(self.data, self.offset);
                self.offset = self.offset + 2;
                Ok(val)
            },
        }
    }

    /// Reads the next 4 bytes as a little-endian `u32` and advances the cursor.
    pub fn u32(&mut self) -> (r: Result<u32, WheelError>)
        ensures
            final(self).bytes() == old(self).bytes(),
            final(self).position() == position_after(old(self).bytes(), old(self).position(), 4),
            r == read_outcome(
                old(self).bytes(),
                old(self).position(),
                4,
                le_u32(old(self).bytes(), old(self).position() as int),
            ),
    {
        proof {
            use_type_invariant(&*self);
        }
        match self.require(4) {
            Err(e) => Err(e),
            Ok(()) => {
                let val = read_le_u32(self.data, self.offset);
                self.offset = self.offset + 4;
                Ok(val)
            },
        }
    }
}

} // verus!
