//! A byte buffer with a read position.

use vstd::prelude::*;

verus! {

/// Why a read from a buffer failed.
#[derive(Debug, Clone, Copy, PartialEq, Eq, Structural)]
pub enum BufferError {
    /// Fewer bytes were left than were asked for.
    EndOfBuffer,
}

/// Bytes and the position of the next read.
#[derive(Debug, Clone, PartialEq, Eq)]
pub struct Buffer {
    bytes: Vec<u8>,
    index: usize,
}

/// Moving a read position by hand.
pub trait Sas {
    /// The read position.
    spec fn position(&self) -> int;

    /// Moves the read position one byte forward.
    fn ts(&mut self)
        requires
            old(self).position() < usize::MAX,
        ensures
            final(self).position() == old(self).position() + 1,
    ;
}

impl Buffer {
    /// All bytes of the buffer, read or not.
    pub closed spec fn bytes(&self) -> Seq<u8> {
        self.bytes@
    }

    /// The position of the next read.
    pub closed spec fn index(&self) -> int {
        self.index as int
    }

    /// The `size` bytes at the read position, if that many are left.
    pub open spec fn next(&self, size: int) -> Result<Seq<u8>, BufferError> {
        if self.index() + size <= self.bytes().len() {
            Ok(self.bytes().subrange(self.index(), self.index() + size))
        } else {
            Err(BufferError::EndOfBuffer)
        }
    }

    /// A buffer over `bytes` that reads from `index` on.
    pub fn new(bytes: Vec<u8>, index: usize) -> (buffer: Buffer)
        ensures
            buffer.bytes() == bytes@,
            buffer.index() == index,
    {
        Buffer { bytes, index }
    }

    /// The next `size` bytes, without moving the read position.
    pub fn read(&self, size: usize) -> (r: Result<Vec<u8>, BufferError>)
        ensures
            match self.next(size as int) {
                Ok(bytes) => r matches Ok(read) && read@ == bytes,
                Err(error) => r matches Err(e) && e == error,
            },
    {
        let total: usize = self.bytes.len();
        if self.index > total || total - self.index < size {
            return Err(BufferError::EndOfBuffer);
        }
        Ok(
            vstd::slice::slice_to_vec(
                vstd::slice::slice_subrange(
                    self.bytes.as_slice(),
                    self.index,
                    self.index + size,
                ),
            ),
        )
    }

    /// The next `size` bytes; the read position moves behind them. A read
    /// that fails moves nothing.
    pub fn read2(&mut self, size: usize) -> (r: Result<Vec<u8>, BufferError>)
        ensures
            final(self).bytes() == old(self).bytes(),
            match old(self).next(size as int) {
                Ok(bytes) => (r matches Ok(read) && read@ == bytes) && final(self).index() == old(self).index() + size,
                Err(error) => (r matches Err(e) && e == error) && final(self).index() == old(self).index(),
            },
    {
        match self.read(size) {
            Ok(bytes) => {
                let total: usize = self.bytes.len();
                self.index = self.index + size;
                Ok(bytes)
            },
            Err(error) => Err(error),
        }
    }
}

impl Sas for Buffer {
    closed spec fn position(&self) -> int {
        self.index as int
    }

    fn ts(&mut self) {
        self.index = self.index + 1;
    }
}

} // verus!
