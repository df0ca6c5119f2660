//! Reader for a value that is already in memory and can therefore be accessed via a slice.
//!
//! This is the case for all resident attribute values and Index Record values.
//! Such values are part of NTFS records. NTFS records can't be directly read from the filesystem, which is why they
//! are always read into a buffer first and then fixed up in memory.
//! Further accesses to the record data can then happen via slices.
use vstd::prelude::*;

use super::{seek_contiguous, spec_invalid_seek_error, spec_seek_contiguous};
use crate::error::{NtfsError, Result};
use crate::io::{Read, Seek, SeekFrom};
use crate::traits::NtfsReadSeek;
use crate::types::NtfsPosition;

verus! {

/// Reader for a value of a resident NTFS Attribute (which is entirely contained in the NTFS File Record).
#[derive(Debug)]
pub struct NtfsResidentAttributeValue<'f> {
    data: &'f [u8],
    position: NtfsPosition,
    stream_position: u64,
}

impl<'f> NtfsResidentAttributeValue<'f> {
    /// The bytes of the value.
    pub closed spec fn spec_data(&self) -> Seq<u8> {
        self.data@
    }

    /// The absolute position of the first byte of the value within the filesystem.
    pub closed spec fn spec_position(&self) -> NtfsPosition {
        self.position
    }

    /// The number of bytes of the value that are left from the current position on.
    pub open spec fn spec_remaining_len(&self) -> nat {
        if self.spec_stream_position() < self.spec_data().len() {
            (self.spec_data().len() - self.spec_stream_position()) as nat
        } else {
            0
        }
    }

    /// The absolute filesystem position of the current position, if it lies within the value
    /// (or directly after it).
    pub open spec fn spec_data_position(&self) -> NtfsPosition {
        if self.spec_stream_position() <= self.spec_data().len() {
            self.spec_position().spec_add(self.spec_stream_position())
        } else {
            NtfsPosition::spec_at(0)
        }
    }

    /// Creates a reader for the bytes `data`, which start at `position` within the filesystem.
    pub fn new(data: &'f [u8], position: NtfsPosition) -> (r: Self)
        ensures
            r.spec_data() == data@,
            r.spec_position() == position,
            r.spec_stream_position() == 0,
    {
        Self { data, position, stream_position: 0 }
    }

    /// Returns a slice of the entire value data.
    ///
    /// Remember that a resident attribute fits entirely inside the NTFS File Record
    /// of the requested file.
    /// Hence, the fixed up File Record is entirely in memory at this stage and a slice
    /// to a resident attribute value can be obtained easily.
    pub fn data(&self) -> (r: &'f [u8])
        ensures
            r@ == self.spec_data(),
    {
        self.data
    }

    /// Returns the absolute current data seek position within the filesystem, in bytes.
    /// This may be `None` if the current seek position is outside the valid range.
    pub fn data_position(&self) -> (r: NtfsPosition)
        ensures
            r == self.spec_data_position(),
    {
        if self.stream_position <= self.len() {
            self.position.add_offset(self.stream_position)
        } else {
            NtfsPosition::none()
        }
    }

    /// Returns `true` if the resident attribute value contains no data.
    pub fn is_empty(&self) -> (r: bool)
        ensures
            r == (self.spec_data().len() == 0),
    {
        self.len() == 0
    }

    /// Returns the total length of the resident attribute value data, in bytes.
    pub fn len(&self) -> (r: u64)
        ensures
            r == self.spec_data().len(),
    {
        self.data.len() as u64
    }

    fn remaining_len(&self) -> (r: u64)
        ensures
            r == self.spec_remaining_len(),
    {
        self.len().saturating_sub(self.stream_position)
    }
}

impl<'f> NtfsReadSeek for NtfsResidentAttributeValue<'f> {
    closed spec fn spec_stream_position(&self) -> u64 {
        self.stream_position
    }

    /// Copies the bytes from the current position on into `buf`, as many as fit and are left.
    fn read<T>(&mut self, _fs: &mut T, buf: &mut [u8]) -> (r: Result<usize>) where T: Read + Seek
        ensures
            *final(_fs) == *old(_fs),
            ({
                let n = if old(buf)@.len() < old(self).spec_remaining_len() {
                    old(buf)@.len()
                } else {
                    old(self).spec_remaining_len()
                };
                let start = old(self).spec_stream_position() as int;
                &&& r == Ok::<usize, NtfsError>(n as usize)
                &&& final(buf)@.len() == old(buf)@.len()
                &&& forall|k: int| 0 <= k < n ==> final(buf)@[k] == old(self).spec_data()[start + k]
                &&& forall|k: int|
                    n <= k < old(buf)@.len() ==> final(buf)@[k] == old(buf)@[k]
                &&& final(self).spec_stream_position() == old(self).spec_stream_position() + n
                &&& final(self).spec_data() == old(self).spec_data()
                &&& final(self).spec_position() == old(self).spec_position()
                &&& old(self).spec_data().len() <= u64::MAX
                &&& n <= old(buf)@.len() <= usize::MAX
            }),
    {
        let remaining = self.remaining_len();
        let _ = self.len();
        let _ = buf.len();
        if remaining == 0 {
            return Ok(0);
        }
        let data_len = self.data.len();
        assert(self.stream_position < data_len);
        let bytes_to_read: usize = if (buf.len() as u64) < remaining {
            buf.len()
        } else {
            remaining as usize
        };
        let start = self.stream_position as usize;
        let ghost old_buf = buf@;
        let mut i: usize = 0;
        while i < bytes_to_read
            invariant
                i <= bytes_to_read,
                bytes_to_read <= buf@.len(),
                buf@.len() == old_buf.len(),
                start == self.stream_position,
                start + bytes_to_read <= self.data@.len(),
                self.data@.len() == data_len,
                forall|k: int| 0 <= k < i ==> buf@[k] == self.data@[start + k],
                forall|k: int| i <= k < buf@.len() ==> buf@[k] == old_buf[k],
            decreases bytes_to_read - i,
        {
            buf[i] = self.data[start + i];
            i = i + 1;
        }
        self.stream_position = self.stream_position + bytes_to_read as u64;
        Ok(bytes_to_read)
    }

    /// Moves the current position within the value (see [`seek_contiguous`]).
    fn seek<T>(&mut self, _fs: &mut T, pos: SeekFrom) -> (r: Result<u64>) where T: Read + Seek
        ensures
            *final(_fs) == *old(_fs),
            final(self).spec_data() == old(self).spec_data(),
            final(self).spec_position() == old(self).spec_position(),
            old(self).spec_data().len() <= u64::MAX,
            match spec_seek_contiguous(
                old(self).spec_stream_position(),
                old(self).spec_data().len() as u64,
                pos,
            ) {
                Some(p) => r == Ok::<u64, NtfsError>(p) && final(self).spec_stream_position() == p,
                None => r == Err::<u64, NtfsError>(spec_invalid_seek_error())
                    && final(self).spec_stream_position() == old(self).spec_stream_position(),
            },
    {
        let length = self.len();
        seek_contiguous(&mut self.stream_position, length, pos)
    }

    fn stream_position(&self) -> (r: u64) {
        self.stream_position
    }
}

impl<'f> Clone for NtfsResidentAttributeValue<'f> {
    fn clone(&self) -> (r: Self)
        ensures
            r == *self,
    {
        NtfsResidentAttributeValue {
            data: self.data,
            position: self.position,
            stream_position: self.stream_position,
        }
    }
}

} // verus!
