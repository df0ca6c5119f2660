//! Little-endian decoding of on-disk fields and an in-memory reader.
use vstd::prelude::*;

use crate::io::{seek_target, Error, ErrorKind, Read, Result, Seek, SeekFrom};

verus! {

/// The number whose little-endian bytes are `b[i..i + 2]`: byte `i + k` weighs `256^k`.
pub open spec fn spec_le2_value(b: Seq<u8>, i: int) -> int {
    b[i] as int + 0x100 * b[i + 1] as int
}

/// The number whose little-endian bytes are `b[i..i + 4]`: byte `i + k` weighs `256^k`.
pub open spec fn spec_le4_value(b: Seq<u8>, i: int) -> int {
    b[i] as int + 0x100 * b[i + 1] as int + 0x1_0000 * b[i + 2] as int + 0x100_0000 * b[i + 3] as int
}

/// The number whose little-endian bytes are `b[i..i + 8]`: byte `i + k` weighs `256^k`.
pub open spec fn spec_le8_value(b: Seq<u8>, i: int) -> int {
    b[i] as int + 0x100 * b[i + 1] as int + 0x1_0000 * b[i + 2] as int + 0x100_0000 * b[i + 3] as int
        + 0x1_0000_0000 * b[i + 4] as int + 0x100_0000_0000 * b[i + 5] as int + 0x1_0000_0000_0000
        * b[i + 6] as int + 0x100_0000_0000_0000 * b[i + 7] as int
}

/// The unsigned 16-bit little-endian integer stored at `s[i..i + 2]`.
pub open spec fn spec_u16_le(s: Seq<u8>, i: int) -> u16 {
    (s[i] as int + s[i + 1] as int * 0x100) as u16
}

/// The unsigned 32-bit little-endian integer stored at `s[i..i + 4]`.
pub open spec fn spec_u32_le(s: Seq<u8>, i: int) -> u32 {
    (spec_u16_le(s, i) as int + spec_u16_le(s, i + 2) as int * 0x1_0000) as u32
}

/// The unsigned 64-bit little-endian integer stored at `s[i..i + 8]`.
pub open spec fn spec_u64_le(s: Seq<u8>, i: int) -> u64 {
    (spec_u32_le(s, i) as int + spec_u32_le(s, i + 4) as int * 0x1_0000_0000) as u64
}

/// The signed 64-bit little-endian (two's complement) integer stored at `s[i..i + 8]`.
pub open spec fn spec_i64_le(s: Seq<u8>, i: int) -> i64 {
    let u = spec_u64_le(s, i);
    if u < 0x8000_0000_0000_0000 {
        u as i64
    } else {
        (u as int - 0x1_0000_0000_0000_0000) as i64
    }
}

/// Copies the bytes of `data` into a new vector.
pub fn bytes_to_vec(data: &[u8]) -> (r: Vec<u8>)
    ensures
        r@ == data@,
{
    let mut v: Vec<u8> = Vec::with_capacity(data.len());
    let mut i: usize = 0;
    while i < data.len()
        invariant
            i <= data@.len(),
            v@ == data@.subrange(0, i as int),
        decreases data@.len() - i,
    {
        v.push(data[i]);
        i = i + 1;
        assert(v@ =~= data@.subrange(0, i as int));
    }
    assert(v@ =~= data@);
    v
}

/// Reads an unsigned 16-bit little-endian integer at `offset`.
pub fn read_u16_le(data: &[u8], offset: usize) -> (r: u16)
    requires
        offset + 2 <= data@.len(),
    ensures
        r == spec_u16_le(data@, offset as int),
{
    data[offset] as u16 + data[offset + 1] as u16 * 0x100
}

/// Reads an unsigned 32-bit little-endian integer at `offset`.
pub fn read_u32_le(data: &[u8], offset: usize) -> (r: u32)
    requires
        offset + 4 <= data@.len(),
    ensures
        r == spec_u32_le(data@, offset as int),
{
    let _len = data.len();
    let lo = read_u16_le(data, offset);
    let hi = read_u16_le(data, offset + 2);
    lo as u32 + hi as u32 * 0x1_0000
}

/// Reads an unsigned 64-bit little-endian integer at `offset`.
pub fn read_u64_le(data: &[u8], offset: usize) -> (r: u64)
    requires
        offset + 8 <= data@.len(),
    ensures
        r == spec_u64_le(data@, offset as int),
{
    let _len = data.len();
    let lo = read_u32_le(data, offset);
    let hi = read_u32_le(data, offset + 4);
    lo as u64 + hi as u64 * 0x1_0000_0000
}

/// Reads a signed 64-bit little-endian (two's complement) integer at `offset`.
pub fn read_i64_le(data: &[u8], offset: usize) -> (r: i64)
    requires
        offset + 8 <= data@.len(),
    ensures
        r == spec_i64_le(data@, offset as int),
{
    let u = read_u64_le(data, offset);
    if u < 0x8000_0000_0000_0000 {
        u as i64
    } else {
        let magnitude = u64::MAX - u;
        -(magnitude as i64) - 1
    }
}

/// The position `base + offset`, if it lies within the range of `u64`.
pub open spec fn spec_offset_position(base: u64, offset: i64) -> Option<u64> {
    let target = base as int + offset as int;
    if 0 <= target <= u64::MAX {
        Some(target as u64)
    } else {
        None
    }
}

/// Adds a signed offset to an unsigned position, returning `None` on underflow or overflow.
pub fn checked_offset_position(base: u64, offset: i64) -> (r: Option<u64>)
    ensures
        r == spec_offset_position(base, offset),
{
    if offset >= 0 {
        base.checked_add(offset as u64)
    } else {
        let magnitude = (-(offset + 1)) as u64 + 1;
        base.checked_sub(magnitude)
    }
}

/// A reader over a byte slice that is fully kept in memory.
///
/// Reading beyond the end of the slice yields no bytes.
pub struct ReadOnlyCursor<'a> {
    data: &'a [u8],
    position: u64,
}

impl<'a> ReadOnlyCursor<'a> {
    /// The bytes this cursor reads from.
    pub closed spec fn spec_data(&self) -> Seq<u8> {
        self.data@
    }

    /// The current read position.
    pub closed spec fn spec_position(&self) -> nat {
        self.position as nat
    }

    /// Creates a cursor at position 0 of `data`.
    pub fn new(data: &'a [u8]) -> (r: Self)
        ensures
            r.spec_data() == data@,
            r.spec_position() == 0,
    {
        Self { data, position: 0 }
    }
}

impl<'a> Read for ReadOnlyCursor<'a> {
    open spec fn source(&self) -> Seq<u8> {
        self.spec_data()
    }

    open spec fn cursor(&self) -> nat {
        self.spec_position()
    }

    fn read(&mut self, buf: &mut [u8]) -> (r: Result<usize>)
        ensures
            r matches Ok(n) ==> n == if old(self).spec_position() >= old(self).spec_data().len() {
                0
            } else if old(buf)@.len() < old(self).spec_data().len() - old(self).spec_position() {
                old(buf)@.len() as int
            } else {
                old(self).spec_data().len() - old(self).spec_position()
            },
            r is Ok,
    {
        let len = self.data.len();
        if self.position >= len as u64 {
            return Ok(0);
        }
        let start = self.position as usize;
        let remaining = len - start;
        let bytes_to_read = if buf.len() < remaining {
            buf.len()
        } else {
            remaining
        };
        let mut i: usize = 0;
        while i < bytes_to_read
            invariant
                i <= bytes_to_read,
                bytes_to_read <= buf@.len(),
                start + bytes_to_read <= len,
                len == self.data@.len(),
                buf@.len() == old(buf)@.len(),
                forall|k: int| 0 <= k < i ==> buf@[k] == self.data@[start + k],
                forall|k: int| bytes_to_read <= k < buf@.len() ==> buf@[k] == old(buf)@[k],
            decreases bytes_to_read - i,
        {
            buf[i] = self.data[start + i];
            i = i + 1;
        }
        self.position = self.position + bytes_to_read as u64;
        Ok(bytes_to_read)
    }
}

impl<'a> Seek for ReadOnlyCursor<'a> {
    fn seek(&mut self, pos: SeekFrom) -> (r: Result<u64>)
        ensures
            r is Ok <==> 0 <= seek_target(
                pos,
                old(self).spec_position() as int,
                old(self).spec_data().len() as int,
            ) <= u64::MAX,
    {
        let new_position = match pos {
            SeekFrom::Start(n) => Some(n),
            SeekFrom::End(n) => checked_offset_position(self.data.len() as u64, n),
            SeekFrom::Current(n) => checked_offset_position(self.position, n),
        };
        match new_position {
            Some(p) => {
                self.position = p;
                Ok(p)
            },
            None => Err(
                Error::new(
                    ErrorKind::InvalidInput,
                    "invalid seek to a negative or overflowing position",
                ),
            ),
        }
    }
}

} // verus!
