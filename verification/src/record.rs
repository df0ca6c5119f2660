//! Multi-sector records (File Records and Index Records) and their Update Sequence fixup.
use vstd::prelude::*;

use core::ops::Range;

use crate::error::{NtfsError, Result};
use crate::helpers::{read_u16_le, spec_u16_le};
use crate::types::NtfsPosition;

verus! {

/// Block size that the Update Sequence Array protects: its last 2 bytes carry the
/// Update Sequence Number (USN) on disk.
pub const NTFS_BLOCK_SIZE: usize = 512;

/// Size of the record header fields up to and including the update sequence count: the least
/// a record holds to be fixed up (or refused by the fixup with its own error).
pub const RECORD_FIXUP_HEADER_SIZE: usize = 8;

/// Byte offset of the update sequence offset field in the record header.
pub const UPDATE_SEQUENCE_OFFSET_OFFSET: usize = 4;

/// Byte offset of the update sequence count field in the record header.
pub const UPDATE_SEQUENCE_COUNT_OFFSET: usize = 6;

/// A record that has been read from the filesystem: its bytes and its absolute position.
#[derive(Debug)]
pub struct Record {
    data: Vec<u8>,
    position: NtfsPosition,
}

/// Applies the Update Sequence Array entries `k..n` to `data`, where the array starts at byte
/// `array_start` and `usn` is the Update Sequence Number.
///
/// Entry `k` is the pair of bytes at `array_start + 2 * k`. It replaces the last two bytes of block `k`,
/// which must hold `usn` before the replacement (otherwise the block is corrupted).
pub open spec fn spec_fixup_from(
    data: Seq<u8>,
    usn: [u8; 2],
    array_start: int,
    k: int,
    n: int,
    position: NtfsPosition,
) -> Result<Seq<u8>>
    decreases n - k,
{
    if k >= n {
        Ok(data)
    } else {
        let ap = array_start + 2 * k;
        let sp = (NTFS_BLOCK_SIZE - 2) + NTFS_BLOCK_SIZE * k;
        if data[sp] != usn[0] || data[sp + 1] != usn[1] {
            Err(
                NtfsError::UpdateSequenceNumberMismatch {
                    position: position.spec_add(ap as u64),
                    expected: usn,
                    actual: [data[sp], data[sp + 1]],
                },
            )
        } else {
            spec_fixup_from(
                data.update(sp, data[ap]).update(sp + 1, data[ap + 1]),
                usn,
                array_start,
                k + 1,
                n,
                position,
            )
        }
    }
}

/// Applying the Update Sequence Array entries `k..n` succeeds exactly when each of those blocks
/// ends in the Update Sequence Number before the fixup, and fails only with a mismatch against it.
proof fn lemma_fixup_from_checks(
    data: Seq<u8>,
    usn: [u8; 2],
    array_start: int,
    k: int,
    n: int,
    position: NtfsPosition,
)
    requires
        0 <= k,
        n * NTFS_BLOCK_SIZE <= data.len(),
    ensures
        spec_fixup_from(data, usn, array_start, k, n, position) is Ok <==> forall|i: int|
            k <= i < n ==> #[trigger] data[510 + 512 * i] == usn[0] && data[511 + 512 * i] == usn[1],
        spec_fixup_from(data, usn, array_start, k, n, position) matches Err(e) ==> e matches NtfsError::UpdateSequenceNumberMismatch {
            expected,
            ..
        } && expected == usn,
    decreases n - k,
{
    if k < n {
        let ap = array_start + 2 * k;
        let sp = 510 + 512 * k;
        if !(data[sp] != usn[0] || data[sp + 1] != usn[1]) {
            let next = data.update(sp, data[ap]).update(sp + 1, data[ap + 1]);
            lemma_fixup_from_checks(next, usn, array_start, k + 1, n, position);
            assert forall|i: int| k + 1 <= i < n implies #[trigger] next[510 + 512 * i] == data[510
                + 512 * i] && next[511 + 512 * i] == data[511 + 512 * i] by {}
            if forall|i: int|
                k + 1 <= i < n ==> #[trigger] next[510 + 512 * i] == usn[0] && next[511 + 512 * i]
                    == usn[1] {
                assert forall|i: int| k <= i < n implies #[trigger] data[510 + 512 * i] == usn[0]
                    && data[511 + 512 * i] == usn[1] by {
                    if i > k {
                        assert(next[510 + 512 * i] == data[510 + 512 * i]);
                    }
                }
            } else {
                assert(exists|i: int|
                    k + 1 <= i < n && !(#[trigger] next[510 + 512 * i] == usn[0] && next[511 + 512
                        * i] == usn[1]));
                let i = choose|i: int|
                    k + 1 <= i < n && !(#[trigger] next[510 + 512 * i] == usn[0] && next[511 + 512
                        * i] == usn[1]);
                assert(next[510 + 512 * i] == data[510 + 512 * i]);
            }
        } else {
            assert(data[510 + 512 * k] == data[sp]);
        }
    }
}

/// The Update Sequence fixup of a record whose Update Sequence Array fits succeeds exactly when
/// every block it protects ends in the Update Sequence Number, and otherwise fails with a mismatch
/// against that number.
pub proof fn lemma_fixup_succeeds_iff_blocks_end_in_usn(data: Seq<u8>, position: NtfsPosition)
    requires
        data.len() >= 8,
        ({
            let offset = spec_u16_le(data, UPDATE_SEQUENCE_OFFSET_OFFSET as int) as int;
            let count = spec_u16_le(data, UPDATE_SEQUENCE_COUNT_OFFSET as int) as int;
            &&& offset + 2 * count <= data.len()
            &&& count > 0
            &&& (count - 1) * NTFS_BLOCK_SIZE <= data.len()
        }),
    ensures
        ({
            let offset = spec_u16_le(data, UPDATE_SEQUENCE_OFFSET_OFFSET as int) as int;
            let count = spec_u16_le(data, UPDATE_SEQUENCE_COUNT_OFFSET as int) as int;
            &&& spec_fixup(data, position) is Ok <==> forall|i: int|
                0 <= i < count - 1 ==> #[trigger] data[510 + 512 * i] == data[offset] && data[511
                    + 512 * i] == data[offset + 1]
            &&& spec_fixup(data, position) matches Err(e) ==> e matches NtfsError::UpdateSequenceNumberMismatch {
                expected,
                ..
            } && expected == [data[offset], data[offset + 1]]
        }),
{
    let offset = spec_u16_le(data, UPDATE_SEQUENCE_OFFSET_OFFSET as int) as int;
    let count = spec_u16_le(data, UPDATE_SEQUENCE_COUNT_OFFSET as int) as int;
    lemma_fixup_from_checks(data, [data[offset], data[offset + 1]], offset + 2, 0, count - 1, position);
}

/// The record bytes after the Update Sequence fixup, or the error that the fixup runs into.
pub open spec fn spec_fixup(data: Seq<u8>, position: NtfsPosition) -> Result<Seq<u8>> {
    let offset = spec_u16_le(data, UPDATE_SEQUENCE_OFFSET_OFFSET as int) as int;
    let count = spec_u16_le(data, UPDATE_SEQUENCE_COUNT_OFFSET as int) as int;
    if offset + 2 > data.len() {
        Err(
            NtfsError::InvalidUpdateSequenceNumberRange {
                position,
                range: Range { start: offset as usize, end: (offset + 2) as usize },
                size: data.len() as usize,
            },
        )
    } else if count == 0 {
        Err(NtfsError::InvalidUpdateSequenceCount { position, update_sequence_count: 0 })
    } else if offset + 2 * count > data.len() || (count - 1) * NTFS_BLOCK_SIZE > data.len() {
        Err(
            NtfsError::UpdateSequenceArrayExceedsRecordSize {
                position,
                array_count: (count - 1) as u16,
                record_size: data.len() as usize,
            },
        )
    } else {
        spec_fixup_from(data, [data[offset], data[offset + 1]], offset + 2, 0, count - 1, position)
    }
}

impl Record {
    /// The record holds the header fields that the fixup reads and its length fits into a `u32`.
    pub closed spec fn wf(&self) -> bool {
        RECORD_FIXUP_HEADER_SIZE <= self.data@.len() <= u32::MAX
    }

    /// The bounds that [`Record::wf`] stands for.
    pub proof fn lemma_wf(&self)
        ensures
            self.wf() <==> RECORD_FIXUP_HEADER_SIZE <= self.spec_data().len() <= u32::MAX,
    {
    }

    /// The bytes of this record.
    pub closed spec fn spec_data(&self) -> Seq<u8> {
        self.data@
    }

    /// The absolute position of this record.
    pub closed spec fn spec_position(&self) -> NtfsPosition {
        self.position
    }

    /// Creates a record from its bytes and its absolute position.
    pub fn new(data: Vec<u8>, position: NtfsPosition) -> (r: Self)
        requires
            RECORD_FIXUP_HEADER_SIZE <= data@.len() <= u32::MAX,
        ensures
            r.spec_data() == data@,
            r.spec_position() == position,
            r.wf(),
    {
        Self { data, position }
    }

    /// Returns the bytes of this record.
    pub fn data(&self) -> (r: &[u8])
        ensures
            r@ == self.spec_data(),
    {
        self.data.as_slice()
    }

    /// Performs the Update Sequence fixup, see [`spec_fixup`].
    ///
    /// On success, the record holds the fixed-up bytes.
    pub fn fixup(&mut self) -> (r: Result<()>)
        requires
            old(self).wf(),
        ensures
            final(self).wf(),
            final(self).spec_position() == old(self).spec_position(),
            final(self).spec_data().len() == old(self).spec_data().len(),
            match spec_fixup(old(self).spec_data(), old(self).spec_position()) {
                Ok(d) => r is Ok && final(self).spec_data() == d,
                Err(e) => r matches Err(e2) && e2 == e,
            },
    {
        let len = self.data.len();
        let offset = read_u16_le(self.data.as_slice(), UPDATE_SEQUENCE_OFFSET_OFFSET) as usize;
        let count = read_u16_le(self.data.as_slice(), UPDATE_SEQUENCE_COUNT_OFFSET) as usize;

        if offset + 2 > len {
            return Err(
                NtfsError::InvalidUpdateSequenceNumberRange {
                    position: self.position,
                    range: Range { start: offset, end: offset + 2 },
                    size: len,
                },
            );
        }
        let usn: [u8; 2] = [self.data[offset], self.data[offset + 1]];

        // Subtract the Update Sequence Number (USN) element, so that only the number of array elements remains.
        if count == 0 {
            return Err(
                NtfsError::InvalidUpdateSequenceCount {
                    position: self.position,
                    update_sequence_count: 0,
                },
            );
        }
        let array_count = count - 1;
        let array_end = offset + 2 * count;
        let sectors_end = array_count * NTFS_BLOCK_SIZE;
        if array_end > len || sectors_end > len {
            return Err(
                NtfsError::UpdateSequenceArrayExceedsRecordSize {
                    position: self.position,
                    array_count: array_count as u16,
                    record_size: len,
                },
            );
        }

        // The Update Sequence Number (USN) comes first and the array begins right after that.
        let array_start = offset + 2;
        let ghost orig = self.data@;
        let ghost position = self.position;
        let mut k: usize = 0;
        while k < array_count
            invariant
                k <= array_count,
                array_count * NTFS_BLOCK_SIZE <= len,
                array_start + 2 * array_count <= len,
                len == self.data@.len(),
                RECORD_FIXUP_HEADER_SIZE <= len <= u32::MAX,
                position == self.position,
                position == old(self).spec_position(),
                len == old(self).spec_data().len(),
                orig == old(self).spec_data(),
                spec_fixup(orig, position) == spec_fixup_from(
                    orig,
                    usn,
                    array_start as int,
                    0,
                    array_count as int,
                    position,
                ),
                spec_fixup_from(self.data@, usn, array_start as int, k as int, array_count as int, position)
                    == spec_fixup_from(orig, usn, array_start as int, 0, array_count as int, position),
            decreases array_count - k,
        {
            let array_position = array_start + 2 * k;
            // The USN is written to the last 2 bytes of each sector.
            let sector_position = (NTFS_BLOCK_SIZE - 2) + NTFS_BLOCK_SIZE * k;

            // The array contains the actual 2 bytes that need to be at `sector_position` after the fixup.
            let new_bytes: [u8; 2] = [self.data[array_position], self.data[array_position + 1]];

            // The current 2 bytes at `sector_position` before the fixup should equal the USN.
            // Otherwise, this sector is corrupted.
            let actual: [u8; 2] = [self.data[sector_position], self.data[sector_position + 1]];
            if actual[0] != usn[0] || actual[1] != usn[1] {
                return Err(
                    NtfsError::UpdateSequenceNumberMismatch {
                        position: self.position.add_offset(array_position as u64),
                        expected: usn,
                        actual,
                    },
                );
            }

            // Perform the actual fixup.
            self.data.set(sector_position, new_bytes[0]);
            self.data.set(sector_position + 1, new_bytes[1]);
            k = k + 1;
        }
        Ok(())
    }

    /// Consumes this record and returns its bytes.
    pub fn into_data(self) -> (r: Vec<u8>)
        ensures
            r@ == self.spec_data(),
    {
        self.data
    }

    /// Returns the length of this record, in bytes.
    ///
    /// A record is never larger than a u32.
    pub fn len(&self) -> (r: u32)
        requires
            self.wf(),
        ensures
            r == self.spec_data().len(),
    {
        self.data.len() as u32
    }

    /// Returns the absolute position of this record.
    pub fn position(&self) -> (r: NtfsPosition)
        ensures
            r == self.spec_position(),
    {
        self.position
    }

    /// Returns the 4-byte signature of this record.
    pub fn signature(&self) -> (r: [u8; 4])
        requires
            self.wf(),
        ensures
            r == [
                self.spec_data()[0],
                self.spec_data()[1],
                self.spec_data()[2],
                self.spec_data()[3],
            ],
    {
        [self.data[0], self.data[1], self.data[2], self.data[3]]
    }
}

impl Clone for Record {
    fn clone(&self) -> (r: Self)
        ensures
            r.spec_data() == self.spec_data(),
            r.spec_position() == self.spec_position(),
            self.wf() ==> r.wf(),
    {
        let data = self.data.clone();
        assert(data@ =~= self.data@);
        Record { data, position: self.position }
    }
}

/// `data` protected by an Update Sequence Array at `array_start` with the Update Sequence Number
/// `usn`, for blocks `k..n`: the last two bytes of each block are saved into its array entry and
/// replaced by `usn` (what a writer of the record does before it goes to disk).
pub open spec fn spec_protect_from(data: Seq<u8>, usn: [u8; 2], array_start: int, k: int, n: int) -> Seq<u8>
    decreases n - k,
{
    if k >= n {
        data
    } else {
        let ap = array_start + 2 * k;
        let sp = (NTFS_BLOCK_SIZE - 2) + NTFS_BLOCK_SIZE * k;
        spec_protect_from(
            data.update(ap, data[sp]).update(ap + 1, data[sp + 1]).update(sp, usn[0]).update(sp + 1, usn[1]),
            usn,
            array_start,
            k + 1,
            n,
        )
    }
}

/// Whether byte `p` is one of those that protecting blocks `k..n` writes: an array entry or one of
/// the last two bytes of a block.
pub open spec fn spec_protected_byte(p: int, array_start: int, k: int, n: int) -> bool {
    ||| array_start + 2 * k <= p < array_start + 2 * n
    ||| p % (NTFS_BLOCK_SIZE as int) >= NTFS_BLOCK_SIZE - 2 && k <= p / (NTFS_BLOCK_SIZE as int) < n
}

/// Protecting keeps the length and every byte it does not write.
proof fn lemma_protect_keeps(data: Seq<u8>, usn: [u8; 2], array_start: int, k: int, n: int)
    requires
        0 <= k,
        0 <= array_start,
        array_start + 2 * n <= NTFS_BLOCK_SIZE - 2,
        NTFS_BLOCK_SIZE * n <= data.len(),
    ensures
        spec_protect_from(data, usn, array_start, k, n).len() == data.len(),
        forall|p: int|
            0 <= p < data.len() && !spec_protected_byte(p, array_start, k, n) ==> #[trigger] spec_protect_from(
                data,
                usn,
                array_start,
                k,
                n,
            )[p] == data[p],
    decreases n - k,
{
    if k < n {
        let ap = array_start + 2 * k;
        let sp = (NTFS_BLOCK_SIZE - 2) + NTFS_BLOCK_SIZE * k;
        let x = data.update(ap, data[sp]).update(ap + 1, data[sp + 1]).update(sp, usn[0]).update(sp + 1, usn[1]);
        lemma_protect_keeps(x, usn, array_start, k + 1, n);
        assert forall|p: int|
            0 <= p < data.len() && !spec_protected_byte(p, array_start, k, n) implies #[trigger] spec_protect_from(
            data,
            usn,
            array_start,
            k,
            n,
        )[p] == data[p] by {
            assert(p != sp && p != sp + 1) by {
                assert(sp % 512 == 510 && sp / 512 == k);
                assert((sp + 1) % 512 == 511 && (sp + 1) / 512 == k);
            }
            assert(!spec_protected_byte(p, array_start, k + 1, n));
        }
    }
}

/// Protecting commutes with a change of a byte that protecting does not write.
proof fn lemma_protect_update(data: Seq<u8>, usn: [u8; 2], array_start: int, k: int, n: int, p: int, v: u8)
    requires
        0 <= k,
        0 <= array_start,
        array_start + 2 * n <= NTFS_BLOCK_SIZE - 2,
        NTFS_BLOCK_SIZE * n <= data.len(),
        0 <= p < data.len(),
        !spec_protected_byte(p, array_start, k, n),
    ensures
        spec_protect_from(data.update(p, v), usn, array_start, k, n) == spec_protect_from(
            data,
            usn,
            array_start,
            k,
            n,
        ).update(p, v),
    decreases n - k,
{
    if k < n {
        let ap = array_start + 2 * k;
        let sp = (NTFS_BLOCK_SIZE - 2) + NTFS_BLOCK_SIZE * k;
        assert(sp % 512 == 510 && sp / 512 == k);
        assert((sp + 1) % 512 == 511 && (sp + 1) / 512 == k);
        let x = data.update(ap, data[sp]).update(ap + 1, data[sp + 1]).update(sp, usn[0]).update(sp + 1, usn[1]);
        let y = data.update(p, v);
        let y1 = y.update(ap, y[sp]).update(ap + 1, y[sp + 1]).update(sp, usn[0]).update(sp + 1, usn[1]);
        assert(y1 =~= x.update(p, v));
        lemma_protect_update(x, usn, array_start, k + 1, n, p, v);
    }
}

/// Applying the Update Sequence Array to blocks `k..n` undoes protecting them: the result is the
/// original bytes, but for the array entries, which then hold the saved bytes.
proof fn lemma_fixup_from_undoes_protect(
    data: Seq<u8>,
    usn: [u8; 2],
    array_start: int,
    k: int,
    n: int,
    position: NtfsPosition,
)
    requires
        0 <= k,
        0 <= array_start,
        array_start + 2 * n <= NTFS_BLOCK_SIZE - 2,
        NTFS_BLOCK_SIZE * n <= data.len(),
    ensures
        spec_fixup_from(spec_protect_from(data, usn, array_start, k, n), usn, array_start, k, n, position) matches Ok(
            fixed,
        ) && fixed.len() == data.len() && forall|p: int|
            0 <= p < data.len() && !(array_start + 2 * k <= p < array_start + 2 * n) ==> #[trigger] fixed[p]
                == data[p],
    decreases n - k,
{
    if k < n {
        let ap = array_start + 2 * k;
        let sp = (NTFS_BLOCK_SIZE - 2) + NTFS_BLOCK_SIZE * k;
        assert(sp % 512 == 510 && sp / 512 == k);
        assert((sp + 1) % 512 == 511 && (sp + 1) / 512 == k);
        let x1 = data.update(ap, data[sp]).update(ap + 1, data[sp + 1]).update(sp, usn[0]).update(sp + 1, usn[1]);
        let z = spec_protect_from(x1, usn, array_start, k + 1, n);
        lemma_protect_keeps(x1, usn, array_start, k + 1, n);
        assert(!spec_protected_byte(sp, array_start, k + 1, n));
        assert(!spec_protected_byte(sp + 1, array_start, k + 1, n));
        assert(!spec_protected_byte(ap, array_start, k + 1, n));
        assert(!spec_protected_byte(ap + 1, array_start, k + 1, n));
        assert(z[sp] == usn[0] && z[sp + 1] == usn[1]);
        assert(z[ap] == data[sp] && z[ap + 1] == data[sp + 1]);
        let x2 = data.update(ap, data[sp]).update(ap + 1, data[sp + 1]);
        assert(x2 =~= x1.update(sp, data[sp]).update(sp + 1, data[sp + 1]));
        lemma_protect_update(x1, usn, array_start, k + 1, n, sp, data[sp]);
        lemma_protect_update(x1.update(sp, data[sp]), usn, array_start, k + 1, n, sp + 1, data[sp + 1]);
        assert(z.update(sp, z[ap]).update(sp + 1, z[ap + 1]) == spec_protect_from(x2, usn, array_start, k + 1, n));
        lemma_fixup_from_undoes_protect(x2, usn, array_start, k + 1, n, position);
    }
}

/// The Update Sequence fixup undoes the protection of a record: when a writer saves the last two
/// bytes of each block into the Update Sequence Array (whose Update Sequence Number `usn` the header
/// points to) and replaces them with `usn`, the fixup of the written record succeeds and gives back
/// the original bytes everywhere but in the array entries.
pub proof fn lemma_fixup_undoes_protection(data: Seq<u8>, usn: [u8; 2], position: NtfsPosition)
    requires
        NTFS_BLOCK_SIZE <= data.len(),
        spec_u16_le(data, UPDATE_SEQUENCE_OFFSET_OFFSET as int) >= 8,
        spec_u16_le(data, UPDATE_SEQUENCE_COUNT_OFFSET as int) >= 1,
        spec_u16_le(data, UPDATE_SEQUENCE_OFFSET_OFFSET as int) + 2 * spec_u16_le(
            data,
            UPDATE_SEQUENCE_COUNT_OFFSET as int,
        ) <= NTFS_BLOCK_SIZE - 2,
        NTFS_BLOCK_SIZE * (spec_u16_le(data, UPDATE_SEQUENCE_COUNT_OFFSET as int) - 1) <= data.len(),
        data[spec_u16_le(data, UPDATE_SEQUENCE_OFFSET_OFFSET as int) as int] == usn[0],
        data[spec_u16_le(data, UPDATE_SEQUENCE_OFFSET_OFFSET as int) + 1] == usn[1],
    ensures
        ({
            let offset = spec_u16_le(data, UPDATE_SEQUENCE_OFFSET_OFFSET as int) as int;
            let count = spec_u16_le(data, UPDATE_SEQUENCE_COUNT_OFFSET as int) as int;
            let written = spec_protect_from(data, usn, offset + 2, 0, count - 1);
            spec_fixup(written, position) matches Ok(fixed) && fixed.len() == data.len() && forall|p: int|
                0 <= p < data.len() && !(offset + 2 <= p < offset + 2 * count) ==> #[trigger] fixed[p]
                    == data[p]
        }),
{
    let offset = spec_u16_le(data, UPDATE_SEQUENCE_OFFSET_OFFSET as int) as int;
    let count = spec_u16_le(data, UPDATE_SEQUENCE_COUNT_OFFSET as int) as int;
    let written = spec_protect_from(data, usn, offset + 2, 0, count - 1);
    lemma_protect_keeps(data, usn, offset + 2, 0, count - 1);
    assert forall|p: int| 0 <= p < offset + 2 implies !#[trigger] spec_protected_byte(p, offset + 2, 0, count - 1) by {
        assert(p % 512 == p && p / 512 == 0);
    }
    assert(!spec_protected_byte(4, offset + 2, 0, count - 1));
    assert(!spec_protected_byte(5, offset + 2, 0, count - 1));
    assert(!spec_protected_byte(6, offset + 2, 0, count - 1));
    assert(!spec_protected_byte(7, offset + 2, 0, count - 1));
    assert(!spec_protected_byte(offset, offset + 2, 0, count - 1));
    assert(!spec_protected_byte(offset + 1, offset + 2, 0, count - 1));
    assert(written[4] == data[4] && written[5] == data[5] && written[6] == data[6] && written[7] == data[7]);
    assert(written[offset] == data[offset] && written[offset + 1] == data[offset + 1]);
    assert(spec_u16_le(written, UPDATE_SEQUENCE_OFFSET_OFFSET as int) == offset);
    assert(spec_u16_le(written, UPDATE_SEQUENCE_COUNT_OFFSET as int) == count);
    assert([written[offset], written[offset + 1]] =~= usn);
    lemma_fixup_from_undoes_protect(data, usn, offset + 2, 0, count - 1, position);
}

} // verus!
