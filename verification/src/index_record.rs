//! Index Records, the sub-nodes of NTFS B-tree indexes stored in $INDEX_ALLOCATION attributes.
use vstd::prelude::*;

use core::marker::PhantomData;
use core::ops::Range;

use crate::attribute_value::{spec_read_bytes, NtfsAttributeValue};
use crate::error::{NtfsError, Result};
use crate::helpers::{read_i64_le, read_u32_le, spec_i64_le, spec_le4_value, spec_u32_le};
use crate::index_entry::{IndexNodeEntryRanges, NtfsIndexNodeEntries};
use crate::indexes::NtfsIndexEntryType;
use crate::io::{Read, Seek};
use crate::ntfs::Ntfs;
use crate::record::{spec_fixup, Record};
use crate::traits::NtfsReadSeek;
use crate::types::{NtfsPosition, Vcn};

verus! {

/// Size of all Index Record header fields (the record header and the VCN).
pub const INDEX_RECORD_HEADER_SIZE: usize = 24;
/// Byte offset of the VCN in an Index Record.
pub const INDEX_RECORD_VCN_OFFSET: usize = 16;
/// Size of all index node header fields plus some reserved bytes.
pub const INDEX_NODE_HEADER_SIZE: usize = 16;
/// Byte offset of the entries offset within an index node header.
pub const INDEX_NODE_ENTRIES_OFFSET_OFFSET: usize = 0;
/// Byte offset of the used size within an index node header.
pub const INDEX_NODE_INDEX_SIZE_OFFSET: usize = 4;
/// Byte offset of the allocated size within an index node header.
pub const INDEX_NODE_ALLOCATED_SIZE_OFFSET: usize = 8;
/// Byte offset of the flags within an index node header.
pub const INDEX_NODE_FLAGS_OFFSET: usize = 12;
/// The smallest Index Record: its header followed by the header of its node.
pub const INDEX_RECORD_MIN_SIZE: usize = 40;
/// The signature of an Index Record.
pub const INDEX_SIGNATURE: [u8; 4] = [0x49, 0x4e, 0x44, 0x58];

/// `v` as a `u32`, or `u32::MAX` if it does not fit.
pub open spec fn spec_saturating_u32(v: int) -> u32 {
    if v > u32::MAX {
        u32::MAX
    } else {
        v as u32
    }
}

/// The offset of the first entry of the Index Record bytes `d`, from the start of the record.
pub open spec fn spec_record_entries_start(d: Seq<u8>) -> int {
    INDEX_RECORD_HEADER_SIZE + spec_u32_le(d, INDEX_RECORD_HEADER_SIZE + INDEX_NODE_ENTRIES_OFFSET_OFFSET)
}

/// The end of the used part of the Index Record bytes `d`, from the start of the record.
pub open spec fn spec_record_entries_end(d: Seq<u8>) -> int {
    INDEX_RECORD_HEADER_SIZE + spec_u32_le(d, INDEX_RECORD_HEADER_SIZE + INDEX_NODE_INDEX_SIZE_OFFSET)
}

/// The end of the allocated part of the Index Record bytes `d`, from the start of the record.
pub open spec fn spec_record_allocated_end(d: Seq<u8>) -> int {
    INDEX_RECORD_HEADER_SIZE + spec_u32_le(d, INDEX_RECORD_HEADER_SIZE + INDEX_NODE_ALLOCATED_SIZE_OFFSET)
}

/// The node of an Index Record follows its 24-byte header: its entries start at 24 plus the
/// little-endian `u32` in bytes 24..28, its used part ends at 24 plus the `u32` in bytes 28..32,
/// and its allocated part at 24 plus the `u32` in bytes 32..36.
pub proof fn lemma_record_node_layout(d: Seq<u8>)
    ensures
        spec_record_entries_start(d) == 24 + spec_le4_value(d, 24),
        spec_record_entries_end(d) == 24 + spec_le4_value(d, 28),
        spec_record_allocated_end(d) == 24 + spec_le4_value(d, 32),
{
}

/// The entry bytes of the Index Record bytes `d`: its used part from the first entry on
/// (nothing if the entries start after the used part ends).
pub open spec fn spec_record_entries(d: Seq<u8>) -> Seq<u8> {
    let start = spec_record_entries_start(d);
    let end = spec_record_entries_end(d);
    if start <= end {
        d.subrange(start, end)
    } else {
        Seq::empty()
    }
}

/// The size checks of the Index Record bytes `d` at `position`: its allocated part fits into the
/// record, and its used part fits into the allocated part.
pub open spec fn spec_index_record_sizes(d: Seq<u8>, position: NtfsPosition) -> Result<()> {
    let allocated_end = spec_record_allocated_end(d);
    let used_end = spec_record_entries_end(d);
    if allocated_end > d.len() {
        Err(
            NtfsError::InvalidIndexAllocatedSize {
                position,
                expected: d.len() as u32,
                actual: spec_saturating_u32(allocated_end),
            },
        )
    } else if used_end > allocated_end {
        Err(
            NtfsError::InvalidIndexUsedSize {
                position,
                expected: allocated_end as u32,
                actual: spec_saturating_u32(used_end),
            },
        )
    } else {
        Ok(())
    }
}

/// The checks of the Index Record bytes `data` read from the filesystem at `position`:
/// its `INDX` signature, its Update Sequence fixup, and its sizes.
/// Gives the fixed-up record bytes or the error of the first failed check.
pub open spec fn spec_index_record(data: Seq<u8>, position: NtfsPosition) -> Result<Seq<u8>> {
    if !(data[0] == 0x49 && data[1] == 0x4e && data[2] == 0x44 && data[3] == 0x58) {
        Err(
            NtfsError::InvalidIndexSignature {
                position,
                expected: INDEX_SIGNATURE,
                actual: [data[0], data[1], data[2], data[3]],
            },
        )
    } else {
        match spec_fixup(data, position) {
            Err(e) => Err(e),
            Ok(fixed) => match spec_index_record_sizes(fixed, position) {
                Err(e) => Err(e),
                Ok(()) => Ok(fixed),
            },
        }
    }
}

/// The error for an Index Record size too small to hold the record and node headers.
pub open spec fn spec_index_record_size_error(position: NtfsPosition, index_record_size: u32) -> NtfsError {
    NtfsError::InvalidIndexAllocatedSize {
        position,
        expected: index_record_size,
        actual: INDEX_RECORD_MIN_SIZE as u32,
    }
}

/// A single NTFS Index Record: a sub-node of a B-tree index.
///
/// Index Records are stored in the $INDEX_ALLOCATION attribute of the index.
#[derive(Debug)]
pub struct NtfsIndexRecord<'n> {
    record: Record,
    ntfs: PhantomData<&'n Ntfs>,
}

impl<'n> NtfsIndexRecord<'n> {
    /// A record holds both headers, and its sizes have been checked.
    #[verifier::type_invariant]
    spec fn index_record_inv(self) -> bool {
        &&& self.record.wf()
        &&& self.record.spec_data().len() >= INDEX_RECORD_MIN_SIZE
        &&& spec_index_record_sizes(self.record.spec_data(), self.record.spec_position()) is Ok
    }

    /// The fixed-up bytes of this Index Record.
    pub closed spec fn spec_data(&self) -> Seq<u8> {
        self.record.spec_data()
    }

    /// The absolute position of this Index Record.
    pub closed spec fn spec_position(&self) -> NtfsPosition {
        self.record.spec_position()
    }

    /// The Virtual Cluster Number stored in the header of this Index Record.
    pub open spec fn spec_vcn(&self) -> Vcn {
        Vcn(spec_i64_le(self.spec_data(), INDEX_RECORD_VCN_OFFSET as int))
    }

    /// Reads the Index Record of `index_record_size` bytes at the current position of `value`
    /// and checks it (see [`spec_index_record`]).
    pub fn new<T>(fs: &mut T, value: NtfsAttributeValue<'n, '_>, index_record_size: u32) -> (r: Result<Self>) where
        T: Read + Seek,
        ensures
            final(fs).source() == old(fs).source(),
            index_record_size < INDEX_RECORD_MIN_SIZE ==> r == Err::<Self, NtfsError>(
                spec_index_record_size_error(value.spec_data_position(), index_record_size),
            ),
            r matches Ok(rec) ==> {
                &&& rec.spec_data().len() == index_record_size
                &&& rec.spec_position() == value.spec_data_position()
                &&& exists|raw: Seq<u8>|
                    raw.len() == index_record_size && spec_index_record(raw, rec.spec_position())
                        == Ok::<Seq<u8>, NtfsError>(rec.spec_data()) && spec_read_bytes(
                        value,
                        old(fs).source(),
                        raw,
                        index_record_size as int,
                    )
            },
    {
        let data_position = value.data_position();
        if (index_record_size as usize) < INDEX_RECORD_MIN_SIZE {
            return Err(
                NtfsError::InvalidIndexAllocatedSize {
                    position: data_position,
                    expected: index_record_size,
                    actual: INDEX_RECORD_MIN_SIZE as u32,
                },
            );
        }
        let ghost value_at_start = value;
        let ghost source = fs.source();
        let mut value = value;
        let mut data: Vec<u8> = vec![0u8; index_record_size as usize];
        match value.read_exact(fs, data.as_mut_slice()) {
            Ok(()) => {},
            Err(e) => return Err(e),
        }
        let ghost raw = data@;
        let mut record = Record::new(data, data_position);
        match Self::validate_signature(&record) {
            Ok(()) => {},
            Err(e) => return Err(e),
        }
        match record.fixup() {
            Ok(()) => {},
            Err(e) => return Err(e),
        }
        match validate_sizes(&record) {
            Ok(()) => {},
            Err(e) => return Err(e),
        }
        proof {
            record.lemma_wf();
            assert(spec_index_record(raw, data_position) == Ok::<Seq<u8>, NtfsError>(record.spec_data()));
            assert(spec_read_bytes(value_at_start, source, raw, index_record_size as int));
        }
        Ok(Self { record, ntfs: PhantomData })
    }

    /// Checks the `INDX` signature of an Index Record.
    fn validate_signature(record: &Record) -> (r: Result<()>)
        requires
            record.wf(),
        ensures
            ({
                let d = record.spec_data();
                if d[0] == 0x49 && d[1] == 0x4e && d[2] == 0x44 && d[3] == 0x58 {
                    r is Ok
                } else {
                    r == Err::<(), NtfsError>(
                        NtfsError::InvalidIndexSignature {
                            position: record.spec_position(),
                            expected: INDEX_SIGNATURE,
                            actual: [d[0], d[1], d[2], d[3]],
                        },
                    )
                }
            }),
    {
        proof {
            record.lemma_wf();
        }
        let signature = record.signature();
        let expected = INDEX_SIGNATURE;
        if signature[0] == expected[0] && signature[1] == expected[1] && signature[2] == expected[2]
            && signature[3] == expected[3] {
            Ok(())
        } else {
            Err(NtfsError::InvalidIndexSignature { position: record.position(), expected, actual: signature })
        }
    }

    /// Returns an iterator over the entries of this index node.
    pub fn entries<'r, E>(&'r self) -> (r: Result<NtfsIndexNodeEntries<'r, E>>) where
        E: NtfsIndexEntryType,
        ensures
            r matches Ok(it) && it.spec_slice() == spec_record_entries(self.spec_data())
                && it.spec_position() == self.spec_position().spec_add(
                spec_record_entries_start(self.spec_data()) as u64,
            ),
    {
        proof {
            use_type_invariant(self);
            self.record.lemma_wf();
        }
        let (start, end) = self.entries_bounds();
        let data = self.record.data();
        let position = self.record.position().add_offset(start);
        if start <= end {
            let slice = crate::attribute::slice_subrange(data, start as usize, end as usize);
            Ok(NtfsIndexNodeEntries::new(slice, position))
        } else {
            let slice = crate::attribute::slice_subrange(data, 0, 0);
            assert(slice@ =~= Seq::<u8>::empty());
            Ok(NtfsIndexNodeEntries::new(slice, position))
        }
    }

    /// Returns the offsets of the first entry and of the end of the used part, from the start of the record.
    fn entries_bounds(&self) -> (r: (u64, u64))
        ensures
            r.0 == spec_record_entries_start(self.spec_data()),
            r.1 == spec_record_entries_end(self.spec_data()),
            r.1 <= self.spec_data().len(),
    {
        proof {
            use_type_invariant(self);
            self.record.lemma_wf();
        }
        let data = self.record.data();
        let start = INDEX_RECORD_HEADER_SIZE as u64 + read_u32_le(
            data,
            INDEX_RECORD_HEADER_SIZE + INDEX_NODE_ENTRIES_OFFSET_OFFSET,
        ) as u64;
        let end = INDEX_RECORD_HEADER_SIZE as u64 + self.index_used_size() as u64;
        (start, end)
    }

    /// Returns whether this index node has sub-nodes.
    /// Otherwise, this index node is a leaf node.
    pub fn has_subnodes(&self) -> (r: bool)
        ensures
            r == (self.spec_data()[INDEX_RECORD_HEADER_SIZE + INDEX_NODE_FLAGS_OFFSET] & 0x01 != 0),
    {
        proof {
            use_type_invariant(self);
        }
        let flags = self.record.data()[INDEX_RECORD_HEADER_SIZE + INDEX_NODE_FLAGS_OFFSET];
        (flags & 0x01) != 0
    }

    /// Returns the allocated size of this index node, in bytes.
    pub fn index_allocated_size(&self) -> (r: u32)
        ensures
            r == spec_u32_le(self.spec_data(), INDEX_RECORD_HEADER_SIZE + INDEX_NODE_ALLOCATED_SIZE_OFFSET),
    {
        proof {
            use_type_invariant(self);
        }
        read_u32_le(self.record.data(), INDEX_RECORD_HEADER_SIZE + INDEX_NODE_ALLOCATED_SIZE_OFFSET)
    }

    /// Returns the offset of the first entry of this index node, from the start of the node header.
    pub fn index_entries_offset(&self) -> (r: u32)
        ensures
            r == spec_u32_le(self.spec_data(), INDEX_RECORD_HEADER_SIZE + INDEX_NODE_ENTRIES_OFFSET_OFFSET),
    {
        proof {
            use_type_invariant(self);
        }
        read_u32_le(self.record.data(), INDEX_RECORD_HEADER_SIZE + INDEX_NODE_ENTRIES_OFFSET_OFFSET)
    }

    /// Returns the size actually used by this index node, in bytes.
    pub fn index_used_size(&self) -> (r: u32)
        ensures
            r == spec_u32_le(self.spec_data(), INDEX_RECORD_HEADER_SIZE + INDEX_NODE_INDEX_SIZE_OFFSET),
    {
        proof {
            use_type_invariant(self);
        }
        read_u32_le(self.record.data(), INDEX_RECORD_HEADER_SIZE + INDEX_NODE_INDEX_SIZE_OFFSET)
    }

    /// Turns this Index Record into an iterator over the ranges of its entries.
    pub fn into_entry_ranges<E>(self) -> (r: IndexNodeEntryRanges<E>) where E: NtfsIndexEntryType
        ensures
            r.wf(),
            r.data@ == self.spec_data(),
            r.range.end == spec_record_entries_end(self.spec_data()),
            r.range.start == if spec_record_entries_start(self.spec_data()) <= spec_record_entries_end(
                self.spec_data(),
            ) {
                spec_record_entries_start(self.spec_data())
            } else {
                spec_record_entries_end(self.spec_data())
            },
            r.position == self.spec_position().spec_add(
                spec_record_entries_start(self.spec_data()) as u64,
            ),
    {
        proof {
            use_type_invariant(&self);
            self.record.lemma_wf();
        }
        let (start, end) = self.entries_bounds();
        let position = self.record.position().add_offset(start);
        // Entries starting after the used part give an empty iteration.
        let start = if start <= end {
            start
        } else {
            end
        };
        let data = self.record.into_data();
        IndexNodeEntryRanges::new(data, Range { start: start as usize, end: end as usize }, position)
    }

    /// Returns the Virtual Cluster Number (VCN) of this Index Record, as stored in its header.
    pub fn vcn(&self) -> (r: Vcn)
        ensures
            r == self.spec_vcn(),
    {
        proof {
            use_type_invariant(self);
        }
        Vcn(read_i64_le(self.record.data(), INDEX_RECORD_VCN_OFFSET))
    }
}

/// Checks the sizes of an Index Record (see [`spec_index_record_sizes`]).
fn validate_sizes(record: &Record) -> (r: Result<()>)
    requires
        record.wf(),
        record.spec_data().len() >= INDEX_RECORD_MIN_SIZE,
    ensures
        r == spec_index_record_sizes(record.spec_data(), record.spec_position()),
{
    proof {
        record.lemma_wf();
    }
    let data = record.data();
    let index_record_size = record.len();
    let allocated_size = read_u32_le(data, INDEX_RECORD_HEADER_SIZE + INDEX_NODE_ALLOCATED_SIZE_OFFSET);
    let used_size = read_u32_le(data, INDEX_RECORD_HEADER_SIZE + INDEX_NODE_INDEX_SIZE_OFFSET);
    // The total size allocated for this index record must not be larger than
    // the size defined for all index records of this index.
    let total_allocated_size = INDEX_RECORD_HEADER_SIZE as u64 + allocated_size as u64;
    if total_allocated_size > index_record_size as u64 {
        return Err(
            NtfsError::InvalidIndexAllocatedSize {
                position: record.position(),
                expected: index_record_size,
                actual: allocated_size.saturating_add(INDEX_RECORD_HEADER_SIZE as u32),
            },
        );
    }
    // Furthermore, the total used size for this index record must not be
    // larger than the total allocated size.
    let total_used_size = INDEX_RECORD_HEADER_SIZE as u64 + used_size as u64;
    if total_used_size > total_allocated_size {
        return Err(
            NtfsError::InvalidIndexUsedSize {
                position: record.position(),
                expected: total_allocated_size as u32,
                actual: used_size.saturating_add(INDEX_RECORD_HEADER_SIZE as u32),
            },
        );
    }
    Ok(())
}

} // verus!
