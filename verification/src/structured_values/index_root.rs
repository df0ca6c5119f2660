//! The $INDEX_ROOT structured value.
use vstd::prelude::*;

use core::ops::Range;

use crate::attribute::NtfsAttributeType;
use crate::attribute_value::{NtfsAttributeValue, NtfsResidentAttributeValue};
use crate::error::{NtfsError, Result};
use crate::helpers::{read_u32_le, spec_le4_value, spec_u32_le};
use crate::index_entry::{IndexNodeEntryRanges, NtfsIndexNodeEntries};
use crate::index_record::{
    INDEX_NODE_ALLOCATED_SIZE_OFFSET, INDEX_NODE_ENTRIES_OFFSET_OFFSET, INDEX_NODE_FLAGS_OFFSET,
    INDEX_NODE_HEADER_SIZE, INDEX_NODE_INDEX_SIZE_OFFSET,
};
use crate::indexes::NtfsIndexEntryType;
use crate::io::{Read, Seek};
use crate::structured_values::{NtfsStructuredValue, NtfsStructuredValueFromResidentAttributeValue};
use crate::traits::NtfsReadSeek;
use crate::types::NtfsPosition;

verus! {

/// Size of all Index Root header fields plus some reserved bytes.
pub const INDEX_ROOT_HEADER_SIZE: usize = 16;
/// Byte offset of the Index Record size in an Index Root.
pub const INDEX_ROOT_RECORD_SIZE_OFFSET: usize = 8;

/// The offset of the first entry of the Index Root bytes `b`, from the start of the Index Root.
pub open spec fn spec_root_entries_start(b: Seq<u8>) -> int {
    INDEX_ROOT_HEADER_SIZE + spec_u32_le(b, INDEX_ROOT_HEADER_SIZE + INDEX_NODE_ENTRIES_OFFSET_OFFSET)
}

/// The end of the used part of the Index Root bytes `b`, from the start of the Index Root.
pub open spec fn spec_root_entries_end(b: Seq<u8>) -> int {
    INDEX_ROOT_HEADER_SIZE + spec_u32_le(b, INDEX_ROOT_HEADER_SIZE + INDEX_NODE_INDEX_SIZE_OFFSET)
}

/// The entry bytes of the Index Root bytes `b`: its used part from the first entry on
/// (nothing if the entries start after the used part ends).
pub open spec fn spec_root_entries(b: Seq<u8>) -> Seq<u8> {
    let start = spec_root_entries_start(b);
    let end = spec_root_entries_end(b);
    if start <= end {
        b.subrange(start, end)
    } else {
        Seq::empty()
    }
}

/// The entries of an Index Root are the bytes from 16 plus the little-endian `u32` in bytes
/// 16..20 up to 16 plus the little-endian `u32` in bytes 20..24 (none where they would end first).
pub proof fn lemma_root_entries_layout(b: Seq<u8>)
    ensures
        spec_root_entries_start(b) == 16 + spec_le4_value(b, 16),
        spec_root_entries_end(b) == 16 + spec_le4_value(b, 20),
        spec_root_entries_start(b) <= spec_root_entries_end(b) ==> spec_root_entries(b) == b.subrange(
            16 + spec_le4_value(b, 16),
            16 + spec_le4_value(b, 20),
        ),
{
}

/// The checks of the Index Root bytes `b` at `position`: both headers fit, the entries start
/// within the bytes and the used part ends within them.
pub open spec fn spec_index_root(b: Seq<u8>, position: NtfsPosition) -> Result<()> {
    let start = spec_root_entries_start(b);
    let end = spec_root_entries_end(b);
    if b.len() < INDEX_ROOT_HEADER_SIZE + INDEX_NODE_HEADER_SIZE {
        Err(
            NtfsError::InvalidStructuredValueSize {
                position,
                ty: NtfsAttributeType::IndexRoot,
                expected: INDEX_ROOT_HEADER_SIZE as u64,
                actual: b.len() as u64,
            },
        )
    } else if start >= b.len() {
        Err(
            NtfsError::InvalidIndexRootEntriesOffset {
                position,
                expected: start as usize,
                actual: b.len() as usize,
            },
        )
    } else if end > b.len() {
        Err(NtfsError::InvalidIndexRootUsedSize { position, expected: end as usize, actual: b.len() as usize })
    } else {
        Ok(())
    }
}

/// Structure of an $INDEX_ROOT attribute.
///
/// This attribute describes the top-level nodes of a B-tree.
/// The sub-nodes are managed via [`crate::structured_values::NtfsIndexAllocation`].
///
/// NTFS uses B-trees for describing directories (as indexes of file names), looking up Object IDs,
/// Reparse Points, and Security Descriptors, to just name a few.
///
/// An $INDEX_ROOT attribute is always resident.
///
/// Reference: <https://flatcap.github.io/linux-ntfs/ntfs/attributes/index_root.html>
#[derive(Debug)]
pub struct NtfsIndexRoot<'f> {
    slice: &'f [u8],
    position: NtfsPosition,
}

impl<'f> NtfsIndexRoot<'f> {
    /// The bytes of an Index Root have passed its checks.
    #[verifier::type_invariant]
    spec fn index_root_inv(self) -> bool {
        &&& spec_index_root(self.slice@, self.position) is Ok
        &&& self.slice@.len() <= usize::MAX
    }

    /// The bytes of this Index Root.
    pub closed spec fn spec_bytes(&self) -> Seq<u8> {
        self.slice@
    }

    /// The absolute position of this Index Root.
    pub closed spec fn spec_position(&self) -> NtfsPosition {
        self.position
    }

    /// Parses the Index Root from its bytes `slice` at `position` (see [`spec_index_root`]).
    pub fn new(slice: &'f [u8], position: NtfsPosition) -> (r: Result<Self>)
        ensures
            match spec_index_root(slice@, position) {
                Ok(()) => r matches Ok(root) && root.spec_bytes() == slice@ && root.spec_position()
                    == position,
                Err(e) => r == Err::<Self, NtfsError>(e),
            },
    {
        let len = slice.len();
        if len < INDEX_ROOT_HEADER_SIZE + INDEX_NODE_HEADER_SIZE {
            return Err(
                NtfsError::InvalidStructuredValueSize {
                    position,
                    ty: NtfsAttributeType::IndexRoot,
                    expected: INDEX_ROOT_HEADER_SIZE as u64,
                    actual: len as u64,
                },
            );
        }
        let start = INDEX_ROOT_HEADER_SIZE as u64 + read_u32_le(
            slice,
            INDEX_ROOT_HEADER_SIZE + INDEX_NODE_ENTRIES_OFFSET_OFFSET,
        ) as u64;
        let end = INDEX_ROOT_HEADER_SIZE as u64 + read_u32_le(
            slice,
            INDEX_ROOT_HEADER_SIZE + INDEX_NODE_INDEX_SIZE_OFFSET,
        ) as u64;
        if start >= len as u64 {
            return Err(
                NtfsError::InvalidIndexRootEntriesOffset {
                    position,
                    expected: start as usize,
                    actual: len,
                },
            );
        }
        if end > len as u64 {
            return Err(NtfsError::InvalidIndexRootUsedSize { position, expected: end as usize, actual: len });
        }
        Ok(Self { slice, position })
    }

    /// Returns the offsets of the first entry and of the end of the used part (no smaller than the first),
    /// from the start of the Index Root.
    fn entries_bounds(&self) -> (r: (usize, usize))
        ensures
            r.0 == spec_root_entries_start(self.spec_bytes()),
            r.1 == if spec_root_entries_start(self.spec_bytes()) <= spec_root_entries_end(
                self.spec_bytes(),
            ) {
                spec_root_entries_end(self.spec_bytes())
            } else {
                spec_root_entries_start(self.spec_bytes())
            },
            r.0 <= r.1 <= self.spec_bytes().len(),
    {
        proof {
            use_type_invariant(self);
        }
        let start = INDEX_ROOT_HEADER_SIZE + self.index_entries_offset() as usize;
        let end = INDEX_ROOT_HEADER_SIZE + self.index_data_size() as usize;
        if start <= end {
            (start, end)
        } else {
            (start, start)
        }
    }

    /// Returns an iterator over all top-level nodes of the B-tree.
    pub fn entries<E>(&self) -> (r: Result<NtfsIndexNodeEntries<'f, E>>) where E: NtfsIndexEntryType
        ensures
            r matches Ok(it) && it.spec_slice() == spec_root_entries(self.spec_bytes())
                && it.spec_position() == self.spec_position().spec_add(
                spec_root_entries_start(self.spec_bytes()) as u64,
            ),
    {
        let (start, end) = self.entries_bounds();
        let slice = crate::attribute::slice_subrange(self.slice, start, end);
        proof {
            if spec_root_entries_start(self.spec_bytes()) > spec_root_entries_end(self.spec_bytes()) {
                assert(slice@ =~= Seq::<u8>::empty());
            }
        }
        let position = self.position.add_offset(start as u64);
        Ok(NtfsIndexNodeEntries::new(slice, position))
    }

    /// Returns an iterator over the ranges of all top-level nodes of the B-tree,
    /// which owns a copy of their bytes.
    pub fn entry_ranges<E>(&self) -> (r: IndexNodeEntryRanges<E>) where E: NtfsIndexEntryType
        ensures
            r.wf(),
            r.data@ == spec_root_entries(self.spec_bytes()),
            r.range.start == 0,
            r.range.end == r.data@.len(),
            r.position == self.spec_position().spec_add(spec_root_entries_start(self.spec_bytes()) as u64),
    {
        let (start, end) = self.entries_bounds();
        let slice = crate::attribute::slice_subrange(self.slice, start, end);
        let entries_data = crate::helpers::bytes_to_vec(slice);
        proof {
            assert(entries_data@ =~= slice@);
            if spec_root_entries_start(self.spec_bytes()) > spec_root_entries_end(self.spec_bytes()) {
                assert(slice@ =~= Seq::<u8>::empty());
            }
        }
        let len = entries_data.len();
        let position = self.position.add_offset(start as u64);
        IndexNodeEntryRanges::new(entries_data, Range { start: 0, end: len }, position)
    }

    /// Returns the allocated size of this NTFS Index Root, in bytes.
    pub fn index_allocated_size(&self) -> (r: u32)
        ensures
            r == spec_u32_le(self.spec_bytes(), INDEX_ROOT_HEADER_SIZE + INDEX_NODE_ALLOCATED_SIZE_OFFSET),
    {
        proof {
            use_type_invariant(self);
        }
        read_u32_le(self.slice, INDEX_ROOT_HEADER_SIZE + INDEX_NODE_ALLOCATED_SIZE_OFFSET)
    }

    /// Returns the size actually used by index data within this NTFS Index Root, in bytes.
    pub fn index_data_size(&self) -> (r: u32)
        ensures
            r == spec_u32_le(self.spec_bytes(), INDEX_ROOT_HEADER_SIZE + INDEX_NODE_INDEX_SIZE_OFFSET),
    {
        proof {
            use_type_invariant(self);
        }
        read_u32_le(self.slice, INDEX_ROOT_HEADER_SIZE + INDEX_NODE_INDEX_SIZE_OFFSET)
    }

    /// Returns the offset of the first entry, from the start of the node header.
    fn index_entries_offset(&self) -> (r: u32)
        ensures
            r == spec_u32_le(self.spec_bytes(), INDEX_ROOT_HEADER_SIZE + INDEX_NODE_ENTRIES_OFFSET_OFFSET),
    {
        proof {
            use_type_invariant(self);
        }
        read_u32_le(self.slice, INDEX_ROOT_HEADER_SIZE + INDEX_NODE_ENTRIES_OFFSET_OFFSET)
    }

    /// The size of a single Index Record of this index, in bytes.
    pub open spec fn spec_index_record_size(&self) -> u32 {
        spec_u32_le(self.spec_bytes(), INDEX_ROOT_RECORD_SIZE_OFFSET as int)
    }

    /// Returns the size of a single Index Record, in bytes.
    pub fn index_record_size(&self) -> (r: u32)
        ensures
            r == self.spec_index_record_size(),
    {
        proof {
            use_type_invariant(self);
        }
        read_u32_le(self.slice, INDEX_ROOT_RECORD_SIZE_OFFSET)
    }

    /// Returns whether the index belonging to this Index Root is large enough
    /// to need an extra Index Allocation attribute.
    /// Otherwise, the entire index information is stored in this Index Root.
    pub fn is_large_index(&self) -> (r: bool)
        ensures
            r == (self.spec_bytes()[INDEX_ROOT_HEADER_SIZE + INDEX_NODE_FLAGS_OFFSET] & 0x01 != 0),
    {
        proof {
            use_type_invariant(self);
        }
        (self.slice[INDEX_ROOT_HEADER_SIZE + INDEX_NODE_FLAGS_OFFSET] & 0x01) != 0
    }

    /// Returns the absolute position of this Index Root within the filesystem, in bytes.
    pub fn position(&self) -> (r: NtfsPosition)
        ensures
            r == self.spec_position(),
    {
        self.position
    }
}

impl<'f> Clone for NtfsIndexRoot<'f> {
    fn clone(&self) -> (r: Self)
        ensures
            r.spec_bytes() == self.spec_bytes(),
            r.spec_position() == self.spec_position(),
    {
        proof {
            use_type_invariant(self);
        }
        Self { slice: self.slice, position: self.position }
    }
}

impl<'n, 'f> NtfsStructuredValue<'n, 'f> for NtfsIndexRoot<'f> {
    open spec fn spec_structured_ty() -> NtfsAttributeType {
        NtfsAttributeType::IndexRoot
    }

    fn structured_ty() -> (r: NtfsAttributeType) {
        NtfsAttributeType::IndexRoot
    }

    /// Parses the bytes of a resident value; an $INDEX_ROOT attribute is never non-resident.
    /// A resident value is parsed from all of its bytes (see
    /// [`NtfsStructuredValueFromResidentAttributeValue::spec_parsed_resident`]); a non-resident
    /// value is refused.
    open spec fn spec_from_value(value: NtfsAttributeValue<'n, 'f>, source: Seq<u8>, r: Result<Self>) -> bool {
        match value {
            NtfsAttributeValue::Resident(v) => <Self as NtfsStructuredValueFromResidentAttributeValue<
                'n,
                'f,
            >>::spec_parsed_resident(v.spec_data(), value.spec_data_position(), r),
            _ => r == Err::<Self, NtfsError>(
                NtfsError::UnexpectedNonResidentAttribute { position: value.spec_data_position() },
            ),
        }
    }

    fn from_attribute_value<T>(fs: &mut T, value: NtfsAttributeValue<'n, 'f>) -> (r: Result<Self>) where
        T: Read + Seek,
    {
        match value {
            NtfsAttributeValue::Resident(resident_value) => {
                let position = resident_value.data_position();
                Self::new(resident_value.data(), position)
            },
            _ => Err(NtfsError::UnexpectedNonResidentAttribute { position: value.data_position() }),
        }
    }
}

impl<'n, 'f> NtfsStructuredValueFromResidentAttributeValue<'n, 'f> for NtfsIndexRoot<'f> {
    open spec fn spec_ty() -> NtfsAttributeType {
        NtfsAttributeType::IndexRoot
    }

    fn ty() -> (r: NtfsAttributeType) {
        NtfsAttributeType::IndexRoot
    }

    open spec fn spec_parsed_resident(data: Seq<u8>, position: NtfsPosition, r: Result<Self>) -> bool {
        match spec_index_root(data, position) {
            Ok(()) => r matches Ok(root) && root.spec_bytes() == data && root.spec_position() == position,
            Err(e) => r == Err::<Self, NtfsError>(e),
        }
    }

    fn from_resident_attribute_value(value: NtfsResidentAttributeValue<'f>) -> (r: Result<Self>) {
        let position = value.data_position();
        Self::new(value.data(), position)
    }
}

} // verus!
