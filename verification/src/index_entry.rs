//! Entries of NTFS indexes and the iteration over the entries of one index node.
use vstd::prelude::*;

use core::marker::PhantomData;
use core::ops::Range;

use crate::error::{NtfsError, Result};
use crate::file::NtfsFile;
use crate::file_reference::NtfsFileReference;
use crate::helpers::{read_i64_le, read_u16_le, spec_i64_le, spec_le2_value, spec_le8_value, spec_u16_le};
use crate::indexes::{
    NtfsIndexEntryData, NtfsIndexEntryHasData, NtfsIndexEntryHasFileReference, NtfsIndexEntryKey,
    NtfsIndexEntryType,
};
use crate::io::{Read, Seek};
use crate::ntfs::Ntfs;
use crate::types::{NtfsPosition, Vcn};

verus! {

/// Size of all Index Entry header fields plus some reserved bytes.
pub const INDEX_ENTRY_HEADER_SIZE: usize = 16;
/// Byte offset of the data offset (or of the file reference) in an Index Entry.
pub const INDEX_ENTRY_DATA_OFFSET_OFFSET: usize = 0;
/// Byte offset of the data length in an Index Entry.
pub const INDEX_ENTRY_DATA_LENGTH_OFFSET: usize = 2;
/// Byte offset of the total length of an Index Entry.
pub const INDEX_ENTRY_LENGTH_OFFSET: usize = 8;
/// Byte offset of the key length in an Index Entry.
pub const INDEX_ENTRY_KEY_LENGTH_OFFSET: usize = 10;
/// Byte offset of the flags in an Index Entry.
pub const INDEX_ENTRY_FLAGS_OFFSET: usize = 12;

/// Flags returned by [`NtfsIndexEntry::flags`].
#[derive(Clone, Copy, Debug, Eq, Hash, PartialEq, Structural)]
pub struct NtfsIndexEntryFlags(u8);

impl NtfsIndexEntryFlags {
    /// This Index Entry points to a sub-node.
    pub fn has_subnode() -> (r: Self)
        ensures
            r.spec_bits() == 0x01,
    {
        NtfsIndexEntryFlags(0x01)
    }

    /// This is the last Index Entry in the list.
    pub fn last_entry() -> (r: Self)
        ensures
            r.spec_bits() == 0x02,
    {
        NtfsIndexEntryFlags(0x02)
    }

    /// The raw bits of the flags.
    pub closed spec fn spec_bits(&self) -> u8 {
        self.0
    }

    /// Keeps the known flags of `bits` and drops all others.
    pub fn from_bits_truncate(bits: u8) -> (r: Self)
        ensures
            r.spec_bits() == bits & 0x03,
    {
        NtfsIndexEntryFlags(bits & 0x03)
    }

    /// Returns the raw bits of the flags.
    pub fn bits(&self) -> (r: u8)
        ensures
            r == self.spec_bits(),
    {
        self.0
    }

    /// Returns `true` if all flags of `other` are set in `self`.
    pub fn contains(&self, other: NtfsIndexEntryFlags) -> (r: bool)
        ensures
            r == (self.spec_bits() & other.spec_bits() == other.spec_bits()),
    {
        (self.0 & other.0) == other.0
    }
}

/// The total length of the Index Entry whose bytes start `b`.
pub open spec fn spec_entry_length(b: Seq<u8>) -> u16 {
    spec_u16_le(b, INDEX_ENTRY_LENGTH_OFFSET as int)
}

/// Whether the Index Entry bytes `b` are flagged as the last entry of their node.
pub open spec fn spec_entry_is_last(b: Seq<u8>) -> bool {
    b[INDEX_ENTRY_FLAGS_OFFSET as int] & 0x02 == 0x02
}

/// Whether the Index Entry bytes `b` are flagged as pointing to a sub-node.
pub open spec fn spec_entry_has_subnode(b: Seq<u8>) -> bool {
    b[INDEX_ENTRY_FLAGS_OFFSET as int] & 0x01 == 0x01
}

/// The checks of the bytes `b` that start with an Index Entry at `position`: the header fits,
/// the entry is no shorter than its header and no longer than `b`.
/// Gives the bytes of the entry or the error of the first failed check.
pub open spec fn spec_index_entry(b: Seq<u8>, position: NtfsPosition) -> Result<Seq<u8>> {
    if b.len() < INDEX_ENTRY_HEADER_SIZE {
        Err(
            NtfsError::InvalidIndexEntrySize {
                position,
                expected: INDEX_ENTRY_HEADER_SIZE as u16,
                actual: b.len() as u16,
            },
        )
    } else if spec_entry_length(b) > b.len() {
        Err(
            NtfsError::InvalidIndexEntrySize {
                position,
                expected: spec_entry_length(b),
                actual: b.len() as u16,
            },
        )
    } else if spec_entry_length(b) < INDEX_ENTRY_HEADER_SIZE {
        Err(
            NtfsError::InvalidIndexEntrySize {
                position,
                expected: INDEX_ENTRY_HEADER_SIZE as u16,
                actual: spec_entry_length(b),
            },
        )
    } else {
        Ok(b.subrange(0, spec_entry_length(b) as int))
    }
}

/// The error for a field in `start..end` of the Index Entry bytes `b` at `position` that does not fit.
pub open spec fn spec_entry_range_error(b: Seq<u8>, position: NtfsPosition, start: int, end: int) -> NtfsError {
    NtfsError::InvalidIndexEntryDataRange {
        position,
        range: Range { start: start as usize, end: end as usize },
        size: b.len() as u16,
    }
}

/// The key of the Index Entry bytes `b` at `position`: `None` for the last entry of a node and for an
/// entry without a key, else the key bytes and their position, or the error for a key that does not fit.
pub open spec fn spec_entry_key(b: Seq<u8>, position: NtfsPosition) -> Option<Result<(Seq<u8>, NtfsPosition)>> {
    let key_length = spec_u16_le(b, INDEX_ENTRY_KEY_LENGTH_OFFSET as int);
    let start = INDEX_ENTRY_HEADER_SIZE as int;
    let end = start + key_length;
    if key_length == 0 || spec_entry_is_last(b) {
        None
    } else if end > b.len() {
        Some(Err(spec_entry_range_error(b, position, start, end)))
    } else {
        Some(Ok((b.subrange(start, end), position.spec_add(start as u64))))
    }
}

/// The data of the Index Entry bytes `b` at `position`: `None` for an entry without data,
/// else the data bytes and their position, or the error for data that does not fit.
pub open spec fn spec_entry_data(b: Seq<u8>, position: NtfsPosition) -> Option<Result<(Seq<u8>, NtfsPosition)>> {
    let start = spec_u16_le(b, INDEX_ENTRY_DATA_OFFSET_OFFSET as int) as int;
    let length = spec_u16_le(b, INDEX_ENTRY_DATA_LENGTH_OFFSET as int) as int;
    let end = start + length;
    if start == 0 || length == 0 {
        None
    } else if end > b.len() {
        Some(Err(spec_entry_range_error(b, position, start, end)))
    } else {
        Some(Ok((b.subrange(start, end), position.spec_add(start as u64))))
    }
}

/// The Virtual Cluster Number of the sub-node of the Index Entry bytes `b` at `position`:
/// `None` for an entry without a sub-node, else the number stored in the last 8 bytes of the entry
/// (but not in its header), or the error for an entry too short to hold it.
pub open spec fn spec_entry_subnode_vcn(b: Seq<u8>, position: NtfsPosition) -> Option<Result<Vcn>> {
    let start = if b.len() - 8 >= INDEX_ENTRY_HEADER_SIZE {
        b.len() - 8
    } else {
        INDEX_ENTRY_HEADER_SIZE as int
    };
    let end = start + 8;
    if !spec_entry_has_subnode(b) {
        None
    } else if end > b.len() {
        Some(Err(spec_entry_range_error(b, position, start, end)))
    } else {
        Some(Ok(Vcn(spec_i64_le(b, start))))
    }
}

/// The file reference held in the first 8 bytes of the Index Entry bytes `b`.
pub open spec fn spec_entry_file_reference(b: Seq<u8>) -> NtfsFileReference {
    NtfsFileReference([b[0], b[1], b[2], b[3], b[4], b[5], b[6], b[7]])
}

/// An Index Entry read from the bytes `b` follows the on-disk layout: its length is the
/// little-endian `u16` in bytes 8..10 (at least the 16-byte header), bit 1 of the flags in byte 12
/// marks the last entry of a node and bit 0 an entry with a sub-node, whose VCN is the
/// little-endian two's complement number in the last 8 bytes of an entry long enough to hold it
/// after its header; the key is the number of bytes that bytes 10..12 give, right after the header.
pub proof fn lemma_index_entry_layout(b: Seq<u8>, position: NtfsPosition)
    ensures
        spec_index_entry(b, position) matches Ok(e) ==> {
            let flags = e[12];
            let vcn_start = e.len() - 8;
            &&& e == b.subrange(0, spec_le2_value(b, 8))
            &&& 16 <= e.len() <= b.len()
            &&& spec_entry_is_last(e) <==> (flags / 2) % 2 == 1
            &&& spec_entry_has_subnode(e) <==> flags % 2 == 1
            &&& spec_entry_has_subnode(e) && e.len() >= 24 ==> spec_entry_subnode_vcn(e, position)
                == Some(
                Ok::<Vcn, NtfsError>(
                    Vcn(
                        (if spec_le8_value(e, vcn_start) < 0x8000_0000_0000_0000 {
                            spec_le8_value(e, vcn_start)
                        } else {
                            spec_le8_value(e, vcn_start) - 0x1_0000_0000_0000_0000
                        }) as i64,
                    ),
                ),
            )
            &&& spec_entry_key(e, position) matches Some(Ok((key, _))) ==> key == e.subrange(
                16,
                16 + spec_le2_value(e, 10),
            )
        },
{
    if let Ok(e) = spec_index_entry(b, position) {
        let flags: u8 = e[12];
        assert((flags & 0x02 == 0x02) == ((flags / 2) % 2 == 1)) by (bit_vector);
        assert((flags & 0x01 == 0x01) == (flags % 2 == 1)) by (bit_vector);
        assert(e[8] == b[8] && e[9] == b[9]);
    }
}

/// A single entry of an NTFS index.
///
/// NTFS uses B-tree indexes to quickly look up files, Object IDs, Reparse Points, Security Descriptors, etc.
/// They are described via [`crate::structured_values::NtfsIndexRoot`] and
/// [`crate::structured_values::NtfsIndexAllocation`] attributes, which can be comfortably
/// accessed via [`crate::index::NtfsIndex`].
///
/// The `E` type parameter of [`NtfsIndexEntryType`] specifies the type of the Index Entry.
/// The most common one is [`crate::indexes::NtfsFileNameIndex`] for file name indexes,
/// commonly known as "directories".
///
/// Reference: <https://flatcap.github.io/linux-ntfs/ntfs/concepts/index_entry.html>
#[derive(Debug)]
pub struct NtfsIndexEntry<'s, E> where E: NtfsIndexEntryType {
    slice: &'s [u8],
    position: NtfsPosition,
    entry_type: PhantomData<E>,
}

impl<'s, E> NtfsIndexEntry<'s, E> where E: NtfsIndexEntryType {
    /// An entry holds its header, and exactly as many bytes as its length field tells.
    #[verifier::type_invariant]
    spec fn entry_inv(self) -> bool {
        &&& self.slice@.len() >= INDEX_ENTRY_HEADER_SIZE
        &&& spec_entry_length(self.slice@) == self.slice@.len()
    }

    /// The bytes of this Index Entry.
    pub closed spec fn spec_bytes(&self) -> Seq<u8> {
        self.slice@
    }

    /// The absolute position of this Index Entry.
    pub closed spec fn spec_position(&self) -> NtfsPosition {
        self.position
    }

    /// Parses the Index Entry at the beginning of `slice`, which lies at `position`.
    pub fn new(slice: &'s [u8], position: NtfsPosition) -> (r: Result<Self>)
        ensures
            match spec_index_entry(slice@, position) {
                Ok(b) => r matches Ok(e) && e.spec_bytes() == b && e.spec_position() == position,
                Err(err) => r == Err::<Self, NtfsError>(err),
            },
    {
        if slice.len() < INDEX_ENTRY_HEADER_SIZE {
            return Err(
                NtfsError::InvalidIndexEntrySize {
                    position,
                    expected: INDEX_ENTRY_HEADER_SIZE as u16,
                    actual: slice.len() as u16,
                },
            );
        }
        let index_entry_length = read_u16_le(slice, INDEX_ENTRY_LENGTH_OFFSET);
        if index_entry_length as usize > slice.len() {
            return Err(
                NtfsError::InvalidIndexEntrySize {
                    position,
                    expected: index_entry_length,
                    actual: slice.len() as u16,
                },
            );
        }
        if (index_entry_length as usize) < INDEX_ENTRY_HEADER_SIZE {
            return Err(
                NtfsError::InvalidIndexEntrySize {
                    position,
                    expected: INDEX_ENTRY_HEADER_SIZE as u16,
                    actual: index_entry_length,
                },
            );
        }
        let bytes = crate::attribute::slice_subrange(slice, 0, index_entry_length as usize);
        proof {
            assert(spec_entry_length(bytes@) == index_entry_length) by {
                assert(bytes@[8] == slice@[8]);
                assert(bytes@[9] == slice@[9]);
            }
        }
        Ok(Self { slice: bytes, position, entry_type: PhantomData })
    }

    /// Returns the data of this Index Entry, if any and if supported by this Index Entry type.
    ///
    /// This function is mutually exclusive with [`NtfsIndexEntry::file_reference`].
    /// An Index Entry can either have data or a file reference.
    pub fn data(&self) -> (r: Option<Result<E::DataType>>) where E: NtfsIndexEntryHasData
        ensures
            match spec_entry_data(self.spec_bytes(), self.spec_position()) {
                None => r is None,
                Some(Err(e)) => r == Some(Err::<E::DataType, NtfsError>(e)),
                Some(Ok((b, p))) => r matches Some(d) && E::DataType::spec_parsed_data(b, p, d),
            },
    {
        proof {
            use_type_invariant(self);
        }
        let start = read_u16_le(self.slice, INDEX_ENTRY_DATA_OFFSET_OFFSET) as usize;
        let length = self.data_length() as usize;
        if start == 0 || length == 0 {
            return None;
        }
        let end = start + length;
        if end > self.slice.len() {
            return Some(
                Err(
                    NtfsError::InvalidIndexEntryDataRange {
                        position: self.position,
                        range: Range { start, end },
                        size: self.slice.len() as u16,
                    },
                ),
            );
        }
        let position = self.position.add_offset(start as u64);
        let slice = crate::attribute::slice_subrange(self.slice, start, end);
        Some(E::DataType::data_from_slice(slice, position))
    }

    /// Returns the length of the data of this Index Entry (if supported by this Index Entry type).
    pub fn data_length(&self) -> (r: u16) where E: NtfsIndexEntryHasData
        ensures
            r == spec_u16_le(self.spec_bytes(), INDEX_ENTRY_DATA_LENGTH_OFFSET as int),
    {
        proof {
            use_type_invariant(self);
        }
        read_u16_le(self.slice, INDEX_ENTRY_DATA_LENGTH_OFFSET)
    }

    /// Returns an [`NtfsFileReference`] for the file referenced by this Index Entry
    /// (if supported by this Index Entry type).
    ///
    /// This function is mutually exclusive with [`NtfsIndexEntry::data`].
    /// An Index Entry can either have data or a file reference.
    pub fn file_reference(&self) -> (r: NtfsFileReference) where E: NtfsIndexEntryHasFileReference
        ensures
            r == spec_entry_file_reference(self.spec_bytes()),
    {
        proof {
            use_type_invariant(self);
        }
        let s = self.slice;
        NtfsFileReference::new([s[0], s[1], s[2], s[3], s[4], s[5], s[6], s[7]])
    }

    /// Returns flags set for this Index Entry as specified by [`NtfsIndexEntryFlags`].
    pub fn flags(&self) -> (r: NtfsIndexEntryFlags)
        ensures
            r.spec_bits() == self.spec_bytes()[INDEX_ENTRY_FLAGS_OFFSET as int] & 0x03,
    {
        proof {
            use_type_invariant(self);
        }
        NtfsIndexEntryFlags::from_bits_truncate(self.slice[INDEX_ENTRY_FLAGS_OFFSET])
    }

    /// Returns whether this is the last Index Entry of its node.
    pub fn is_last_entry(&self) -> (r: bool)
        ensures
            r == spec_entry_is_last(self.spec_bytes()),
    {
        proof {
            use_type_invariant(self);
        }
        let b = self.slice[INDEX_ENTRY_FLAGS_OFFSET];
        let r = self.flags().contains(NtfsIndexEntryFlags::last_entry());
        assert((b & 0x03) & 0x02 == 0x02 <==> b & 0x02 == 0x02) by (bit_vector);
        r
    }

    /// Returns whether this Index Entry points to a sub-node.
    pub fn has_subnode(&self) -> (r: bool)
        ensures
            r == spec_entry_has_subnode(self.spec_bytes()),
    {
        proof {
            use_type_invariant(self);
        }
        let b = self.slice[INDEX_ENTRY_FLAGS_OFFSET];
        let r = self.flags().contains(NtfsIndexEntryFlags::has_subnode());
        assert((b & 0x03) & 0x01 == 0x01 <==> b & 0x01 == 0x01) by (bit_vector);
        r
    }

    /// Returns the total length of this Index Entry, in bytes.
    ///
    /// The next Index Entry is exactly at [`NtfsIndexEntry::position`] + [`NtfsIndexEntry::index_entry_length`]
    /// on the filesystem, unless this is the last entry.
    pub fn index_entry_length(&self) -> (r: u16)
        ensures
            r == spec_entry_length(self.spec_bytes()),
            r == self.spec_bytes().len(),
            r >= INDEX_ENTRY_HEADER_SIZE,
    {
        proof {
            use_type_invariant(self);
        }
        read_u16_le(self.slice, INDEX_ENTRY_LENGTH_OFFSET)
    }

    /// Returns the structured value of the key of this Index Entry,
    /// or `None` if this Index Entry has no key.
    ///
    /// The last Index Entry never has a key.
    pub fn key(&self) -> (r: Option<Result<E::KeyType>>)
        ensures
            match spec_entry_key(self.spec_bytes(), self.spec_position()) {
                None => r is None,
                Some(Err(e)) => r == Some(Err::<E::KeyType, NtfsError>(e)),
                Some(Ok((b, p))) => r matches Some(k) && E::KeyType::spec_parsed_key(b, p, k),
            },
    {
        proof {
            use_type_invariant(self);
        }
        let key_length = self.key_length() as usize;
        if key_length == 0 || self.is_last_entry() {
            return None;
        }
        let start = INDEX_ENTRY_HEADER_SIZE;
        let end = start + key_length;
        if end > self.slice.len() {
            return Some(
                Err(
                    NtfsError::InvalidIndexEntryDataRange {
                        position: self.position,
                        range: Range { start, end },
                        size: self.slice.len() as u16,
                    },
                ),
            );
        }
        let position = self.position.add_offset(start as u64);
        let slice = crate::attribute::slice_subrange(self.slice, start, end);
        Some(E::KeyType::key_from_slice(slice, position))
    }

    /// Returns the length of the key of this Index Entry.
    pub fn key_length(&self) -> (r: u16)
        ensures
            r == spec_u16_le(self.spec_bytes(), INDEX_ENTRY_KEY_LENGTH_OFFSET as int),
    {
        proof {
            use_type_invariant(self);
        }
        read_u16_le(self.slice, INDEX_ENTRY_KEY_LENGTH_OFFSET)
    }

    /// Returns the absolute position of this NTFS Index Entry within the filesystem, in bytes.
    pub fn position(&self) -> (r: NtfsPosition)
        ensures
            r == self.spec_position(),
    {
        self.position
    }

    /// Returns the Virtual Cluster Number (VCN) of the subnode of this Index Entry,
    /// or `None` if this Index Entry has no subnode.
    pub fn subnode_vcn(&self) -> (r: Option<Result<Vcn>>)
        ensures
            r == spec_entry_subnode_vcn(self.spec_bytes(), self.spec_position()),
    {
        proof {
            use_type_invariant(self);
        }
        if !self.has_subnode() {
            return None;
        }
        // The sub-node VCN is stored at the very end of the Index Entry, but at least after the header.
        let len = self.slice.len();
        let start = if len - 8 >= INDEX_ENTRY_HEADER_SIZE {
            len - 8
        } else {
            INDEX_ENTRY_HEADER_SIZE
        };
        let end = start + 8;
        if end > len {
            return Some(
                Err(
                    NtfsError::InvalidIndexEntryDataRange {
                        position: self.position,
                        range: Range { start, end },
                        size: len as u16,
                    },
                ),
            );
        }
        Some(Ok(Vcn(read_i64_le(self.slice, start))))
    }

    /// Returns an [`NtfsFile`] for the file referenced by this Index Entry.
    pub fn to_file<'n, T>(&self, ntfs: &'n Ntfs, fs: &mut T) -> (r: Result<NtfsFile<'n>>) where
        E: NtfsIndexEntryHasFileReference,
        T: Read + Seek,
        ensures
            final(fs).source() == old(fs).source(),
            r matches Ok(f) ==> {
                &&& f.wf()
                &&& f.spec_ntfs() == *ntfs
                &&& f.spec_file_record_number()
                    == spec_entry_file_reference(self.spec_bytes()).spec_file_record_number()
            },
    {
        self.file_reference().to_file(ntfs, fs)
    }
}

impl<'s, E> Clone for NtfsIndexEntry<'s, E> where E: NtfsIndexEntryType {
    fn clone(&self) -> (r: Self)
        ensures
            r.spec_bytes() == self.spec_bytes(),
            r.spec_position() == self.spec_position(),
    {
        proof {
            use_type_invariant(self);
        }
        Self { slice: self.slice, position: self.position, entry_type: PhantomData }
    }
}

/// The byte range and the absolute position of an Index Entry within the bytes of its index node.
#[derive(Debug)]
pub struct IndexEntryRange<E> where E: NtfsIndexEntryType {
    /// The range of the entry's bytes within the bytes of its node.
    pub range: Range<usize>,
    /// The absolute position of the entry.
    pub position: NtfsPosition,
    /// The type of the entry.
    pub entry_type: PhantomData<E>,
}

impl<E> IndexEntryRange<E> where E: NtfsIndexEntryType {
    /// Creates the range of an Index Entry at `position`.
    pub fn new(range: Range<usize>, position: NtfsPosition) -> (r: Self)
        ensures
            r.range == range,
            r.position == position,
    {
        Self { range, position, entry_type: PhantomData }
    }

    /// Parses the Index Entry in this range of the node bytes `slice`.
    pub fn to_entry<'s>(&self, slice: &'s [u8]) -> (r: Result<NtfsIndexEntry<'s, E>>)
        requires
            self.range.start <= self.range.end <= slice@.len(),
        ensures
            match spec_index_entry(
                slice@.subrange(self.range.start as int, self.range.end as int),
                self.position,
            ) {
                Ok(b) => r matches Ok(e) && e.spec_bytes() == b && e.spec_position() == self.position,
                Err(err) => r == Err::<NtfsIndexEntry<'s, E>, NtfsError>(err),
            },
    {
        let bytes = crate::attribute::slice_subrange(slice, self.range.start, self.range.end);
        NtfsIndexEntry::new(bytes, self.position)
    }
}

impl<E> Clone for IndexEntryRange<E> where E: NtfsIndexEntryType {
    fn clone(&self) -> (r: Self)
        ensures
            r == *self,
    {
        Self {
            range: Range { start: self.range.start, end: self.range.end },
            position: self.position,
            entry_type: PhantomData,
        }
    }
}

/// Iterator over the ranges of all Index Entries of a single index node, owning the node bytes.
///
/// Entries are parsed from `range.start` on; the iteration stops after the entry flagged as the
/// last one, or once `range.start` reaches `range.end`.
#[derive(Debug)]
pub struct IndexNodeEntryRanges<E> where E: NtfsIndexEntryType {
    /// The bytes of the index node.
    pub data: Vec<u8>,
    /// `start` is where the next entry begins; the iteration has ended once `start >= end`.
    pub range: Range<usize>,
    /// The absolute position of the next entry.
    pub position: NtfsPosition,
    /// The type of the entries.
    pub entry_type: PhantomData<E>,
}

impl<E> IndexNodeEntryRanges<E> where E: NtfsIndexEntryType {
    /// The end of the iteration lies within the node bytes.
    pub open spec fn wf(&self) -> bool {
        self.range.end <= self.data@.len()
    }

    /// The number of bytes left to iterate.
    pub open spec fn spec_remaining(&self) -> nat {
        if self.range.start < self.range.end {
            (self.range.end - self.range.start) as nat
        } else {
            0
        }
    }

    /// Creates the iterator over the entries in `range` of the node bytes `data`,
    /// the first of them at `position`.
    pub fn new(data: Vec<u8>, range: Range<usize>, position: NtfsPosition) -> (r: Self)
        requires
            range.end <= data@.len(),
        ensures
            r.wf(),
            r.data@ == data@,
            r.range == range,
            r.position == position,
    {
        Self { data, range, position, entry_type: PhantomData }
    }

    /// Returns the bytes of the index node.
    pub fn data(&self) -> (r: &[u8])
        ensures
            r@ == self.data@,
    {
        self.data.as_slice()
    }

    /// Returns the range of the next Index Entry, `None` once the iteration has ended, or the error of
    /// an entry that cannot be parsed (which leaves the iterator as it was).
    pub fn next(&mut self) -> (r: Option<Result<IndexEntryRange<E>>>)
        requires
            old(self).wf(),
        ensures
            final(self).wf(),
            final(self).data@ == old(self).data@,
            final(self).range.end == old(self).range.end,
            old(self).range.start >= old(self).range.end ==> r is None && *final(self) == *old(self),
            old(self).range.start < old(self).range.end ==> match spec_index_entry(
                old(self).data@.subrange(old(self).range.start as int, old(self).data@.len() as int),
                old(self).position,
            ) {
                Err(e) => r == Some(Err::<IndexEntryRange<E>, NtfsError>(e)) && *final(self)
                    == *old(self),
                Ok(b) => r matches Some(Ok(er)) && {
                    &&& er.range.start == old(self).range.start
                    &&& er.range.end == old(self).range.start + b.len()
                    &&& er.position == old(self).position
                    &&& if spec_entry_is_last(b) {
                        &&& final(self).range.start == old(self).data@.len()
                        &&& final(self).position == old(self).position
                    } else {
                        &&& final(self).range.start == old(self).range.start + b.len()
                        &&& final(self).position == old(self).position.spec_add(b.len() as u64)
                    }
                },
            },
            r matches Some(Ok(er)) ==> er.range.start <= er.range.end <= final(self).data@.len()
                && final(self).spec_remaining() < old(self).spec_remaining(),
    {
        if self.range.start >= self.range.end {
            return None;
        }
        let start = self.range.start;
        let position = self.position;
        let data_len = self.data.len();
        let slice = crate::attribute::slice_subrange(self.data.as_slice(), start, data_len);
        let (len, is_last) = match NtfsIndexEntry::<E>::new(slice, position) {
            Ok(entry) => (entry.index_entry_length() as usize, entry.is_last_entry()),
            Err(e) => return Some(Err(e)),
        };
        let end = start + len;
        if is_last {
            // Ensure that no further entries are read.
            self.range.start = data_len;
        } else {
            self.range.start = end;
            self.position = self.position.add_offset(len as u64);
        }
        Some(Ok(IndexEntryRange::new(Range { start, end }, position)))
    }
}

impl<E> Clone for IndexNodeEntryRanges<E> where E: NtfsIndexEntryType {
    fn clone(&self) -> (r: Self)
        ensures
            r.data@ == self.data@,
            r.range == self.range,
            r.position == self.position,
    {
        let data = self.data.clone();
        assert(data@ =~= self.data@);
        Self {
            data,
            range: Range { start: self.range.start, end: self.range.end },
            position: self.position,
            entry_type: PhantomData,
        }
    }
}

/// Iterator over
///   all index entries of a single index node,
///   sorted ascending by the index key,
///   returning an [`NtfsIndexEntry`] for each entry.
///
/// An index node can be an [`crate::structured_values::NtfsIndexRoot`] attribute or an
/// [`crate::index_record::NtfsIndexRecord`].
#[derive(Debug)]
pub struct NtfsIndexNodeEntries<'s, E> where E: NtfsIndexEntryType {
    slice: &'s [u8],
    position: NtfsPosition,
    entry_type: PhantomData<E>,
}

impl<'s, E> NtfsIndexNodeEntries<'s, E> where E: NtfsIndexEntryType {
    /// The bytes left to iterate.
    pub closed spec fn spec_slice(&self) -> Seq<u8> {
        self.slice@
    }

    /// The absolute position of the next entry.
    pub closed spec fn spec_position(&self) -> NtfsPosition {
        self.position
    }

    /// Creates the iterator over the entries in `slice`, the first of them at `position`.
    pub fn new(slice: &'s [u8], position: NtfsPosition) -> (r: Self)
        ensures
            r.spec_slice() == slice@,
            r.spec_position() == position,
    {
        Self { slice, position, entry_type: PhantomData }
    }

    /// Returns the next Index Entry, `None` once the iteration has ended, or the error of
    /// an entry that cannot be parsed (which leaves the iterator as it was).
    pub fn next(&mut self) -> (r: Option<Result<NtfsIndexEntry<'s, E>>>)
        ensures
            old(self).spec_slice().len() == 0 ==> r is None && final(self).spec_slice() == old(self).spec_slice() && final(self).spec_position() == old(self).spec_position(),
            old(self).spec_slice().len() > 0 ==> match spec_index_entry(
                old(self).spec_slice(),
                old(self).spec_position(),
            ) {
                Err(e) => r == Some(Err::<NtfsIndexEntry<'s, E>, NtfsError>(e))
                    && final(self).spec_slice() == old(self).spec_slice() && final(self).spec_position() == old(self).spec_position(),
                Ok(b) => r matches Some(Ok(e)) && {
                    &&& e.spec_bytes() == b
                    &&& e.spec_position() == old(self).spec_position()
                    &&& if spec_entry_is_last(b) {
                        final(self).spec_slice().len() == 0
                    } else {
                        &&& final(self).spec_slice() == old(self).spec_slice().subrange(
                            b.len() as int,
                            old(self).spec_slice().len() as int,
                        )
                        &&& final(self).spec_position() == old(self).spec_position().spec_add(
                            b.len() as u64,
                        )
                    }
                },
            },
    {
        if self.slice.len() == 0 {
            return None;
        }
        let entry = match NtfsIndexEntry::new(self.slice, self.position) {
            Ok(entry) => entry,
            Err(e) => return Some(Err(e)),
        };
        if entry.is_last_entry() {
            // Ensure that no further entries are read.
            self.slice = crate::attribute::slice_subrange(self.slice, 0, 0);
        } else {
            let bytes_to_advance = entry.index_entry_length() as usize;
            self.slice = crate::attribute::slice_subrange(self.slice, bytes_to_advance, self.slice.len());
            self.position = self.position.add_offset(bytes_to_advance as u64);
        }
        Some(Ok(entry))
    }
}

impl<'s, E> Clone for NtfsIndexNodeEntries<'s, E> where E: NtfsIndexEntryType {
    fn clone(&self) -> (r: Self)
        ensures
            r.spec_slice() == self.spec_slice(),
            r.spec_position() == self.spec_position(),
    {
        Self { slice: self.slice, position: self.position, entry_type: PhantomData }
    }
}

} // verus!
