//! The $INDEX_ALLOCATION structured value and the iteration over its Index Records.
use vstd::prelude::*;

use crate::attribute::NtfsAttributeType;
use crate::attribute_value::{
    lemma_read_after_forward_seek, spec_read_bytes, spec_read_bytes_after, NtfsAttributeValue,
};
use crate::error::{NtfsError, Result};
use crate::index_record::{spec_index_record, NtfsIndexRecord};
use crate::io::{Read, Seek, SeekFrom};
use crate::ntfs::Ntfs;
use crate::structured_values::index_root::NtfsIndexRoot;
use crate::structured_values::NtfsStructuredValue;
use crate::traits::NtfsReadSeek;
use crate::types::{NtfsPosition, Vcn};

verus! {

/// Structure of an $INDEX_ALLOCATION attribute.
///
/// This attribute describes the sub-nodes of a B-tree.
/// The top-level nodes are managed via [`NtfsIndexRoot`].
///
/// NTFS uses B-trees for describing directories (as indexes of file names), looking up Object IDs,
/// Reparse Points, and Security Descriptors, to just name a few.
///
/// An $INDEX_ALLOCATION attribute is always non-resident (it may be split over an Attribute List).
///
/// Reference: <https://flatcap.github.io/linux-ntfs/ntfs/attributes/index_allocation.html>
#[derive(Debug)]
pub struct NtfsIndexAllocation<'n, 'f> {
    ntfs: &'n Ntfs,
    value: NtfsAttributeValue<'n, 'f>,
}

impl<'n, 'f> NtfsIndexAllocation<'n, 'f> {
    /// The filesystem that this attribute belongs to.
    pub closed spec fn spec_ntfs(&self) -> Ntfs {
        *self.ntfs
    }

    /// The value of this attribute, which holds all Index Records.
    pub closed spec fn spec_value(&self) -> NtfsAttributeValue<'n, 'f> {
        self.value
    }

    /// Returns the [`NtfsIndexRecord`] of `index_record_size` bytes located at the given
    /// Virtual Cluster Number (VCN).
    ///
    /// The record is fully read, fixed up, and validated.
    ///
    /// This function is usually called on the return value of
    /// [`crate::index_entry::NtfsIndexEntry::subnode_vcn`] to move further down in the B-tree.
    pub fn record_from_vcn<T>(&self, fs: &mut T, index_record_size: u32, vcn: Vcn) -> (r: Result<
        NtfsIndexRecord<'n>,
    >) where T: Read + Seek
        ensures
            final(fs).source() == old(fs).source(),
            r matches Ok(rec) ==> rec.spec_vcn() == vcn && rec.spec_data().len() == index_record_size,
            r matches Ok(rec) ==> exists|raw: Seq<u8>|
                #![trigger spec_index_record(raw, rec.spec_position())]
                {
                    &&& raw.len() == index_record_size
                    &&& spec_index_record(raw, rec.spec_position()) == Ok::<Seq<u8>, NtfsError>(
                        rec.spec_data(),
                    )
                    &&& spec_read_bytes_after(
                        self.spec_value(),
                        old(fs).source(),
                        raw,
                        vcn.0 * self.spec_ntfs().spec_cluster_size(),
                        index_record_size as int,
                    )
                },
    {
        // Seek to the byte offset of the given VCN.
        let mut value = self.value.clone();
        let offset = match vcn.offset(self.ntfs) {
            Ok(offset) => offset,
            Err(e) => return Err(e),
        };
        let ghost source = fs.source();
        match value.seek(fs, SeekFrom::Current(offset)) {
            Ok(_) => {},
            Err(e) => return Err(e),
        }
        let ghost sought = value;
        if value.stream_position() >= value.len() {
            return Err(
                NtfsError::VcnOutOfBoundsInIndexAllocation { position: self.value.data_position(), vcn },
            );
        }
        // Get the record.
        let record = match NtfsIndexRecord::new(fs, value, index_record_size) {
            Ok(record) => record,
            Err(e) => return Err(e),
        };
        proof {
            let raw = choose|raw: Seq<u8>|
                raw.len() == index_record_size && spec_index_record(raw, record.spec_position())
                    == Ok::<Seq<u8>, NtfsError>(record.spec_data()) && spec_read_bytes(
                    sought,
                    source,
                    raw,
                    index_record_size as int,
                );
            lemma_read_after_forward_seek(self.value, sought, source, raw, offset, index_record_size as int);
        }
        // Validate that the VCN in the record is the requested one.
        let actual = record.vcn();
        if actual.0 != vcn.0 {
            return Err(
                NtfsError::VcnMismatchInIndexAllocation {
                    position: self.value.data_position(),
                    expected: vcn,
                    actual,
                },
            );
        }
        Ok(record)
    }

    /// Returns how many Index Records of `index_record_size` bytes the value of this attribute holds.
    pub(crate) fn record_count(&self, index_record_size: u32) -> (r: u64)
        ensures
            index_record_size > 0 ==> r == self.spec_value().spec_len() / index_record_size as nat,
    {
        if index_record_size == 0 {
            0
        } else {
            self.value.len() / index_record_size as u64
        }
    }

    /// Returns the absolute position of the value of this attribute at its current seek position.
    pub(crate) fn data_position(&self) -> (r: NtfsPosition)
        ensures
            r == self.spec_value().spec_data_position(),
    {
        self.value.data_position()
    }

    /// Returns an iterator over all Index Records of this $INDEX_ALLOCATION attribute (cf. [`NtfsIndexRecord`]).
    ///
    /// Each Index Record is fully read, fixed up, and validated.
    pub fn records(&self, index_root: &NtfsIndexRoot) -> (r: NtfsIndexRecords<'n, 'f>)
        ensures
            r.spec_index_record_size() == index_root.spec_index_record_size(),
    {
        let index_record_size = index_root.index_record_size();
        NtfsIndexRecords { index_allocation: self.clone(), index_record_size }
    }
}

impl<'n, 'f> Clone for NtfsIndexAllocation<'n, 'f> {
    fn clone(&self) -> (r: Self)
        ensures
            r.spec_ntfs() == self.spec_ntfs(),
            (r.spec_value() is Resident) <==> (self.spec_value() is Resident),
            r.spec_value().spec_len() == self.spec_value().spec_len(),
    {
        Self { ntfs: self.ntfs, value: self.value.clone() }
    }
}

impl<'n, 'f> NtfsStructuredValue<'n, 'f> for NtfsIndexAllocation<'n, 'f> {
    open spec fn spec_structured_ty() -> NtfsAttributeType {
        NtfsAttributeType::IndexAllocation
    }

    fn structured_ty() -> (r: NtfsAttributeType) {
        NtfsAttributeType::IndexAllocation
    }

    /// Takes over a non-resident value; an $INDEX_ALLOCATION attribute is never resident.
    /// A non-resident value (also one that is part of an Attribute List) becomes the attribute's
    /// value; a resident value is refused.
    open spec fn spec_from_value(value: NtfsAttributeValue<'n, 'f>, source: Seq<u8>, r: Result<Self>) -> bool {
        match value {
            NtfsAttributeValue::Resident(_) => r == Err::<Self, NtfsError>(
                NtfsError::UnexpectedResidentAttribute { position: value.spec_data_position() },
            ),
            NtfsAttributeValue::NonResident(v) => r matches Ok(a) && a.spec_value() == value
                && a.spec_ntfs() == v.spec_ntfs(),
            NtfsAttributeValue::AttributeListNonResident(v) => r matches Ok(a) && a.spec_value()
                == value && a.spec_ntfs() == v.spec_ntfs(),
        }
    }

    fn from_attribute_value<T>(fs: &mut T, value: NtfsAttributeValue<'n, 'f>) -> (r: Result<Self>) where
        T: Read + Seek,
    {
        let ntfs = match &value {
            NtfsAttributeValue::AttributeListNonResident(inner) => inner.ntfs(),
            NtfsAttributeValue::NonResident(inner) => inner.ntfs(),
            NtfsAttributeValue::Resident(_) => {
                return Err(NtfsError::UnexpectedResidentAttribute { position: value.data_position() });
            },
        };
        Ok(Self { ntfs, value })
    }
}

/// Iterator over
///   all index records of an [`NtfsIndexAllocation`],
///   returning an [`NtfsIndexRecord`] for each record.
///
/// This iterator is returned from the [`NtfsIndexAllocation::records`] function.
#[derive(Debug)]
pub struct NtfsIndexRecords<'n, 'f> {
    index_allocation: NtfsIndexAllocation<'n, 'f>,
    index_record_size: u32,
}

impl<'n, 'f> NtfsIndexRecords<'n, 'f> {
    /// The size of each Index Record, in bytes.
    pub closed spec fn spec_index_record_size(&self) -> u32 {
        self.index_record_size
    }

    /// The position of the next Index Record within the value of the attribute.
    pub closed spec fn spec_stream_position(&self) -> u64 {
        self.index_allocation.value.spec_stream_position()
    }

    /// The length of the value of the attribute.
    pub closed spec fn spec_len(&self) -> nat {
        self.index_allocation.value.spec_len()
    }

    /// The value of the attribute, positioned at the next Index Record.
    pub closed spec fn spec_value(&self) -> NtfsAttributeValue<'n, 'f> {
        self.index_allocation.value
    }

    /// Returns the next Index Record, or `None` once the value of the attribute has been read to its end.
    pub fn next<T>(&mut self, fs: &mut T) -> (r: Option<Result<NtfsIndexRecord<'n>>>) where T: Read + Seek
        ensures
            final(fs).source() == old(fs).source(),
            final(self).spec_index_record_size() == old(self).spec_index_record_size(),
            final(self).spec_len() == old(self).spec_len(),
            r is None <==> old(self).spec_stream_position() >= old(self).spec_len(),
            r matches Some(Ok(rec)) ==> {
                &&& rec.spec_data().len() == old(self).spec_index_record_size()
                &&& final(self).spec_stream_position() == old(self).spec_stream_position()
                    + old(self).spec_index_record_size()
                &&& exists|raw: Seq<u8>|
                    #![trigger spec_index_record(raw, rec.spec_position())]
                    {
                        &&& raw.len() == old(self).spec_index_record_size()
                        &&& spec_index_record(raw, rec.spec_position()) == Ok::<Seq<u8>, NtfsError>(
                            rec.spec_data(),
                        )
                        &&& spec_read_bytes(
                            old(self).spec_value(),
                            old(fs).source(),
                            raw,
                            old(self).spec_index_record_size() as int,
                        )
                    }
            },
    {
        if self.index_allocation.value.stream_position() >= self.index_allocation.value.len() {
            return None;
        }
        // Get the current record.
        let value = self.index_allocation.value.clone();
        let record = match NtfsIndexRecord::new(fs, value, self.index_record_size) {
            Ok(record) => record,
            Err(e) => return Some(Err(e)),
        };
        // Advance our iterator to the next record.
        match self.index_allocation.value.seek(fs, SeekFrom::Current(self.index_record_size as i64)) {
            Ok(_) => {},
            Err(e) => return Some(Err(e)),
        }
        Some(Ok(record))
    }
}

impl<'n, 'f> Clone for NtfsIndexRecords<'n, 'f> {
    fn clone(&self) -> (r: Self)
        ensures
            r.spec_index_record_size() == self.spec_index_record_size(),
    {
        Self { index_allocation: self.index_allocation.clone(), index_record_size: self.index_record_size }
    }
}

} // verus!
