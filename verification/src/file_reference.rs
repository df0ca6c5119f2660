//! References to File Records.
use vstd::prelude::*;

use crate::error::{NtfsError, Result};
use crate::file::NtfsFile;
use crate::helpers::{read_u64_le, spec_u64_le};
use crate::io::{Read, Seek};
use crate::ntfs::Ntfs;

verus! {

/// Absolute reference to a File Record on the filesystem, composed out of a File Record Number and a Sequence Number.
///
/// Reference: <https://flatcap.github.io/linux-ntfs/ntfs/concepts/file_reference.html>
#[derive(Clone, Copy, Debug)]
pub struct NtfsFileReference(pub [u8; 8]);

impl NtfsFileReference {
    /// The 64-bit little-endian integer that the reference bytes hold.
    pub open spec fn spec_value(&self) -> u64 {
        spec_u64_le(self.0@, 0)
    }

    /// The 48-bit File Record Number held in the lower bits of the reference.
    pub open spec fn spec_file_record_number(&self) -> u64 {
        (self.spec_value() % 0x1_0000_0000_0000) as u64
    }

    /// The 16-bit Sequence Number held in the upper bits of the reference.
    pub open spec fn spec_sequence_number(&self) -> u16 {
        (self.spec_value() / 0x1_0000_0000_0000) as u16
    }

    /// Creates a reference from its 8 on-disk bytes.
    pub fn new(file_reference_bytes: [u8; 8]) -> (r: Self)
        ensures
            r == NtfsFileReference(file_reference_bytes),
    {
        Self(file_reference_bytes)
    }

    /// Returns the 48-bit File Record Number.
    ///
    /// This can be fed into [`crate::ntfs::Ntfs::file`] to create an [`crate::file::NtfsFile`]
    /// object for the corresponding File Record.
    pub fn file_record_number(&self) -> (r: u64)
        ensures
            r == self.spec_file_record_number(),
            r < 0x1_0000_0000_0000,
    {
        let v = read_u64_le(&self.0, 0);
        assert(v & 0xffff_ffff_ffff == v % 0x1_0000_0000_0000) by (bit_vector);
        v & 0xffff_ffff_ffff
    }

    /// Returns the 16-bit sequence number of the File Record.
    ///
    /// In a consistent file system, this number matches what [`crate::file::NtfsFile::sequence_number`] returns.
    pub fn sequence_number(&self) -> (r: u16)
        ensures
            r == self.spec_sequence_number(),
    {
        let v = read_u64_le(&self.0, 0);
        assert(v >> 48u64 == v / 0x1_0000_0000_0000) by (bit_vector);
        assert(v / 0x1_0000_0000_0000 < 0x1_0000);
        (v >> 48u64) as u16
    }

    /// Returns an [`NtfsFile`] for the file referenced by this object.
    pub fn to_file<'n, T>(&self, ntfs: &'n Ntfs, fs: &mut T) -> (r: Result<NtfsFile<'n>>) where
        T: Read + Seek,
        ensures
            final(fs).source() == old(fs).source(),
            ntfs.spec_unsupported_geometry() matches Some(e) ==> r == Err::<NtfsFile<'n>, NtfsError>(
                e,
            ),
            ntfs.spec_unsupported_geometry() is None && self.spec_file_record_number()
                * ntfs.spec_file_record_size() > u64::MAX ==> r == Err::<NtfsFile<'n>, NtfsError>(
                NtfsError::InvalidFileRecordNumber {
                    file_record_number: self.spec_file_record_number(),
                },
            ),
            r matches Ok(f) ==> {
                &&& f.wf()
                &&& f.spec_ntfs() == *ntfs
                &&& f.spec_file_record_number() == self.spec_file_record_number()
            },
    {
        ntfs.file(fs, self.file_record_number())
    }
}

/// The File Record Number and the Sequence Number together make up the whole reference:
/// `value == sequence_number * 2^48 + file_record_number`.
pub proof fn lemma_file_reference_parts(r: NtfsFileReference)
    ensures
        r.spec_value() == r.spec_sequence_number() as int * 0x1_0000_0000_0000
            + r.spec_file_record_number() as int,
{
    let v = r.spec_value();
    assert(v / 0x1_0000_0000_0000 < 0x1_0000);
}

} // verus!
