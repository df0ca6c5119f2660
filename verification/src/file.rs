//! NTFS Files and their File Records.
use vstd::prelude::*;

use crate::error::{NtfsError, Result};
use crate::helpers::{read_u16_le, read_u32_le, spec_le2_value, spec_le4_value, spec_u16_le, spec_u32_le};
use crate::io::{Read, Seek, SeekFrom};
use crate::ntfs::Ntfs;
use crate::record::{spec_fixup, Record};
use crate::types::NtfsPosition;

verus! {

/// A list of standardized NTFS File Record Numbers.
///
/// Most of these files store internal NTFS housekeeping information.
///
/// Reference: <https://flatcap.github.io/linux-ntfs/ntfs/files/index.html>
#[derive(Clone, Copy, Debug, Eq, PartialEq, Structural)]
pub enum KnownNtfsFileRecordNumber {
    /// A back-reference to the Master File Table (MFT).
    ///
    /// Leads to the same File Record as [`Ntfs::mft_position`].
    MFT,
    /// A mirror copy of the Master File Table (MFT).
    MFTMirr,
    /// The journaling logfile.
    ///
    /// Reference: <https://flatcap.github.io/linux-ntfs/ntfs/files/logfile.html>
    LogFile,
    /// File containing basic filesystem information and the user-defined volume name.
    Volume,
    /// File defining all attributes supported by this NTFS filesystem.
    ///
    /// Reference: <https://flatcap.github.io/linux-ntfs/ntfs/files/attrdef.html>
    AttrDef,
    /// The root directory of the filesystem.
    RootDirectory,
    /// Map of used clusters.
    ///
    /// Reference: <https://flatcap.github.io/linux-ntfs/ntfs/files/bitmap.html>
    Bitmap,
    /// A back-reference to the boot sector of the filesystem.
    Boot,
    /// A file consisting of Data Runs to bad cluster ranges.
    ///
    /// Reference: <https://flatcap.github.io/linux-ntfs/ntfs/files/badclus.html>
    BadClus,
    /// A list of all Security Descriptors used by this filesystem.
    ///
    /// Reference: <https://flatcap.github.io/linux-ntfs/ntfs/files/secure.html>
    Secure,
    /// The $UpCase file that contains a table of all uppercase characters for the
    /// 65536 characters of the Unicode Basic Multilingual Plane.
    ///
    /// NTFS uses this table to perform case-insensitive comparisons.
    UpCase,
    /// A directory of further files containing housekeeping information.
    ///
    /// Reference: <https://flatcap.github.io/linux-ntfs/ntfs/files/extend.html>
    Extend,
}

/// Byte offset of the sequence number in a File Record.
pub const FILE_SEQUENCE_NUMBER_OFFSET: usize = 16;
/// Byte offset of the hard link count in a File Record.
pub const FILE_HARD_LINK_COUNT_OFFSET: usize = 18;
/// Byte offset of the offset of the first attribute in a File Record.
pub const FILE_FIRST_ATTRIBUTE_OFFSET_OFFSET: usize = 20;
/// Byte offset of the flags in a File Record.
pub const FILE_FLAGS_OFFSET: usize = 22;
/// Byte offset of the used size in a File Record.
pub const FILE_DATA_SIZE_OFFSET: usize = 24;
/// Byte offset of the allocated size in a File Record.
pub const FILE_ALLOCATED_SIZE_OFFSET: usize = 28;

/// The signature of a File Record.
pub const FILE_SIGNATURE: [u8; 4] = [0x46, 0x49, 0x4c, 0x45];

/// Flags returned by [`NtfsFile::flags`].
#[derive(Clone, Copy, Debug, Eq, Hash, PartialEq, Structural)]
pub struct NtfsFileFlags(u16);

impl NtfsFileFlags {
    /// The flag telling that the record is in use.
    pub fn in_use() -> (r: Self)
        ensures
            r.spec_bits() == 0x0001,
    {
        NtfsFileFlags(0x0001)
    }

    /// The flag telling that the record is a directory.
    pub fn is_directory() -> (r: Self)
        ensures
            r.spec_bits() == 0x0002,
    {
        NtfsFileFlags(0x0002)
    }

    /// The raw bits of the flags.
    pub closed spec fn spec_bits(&self) -> u16 {
        self.0
    }

    /// Keeps the known flags of `bits` and drops all others.
    pub fn from_bits_truncate(bits: u16) -> (r: Self)
        ensures
            r.spec_bits() == bits & 0x0003,
    {
        NtfsFileFlags(bits & 0x0003)
    }

    /// Returns the raw bits of the flags.
    pub fn bits(&self) -> (r: u16)
        ensures
            r == self.spec_bits(),
    {
        self.0
    }

    /// Returns `true` if all flags of `other` are set in `self`.
    pub fn contains(&self, other: NtfsFileFlags) -> (r: bool)
        ensures
            r == (self.spec_bits() & other.spec_bits() == other.spec_bits()),
    {
        (self.0 & other.0) == other.0
    }
}

/// The checks of a File Record read from the filesystem: its signature, its Update Sequence fixup,
/// and that its used size fits into its allocated size, which fits into the record.
/// Gives the fixed-up record bytes or the error of the first failed check.
pub open spec fn spec_file_record(data: Seq<u8>, position: NtfsPosition) -> Result<Seq<u8>> {
    if !(data[0] == 0x46 && data[1] == 0x49 && data[2] == 0x4c && data[3] == 0x45) {
        Err(
            NtfsError::InvalidFileSignature {
                position,
                expected: FILE_SIGNATURE,
                actual: [data[0], data[1], data[2], data[3]],
            },
        )
    } else {
        match spec_fixup(data, position) {
            Err(e) => Err(e),
            Ok(d) => {
                let allocated_size = spec_u32_le(d, FILE_ALLOCATED_SIZE_OFFSET as int);
                let data_size = spec_u32_le(d, FILE_DATA_SIZE_OFFSET as int);
                if allocated_size > d.len() {
                    Err(
                        NtfsError::InvalidFileAllocatedSize {
                            position,
                            expected: allocated_size,
                            actual: d.len() as u32,
                        },
                    )
                } else if data_size > allocated_size {
                    Err(
                        NtfsError::InvalidFileUsedSize {
                            position,
                            expected: data_size,
                            actual: allocated_size,
                        },
                    )
                } else {
                    Ok(d)
                }
            },
        }
    }
}

/// A single NTFS File Record.
///
/// These records are denoted via a `FILE` signature on the filesystem.
///
/// Every NTFS file is uniquely identified by a File Record Number.
/// [`KnownNtfsFileRecordNumber`] lists the File Record Numbers of the housekeeping files.
///
/// Reference: <https://flatcap.github.io/linux-ntfs/ntfs/concepts/file_record.html>
#[derive(Debug)]
pub struct NtfsFile<'n> {
    ntfs: &'n Ntfs,
    record: Record,
    file_record_number: u64,
}

/// The header fields of a File Record follow the on-disk layout, each little-endian: the sequence
/// number in bytes 16..18, the hard link count in 18..20, the offset of the first attribute in
/// 20..22, the flags in 22..24 (bit 1 marks a directory), the used size in 24..28 and the
/// allocated size in 28..32.
pub proof fn lemma_file_record_layout(f: NtfsFile)
    ensures
        ({
            let d = f.spec_data();
            &&& spec_u16_le(d, FILE_SEQUENCE_NUMBER_OFFSET as int) == spec_le2_value(d, 16)
            &&& spec_u16_le(d, FILE_HARD_LINK_COUNT_OFFSET as int) == spec_le2_value(d, 18)
            &&& f.spec_first_attribute_offset() == spec_le2_value(d, 20)
            &&& spec_u16_le(d, FILE_FLAGS_OFFSET as int) == spec_le2_value(d, 22)
            &&& f.spec_data_size() == spec_le4_value(d, 24)
            &&& f.spec_allocated_size() == spec_le4_value(d, 28)
            &&& f.spec_is_directory() <==> (d[22] / 2) % 2 == 1
        }),
{
    let d = f.spec_data();
    let x: u16 = spec_u16_le(d, FILE_FLAGS_OFFSET as int);
    assert((x & 0x0002 == 0x0002) == ((x / 2) % 2 == 1)) by (bit_vector);
    assert(x == d[22] as int + 256 * d[23] as int);
}

impl<'n> NtfsFile<'n> {
    /// A File Record that passed the checks of [`spec_file_record`]: at least 512 bytes,
    /// used size within allocated size within the record.
    pub closed spec fn wf(&self) -> bool {
        &&& self.record.wf()
        &&& 512 <= self.record.spec_data().len() <= 0x1000_0000
        &&& spec_u32_le(self.record.spec_data(), FILE_DATA_SIZE_OFFSET as int) <= spec_u32_le(
            self.record.spec_data(),
            FILE_ALLOCATED_SIZE_OFFSET as int,
        ) <= self.record.spec_data().len()
    }

    /// The filesystem the file belongs to.
    pub closed spec fn spec_ntfs(&self) -> Ntfs {
        *self.ntfs
    }

    /// The fixed-up bytes of the File Record.
    pub closed spec fn spec_data(&self) -> Seq<u8> {
        self.record.spec_data()
    }

    /// The absolute position of the File Record within the filesystem.
    pub closed spec fn spec_position(&self) -> NtfsPosition {
        self.record.spec_position()
    }

    /// The File Record Number of the file.
    pub closed spec fn spec_file_record_number(&self) -> u64 {
        self.file_record_number
    }

    /// The used size of the File Record, in bytes.
    pub open spec fn spec_data_size(&self) -> u32 {
        spec_u32_le(self.spec_data(), FILE_DATA_SIZE_OFFSET as int)
    }

    /// The allocated size of the File Record, in bytes.
    pub open spec fn spec_allocated_size(&self) -> u32 {
        spec_u32_le(self.spec_data(), FILE_ALLOCATED_SIZE_OFFSET as int)
    }

    /// The offset of the first attribute within the File Record.
    pub open spec fn spec_first_attribute_offset(&self) -> u16 {
        spec_u16_le(self.spec_data(), FILE_FIRST_ATTRIBUTE_OFFSET_OFFSET as int)
    }

    /// Whether this File Record is the one stored at its position in the filesystem bytes `source`,
    /// with its Update Sequence fixed up (see [`spec_file_record`]).
    pub open spec fn spec_stored_in(&self, source: Seq<u8>) -> bool {
        let size = self.spec_ntfs().spec_file_record_size() as int;
        &&& self.spec_position()@ matches Some(p) && p + size <= source.len()
            && spec_file_record(source.subrange(p as int, p + size), self.spec_position())
            == Ok::<Seq<u8>, NtfsError>(self.spec_data())
    }

    /// The offset of the first attribute, as an offset into the File Record.
    pub open spec fn spec_first_attribute_start(&self) -> usize {
        self.spec_first_attribute_offset() as usize
    }

    /// What a well-formed file tells about its bytes.
    pub proof fn lemma_wf(&self)
        requires
            self.wf(),
        ensures
            self.spec_data().len() >= 512,
            self.spec_data().len() <= 0x1000_0000,
            self.spec_data_size() <= self.spec_allocated_size() <= self.spec_data().len(),
    {
        self.record.lemma_wf();
    }

    /// Reads the File Record of `ntfs.file_record_size()` bytes at `position` from the filesystem
    /// and checks it (see [`spec_file_record`]).
    pub fn new<T>(ntfs: &'n Ntfs, fs: &mut T, position: u64, file_record_number: u64) -> (r: Result<
        Self,
    >) where T: Read + Seek
        requires
            position != 0,
        ensures
            final(fs).source() == old(fs).source(),
            ({
                let size = ntfs.spec_file_record_size() as int;
                let src = old(fs).source();
                &&& r matches Ok(f) ==> {
                    &&& f.wf()
                    &&& f.spec_ntfs() == *ntfs
                    &&& f.spec_position() == NtfsPosition::spec_at(position)
                    &&& f.spec_file_record_number() == file_record_number
                    &&& position + size <= src.len()
                    &&& spec_file_record(
                        src.subrange(position as int, position + size),
                        NtfsPosition::spec_at(position),
                    ) == Ok::<Seq<u8>, NtfsError>(f.spec_data())
                }
                &&& !(r matches Err(NtfsError::Io(_))) ==> {
                    &&& position + size <= src.len()
                    &&& r matches Err(e) ==> spec_file_record(
                        src.subrange(position as int, position + size),
                        NtfsPosition::spec_at(position),
                    ) == Err::<Seq<u8>, NtfsError>(e)
                }
            }),
    {
        let size = ntfs.file_record_size() as usize;
        let mut data: Vec<u8> = vec![0u8; size];
        if let Err(e) = fs.seek(SeekFrom::Start(position)) {
            return Err(NtfsError::Io(e));
        }
        if let Err(e) = fs.read_exact(data.as_mut_slice()) {
            return Err(NtfsError::Io(e));
        }
        let ghost raw = data@;
        assert(raw =~= old(fs).source().subrange(position as int, position + size));
        let mut record = Record::new(data, NtfsPosition::new(position));
        if let Err(e) = Self::validate_signature(&record) {
            return Err(e);
        }
        if let Err(e) = record.fixup() {
            return Err(e);
        }
        let file = Self { ntfs, record, file_record_number };
        if let Err(e) = file.validate_sizes() {
            return Err(e);
        }
        Ok(file)
    }

    /// Checks the `FILE` signature of a File Record.
    fn validate_signature(record: &Record) -> (r: Result<()>)
        requires
            record.wf(),
        ensures
            ({
                let d = record.spec_data();
                if d[0] == 0x46 && d[1] == 0x49 && d[2] == 0x4c && d[3] == 0x45 {
                    r is Ok
                } else {
                    r == Err::<(), NtfsError>(
                        NtfsError::InvalidFileSignature {
                            position: record.spec_position(),
                            expected: FILE_SIGNATURE,
                            actual: [d[0], d[1], d[2], d[3]],
                        },
                    )
                }
            }),
    {
        proof {
            record.lemma_wf();
        }
        let signature = record.signature();
        let expected = FILE_SIGNATURE;
        if signature[0] == expected[0] && signature[1] == expected[1] && signature[2] == expected[2]
            && signature[3] == expected[3] {
            Ok(())
        } else {
            Err(
                NtfsError::InvalidFileSignature {
                    position: record.position(),
                    expected,
                    actual: signature,
                },
            )
        }
    }

    /// Checks that the used size fits into the allocated size, which fits into the record.
    fn validate_sizes(&self) -> (r: Result<()>)
        requires
            self.record.wf(),
            512 <= self.record.spec_data().len() <= 0x1000_0000,
        ensures
            r is Ok <==> self.wf(),
            r matches Err(e) ==> e == (if self.spec_allocated_size() > self.spec_data().len() {
                NtfsError::InvalidFileAllocatedSize {
                    position: self.spec_position(),
                    expected: self.spec_allocated_size(),
                    actual: self.spec_data().len() as u32,
                }
            } else {
                NtfsError::InvalidFileUsedSize {
                    position: self.spec_position(),
                    expected: self.spec_data_size(),
                    actual: self.spec_allocated_size(),
                }
            }),
    {
        let data = self.record.data();
        let allocated_size = read_u32_le(data, FILE_ALLOCATED_SIZE_OFFSET);
        let data_size = read_u32_le(data, FILE_DATA_SIZE_OFFSET);
        if allocated_size > self.record.len() {
            return Err(
                NtfsError::InvalidFileAllocatedSize {
                    position: self.record.position(),
                    expected: allocated_size,
                    actual: self.record.len(),
                },
            );
        }
        if data_size > allocated_size {
            return Err(
                NtfsError::InvalidFileUsedSize {
                    position: self.record.position(),
                    expected: data_size,
                    actual: allocated_size,
                },
            );
        }
        Ok(())
    }

    /// Returns the allocated size of this NTFS File Record, in bytes.
    pub fn allocated_size(&self) -> (r: u32)
        requires
            self.wf(),
        ensures
            r == self.spec_allocated_size(),
    {
        read_u32_le(self.record.data(), FILE_ALLOCATED_SIZE_OFFSET)
    }

    /// Returns the size actually used by data of this NTFS File Record, in bytes.
    ///
    /// This is less or equal than [`NtfsFile::allocated_size`].
    pub fn data_size(&self) -> (r: u32)
        requires
            self.wf(),
        ensures
            r == self.spec_data_size(),
            r <= self.spec_allocated_size(),
    {
        read_u32_le(self.record.data(), FILE_DATA_SIZE_OFFSET)
    }

    /// Returns the size actually used by data of this NTFS File Record, in bytes
    /// (the same as [`NtfsFile::data_size`]).
    pub fn used_size(&self) -> (r: u32)
        requires
            self.wf(),
        ensures
            r == self.spec_data_size(),
            r <= self.spec_allocated_size(),
    {
        self.data_size()
    }

    /// Returns the NTFS File Record Number of this file.
    ///
    /// This number uniquely identifies this file and can be used to recreate this [`NtfsFile`]
    /// object via [`Ntfs::file`].
    pub fn file_record_number(&self) -> (r: u64)
        ensures
            r == self.spec_file_record_number(),
    {
        self.file_record_number
    }

    /// Returns the offset of the first attribute within the File Record, in bytes.
    pub fn first_attribute_offset(&self) -> (r: u16)
        requires
            self.wf(),
        ensures
            r == self.spec_first_attribute_offset(),
    {
        read_u16_le(self.record.data(), FILE_FIRST_ATTRIBUTE_OFFSET_OFFSET)
    }

    /// Returns flags set for this file as specified by [`NtfsFileFlags`].
    pub fn flags(&self) -> (r: NtfsFileFlags)
        requires
            self.wf(),
        ensures
            r.spec_bits() == spec_u16_le(self.spec_data(), FILE_FLAGS_OFFSET as int) & 0x0003,
    {
        NtfsFileFlags::from_bits_truncate(read_u16_le(self.record.data(), FILE_FLAGS_OFFSET))
    }

    /// Returns the number of hard links to this NTFS File Record.
    pub fn hard_link_count(&self) -> (r: u16)
        requires
            self.wf(),
        ensures
            r == spec_u16_le(self.spec_data(), FILE_HARD_LINK_COUNT_OFFSET as int),
    {
        read_u16_le(self.record.data(), FILE_HARD_LINK_COUNT_OFFSET)
    }

    /// Whether the File Record is flagged as a directory.
    pub open spec fn spec_is_directory(&self) -> bool {
        spec_u16_le(self.spec_data(), FILE_FLAGS_OFFSET as int) & 0x0002 == 0x0002
    }

    /// Returns whether this NTFS File Record represents a directory.
    pub fn is_directory(&self) -> (r: bool)
        requires
            self.wf(),
        ensures
            r == self.spec_is_directory(),
    {
        let flags = self.flags();
        let r = flags.contains(NtfsFileFlags::is_directory());
        proof {
            let b = spec_u16_le(self.spec_data(), FILE_FLAGS_OFFSET as int);
            assert((b & 0x0003) & 0x0002 == b & 0x0002) by (bit_vector);
        }
        r
    }

    /// Returns the [`Ntfs`] object reference associated to this file.
    pub fn ntfs(&self) -> (r: &'n Ntfs)
        ensures
            *r == self.spec_ntfs(),
    {
        self.ntfs
    }

    /// Returns the absolute byte position of this File Record in the NTFS filesystem.
    pub fn position(&self) -> (r: NtfsPosition)
        ensures
            r == self.spec_position(),
    {
        self.record.position()
    }

    /// Returns the fixed-up bytes of the File Record.
    pub fn record_data(&self) -> (r: &[u8])
        ensures
            r@ == self.spec_data(),
    {
        self.record.data()
    }

    /// Returns the sequence number of this file.
    ///
    /// NTFS reuses records of deleted files when new files are created.
    /// This number is incremented every time a file is deleted.
    /// Hence, it gives a count how many time this File Record has been reused.
    pub fn sequence_number(&self) -> (r: u16)
        requires
            self.wf(),
        ensures
            r == spec_u16_le(self.spec_data(), FILE_SEQUENCE_NUMBER_OFFSET as int),
    {
        read_u16_le(self.record.data(), FILE_SEQUENCE_NUMBER_OFFSET)
    }
}

impl<'n> Clone for NtfsFile<'n> {
    fn clone(&self) -> (r: Self)
        ensures
            r.spec_ntfs() == self.spec_ntfs(),
            r.spec_data() == self.spec_data(),
            r.spec_position() == self.spec_position(),
            r.spec_file_record_number() == self.spec_file_record_number(),
            self.wf() ==> r.wf(),
    {
        NtfsFile { ntfs: self.ntfs, record: self.record.clone(), file_record_number: self.file_record_number }
    }
}

} // verus!
