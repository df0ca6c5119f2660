//! The $FILE_NAME structured value.
use vstd::prelude::*;

use arrayvec::ArrayVec;

use crate::attribute::{
    spec_attribute_type_from_code, spec_raw_visits, spec_resident_value_bytes,
    spec_resident_value_readable, spec_type_code_at, NtfsAttributeType,
};
use crate::attribute_value::{NtfsAttributeValue, NtfsResidentAttributeValue};
use crate::error::{NtfsError, Result};
use crate::file::NtfsFile;
use crate::file_reference::NtfsFileReference;
use crate::helpers::{read_u32_le, read_u64_le, spec_le8_value, spec_u32_le, spec_u64_le};
use crate::indexes::NtfsIndexEntryKey;
use crate::io::{Error, ErrorKind, Read, Seek};
use crate::names::{name_buffer_as_slice, name_buffer_bytes, name_buffer_from_slice, NAME_MAX_SIZE};
use crate::structured_values::attribute_list::spec_eof_error;
use crate::structured_values::NtfsStructuredValue;
use crate::time::NtfsTime;
use crate::traits::NtfsReadSeek;
use crate::types::NtfsPosition;
use crate::utf16::NtfsString;

verus! {

/// Size of all fields of the $FILE_NAME header (up to the name).
pub const FILE_NAME_HEADER_SIZE: usize = 66;

/// The smallest size of a $FILE_NAME structure: its header and one UTF-16 code unit.
pub const FILE_NAME_MIN_SIZE: usize = 68;

/// Flags that a user can set for a file (Read-Only, Hidden, System, Archive, etc.).
/// Commonly called "File Attributes" in Windows Explorer.
///
/// Not to be confused with [`crate::attribute::NtfsAttribute`].
#[derive(Clone, Copy, Debug, Eq, PartialEq, Structural)]
pub struct NtfsFileAttributeFlags(u32);

impl NtfsFileAttributeFlags {
    /// The raw bits of the flags.
    pub closed spec fn spec_bits(&self) -> u32 {
        self.0
    }

    /// Keeps the known flags of `bits` (read-only 0x0001 up to encrypted 0x4000, and
    /// directory 0x1000_0000) and drops all others.
    pub fn from_bits_truncate(bits: u32) -> (r: Self)
        ensures
            r.spec_bits() == bits & 0x1000_7FE7,
    {
        NtfsFileAttributeFlags(bits & 0x1000_7FE7)
    }

    /// The flag telling that the file is a directory.
    pub fn is_directory() -> (r: Self)
        ensures
            r.spec_bits() == 0x1000_0000,
    {
        NtfsFileAttributeFlags(0x1000_0000)
    }

    /// Returns the raw bits of the flags.
    pub fn bits(&self) -> (r: u32)
        ensures
            r == self.spec_bits(),
    {
        self.0
    }

    /// Returns `true` if all flags of `other` are set in `self`.
    pub fn contains(&self, other: NtfsFileAttributeFlags) -> (r: bool)
        ensures
            r == (self.spec_bits() & other.spec_bits() == other.spec_bits()),
    {
        (self.0 & other.0) == other.0
    }
}

/// Character set constraint of the filename, returned by [`NtfsFileName::namespace`].
///
/// Reference: <https://flatcap.github.io/linux-ntfs/ntfs/concepts/filename_namespace.html>
#[derive(Clone, Copy, Debug, Eq, PartialEq, Structural)]
pub enum NtfsFileNamespace {
    /// A POSIX-compatible filename, which is case-sensitive and supports all Unicode
    /// characters except for the forward slash (/) and the NUL character.
    Posix,
    /// A long filename for Windows, which is case-insensitive and supports all Unicode
    /// characters except for " * < > ? \ | / : (and doesn't end with a dot or a space).
    Win32,
    /// An MS-DOS 8+3 filename (8 uppercase characters with a 3-letter uppercase extension)
    /// that consists entirely of printable ASCII characters (except for " * < > ? \ | / : ; . , + = [ ]).
    Dos,
    /// A Win32 filename that is also a valid MS-DOS filename, so a single name serves both namespaces.
    Win32AndDos,
}

/// The namespace with the given on-disk code (0 to 3).
pub open spec fn spec_namespace_from_code(code: u8) -> Option<NtfsFileNamespace> {
    if code == 0 {
        Some(NtfsFileNamespace::Posix)
    } else if code == 1 {
        Some(NtfsFileNamespace::Win32)
    } else if code == 2 {
        Some(NtfsFileNamespace::Dos)
    } else if code == 3 {
        Some(NtfsFileNamespace::Win32AndDos)
    } else {
        None
    }
}

impl NtfsFileNamespace {
    /// Returns the namespace with the given on-disk code, or `None` for an unknown code.
    pub fn n(code: u8) -> (r: Option<NtfsFileNamespace>)
        ensures
            r == spec_namespace_from_code(code),
    {
        if code == 0 {
            Some(NtfsFileNamespace::Posix)
        } else if code == 1 {
            Some(NtfsFileNamespace::Win32)
        } else if code == 2 {
            Some(NtfsFileNamespace::Dos)
        } else if code == 3 {
            Some(NtfsFileNamespace::Win32AndDos)
        } else {
            None
        }
    }
}

/// The header fields of a $FILE_NAME structure.
#[derive(Clone, Copy, Debug)]
pub struct FileNameHeader {
    /// Reference to the directory holding the file.
    pub parent_directory_reference: NtfsFileReference,
    /// Time the file was created.
    pub creation_time: NtfsTime,
    /// Time the file data was last changed.
    pub modification_time: NtfsTime,
    /// Time the File Record was last changed.
    pub mft_record_modification_time: NtfsTime,
    /// Time the file was last accessed.
    pub access_time: NtfsTime,
    /// Allocated size of the file data, in bytes.
    pub allocated_size: u64,
    /// Used size of the file data, in bytes.
    pub data_size: u64,
    /// File attribute flags.
    pub file_attributes: u32,
    /// Reparse point tag.
    pub reparse_point_tag: u32,
    /// Length of the name, in UTF-16 code units.
    pub name_length: u8,
    /// On-disk code of the namespace.
    pub namespace: u8,
}

/// The header fields stored little-endian in the first 66 bytes of `b`.
pub open spec fn spec_file_name_header(b: Seq<u8>) -> FileNameHeader {
    FileNameHeader {
        parent_directory_reference: NtfsFileReference([b[0], b[1], b[2], b[3], b[4], b[5], b[6], b[7]]),
        creation_time: NtfsTime(spec_u64_le(b, 8)),
        modification_time: NtfsTime(spec_u64_le(b, 16)),
        mft_record_modification_time: NtfsTime(spec_u64_le(b, 24)),
        access_time: NtfsTime(spec_u64_le(b, 32)),
        allocated_size: spec_u64_le(b, 40),
        data_size: spec_u64_le(b, 48),
        file_attributes: spec_u32_le(b, 56),
        reparse_point_tag: spec_u32_le(b, 60),
        name_length: b[64],
        namespace: b[65],
    }
}

/// The checks of a $FILE_NAME header at `position` in a value of `value_length` bytes: the name
/// must fit into the value, and the namespace must be known.
pub open spec fn spec_file_name_check(header: FileNameHeader, position: NtfsPosition, value_length: u64) -> Result<()> {
    let total_size = FILE_NAME_HEADER_SIZE + header.name_length * 2;
    if total_size > value_length {
        Err(
            NtfsError::InvalidStructuredValueSize {
                position,
                ty: NtfsAttributeType::FileName,
                expected: value_length,
                actual: total_size as u64,
            },
        )
    } else if spec_namespace_from_code(header.namespace) is None {
        Err(NtfsError::UnsupportedFileNamespace { position, actual: header.namespace })
    } else {
        Ok(())
    }
}

/// The error for a value shorter than the smallest $FILE_NAME structure.
pub open spec fn spec_file_name_size_error(position: NtfsPosition, value_length: u64) -> NtfsError {
    NtfsError::InvalidStructuredValueSize {
        position,
        ty: NtfsAttributeType::FileName,
        expected: FILE_NAME_MIN_SIZE as u64,
        actual: value_length,
    }
}

/// The header and the name bytes of the $FILE_NAME structure at the beginning of the value bytes
/// `b` (at `position`), or the error that reading it gives.
pub open spec fn spec_file_name(b: Seq<u8>, position: NtfsPosition) -> Result<(FileNameHeader, Seq<u8>)> {
    let value_length = b.len() as u64;
    if b.len() < FILE_NAME_MIN_SIZE {
        Err(spec_file_name_size_error(position, value_length))
    } else {
        let header = spec_file_name_header(b);
        match spec_file_name_check(header, position, value_length) {
            Err(e) => Err(e),
            Ok(()) => Ok(
                (
                    header,
                    b.subrange(
                        FILE_NAME_HEADER_SIZE as int,
                        FILE_NAME_HEADER_SIZE + header.name_length * 2,
                    ),
                ),
            ),
        }
    }
}

/// A $FILE_NAME structure read from the value bytes `b` gives the fields of the on-disk layout:
/// the parent directory reference in bytes 0..8, the four timestamps in bytes 8..40, the allocated
/// size in bytes 40..48 and the data size in bytes 48..56 (each little-endian), the name length
/// (in UTF-16 code units) in byte 64, the namespace in byte 65, and the name right after the
/// 66-byte header.
pub proof fn lemma_file_name_layout(b: Seq<u8>, position: NtfsPosition)
    ensures
        spec_file_name(b, position) matches Ok((header, name)) ==> {
            &&& header.parent_directory_reference.0@ == b.subrange(0, 8)
            &&& header.creation_time.0 == spec_le8_value(b, 8)
            &&& header.modification_time.0 == spec_le8_value(b, 16)
            &&& header.mft_record_modification_time.0 == spec_le8_value(b, 24)
            &&& header.access_time.0 == spec_le8_value(b, 32)
            &&& header.allocated_size == spec_le8_value(b, 40)
            &&& header.data_size == spec_le8_value(b, 48)
            &&& header.name_length == b[64]
            &&& header.namespace == b[65]
            &&& name == b.subrange(66, 66 + 2 * b[64] as int)
        },
{
    if let Ok((header, name)) = spec_file_name(b, position) {
        assert(header.parent_directory_reference.0@ =~= b.subrange(0, 8));
    }
}

/// Parses the header fields from the first 66 bytes of `b`.
fn parse_file_name_header(b: &[u8]) -> (r: FileNameHeader)
    requires
        b@.len() >= FILE_NAME_HEADER_SIZE,
    ensures
        r == spec_file_name_header(b@),
{
    FileNameHeader {
        parent_directory_reference: NtfsFileReference::new([b[0], b[1], b[2], b[3], b[4], b[5], b[6], b[7]]),
        creation_time: NtfsTime(read_u64_le(b, 8)),
        modification_time: NtfsTime(read_u64_le(b, 16)),
        mft_record_modification_time: NtfsTime(read_u64_le(b, 24)),
        access_time: NtfsTime(read_u64_le(b, 32)),
        allocated_size: read_u64_le(b, 40),
        data_size: read_u64_le(b, 48),
        file_attributes: read_u32_le(b, 56),
        reparse_point_tag: read_u32_le(b, 60),
        name_length: b[64],
        namespace: b[65],
    }
}

/// Checks that the name fits into the value and that the namespace is known.
fn validate_file_name(header: &FileNameHeader, position: NtfsPosition, value_length: u64) -> (r: Result<()>)
    ensures
        r == spec_file_name_check(*header, position, value_length),
{
    let total_size = (FILE_NAME_HEADER_SIZE + header.name_length as usize * 2) as u64;
    if total_size > value_length {
        return Err(
            NtfsError::InvalidStructuredValueSize {
                position,
                ty: NtfsAttributeType::FileName,
                expected: value_length,
                actual: total_size,
            },
        );
    }
    if NtfsFileNamespace::n(header.namespace).is_none() {
        return Err(NtfsError::UnsupportedFileNamespace { position, actual: header.namespace });
    }
    Ok(())
}

/// Structure of a $FILE_NAME attribute.
///
/// NTFS creates a $FILE_NAME attribute for every hard link.
/// Its valuable information is the actual file name and whether this file represents a directory.
/// Apart from that, it duplicates several fields of $STANDARD_INFORMATION, but these are only updated when the file name changes.
///
/// Reference: <https://flatcap.github.io/linux-ntfs/ntfs/attributes/file_name.html>
#[derive(Debug)]
pub struct NtfsFileName {
    header: FileNameHeader,
    name: ArrayVec<u8, NAME_MAX_SIZE>,
}

impl NtfsFileName {
    /// A name holds at most 255 UTF-16 code units.
    #[verifier::type_invariant]
    spec fn file_name_inv(self) -> bool {
        name_buffer_bytes(self.name).len() <= NAME_MAX_SIZE
    }

    /// The header fields.
    pub closed spec fn spec_header(&self) -> FileNameHeader {
        self.header
    }

    /// The bytes of the name.
    pub closed spec fn spec_name(&self) -> Seq<u8> {
        name_buffer_bytes(self.name)
    }

    fn from_parts(header: FileNameHeader, name: &[u8]) -> (r: Self)
        requires
            name@.len() == header.name_length * 2,
        ensures
            r.spec_header() == header,
            r.spec_name() == name@,
    {
        NtfsFileName { header, name: name_buffer_from_slice(name) }
    }

    /// Parses the $FILE_NAME structure that makes up the value bytes `b` at `position`.
    pub fn from_bytes(b: &[u8], position: NtfsPosition) -> (r: Result<Self>)
        ensures
            match spec_file_name(b@, position) {
                Ok((header, name)) => r matches Ok(f) && f.spec_header() == header && f.spec_name()
                    == name,
                Err(e) => r == Err::<Self, NtfsError>(e),
            },
    {
        let value_length = b.len() as u64;
        if b.len() < FILE_NAME_MIN_SIZE {
            return Err(
                NtfsError::InvalidStructuredValueSize {
                    position,
                    ty: NtfsAttributeType::FileName,
                    expected: FILE_NAME_MIN_SIZE as u64,
                    actual: value_length,
                },
            );
        }
        let header = parse_file_name_header(b);
        match validate_file_name(&header, position, value_length) {
            Ok(()) => {},
            Err(e) => return Err(e),
        }
        let end = FILE_NAME_HEADER_SIZE + header.name_length as usize * 2;
        let name = crate::attribute::slice_subrange(b, FILE_NAME_HEADER_SIZE, end);
        Ok(Self::from_parts(header, name))
    }

    /// Returns the last access time stored in this $FILE_NAME record.
    ///
    /// **Note that NTFS only updates it when the file name is changed!**
    /// Check [`crate::structured_values`] for a better source of the access time.
    pub fn access_time(&self) -> (r: NtfsTime)
        ensures
            r == self.spec_header().access_time,
    {
        self.header.access_time
    }

    /// Returns the allocated size of the file data, in bytes.
    /// "Data" refers to the unnamed $DATA attribute only.
    /// Other $DATA attributes are not considered.
    ///
    /// **Note that NTFS only updates it when the file name is changed!**
    pub fn allocated_size(&self) -> (r: u64)
        ensures
            r == self.spec_header().allocated_size,
    {
        self.header.allocated_size
    }

    /// Returns the creation time stored in this $FILE_NAME record.
    ///
    /// **Note that NTFS only updates it when the file name is changed!**
    pub fn creation_time(&self) -> (r: NtfsTime)
        ensures
            r == self.spec_header().creation_time,
    {
        self.header.creation_time
    }

    /// Returns the size actually used by the file data, in bytes.
    ///
    /// "Data" refers to the unnamed $DATA attribute only.
    /// Other $DATA attributes are not considered.
    ///
    /// This is less or equal than [`NtfsFileName::allocated_size`].
    ///
    /// **Note that NTFS only updates it when the file name is changed!**
    pub fn data_size(&self) -> (r: u64)
        ensures
            r == self.spec_header().data_size,
    {
        self.header.data_size
    }

    /// Returns flags that a user can set for a file (Read-Only, Hidden, System, Archive, etc.).
    /// Commonly called "File Attributes" in Windows Explorer.
    ///
    /// **Note that NTFS only updates it when the file name is changed!**
    pub fn file_attributes(&self) -> (r: NtfsFileAttributeFlags)
        ensures
            r.spec_bits() == self.spec_header().file_attributes & 0x1000_7FE7,
    {
        NtfsFileAttributeFlags::from_bits_truncate(self.header.file_attributes)
    }

    /// Returns whether this file is a directory.
    pub fn is_directory(&self) -> (r: bool)
        ensures
            r == (self.spec_header().file_attributes & 0x1000_0000 == 0x1000_0000),
    {
        let r = self.file_attributes().contains(NtfsFileAttributeFlags::is_directory());
        proof {
            let b = self.spec_header().file_attributes;
            assert((b & 0x1000_7FE7) & 0x1000_0000 == b & 0x1000_0000) by (bit_vector);
        }
        r
    }

    /// Returns the MFT record modification time stored in this $FILE_NAME record.
    ///
    /// **Note that NTFS only updates it when the file name is changed!**
    pub fn mft_record_modification_time(&self) -> (r: NtfsTime)
        ensures
            r == self.spec_header().mft_record_modification_time,
    {
        self.header.mft_record_modification_time
    }

    /// Returns the modification time stored in this $FILE_NAME record.
    ///
    /// **Note that NTFS only updates it when the file name is changed!**
    pub fn modification_time(&self) -> (r: NtfsTime)
        ensures
            r == self.spec_header().modification_time,
    {
        self.header.modification_time
    }

    /// Gets the file name and returns it wrapped in an [`NtfsString`].
    pub fn name<'a>(&'a self) -> (r: NtfsString<'a>)
        ensures
            r.0@ == self.spec_name(),
    {
        NtfsString(name_buffer_as_slice(&self.name))
    }

    /// Returns the file name length, in bytes.
    ///
    /// A file name has a maximum length of 255 UTF-16 code points (510 bytes).
    pub fn name_length(&self) -> (r: usize)
        ensures
            r == self.spec_header().name_length * 2,
    {
        self.header.name_length as usize * 2
    }

    /// Returns the namespace this name belongs to, or `None` for an unknown namespace code
    /// (which parsing refuses).
    pub fn namespace(&self) -> (r: Option<NtfsFileNamespace>)
        ensures
            r == spec_namespace_from_code(self.spec_header().namespace),
    {
        NtfsFileNamespace::n(self.header.namespace)
    }

    /// Returns an [`NtfsFileReference`] for the directory where this file is located.
    pub fn parent_directory_reference(&self) -> (r: NtfsFileReference)
        ensures
            r == self.spec_header().parent_directory_reference,
    {
        self.header.parent_directory_reference
    }
}

impl<'n, 'f> NtfsStructuredValue<'n, 'f> for NtfsFileName {
    open spec fn spec_structured_ty() -> NtfsAttributeType {
        NtfsAttributeType::FileName
    }

    fn structured_ty() -> (r: NtfsAttributeType) {
        NtfsAttributeType::FileName
    }

    /// Reads the structure from the beginning of the value on.
    /// A value shorter than the smallest file name structure is refused; a resident value read from
    /// its start is parsed from its bytes (see [`spec_file_name`]).
    open spec fn spec_from_value(value: NtfsAttributeValue<'n, 'f>, source: Seq<u8>, r: Result<Self>) -> bool {
        &&& value.spec_len() < FILE_NAME_MIN_SIZE ==> r == Err::<Self, NtfsError>(
            NtfsError::InvalidStructuredValueSize {
                position: value.spec_data_position(),
                ty: NtfsAttributeType::FileName,
                expected: FILE_NAME_MIN_SIZE as u64,
                actual: value.spec_len() as u64,
            },
        )
        &&& value matches NtfsAttributeValue::Resident(v) ==> (v.spec_stream_position() == 0
            ==> Self::spec_parsed_key(v.spec_data(), value.spec_data_position(), r))
    }

    fn from_attribute_value<T>(fs: &mut T, value: NtfsAttributeValue<'n, 'f>) -> (r: Result<Self>) where
        T: Read + Seek,
    {
        if let NtfsAttributeValue::Resident(resident) = &value {
            if resident.stream_position() == 0 {
                return Self::from_bytes(resident.data(), resident.data_position());
            }
        }
        let position = value.data_position();
        let value_length = value.len();
        if value_length < FILE_NAME_MIN_SIZE as u64 {
            return Err(
                NtfsError::InvalidStructuredValueSize {
                    position,
                    ty: NtfsAttributeType::FileName,
                    expected: FILE_NAME_MIN_SIZE as u64,
                    actual: value_length,
                },
            );
        }
        let mut value = value;
        let mut header_bytes = [0u8; FILE_NAME_HEADER_SIZE];
        match value.read_exact(fs, &mut header_bytes) {
            Ok(()) => {},
            Err(e) => return Err(e),
        }
        let header = parse_file_name_header(&header_bytes);
        match validate_file_name(&header, position, value_length) {
            Ok(()) => {},
            Err(e) => return Err(e),
        }
        let mut name: Vec<u8> = vec![0u8; header.name_length as usize * 2];
        match value.read_exact(fs, name.as_mut_slice()) {
            Ok(()) => {},
            Err(e) => return Err(e),
        }
        Ok(Self::from_parts(header, name.as_slice()))
    }
}

impl Clone for NtfsFileName {
    fn clone(&self) -> (r: Self)
        ensures
            r.spec_header() == self.spec_header(),
            r.spec_name() == self.spec_name(),
    {
        proof {
            use_type_invariant(self);
        }
        Self { header: self.header, name: name_buffer_from_slice(name_buffer_as_slice(&self.name)) }
    }
}

// The key of a file name index has the same structure as the $FILE_NAME structured value.
impl NtfsIndexEntryKey for NtfsFileName {
    open spec fn spec_parsed_key(b: Seq<u8>, position: NtfsPosition, r: Result<Self>) -> bool {
        match spec_file_name(b, position) {
            Ok((header, name)) => r matches Ok(f) && f.spec_header() == header && f.spec_name() == name,
            Err(e) => r == Err::<Self, NtfsError>(e),
        }
    }

    fn key_from_slice(slice: &[u8], position: NtfsPosition) -> (r: Result<Self>) {
        Self::from_bytes(slice, position)
    }
}

/// Whether the attribute at `offset` of the File Record bytes `data` (of a file at `file_position`)
/// is a resident $FILE_NAME attribute whose value parses to a file name (see [`spec_file_name`])
/// in the namespace `match_namespace` and in the directory `match_parent_record_number`, where
/// asked for.
pub open spec fn spec_file_name_attribute_matches(
    data: Seq<u8>,
    offset: usize,
    file_position: NtfsPosition,
    match_namespace: Option<NtfsFileNamespace>,
    match_parent_record_number: Option<u64>,
) -> bool {
    &&& spec_attribute_type_from_code(spec_type_code_at(data, offset)) == Some(NtfsAttributeType::FileName)
    &&& spec_resident_value_readable(data, offset)
    &&& spec_file_name(
        spec_resident_value_bytes(data, offset as int),
        file_position.spec_add(offset as u64).spec_add(0),
    ) matches Ok((header, _))
    &&& match_namespace matches Some(ns) ==> spec_namespace_from_code(header.namespace) == Some(ns)
    &&& match_parent_record_number matches Some(p)
        ==> header.parent_directory_reference.spec_file_record_number() == p
}

impl<'n> NtfsFile<'n> {
    /// Passing over an attribute that does not match keeps every matching attribute among those
    /// still to be visited.
    proof fn lemma_skip_file_name(
        file: NtfsFile<'n>,
        before: usize,
        after: usize,
        offset_here: usize,
        covered: bool,
        match_namespace: Option<NtfsFileNamespace>,
        match_parent_record_number: Option<u64>,
    )
        requires
            forall|offset: usize|
                #[trigger] spec_raw_visits(
                    file.spec_data(),
                    file.spec_first_attribute_start(),
                    file.spec_position(),
                    offset,
                ) ==> spec_raw_visits(file.spec_data(), before, file.spec_position(), offset)
                    || !spec_file_name_attribute_matches(
                    file.spec_data(),
                    offset,
                    file.spec_position(),
                    match_namespace,
                    match_parent_record_number,
                ),
            forall|offset: usize|
                #[trigger] spec_raw_visits(file.spec_data(), before, file.spec_position(), offset)
                    ==> spec_raw_visits(file.spec_data(), after, file.spec_position(), offset)
                    || spec_attribute_type_from_code(spec_type_code_at(file.spec_data(), offset))
                    == Some(NtfsAttributeType::AttributeList) || (covered && offset == offset_here),
            covered ==> !spec_file_name_attribute_matches(
                file.spec_data(),
                offset_here,
                file.spec_position(),
                match_namespace,
                match_parent_record_number,
            ),
        ensures
            forall|offset: usize|
                #[trigger] spec_raw_visits(
                    file.spec_data(),
                    file.spec_first_attribute_start(),
                    file.spec_position(),
                    offset,
                ) ==> spec_raw_visits(file.spec_data(), after, file.spec_position(), offset)
                    || !spec_file_name_attribute_matches(
                    file.spec_data(),
                    offset,
                    file.spec_position(),
                    match_namespace,
                    match_parent_record_number,
                ),
    {
        assert forall|offset: usize|
            #[trigger] spec_raw_visits(
                file.spec_data(),
                file.spec_first_attribute_start(),
                file.spec_position(),
                offset,
            ) implies spec_raw_visits(file.spec_data(), after, file.spec_position(), offset)
            || !spec_file_name_attribute_matches(
            file.spec_data(),
            offset,
            file.spec_position(),
            match_namespace,
            match_parent_record_number,
        ) by {
            if spec_raw_visits(file.spec_data(), before, file.spec_position(), offset) {
            }
        }
    }

    /// Convenience function to get a $FILE_NAME attribute of this file (see [`NtfsFileName`]).
    ///
    /// A file may have multiple $FILE_NAME attributes for each [`NtfsFileNamespace`].
    /// Files with hard links have further $FILE_NAME attributes for each directory they are in.
    /// You may optionally filter for a namespace and parent directory via the parameters.
    ///
    /// This internally calls [`NtfsFile::attributes`] to iterate through the file's
    /// attributes and pick up the first matching $FILE_NAME attribute.
    pub fn name<T>(
        &self,
        fs: &mut T,
        match_namespace: Option<NtfsFileNamespace>,
        match_parent_record_number: Option<u64>,
    ) -> (r: Option<Result<NtfsFileName>>) where T: Read + Seek
        requires
            self.wf(),
        ensures
            final(fs).source() == old(fs).source(),
            r matches Some(Ok(f)) ==> {
                &&& match_namespace matches Some(ns) ==> spec_namespace_from_code(f.spec_header().namespace)
                    == Some(ns)
                &&& match_parent_record_number matches Some(p)
                    ==> f.spec_header().parent_directory_reference.spec_file_record_number() == p
            },
            r is None ==> forall|offset: usize|
                #[trigger] spec_raw_visits(
                    self.spec_data(),
                    self.spec_first_attribute_start(),
                    self.spec_position(),
                    offset,
                ) ==> !spec_file_name_attribute_matches(
                    self.spec_data(),
                    offset,
                    self.spec_position(),
                    match_namespace,
                    match_parent_record_number,
                ),
    {
        let mut iter = self.attributes();
        loop
            invariant
                forall|offset: usize|
                    #[trigger] spec_raw_visits(
                        self.spec_data(),
                        self.spec_first_attribute_start(),
                        self.spec_position(),
                        offset,
                    ) ==> spec_raw_visits(self.spec_data(), iter.spec_raw_start(), self.spec_position(), offset)
                        || !spec_file_name_attribute_matches(
                        self.spec_data(),
                        offset,
                        self.spec_position(),
                        match_namespace,
                        match_parent_record_number,
                    ),
                fs.source() == old(fs).source(),
                iter.spec_file() == *self,
                iter.spec_raw_left() >= 0,
                self.wf(),
            decreases iter.spec_raw_left(), iter.spec_list_left(),
        {
            let ghost before = iter.spec_raw_start();
            let item = match iter.next(fs) {
                None => return None,
                Some(Err(e)) => return Some(Err(e)),
                Some(Ok(item)) => item,
            };
            let ghost offset_here = item.spec_attribute_offset();
            let ghost covered = item.spec_holding_file() == *self && !item.spec_has_list_entries();
            let ghost wanted_here = spec_file_name_attribute_matches(
                self.spec_data(),
                offset_here,
                self.spec_position(),
                match_namespace,
                match_parent_record_number,
            );
            let attribute = match item.to_attribute() {
                Ok(a) => a,
                Err(e) => return Some(Err(e)),
            };
            let ty = match attribute.ty() {
                Ok(t) => t,
                Err(e) => return Some(Err(e)),
            };
            if ty != NtfsAttributeType::FileName {
                proof {
                    assert(covered ==> !wanted_here);
                    Self::lemma_skip_file_name(
                        *self,
                        before,
                        iter.spec_raw_start(),
                        offset_here,
                        covered,
                        match_namespace,
                        match_parent_record_number,
                    );
                }
                continue;
            }
            let file_name = match attribute.structured_value::<_, NtfsFileName>(fs) {
                Ok(f) => f,
                Err(e) => return Some(Err(e)),
            };
            proof {
                if covered && wanted_here {
                    let v = choose|v: NtfsResidentAttributeValue<'_>|
                        #![trigger NtfsFileName::spec_from_value(NtfsAttributeValue::Resident(v), fs.source(), Ok::<NtfsFileName, NtfsError>(file_name))]
                        {
                            &&& v.spec_data() == attribute.spec_data().subrange(
                                attribute.spec_offset() + attribute.spec_resident_value_offset(),
                                attribute.spec_offset() + attribute.spec_resident_value_offset()
                                    + attribute.spec_resident_value_length(),
                            )
                            &&& v.spec_position() == attribute.spec_position()
                            &&& v.spec_stream_position() == 0
                            &&& NtfsFileName::spec_from_value(
                                NtfsAttributeValue::Resident(v),
                                fs.source(),
                                Ok::<NtfsFileName, NtfsError>(file_name),
                            )
                        };
                    assert(v.spec_data() == spec_resident_value_bytes(self.spec_data(), offset_here as int));
                }
            }
            if let Some(namespace) = match_namespace {
                match file_name.namespace() {
                    Some(ns) if ns == namespace => {},
                    _ => {
                        proof {
                            assert(covered ==> !wanted_here);
                            Self::lemma_skip_file_name(
                                *self,
                                before,
                                iter.spec_raw_start(),
                                offset_here,
                                covered,
                                match_namespace,
                                match_parent_record_number,
                            );
                        }
                        continue
                    },
                }
            }
            if let Some(parent_record_number) = match_parent_record_number {
                if file_name.parent_directory_reference().file_record_number() != parent_record_number {
                    proof {
                        assert(covered ==> !wanted_here);
                        Self::lemma_skip_file_name(
                            *self,
                            before,
                            iter.spec_raw_start(),
                            offset_here,
                            covered,
                            match_namespace,
                            match_parent_record_number,
                        );
                    }
                    continue;
                }
            }
            return Some(Ok(file_name));
        }
    }
}

} // verus!
