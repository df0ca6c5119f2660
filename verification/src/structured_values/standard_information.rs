//! The $STANDARD_INFORMATION structured value.
use vstd::prelude::*;

use crate::attribute::{spec_resident_value_bytes, NtfsAttributeType};
use crate::attribute_value::{NtfsAttributeValue, NtfsResidentAttributeValue};
use crate::error::{NtfsError, Result};
use crate::file::NtfsFile;
use crate::helpers::{read_u32_le, read_u64_le, spec_le4_value, spec_le8_value, spec_u32_le, spec_u64_le};
use crate::io::{Read, Seek};
use crate::structured_values::{
    NtfsFileAttributeFlags, NtfsStructuredValue, NtfsStructuredValueFromResidentAttributeValue,
};
use crate::time::NtfsTime;
use crate::traits::NtfsReadSeek;
use crate::types::NtfsPosition;

verus! {

/// Size of all $STANDARD_INFORMATION fields of NTFS 1.2.
pub const NTFS1_FIELDS_SIZE: usize = 48;
/// Size of all additional $STANDARD_INFORMATION fields of NTFS 3.x.
pub const ADDITIONAL_NTFS3_FIELDS_SIZE: usize = 24;
/// Size of all $STANDARD_INFORMATION fields of NTFS 3.x.
pub const NTFS3_FIELDS_SIZE: usize = 72;

/// The $STANDARD_INFORMATION fields of NTFS 1.2.
#[derive(Clone, Copy, Debug)]
pub struct Ntfs1Fields {
    /// The time the file was created.
    pub creation_time: NtfsTime,
    /// The time the file was last modified.
    pub modification_time: NtfsTime,
    /// The time the MFT record of the file was last modified.
    pub mft_record_modification_time: NtfsTime,
    /// The time the file was last accessed.
    pub access_time: NtfsTime,
    /// The raw file attribute flags.
    pub file_attributes: u32,
    /// The maximum allowed versions of the file.
    pub maximum_versions: u32,
    /// The version of the file.
    pub version: u32,
    /// The Class ID of the file.
    pub class_id: u32,
}

/// The additional $STANDARD_INFORMATION fields of NTFS 3.x.
#[derive(Clone, Copy, Debug)]
pub struct Ntfs3Fields {
    /// The Owner ID of the file.
    pub owner_id: u32,
    /// The Security ID of the file.
    pub security_id: u32,
    /// The quota charged by the file.
    pub quota_charged: u64,
    /// The Update Sequence Number (USN) of the file.
    pub usn: u64,
}

/// The NTFS 1.2 fields stored little-endian in the first 48 bytes of `b`.
pub open spec fn spec_ntfs1_fields(b: Seq<u8>) -> Ntfs1Fields {
    Ntfs1Fields {
        creation_time: NtfsTime(spec_u64_le(b, 0)),
        modification_time: NtfsTime(spec_u64_le(b, 8)),
        mft_record_modification_time: NtfsTime(spec_u64_le(b, 16)),
        access_time: NtfsTime(spec_u64_le(b, 24)),
        file_attributes: spec_u32_le(b, 32),
        maximum_versions: spec_u32_le(b, 36),
        version: spec_u32_le(b, 40),
        class_id: spec_u32_le(b, 44),
    }
}

/// The NTFS 3.x fields stored little-endian in bytes 48 to 72 of `b`.
pub open spec fn spec_ntfs3_fields(b: Seq<u8>) -> Ntfs3Fields {
    Ntfs3Fields {
        owner_id: spec_u32_le(b, 48),
        security_id: spec_u32_le(b, 52),
        quota_charged: spec_u64_le(b, 56),
        usn: spec_u64_le(b, 64),
    }
}

/// The $STANDARD_INFORMATION structure of the value bytes `b` at `position`: the NTFS 1.2 fields,
/// and the NTFS 3.x fields if the value holds them, or the error for a value shorter than the NTFS 1.2 fields.
pub open spec fn spec_standard_information(b: Seq<u8>, position: NtfsPosition) -> Result<(Ntfs1Fields, Option<Ntfs3Fields>)> {
    if b.len() < NTFS1_FIELDS_SIZE {
        Err(
            NtfsError::InvalidStructuredValueSize {
                position,
                ty: NtfsAttributeType::StandardInformation,
                expected: NTFS1_FIELDS_SIZE as u64,
                actual: b.len() as u64,
            },
        )
    } else if b.len() >= NTFS3_FIELDS_SIZE {
        Ok((spec_ntfs1_fields(b), Some(spec_ntfs3_fields(b))))
    } else {
        Ok((spec_ntfs1_fields(b), None))
    }
}

/// A $STANDARD_INFORMATION structure read from the value bytes `b` gives the fields of the
/// on-disk layout, each little-endian: the creation, modification, MFT record modification and
/// access times in bytes 0..32, the file attributes, maximum versions, version and class ID in
/// bytes 32..48; a value of at least 72 bytes adds the owner ID, security ID, quota charged and
/// Update Sequence Number in bytes 48..72, and a shorter one has none of them.
pub proof fn lemma_standard_information_layout(b: Seq<u8>, position: NtfsPosition)
    ensures
        spec_standard_information(b, position) matches Ok((ntfs1, ntfs3)) ==> {
            &&& ntfs1.creation_time.0 == spec_le8_value(b, 0)
            &&& ntfs1.modification_time.0 == spec_le8_value(b, 8)
            &&& ntfs1.mft_record_modification_time.0 == spec_le8_value(b, 16)
            &&& ntfs1.access_time.0 == spec_le8_value(b, 24)
            &&& ntfs1.file_attributes == spec_le4_value(b, 32)
            &&& ntfs1.maximum_versions == spec_le4_value(b, 36)
            &&& ntfs1.version == spec_le4_value(b, 40)
            &&& ntfs1.class_id == spec_le4_value(b, 44)
            &&& ntfs3 is Some <==> b.len() >= 72
            &&& ntfs3 matches Some(f) ==> {
                &&& f.owner_id == spec_le4_value(b, 48)
                &&& f.security_id == spec_le4_value(b, 52)
                &&& f.quota_charged == spec_le8_value(b, 56)
                &&& f.usn == spec_le8_value(b, 64)
            }
        },
{
}

/// Structure of a $STANDARD_INFORMATION attribute.
///
/// Among other things, this is the place where the file times and "File Attributes"
/// (Read-Only, Hidden, System, Archive, etc.) are stored.
///
/// A $STANDARD_INFORMATION attribute is always resident.
///
/// Reference: <https://flatcap.github.io/linux-ntfs/ntfs/attributes/standard_information.html>
#[derive(Clone, Copy, Debug)]
pub struct NtfsStandardInformation {
    ntfs1_data: Ntfs1Fields,
    ntfs3_data: Option<Ntfs3Fields>,
}

impl NtfsStandardInformation {
    /// The NTFS 1.2 fields, and the NTFS 3.x fields if stored.
    pub closed spec fn spec_fields(&self) -> (Ntfs1Fields, Option<Ntfs3Fields>) {
        (self.ntfs1_data, self.ntfs3_data)
    }

    /// Parses the structure from the value bytes `b` at `position` (see [`spec_standard_information`]).
    pub fn from_bytes(b: &[u8], position: NtfsPosition) -> (r: Result<Self>)
        ensures
            match spec_standard_information(b@, position) {
                Ok(fields) => r matches Ok(s) && s.spec_fields() == fields,
                Err(e) => r == Err::<Self, NtfsError>(e),
            },
    {
        if b.len() < NTFS1_FIELDS_SIZE {
            return Err(
                NtfsError::InvalidStructuredValueSize {
                    position,
                    ty: NtfsAttributeType::StandardInformation,
                    expected: NTFS1_FIELDS_SIZE as u64,
                    actual: b.len() as u64,
                },
            );
        }
        let ntfs1_data = Ntfs1Fields {
            creation_time: NtfsTime(read_u64_le(b, 0)),
            modification_time: NtfsTime(read_u64_le(b, 8)),
            mft_record_modification_time: NtfsTime(read_u64_le(b, 16)),
            access_time: NtfsTime(read_u64_le(b, 24)),
            file_attributes: read_u32_le(b, 32),
            maximum_versions: read_u32_le(b, 36),
            version: read_u32_le(b, 40),
            class_id: read_u32_le(b, 44),
        };
        let ntfs3_data = if b.len() >= NTFS3_FIELDS_SIZE {
            Some(
                Ntfs3Fields {
                    owner_id: read_u32_le(b, 48),
                    security_id: read_u32_le(b, 52),
                    quota_charged: read_u64_le(b, 56),
                    usn: read_u64_le(b, 64),
                },
            )
        } else {
            None
        };
        Ok(Self { ntfs1_data, ntfs3_data })
    }

    /// Returns the time this file was last accessed.
    pub fn access_time(&self) -> (r: NtfsTime)
        ensures
            r == self.spec_fields().0.access_time,
    {
        self.ntfs1_data.access_time
    }

    /// Returns the Class ID of the file.
    pub fn class_id(&self) -> (r: u32)
        ensures
            r == self.spec_fields().0.class_id,
    {
        self.ntfs1_data.class_id
    }

    /// Returns the time this file was created.
    pub fn creation_time(&self) -> (r: NtfsTime)
        ensures
            r == self.spec_fields().0.creation_time,
    {
        self.ntfs1_data.creation_time
    }

    /// Returns flags that a user can set for a file (Read-Only, Hidden, System, Archive, etc.).
    /// Commonly called "File Attributes" in Windows Explorer.
    pub fn file_attributes(&self) -> (r: NtfsFileAttributeFlags)
        ensures
            r.spec_bits() == self.spec_fields().0.file_attributes & 0x1000_7FE7,
    {
        NtfsFileAttributeFlags::from_bits_truncate(self.ntfs1_data.file_attributes)
    }

    /// Returns the maximum allowed versions for this file.
    ///
    /// A value of zero means that versioning is disabled for this file.
    pub fn maximum_versions(&self) -> (r: u32)
        ensures
            r == self.spec_fields().0.maximum_versions,
    {
        self.ntfs1_data.maximum_versions
    }

    /// Returns the time the MFT record of this file was last modified.
    pub fn mft_record_modification_time(&self) -> (r: NtfsTime)
        ensures
            r == self.spec_fields().0.mft_record_modification_time,
    {
        self.ntfs1_data.mft_record_modification_time
    }

    /// Returns the time this file was last modified.
    pub fn modification_time(&self) -> (r: NtfsTime)
        ensures
            r == self.spec_fields().0.modification_time,
    {
        self.ntfs1_data.modification_time
    }

    /// Returns the Owner ID of the file, if stored via NTFS 3.x file information.
    pub fn owner_id(&self) -> (r: Option<u32>)
        ensures
            r == match self.spec_fields().1 {
                Some(f) => Some(f.owner_id),
                None => None,
            },
    {
        match &self.ntfs3_data {
            Some(f) => Some(f.owner_id),
            None => None,
        }
    }

    /// Returns the quota charged by this file, if stored via NTFS 3.x file information.
    pub fn quota_charged(&self) -> (r: Option<u64>)
        ensures
            r == match self.spec_fields().1 {
                Some(f) => Some(f.quota_charged),
                None => None,
            },
    {
        match &self.ntfs3_data {
            Some(f) => Some(f.quota_charged),
            None => None,
        }
    }

    /// Returns the Security ID of the file, if stored via NTFS 3.x file information.
    pub fn security_id(&self) -> (r: Option<u32>)
        ensures
            r == match self.spec_fields().1 {
                Some(f) => Some(f.security_id),
                None => None,
            },
    {
        match &self.ntfs3_data {
            Some(f) => Some(f.security_id),
            None => None,
        }
    }

    /// Returns the Update Sequence Number (USN) of the file, if stored via NTFS 3.x file information.
    pub fn usn(&self) -> (r: Option<u64>)
        ensures
            r == match self.spec_fields().1 {
                Some(f) => Some(f.usn),
                None => None,
            },
    {
        match &self.ntfs3_data {
            Some(f) => Some(f.usn),
            None => None,
        }
    }

    /// Returns the version of the file.
    ///
    /// This will be zero if versioning is disabled for this file.
    pub fn version(&self) -> (r: u32)
        ensures
            r == self.spec_fields().0.version,
    {
        self.ntfs1_data.version
    }
}

impl<'n, 'f> NtfsStructuredValue<'n, 'f> for NtfsStandardInformation {
    open spec fn spec_structured_ty() -> NtfsAttributeType {
        NtfsAttributeType::StandardInformation
    }

    fn structured_ty() -> (r: NtfsAttributeType) {
        NtfsAttributeType::StandardInformation
    }

    /// Reads the structure from the current position of the value on.
    /// A value shorter than the NTFS 1.x fields is refused; a resident value read from its start is
    /// parsed from its bytes (see
    /// [`NtfsStructuredValueFromResidentAttributeValue::spec_parsed_resident`]).
    open spec fn spec_from_value(value: NtfsAttributeValue<'n, 'f>, source: Seq<u8>, r: Result<Self>) -> bool {
        &&& value.spec_len() < NTFS1_FIELDS_SIZE ==> r == Err::<Self, NtfsError>(
            NtfsError::InvalidStructuredValueSize {
                position: value.spec_data_position(),
                ty: NtfsAttributeType::StandardInformation,
                expected: NTFS1_FIELDS_SIZE as u64,
                actual: value.spec_len() as u64,
            },
        )
        &&& value matches NtfsAttributeValue::Resident(v) ==> (v.spec_stream_position() == 0
            ==> Self::spec_parsed_resident(v.spec_data(), value.spec_data_position(), r))
    }

    fn from_attribute_value<T>(fs: &mut T, value: NtfsAttributeValue<'n, 'f>) -> (r: Result<Self>) where
        T: Read + Seek,
    {
        if let NtfsAttributeValue::Resident(resident) = &value {
            if resident.stream_position() == 0 {
                return Self::from_resident_attribute_value(resident.clone());
            }
        }
        let position = value.data_position();
        let value_length = value.len();
        if value_length < NTFS1_FIELDS_SIZE as u64 {
            return Err(
                NtfsError::InvalidStructuredValueSize {
                    position,
                    ty: NtfsAttributeType::StandardInformation,
                    expected: NTFS1_FIELDS_SIZE as u64,
                    actual: value_length,
                },
            );
        }
        let size = if value_length >= NTFS3_FIELDS_SIZE as u64 {
            NTFS3_FIELDS_SIZE
        } else {
            NTFS1_FIELDS_SIZE
        };
        let mut value = value;
        let mut buf: Vec<u8> = vec![0u8; size];
        match value.read_exact(fs, buf.as_mut_slice()) {
            Ok(()) => {},
            Err(e) => return Err(e),
        }
        Self::from_bytes(buf.as_slice(), position)
    }
}

impl<'n, 'f> NtfsStructuredValueFromResidentAttributeValue<'n, 'f> for NtfsStandardInformation {
    open spec fn spec_ty() -> NtfsAttributeType {
        NtfsAttributeType::StandardInformation
    }

    fn ty() -> (r: NtfsAttributeType) {
        NtfsAttributeType::StandardInformation
    }

    open spec fn spec_parsed_resident(data: Seq<u8>, position: NtfsPosition, r: Result<Self>) -> bool {
        match spec_standard_information(data, position) {
            Ok(fields) => r matches Ok(s) && s.spec_fields() == fields,
            Err(e) => r == Err::<Self, NtfsError>(e),
        }
    }

    fn from_resident_attribute_value(value: NtfsResidentAttributeValue<'f>) -> (r: Result<Self>) {
        let position = value.data_position();
        Self::from_bytes(value.data(), position)
    }
}

impl<'n> NtfsFile<'n> {
    /// Returns the [`NtfsStandardInformation`] structure of this file, which holds its times,
    /// its "File Attributes", and other information.
    pub fn info(&self) -> (r: Result<NtfsStandardInformation>)
        requires
            self.wf(),
        ensures
            r is Ok ==> exists|offset: int|
                #![trigger spec_resident_value_bytes(self.spec_data(), offset)]
                spec_standard_information(
                    spec_resident_value_bytes(self.spec_data(), offset),
                    self.spec_position().spec_add(offset as u64).spec_add(0),
                ) matches Ok(fields) && r matches Ok(s) && s.spec_fields() == fields,
    {
        self.find_resident_attribute_structured_value::<NtfsStandardInformation>(None)
    }
}

} // verus!
