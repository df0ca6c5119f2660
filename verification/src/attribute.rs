//! NTFS Attributes of a File Record and iterators over them.
use vstd::prelude::*;

use core::ops::Range;

use crate::attribute_value::non_resident::{spec_run_has_bytes, spec_runs_location, DataRunsState};
use crate::attribute_value::{
    NtfsAttributeListNonResidentAttributeValue, NtfsAttributeValue, NtfsNonResidentAttributeValue,
    NtfsResidentAttributeValue,
};
use crate::error::{NtfsError, Result};
use crate::file::NtfsFile;
use crate::io::{Read, Seek};
use crate::structured_values::attribute_list::{spec_entry, AttributeListEntryHeader};
use crate::structured_values::{
    NtfsAttributeList, NtfsAttributeListEntries, NtfsStructuredValue,
    NtfsStructuredValueFromResidentAttributeValue,
};
use crate::helpers::{
    read_u16_le, read_u32_le, read_u64_le, spec_le2_value, spec_le4_value, spec_le8_value, spec_u16_le,
    spec_u32_le, spec_u64_le,
};
use crate::traits::NtfsReadSeek;
use crate::types::{Lcn, NtfsPosition};
use crate::string::UpcaseOrd;
use crate::utf16::{spec_encode_utf16, spec_uppercase_units, spec_utf16_units, NtfsString};

verus! {

/// All known NTFS Attribute types.
///
/// Reference: <https://flatcap.github.io/linux-ntfs/ntfs/attributes/index.html>
#[derive(Clone, Copy, Debug, Eq, PartialEq, Structural)]
pub enum NtfsAttributeType {
    /// $STANDARD_INFORMATION (type code 0x10), see [`NtfsStandardInformation`].
    ///
    /// [`NtfsStandardInformation`]: crate::structured_values::NtfsStandardInformation
    StandardInformation,
    /// $ATTRIBUTE_LIST (type code 0x20), see [`NtfsAttributeList`].
    ///
    /// [`NtfsAttributeList`]: crate::structured_values::NtfsAttributeList
    AttributeList,
    /// $FILE_NAME (type code 0x30), see [`NtfsFileName`].
    ///
    /// [`NtfsFileName`]: crate::structured_values::NtfsFileName
    FileName,
    /// $OBJECT_ID (type code 0x40), see [`NtfsObjectId`].
    ///
    /// [`NtfsObjectId`]: crate::structured_values::NtfsObjectId
    ObjectId,
    /// $SECURITY_DESCRIPTOR (type code 0x50)
    SecurityDescriptor,
    /// $VOLUME_NAME (type code 0x60), see [`NtfsVolumeName`].
    ///
    /// [`NtfsVolumeName`]: crate::structured_values::NtfsVolumeName
    VolumeName,
    /// $VOLUME_INFORMATION (type code 0x70), see [`NtfsVolumeInformation`].
    ///
    /// [`NtfsVolumeInformation`]: crate::structured_values::NtfsVolumeInformation
    VolumeInformation,
    /// $DATA (type code 0x80), see [`NtfsFile::data`].
    ///
    /// [`NtfsFile::data`]: crate::NtfsFile::data
    Data,
    /// $INDEX_ROOT (type code 0x90), see [`NtfsIndexRoot`].
    ///
    /// [`NtfsIndexRoot`]: crate::structured_values::NtfsIndexRoot
    IndexRoot,
    /// $INDEX_ALLOCATION (type code 0xA0), see [`NtfsIndexAllocation`].
    ///
    /// [`NtfsIndexAllocation`]: crate::structured_values::NtfsIndexAllocation
    IndexAllocation,
    /// $BITMAP (type code 0xB0)
    Bitmap,
    /// $REPARSE_POINT (type code 0xC0)
    ReparsePoint,
    /// $EA_INFORMATION (type code 0xD0)
    EAInformation,
    /// $EA (type code 0xE0)
    EA,
    /// $PROPERTY_SET (type code 0xF0)
    PropertySet,
    /// $LOGGED_UTILITY_STREAM (type code 0x100)
    LoggedUtilityStream,
    /// Marks the end of the valid attributes (type code 0xFFFF_FFFF).
    End,
}

/// The on-disk type code of an attribute type.
pub open spec fn spec_attribute_type_code(ty: NtfsAttributeType) -> u32 {
    match ty {
        NtfsAttributeType::StandardInformation => 0x10,
        NtfsAttributeType::AttributeList => 0x20,
        NtfsAttributeType::FileName => 0x30,
        NtfsAttributeType::ObjectId => 0x40,
        NtfsAttributeType::SecurityDescriptor => 0x50,
        NtfsAttributeType::VolumeName => 0x60,
        NtfsAttributeType::VolumeInformation => 0x70,
        NtfsAttributeType::Data => 0x80,
        NtfsAttributeType::IndexRoot => 0x90,
        NtfsAttributeType::IndexAllocation => 0xA0,
        NtfsAttributeType::Bitmap => 0xB0,
        NtfsAttributeType::ReparsePoint => 0xC0,
        NtfsAttributeType::EAInformation => 0xD0,
        NtfsAttributeType::EA => 0xE0,
        NtfsAttributeType::PropertySet => 0xF0,
        NtfsAttributeType::LoggedUtilityStream => 0x100,
        NtfsAttributeType::End => 0xFFFF_FFFF,
    }
}

/// The attribute type with the given on-disk type code, if there is one.
pub open spec fn spec_attribute_type_from_code(code: u32) -> Option<NtfsAttributeType> {
    if code == 0x10 {
        Some(NtfsAttributeType::StandardInformation)
    } else if code == 0x20 {
        Some(NtfsAttributeType::AttributeList)
    } else if code == 0x30 {
        Some(NtfsAttributeType::FileName)
    } else if code == 0x40 {
        Some(NtfsAttributeType::ObjectId)
    } else if code == 0x50 {
        Some(NtfsAttributeType::SecurityDescriptor)
    } else if code == 0x60 {
        Some(NtfsAttributeType::VolumeName)
    } else if code == 0x70 {
        Some(NtfsAttributeType::VolumeInformation)
    } else if code == 0x80 {
        Some(NtfsAttributeType::Data)
    } else if code == 0x90 {
        Some(NtfsAttributeType::IndexRoot)
    } else if code == 0xA0 {
        Some(NtfsAttributeType::IndexAllocation)
    } else if code == 0xB0 {
        Some(NtfsAttributeType::Bitmap)
    } else if code == 0xC0 {
        Some(NtfsAttributeType::ReparsePoint)
    } else if code == 0xD0 {
        Some(NtfsAttributeType::EAInformation)
    } else if code == 0xE0 {
        Some(NtfsAttributeType::EA)
    } else if code == 0xF0 {
        Some(NtfsAttributeType::PropertySet)
    } else if code == 0x100 {
        Some(NtfsAttributeType::LoggedUtilityStream)
    } else if code == 0xFFFF_FFFF {
        Some(NtfsAttributeType::End)
    } else {
        None
    }
}

impl NtfsAttributeType {
    /// Returns the attribute type with the given on-disk type code, or `None` for an unknown code.
    pub fn n(code: u32) -> (r: Option<NtfsAttributeType>)
        ensures
            r == spec_attribute_type_from_code(code),
    {
        if code == 0x10 {
            Some(NtfsAttributeType::StandardInformation)
        } else if code == 0x20 {
            Some(NtfsAttributeType::AttributeList)
        } else if code == 0x30 {
            Some(NtfsAttributeType::FileName)
        } else if code == 0x40 {
            Some(NtfsAttributeType::ObjectId)
        } else if code == 0x50 {
            Some(NtfsAttributeType::SecurityDescriptor)
        } else if code == 0x60 {
            Some(NtfsAttributeType::VolumeName)
        } else if code == 0x70 {
            Some(NtfsAttributeType::VolumeInformation)
        } else if code == 0x80 {
            Some(NtfsAttributeType::Data)
        } else if code == 0x90 {
            Some(NtfsAttributeType::IndexRoot)
        } else if code == 0xA0 {
            Some(NtfsAttributeType::IndexAllocation)
        } else if code == 0xB0 {
            Some(NtfsAttributeType::Bitmap)
        } else if code == 0xC0 {
            Some(NtfsAttributeType::ReparsePoint)
        } else if code == 0xD0 {
            Some(NtfsAttributeType::EAInformation)
        } else if code == 0xE0 {
            Some(NtfsAttributeType::EA)
        } else if code == 0xF0 {
            Some(NtfsAttributeType::PropertySet)
        } else if code == 0x100 {
            Some(NtfsAttributeType::LoggedUtilityStream)
        } else if code == 0xFFFF_FFFF {
            Some(NtfsAttributeType::End)
        } else {
            None
        }
    }

    /// Returns the on-disk type code of this attribute type.
    pub fn code(&self) -> (r: u32)
        ensures
            r == spec_attribute_type_code(*self),
    {
        match self {
            NtfsAttributeType::StandardInformation => 0x10,
            NtfsAttributeType::AttributeList => 0x20,
            NtfsAttributeType::FileName => 0x30,
            NtfsAttributeType::ObjectId => 0x40,
            NtfsAttributeType::SecurityDescriptor => 0x50,
            NtfsAttributeType::VolumeName => 0x60,
            NtfsAttributeType::VolumeInformation => 0x70,
            NtfsAttributeType::Data => 0x80,
            NtfsAttributeType::IndexRoot => 0x90,
            NtfsAttributeType::IndexAllocation => 0xA0,
            NtfsAttributeType::Bitmap => 0xB0,
            NtfsAttributeType::ReparsePoint => 0xC0,
            NtfsAttributeType::EAInformation => 0xD0,
            NtfsAttributeType::EA => 0xE0,
            NtfsAttributeType::PropertySet => 0xF0,
            NtfsAttributeType::LoggedUtilityStream => 0x100,
            NtfsAttributeType::End => 0xFFFF_FFFF,
        }
    }
}

/// Decoding a type code gives back the type it was encoded from.
pub proof fn lemma_attribute_type_code_roundtrip(ty: NtfsAttributeType)
    ensures
        spec_attribute_type_from_code(spec_attribute_type_code(ty)) == Some(ty),
{
}

/// A type code that decodes to a type is that type's code.
pub proof fn lemma_attribute_type_code_injective(code: u32)
    ensures
        spec_attribute_type_from_code(code) matches Some(ty) ==> spec_attribute_type_code(ty)
            == code,
{
}


/// Size of all fields of the generic header of an NTFS Attribute.
pub const ATTRIBUTE_HEADER_SIZE: usize = 16;
/// Byte offset of the attribute length in the attribute header.
pub const ATTRIBUTE_LENGTH_OFFSET: usize = 4;
/// Byte offset of the non-resident flag in the attribute header.
pub const ATTRIBUTE_NON_RESIDENT_OFFSET: usize = 8;
/// Byte offset of the name length (in UTF-16 code units) in the attribute header.
pub const ATTRIBUTE_NAME_LENGTH_OFFSET: usize = 9;
/// Byte offset of the name offset in the attribute header.
pub const ATTRIBUTE_NAME_OFFSET_OFFSET: usize = 10;

/// The name of the attribute at `offset` of the File Record bytes `data`, as UTF-16 code units
/// (none for an attribute without a name).
pub open spec fn spec_attribute_name_units(data: Seq<u8>, offset: usize) -> Seq<u16> {
    let name_offset = spec_u16_le(data, offset + ATTRIBUTE_NAME_OFFSET_OFFSET);
    let name_length = data[offset + ATTRIBUTE_NAME_LENGTH_OFFSET] * 2;
    if name_offset == 0 || name_length == 0 {
        Seq::empty()
    } else {
        spec_utf16_units(data.subrange(offset + name_offset, offset + name_offset + name_length))
    }
}
/// Byte offset of the flags in the attribute header.
pub const ATTRIBUTE_FLAGS_OFFSET: usize = 12;
/// Byte offset of the instance identifier in the attribute header.
pub const ATTRIBUTE_INSTANCE_OFFSET: usize = 14;
/// Byte offset of the value length in the header of a resident attribute.
pub const RESIDENT_VALUE_LENGTH_OFFSET: usize = 16;
/// Byte offset of the value offset in the header of a resident attribute.
pub const RESIDENT_VALUE_OFFSET_OFFSET: usize = 20;
/// Size of the header of a resident attribute up to and including the value offset.
pub const RESIDENT_HEADER_SIZE: usize = 22;
/// Byte offset of the Data Run information offset in the header of a non-resident attribute.
pub const NON_RESIDENT_DATA_RUNS_OFFSET_OFFSET: usize = 32;
/// Byte offset of the data size in the header of a non-resident attribute.
pub const NON_RESIDENT_DATA_SIZE_OFFSET: usize = 48;
/// Size of the header of a non-resident attribute up to and including the data size.
pub const NON_RESIDENT_HEADER_SIZE: usize = 56;

/// Flags returned by [`NtfsAttribute::flags`].
#[derive(Clone, Copy, Debug, Eq, PartialEq, Structural)]
pub struct NtfsAttributeFlags(u16);

impl NtfsAttributeFlags {
    /// The raw bits of the flags.
    pub closed spec fn spec_bits(&self) -> u16 {
        self.0
    }

    /// Keeps the known flags (compressed 0x0001, encrypted 0x4000, sparse 0x8000) of `bits`
    /// and drops all others.
    pub fn from_bits_truncate(bits: u16) -> (r: Self)
        ensures
            r.spec_bits() == bits & 0xC001,
    {
        NtfsAttributeFlags(bits & 0xC001)
    }

    /// Returns the raw bits of the flags.
    pub fn bits(&self) -> (r: u16)
        ensures
            r == self.spec_bits(),
    {
        self.0
    }

    /// Returns `true` if all flags of `other` are set in `self`.
    pub fn contains(&self, other: NtfsAttributeFlags) -> (r: bool)
        ensures
            r == (self.spec_bits() & other.spec_bits() == other.spec_bits()),
    {
        (self.0 & other.0) == other.0
    }
}

/// The outcome of the length checks for an attribute at `offset` within the record bytes `data`:
/// its generic header must fit, and so must its length.
pub open spec fn spec_attribute_length_check(data: Seq<u8>, offset: int, position: NtfsPosition) -> Result<()> {
    let remaining = if offset <= data.len() {
        data.len() - offset
    } else {
        0
    };
    if remaining < ATTRIBUTE_HEADER_SIZE {
        Err(
            NtfsError::InvalidAttributeLength {
                position,
                expected: ATTRIBUTE_HEADER_SIZE,
                actual: remaining as usize,
            },
        )
    } else if spec_u32_le(data, offset + ATTRIBUTE_LENGTH_OFFSET) > remaining {
        Err(
            NtfsError::InvalidAttributeLength {
                position,
                expected: spec_u32_le(data, offset + ATTRIBUTE_LENGTH_OFFSET) as usize,
                actual: remaining as usize,
            },
        )
    } else {
        Ok(())
    }
}

/// A single NTFS Attribute of an [`NtfsFile`].
///
/// This structure is returned by the [`NtfsAttributesRaw`] iterator as well as [`NtfsAttributeItem::to_attribute`].
///
/// Reference: <https://flatcap.github.io/linux-ntfs/ntfs/concepts/attribute_header.html>
#[derive(Debug)]
pub struct NtfsAttribute<'n, 'f> {
    file: &'f NtfsFile<'n>,
    offset: usize,
    /// Has a value if this attribute's value may be split over multiple attributes.
    /// The connected attributes can be iterated using the encapsulated iterator.
    list_entries: Option<&'f NtfsAttributeListEntries<'n, 'f>>,
}

impl<'n, 'f> Clone for NtfsAttribute<'n, 'f> {
    fn clone(&self) -> (r: Self)
        ensures
            r == *self,
    {
        proof {
            use_type_invariant(self);
        }
        NtfsAttribute { file: self.file, offset: self.offset, list_entries: self.list_entries }
    }
}

/// The header fields of an attribute follow the on-disk layout, each little-endian and relative to
/// the start of the attribute: the type code in bytes 0..4, the length in 4..8, the non-resident
/// flag in byte 8, the name length (in UTF-16 code units) in byte 9, the name offset in 10..12 and
/// the instance in 14..16; a resident attribute has its value length in 16..20 and its value
/// offset in 20..22, a non-resident one its Data Run offset in 32..34 and its data size in 48..56.
pub proof fn lemma_attribute_header_layout(a: NtfsAttribute)
    ensures
        ({
            let d = a.spec_data();
            let o = a.spec_offset() as int;
            &&& a.spec_type_code() == spec_le4_value(d, o)
            &&& a.spec_attribute_length() == spec_le4_value(d, o + 4)
            &&& a.spec_is_resident() <==> d[o + 8] == 0
            &&& a.spec_name_length() == 2 * d[o + 9]
            &&& a.spec_name_offset() == spec_le2_value(d, o + 10)
            &&& spec_u16_le(d, o + ATTRIBUTE_INSTANCE_OFFSET) == spec_le2_value(d, o + 14)
            &&& a.spec_resident_value_length() == spec_le4_value(d, o + 16)
            &&& a.spec_resident_value_offset() == spec_le2_value(d, o + 20)
            &&& a.spec_data_runs_offset() == spec_le2_value(d, o + 32)
            &&& a.spec_non_resident_data_size() == spec_le8_value(d, o + 48)
        }),
{
}

impl<'n, 'f> NtfsAttribute<'n, 'f> {
    #[verifier::type_invariant]
    spec fn inv(&self) -> bool {
        &&& self.file.wf()
        &&& self.offset + ATTRIBUTE_HEADER_SIZE <= self.file.spec_data().len()
        &&& self.offset + spec_u32_le(self.file.spec_data(), self.offset + ATTRIBUTE_LENGTH_OFFSET)
            <= self.file.spec_data().len()
    }

    /// The file the attribute belongs to.
    pub closed spec fn spec_file(&self) -> NtfsFile<'n> {
        *self.file
    }

    /// The offset of the attribute within the File Record.
    pub closed spec fn spec_offset(&self) -> usize {
        self.offset
    }

    /// Whether the attribute value may be continued by connected attributes of an Attribute List.
    pub closed spec fn spec_has_list_entries(&self) -> bool {
        self.list_entries is Some
    }

    /// The bytes of the File Record holding the attribute.
    pub open spec fn spec_data(&self) -> Seq<u8> {
        self.spec_file().spec_data()
    }

    /// The length of the attribute structure, in bytes.
    pub open spec fn spec_attribute_length(&self) -> u32 {
        spec_u32_le(self.spec_data(), self.spec_offset() + ATTRIBUTE_LENGTH_OFFSET)
    }

    /// The raw type code of the attribute.
    pub open spec fn spec_type_code(&self) -> u32 {
        spec_u32_le(self.spec_data(), self.spec_offset() as int)
    }

    /// Whether the attribute value is resident.
    pub open spec fn spec_is_resident(&self) -> bool {
        self.spec_data()[self.spec_offset() + ATTRIBUTE_NON_RESIDENT_OFFSET] == 0
    }

    /// The offset of the name, relative to the attribute.
    pub open spec fn spec_name_offset(&self) -> u16 {
        spec_u16_le(self.spec_data(), self.spec_offset() + ATTRIBUTE_NAME_OFFSET_OFFSET)
    }

    /// The length of the name, in bytes.
    pub open spec fn spec_name_length(&self) -> nat {
        self.spec_data()[self.spec_offset() + ATTRIBUTE_NAME_LENGTH_OFFSET] as nat * 2
    }

    /// The absolute position of the attribute within the filesystem.
    pub open spec fn spec_position(&self) -> NtfsPosition {
        self.spec_file().spec_position().spec_add(self.spec_offset() as u64)
    }

    /// Whether the header fields describing the value lie within the File Record
    /// (they extend beyond the generic header).
    pub open spec fn spec_value_header_fits(&self) -> bool {
        if self.spec_is_resident() {
            self.spec_offset() + RESIDENT_HEADER_SIZE <= self.spec_data().len()
        } else {
            self.spec_offset() + NON_RESIDENT_HEADER_SIZE <= self.spec_data().len()
        }
    }

    /// The length of the value of a resident attribute, in bytes.
    pub open spec fn spec_resident_value_length(&self) -> u32 {
        spec_u32_le(self.spec_data(), self.spec_offset() + RESIDENT_VALUE_LENGTH_OFFSET)
    }

    /// The offset of the value of a resident attribute, relative to the attribute.
    pub open spec fn spec_resident_value_offset(&self) -> u16 {
        spec_u16_le(self.spec_data(), self.spec_offset() + RESIDENT_VALUE_OFFSET_OFFSET)
    }

    /// The data size of the value of a non-resident attribute, in bytes.
    pub open spec fn spec_non_resident_data_size(&self) -> u64 {
        spec_u64_le(self.spec_data(), self.spec_offset() + NON_RESIDENT_DATA_SIZE_OFFSET)
    }

    /// The offset of the Data Run information of a non-resident attribute, relative to the attribute.
    pub open spec fn spec_data_runs_offset(&self) -> u16 {
        spec_u16_le(self.spec_data(), self.spec_offset() + NON_RESIDENT_DATA_RUNS_OFFSET_OFFSET)
    }

    /// Creates the attribute at `offset` within the File Record of `file`, after checking
    /// that its header and its length fit into the record.
    pub fn new(
        file: &'f NtfsFile<'n>,
        offset: usize,
        list_entries: Option<&'f NtfsAttributeListEntries<'n, 'f>>,
    ) -> (r: Result<Self>)
        requires
            file.wf(),
        ensures
            ({
                let position = file.spec_position().spec_add(offset as u64);
                match spec_attribute_length_check(file.spec_data(), offset as int, position) {
                    Ok(()) => r matches Ok(a) && a.spec_file() == *file && a.spec_offset() == offset
                        && (a.spec_has_list_entries() <==> list_entries is Some),
                    Err(e) => r == Err::<Self, NtfsError>(e),
                }
            }),
    {
        let data = file.record_data();
        let end = data.len();
        let remaining_length: usize = if offset <= end {
            end - offset
        } else {
            0
        };
        let position = file.position().add_offset(offset as u64);
        if remaining_length < ATTRIBUTE_HEADER_SIZE {
            return Err(
                NtfsError::InvalidAttributeLength {
                    position,
                    expected: ATTRIBUTE_HEADER_SIZE,
                    actual: remaining_length,
                },
            );
        }
        let attribute_length = read_u32_le(data, offset + ATTRIBUTE_LENGTH_OFFSET) as usize;
        if attribute_length > remaining_length {
            return Err(
                NtfsError::InvalidAttributeLength {
                    position,
                    expected: attribute_length,
                    actual: remaining_length,
                },
            );
        }
        Ok(NtfsAttribute { file, offset, list_entries })
    }

    /// Returns the length of this NTFS Attribute, in bytes.
    ///
    /// This denotes the length of the attribute structure on disk.
    /// Apart from various headers, this structure also includes the name and,
    /// for resident attributes, the actual value.
    pub fn attribute_length(&self) -> (r: u32)
        ensures
            r == self.spec_attribute_length(),
    {
        proof {
            use_type_invariant(self);
            self.file.lemma_wf();
        }
        read_u32_le(self.file.record_data(), self.offset + ATTRIBUTE_LENGTH_OFFSET)
    }

    /// Checks that this attribute has the type `expected`.
    pub fn ensure_ty(&self, expected: NtfsAttributeType) -> (r: Result<()>)
        ensures
            match spec_attribute_type_from_code(self.spec_type_code()) {
                None => r == Err::<(), NtfsError>(
                    NtfsError::UnsupportedAttributeType {
                        position: self.spec_position(),
                        actual: self.spec_type_code(),
                    },
                ),
                Some(ty) => if ty == expected {
                    r is Ok
                } else {
                    r == Err::<(), NtfsError>(
                        NtfsError::AttributeOfDifferentType {
                            position: self.spec_position(),
                            expected,
                            actual: ty,
                        },
                    )
                },
            },
    {
        let ty = match self.ty() {
            Ok(ty) => ty,
            Err(e) => return Err(e),
        };
        if ty != expected {
            return Err(
                NtfsError::AttributeOfDifferentType { position: self.position(), expected, actual: ty },
            );
        }
        Ok(())
    }

    /// Returns flags set for this attribute as specified by [`NtfsAttributeFlags`].
    pub fn flags(&self) -> (r: NtfsAttributeFlags)
        ensures
            r.spec_bits() == spec_u16_le(self.spec_data(), self.spec_offset() + ATTRIBUTE_FLAGS_OFFSET)
                & 0xC001,
    {
        proof {
            use_type_invariant(self);
            self.file.lemma_wf();
        }
        NtfsAttributeFlags::from_bits_truncate(
            read_u16_le(self.file.record_data(), self.offset + ATTRIBUTE_FLAGS_OFFSET),
        )
    }

    /// Returns the identifier of this attribute that is unique within the [`NtfsFile`].
    pub fn instance(&self) -> (r: u16)
        ensures
            r == spec_u16_le(self.spec_data(), self.spec_offset() + ATTRIBUTE_INSTANCE_OFFSET),
    {
        proof {
            use_type_invariant(self);
            self.file.lemma_wf();
        }
        read_u16_le(self.file.record_data(), self.offset + ATTRIBUTE_INSTANCE_OFFSET)
    }

    /// Returns `true` if this is a resident attribute, i.e. one where its value
    /// is part of the attribute structure.
    pub fn is_resident(&self) -> (r: bool)
        ensures
            r == self.spec_is_resident(),
    {
        proof {
            use_type_invariant(self);
            self.file.lemma_wf();
        }
        self.file.record_data()[self.offset + ATTRIBUTE_NON_RESIDENT_OFFSET] == 0
    }

    /// Gets the name of this NTFS Attribute (if any) and returns it wrapped in an [`NtfsString`].
    ///
    /// Note that most NTFS attributes have no name and are distinguished by their types.
    /// Use [`NtfsAttribute::ty`] to get the attribute type.
    pub fn name(&self) -> (r: Result<NtfsString<'f>>)
        ensures
            ({
                let start = self.spec_offset() + self.spec_name_offset();
                let end = start + self.spec_name_length();
                if self.spec_name_offset() == 0 || self.spec_name_length() == 0 {
                    r matches Ok(s) && s.0@.len() == 0
                } else if self.spec_name_offset() >= self.spec_attribute_length() {
                    r == Err::<NtfsString<'f>, NtfsError>(
                        NtfsError::InvalidAttributeNameOffset {
                            position: self.spec_position(),
                            expected: self.spec_name_offset(),
                            actual: self.spec_attribute_length(),
                        },
                    )
                } else if self.spec_name_offset() + self.spec_name_length()
                    > self.spec_attribute_length() {
                    r == Err::<NtfsString<'f>, NtfsError>(
                        NtfsError::InvalidAttributeNameLength {
                            position: self.spec_position(),
                            expected: (self.spec_name_offset() + self.spec_name_length()) as usize,
                            actual: self.spec_attribute_length(),
                        },
                    )
                } else {
                    r matches Ok(s) && s.0@ == self.spec_data().subrange(start, end)
                }
            }),
    {
        proof {
            use_type_invariant(self);
            self.file.lemma_wf();
        }
        let name_offset = self.name_offset();
        let name_length = self.name_length();
        if name_offset == 0 || name_length == 0 {
            return Ok(NtfsString(&[]));
        }
        match self.validate_name_sizes() {
            Ok(()) => {},
            Err(e) => return Err(e),
        }
        let start = self.offset + name_offset as usize;
        let end = start + name_length;
        let data = self.file.record_data();
        Ok(NtfsString(slice_subrange(data, start, end)))
    }

    fn name_offset(&self) -> (r: u16)
        ensures
            r == self.spec_name_offset(),
    {
        proof {
            use_type_invariant(self);
            self.file.lemma_wf();
        }
        read_u16_le(self.file.record_data(), self.offset + ATTRIBUTE_NAME_OFFSET_OFFSET)
    }

    /// Returns the length of the name of this NTFS Attribute, in bytes.
    ///
    /// An attribute name has a maximum length of 255 UTF-16 code points (510 bytes).
    /// It is always part of the attribute itself and hence also of the length
    /// returned by [`NtfsAttribute::attribute_length`].
    pub fn name_length(&self) -> (r: usize)
        ensures
            r == self.spec_name_length(),
    {
        proof {
            use_type_invariant(self);
            self.file.lemma_wf();
        }
        let name_length_in_characters = self.file.record_data()[self.offset
            + ATTRIBUTE_NAME_LENGTH_OFFSET];
        name_length_in_characters as usize * 2
    }

    fn validate_name_sizes(&self) -> (r: Result<()>)
        ensures
            if self.spec_name_offset() >= self.spec_attribute_length() {
                r == Err::<(), NtfsError>(
                    NtfsError::InvalidAttributeNameOffset {
                        position: self.spec_position(),
                        expected: self.spec_name_offset(),
                        actual: self.spec_attribute_length(),
                    },
                )
            } else if self.spec_name_offset() + self.spec_name_length()
                > self.spec_attribute_length() {
                r == Err::<(), NtfsError>(
                    NtfsError::InvalidAttributeNameLength {
                        position: self.spec_position(),
                        expected: (self.spec_name_offset() + self.spec_name_length()) as usize,
                        actual: self.spec_attribute_length(),
                    },
                )
            } else {
                r is Ok
            },
    {
        let start = self.name_offset();
        let attribute_length = self.attribute_length();
        if start as u32 >= attribute_length {
            return Err(
                NtfsError::InvalidAttributeNameOffset {
                    position: self.position(),
                    expected: start,
                    actual: attribute_length,
                },
            );
        }
        let end = start as usize + self.name_length();
        if end > attribute_length as usize {
            return Err(
                NtfsError::InvalidAttributeNameLength {
                    position: self.position(),
                    expected: end,
                    actual: attribute_length,
                },
            );
        }
        Ok(())
    }

    /// Returns the offset of this attribute within the File Record.
    pub fn offset(&self) -> (r: usize)
        ensures
            r == self.spec_offset(),
            self.spec_file().wf(),
            r + ATTRIBUTE_HEADER_SIZE <= self.spec_data().len(),
            r + self.spec_attribute_length() <= self.spec_data().len(),
    {
        proof {
            use_type_invariant(self);
            self.file.lemma_wf();
        }
        self.offset
    }

    /// Returns the absolute position of this NTFS Attribute within the filesystem, in bytes.
    pub fn position(&self) -> (r: NtfsPosition)
        ensures
            r == self.spec_position(),
    {
        self.file.position().add_offset(self.offset as u64)
    }

    /// Returns the type of this NTFS Attribute, or [`NtfsError::UnsupportedAttributeType`]
    /// if it's an unknown type.
    pub fn ty(&self) -> (r: Result<NtfsAttributeType>)
        ensures
            match spec_attribute_type_from_code(self.spec_type_code()) {
                Some(ty) => r == Ok::<NtfsAttributeType, NtfsError>(ty),
                None => r == Err::<NtfsAttributeType, NtfsError>(
                    NtfsError::UnsupportedAttributeType {
                        position: self.spec_position(),
                        actual: self.spec_type_code(),
                    },
                ),
            },
    {
        proof {
            use_type_invariant(self);
            self.file.lemma_wf();
        }
        let ty = read_u32_le(self.file.record_data(), self.offset);
        match NtfsAttributeType::n(ty) {
            Some(t) => Ok(t),
            None => Err(NtfsError::UnsupportedAttributeType { position: self.position(), actual: ty }),
        }
    }

    /// The error for header fields describing the value that do not lie within the File Record.
    pub open spec fn spec_value_header_error(&self) -> NtfsError {
        NtfsError::InvalidAttributeLength {
            position: self.spec_position(),
            expected: if self.spec_is_resident() {
                RESIDENT_HEADER_SIZE
            } else {
                NON_RESIDENT_HEADER_SIZE
            },
            actual: (self.spec_data().len() - self.spec_offset()) as usize,
        }
    }

    /// Returns the error for header fields describing the value that do not lie within the File Record.
    pub fn value_header_error(&self) -> (r: NtfsError)
        ensures
            r == self.spec_value_header_error(),
    {
        proof {
            use_type_invariant(self);
            self.file.lemma_wf();
        }
        let expected = if self.is_resident() {
            RESIDENT_HEADER_SIZE
        } else {
            NON_RESIDENT_HEADER_SIZE
        };
        NtfsError::InvalidAttributeLength {
            position: self.position(),
            expected,
            actual: self.file.record_data().len() - self.offset,
        }
    }

    /// Returns whether the header fields describing the value lie within the File Record.
    pub fn value_header_fits(&self) -> (r: bool)
        ensures
            r == self.spec_value_header_fits(),
    {
        proof {
            use_type_invariant(self);
            self.file.lemma_wf();
        }
        let len = self.file.record_data().len();
        if self.is_resident() {
            len - self.offset >= RESIDENT_HEADER_SIZE
        } else {
            len - self.offset >= NON_RESIDENT_HEADER_SIZE
        }
    }

    fn resident_value_length(&self) -> (r: u32)
        requires
            self.spec_offset() + RESIDENT_HEADER_SIZE <= self.spec_data().len(),
        ensures
            r == self.spec_resident_value_length(),
    {
        proof {
            use_type_invariant(self);
            self.file.lemma_wf();
        }
        read_u32_le(self.file.record_data(), self.offset + RESIDENT_VALUE_LENGTH_OFFSET)
    }

    fn resident_value_offset(&self) -> (r: u16)
        requires
            self.spec_offset() + RESIDENT_HEADER_SIZE <= self.spec_data().len(),
        ensures
            r == self.spec_resident_value_offset(),
    {
        proof {
            use_type_invariant(self);
            self.file.lemma_wf();
        }
        read_u16_le(self.file.record_data(), self.offset + RESIDENT_VALUE_OFFSET_OFFSET)
    }

    fn non_resident_value_data_size(&self) -> (r: u64)
        requires
            self.spec_offset() + NON_RESIDENT_HEADER_SIZE <= self.spec_data().len(),
        ensures
            r == self.spec_non_resident_data_size(),
    {
        proof {
            use_type_invariant(self);
            self.file.lemma_wf();
        }
        read_u64_le(self.file.record_data(), self.offset + NON_RESIDENT_DATA_SIZE_OFFSET)
    }

    fn non_resident_value_data_runs_offset(&self) -> (r: u16)
        requires
            self.spec_offset() + NON_RESIDENT_HEADER_SIZE <= self.spec_data().len(),
        ensures
            r == self.spec_data_runs_offset(),
    {
        proof {
            use_type_invariant(self);
            self.file.lemma_wf();
        }
        read_u16_le(self.file.record_data(), self.offset + NON_RESIDENT_DATA_RUNS_OFFSET_OFFSET)
    }

    /// The outcome of the checks that the value of a resident attribute lies within the attribute.
    pub open spec fn spec_resident_value_check(&self) -> Result<()> {
        let start = self.spec_resident_value_offset();
        let length = self.spec_resident_value_length();
        if start > self.spec_attribute_length() {
            Err(
                NtfsError::InvalidResidentAttributeValueOffset {
                    position: self.spec_position(),
                    expected: start,
                    actual: self.spec_attribute_length(),
                },
            )
        } else if start + length > self.spec_attribute_length() {
            Err(
                NtfsError::InvalidResidentAttributeValueLength {
                    position: self.spec_position(),
                    length,
                    offset: start,
                    actual: self.spec_attribute_length(),
                },
            )
        } else {
            Ok(())
        }
    }

    fn validate_resident_value_sizes(&self) -> (r: Result<()>)
        requires
            self.spec_offset() + RESIDENT_HEADER_SIZE <= self.spec_data().len(),
        ensures
            r == self.spec_resident_value_check(),
    {
        proof {
            use_type_invariant(self);
            self.file.lemma_wf();
        }
        let start = self.resident_value_offset();
        let attribute_length = self.attribute_length();
        if start as u32 > attribute_length {
            return Err(
                NtfsError::InvalidResidentAttributeValueOffset {
                    position: self.position(),
                    expected: start,
                    actual: attribute_length,
                },
            );
        }
        let length = self.resident_value_length();
        let end = (start as u32).saturating_add(length);
        if end > attribute_length {
            return Err(
                NtfsError::InvalidResidentAttributeValueLength {
                    position: self.position(),
                    length,
                    offset: start,
                    actual: attribute_length,
                },
            );
        }
        Ok(())
    }

    /// Returns a reader for the value of a resident attribute, after checking that the value
    /// lies within the attribute.
    pub fn resident_value(&self) -> (r: Result<NtfsResidentAttributeValue<'f>>)
        requires
            self.spec_offset() + RESIDENT_HEADER_SIZE <= self.spec_data().len(),
        ensures
            match self.spec_resident_value_check() {
                Err(e) => r == Err::<NtfsResidentAttributeValue<'f>, NtfsError>(e),
                Ok(()) => r matches Ok(v) && v.spec_data() == self.spec_data().subrange(
                    self.spec_offset() + self.spec_resident_value_offset(),
                    self.spec_offset() + self.spec_resident_value_offset()
                        + self.spec_resident_value_length(),
                ) && v.spec_data().len() == self.spec_resident_value_length()
                    && v.spec_position() == self.spec_position() && v.spec_stream_position() == 0,
            },
    {
        proof {
            use_type_invariant(self);
            self.file.lemma_wf();
        }
        match self.validate_resident_value_sizes() {
            Ok(()) => {},
            Err(e) => return Err(e),
        }
        let start = self.offset + self.resident_value_offset() as usize;
        let end = start + self.resident_value_length() as usize;
        let data = slice_subrange(self.file.record_data(), start, end);
        Ok(NtfsResidentAttributeValue::new(data, self.position()))
    }

    /// Returns the Data Run information of a non-resident attribute and its absolute position,
    /// or an error if it does not lie within the File Record.
    pub fn non_resident_value_data_and_position(&self) -> (r: Result<(&'f [u8], NtfsPosition)>)
        requires
            self.spec_offset() + NON_RESIDENT_HEADER_SIZE <= self.spec_data().len(),
        ensures
            ({
                let start = self.spec_offset() + self.spec_data_runs_offset();
                let end = self.spec_offset() + self.spec_attribute_length();
                let position = self.spec_file().spec_position().spec_add(start as u64);
                if start <= end {
                    r matches Ok((d, p)) && d@ == self.spec_data().subrange(start, end) && p
                        == position
                } else {
                    r == Err::<(&'f [u8], NtfsPosition), NtfsError>(
                        NtfsError::InvalidNonResidentValueDataRange {
                            position,
                            range: Range { start: start as usize, end: end as usize },
                            size: self.spec_data().len() as usize,
                        },
                    )
                }
            }),
    {
        proof {
            use_type_invariant(self);
            self.file.lemma_wf();
        }
        let start = self.offset + self.non_resident_value_data_runs_offset() as usize;
        let end = self.offset + self.attribute_length() as usize;
        let position = self.file.position().add_offset(start as u64);
        let data = self.file.record_data();
        if start > end {
            return Err(
                NtfsError::InvalidNonResidentValueDataRange {
                    position,
                    range: Range { start, end },
                    size: data.len(),
                },
            );
        }
        Ok((slice_subrange(data, start, end), position))
    }

    /// Returns a reader for the value of a non-resident attribute.
    pub fn non_resident_value(&self) -> (r: Result<NtfsNonResidentAttributeValue<'n, 'f>>)
        requires
            self.spec_offset() + NON_RESIDENT_HEADER_SIZE <= self.spec_data().len(),
        ensures
            r matches Ok(v) ==> v.spec_ntfs() == self.spec_file().spec_ntfs() && v.spec_data_size()
                == self.spec_non_resident_data_size() && v.spec_stream_position() == 0
                && v.spec_data() == self.spec_data().subrange(
                self.spec_offset() + self.spec_data_runs_offset(),
                self.spec_offset() + self.spec_attribute_length(),
            ),
            r matches Ok(v) ==> forall|j: int|
                0 <= j ==> #[trigger] v.spec_location(j) == spec_non_resident_location(
                    self.spec_file(),
                    self.spec_offset(),
                    j,
                ),
            r matches Ok(v) ==> forall|j: int|
                0 <= j ==> #[trigger] v.spec_start_location(j) == spec_non_resident_location(
                    self.spec_file(),
                    self.spec_offset(),
                    j,
                ),
            r matches Ok(v) ==> v.spec_data_run() is None || spec_run_has_bytes(v.spec_data_run()),
    {
        let (data, position) = match self.non_resident_value_data_and_position() {
            Ok(v) => v,
            Err(e) => return Err(e),
        };
        NtfsNonResidentAttributeValue::new(
            self.file.ntfs(),
            data,
            position,
            self.non_resident_value_data_size(),
        )
    }

    /// Returns an [`NtfsAttributeValue`] structure to read the value of this NTFS Attribute.
    ///
    /// Fails with [`NtfsError::InvalidAttributeLength`] if the header fields describing the value
    /// do not lie within the File Record.
    pub fn value<T>(&self, fs: &mut T) -> (r: Result<NtfsAttributeValue<'n, 'f>>) where
        T: Read + Seek,
        ensures
            final(fs).source() == old(fs).source(),
            !self.spec_has_list_entries() ==> {
                &&& !self.spec_value_header_fits() ==> r == Err::<NtfsAttributeValue<'n, 'f>, NtfsError>(
                    self.spec_value_header_error(),
                )
                &&& r matches Ok(v) ==> !(v is AttributeListNonResident) && (v is Resident
                    <==> self.spec_is_resident()) && v.spec_len() == (if self.spec_is_resident() {
                    self.spec_resident_value_length() as nat
                } else {
                    self.spec_non_resident_data_size() as nat
                }) && v.spec_stream_position() == 0
                &&& self.spec_value_header_fits() && self.spec_is_resident() ==> (r is Ok
                    <==> self.spec_resident_value_check() is Ok)
            },
            self.spec_has_list_entries() ==> (r matches Ok(v) ==> v is AttributeListNonResident
                && v.spec_len() == self.spec_non_resident_data_size() as nat
                && v.spec_stream_position() == 0),
            !self.spec_has_list_entries() && self.spec_value_header_fits() && self.spec_is_resident()
                && self.spec_resident_value_check() is Ok ==> (r matches Ok(
                NtfsAttributeValue::Resident(v),
            ) && v.spec_data() == self.spec_data().subrange(
                self.spec_offset() + self.spec_resident_value_offset(),
                self.spec_offset() + self.spec_resident_value_offset()
                    + self.spec_resident_value_length(),
            ) && v.spec_position() == self.spec_position() && v.spec_stream_position() == 0),
            !self.spec_has_list_entries() && !self.spec_is_resident() ==> (r matches Ok(v)
                ==> spec_non_resident_value_of(self.spec_file(), self.spec_offset(), v)),
    {
        proof {
            use_type_invariant(self);
            self.file.lemma_wf();
        }
        if let Some(list_entries) = self.list_entries {
            // The first attribute reports the entire data size for all connected attributes
            // (remaining ones are set to zero).
            // Fortunately, we are the first attribute :)
            if self.file.record_data().len() - self.offset < NON_RESIDENT_HEADER_SIZE {
                return Err(self.value_header_error());
            }
            let data_size = self.non_resident_value_data_size();
            let ty = match self.ty() {
                Ok(t) => t,
                Err(e) => return Err(e),
            };
            return match NtfsAttributeListNonResidentAttributeValue::new(
                self.file.ntfs(),
                fs,
                list_entries.clone(),
                self.instance(),
                ty,
                data_size,
            ) {
                Ok(value) => Ok(NtfsAttributeValue::AttributeListNonResident(value)),
                Err(e) => Err(e),
            };
        }
        if !self.value_header_fits() {
            return Err(self.value_header_error());
        }
        if self.is_resident() {
            match self.resident_value() {
                Ok(value) => Ok(NtfsAttributeValue::Resident(value)),
                Err(e) => Err(e),
            }
        } else {
            match self.non_resident_value() {
                Ok(value) => Ok(NtfsAttributeValue::NonResident(value)),
                Err(e) => Err(e),
            }
        }
    }

    /// Attempts to parse the value data as the given resident structured value type and returns that.
    ///
    /// This is a fast path for attributes that are always resident.
    /// It doesn't need a reference to the filesystem reader.
    ///
    /// This function first checks that the attribute is of the required type for that structured value
    /// and if it's a resident attribute.
    /// It returns with an error if that is not the case.
    /// It also returns an error for any parsing problem.
    pub fn resident_structured_value<S>(&self) -> (r: Result<S>) where
        S: NtfsStructuredValueFromResidentAttributeValue<'n, 'f>,
        ensures
            spec_attribute_type_from_code(self.spec_type_code()) != Some(S::spec_ty()) ==> r is Err,
            !self.spec_is_resident() ==> r is Err,
            r is Ok ==> {
                &&& spec_attribute_type_from_code(self.spec_type_code()) == Some(S::spec_ty())
                &&& self.spec_is_resident()
                &&& self.spec_value_header_fits()
                &&& self.spec_resident_value_check() is Ok
            },
            ({
                &&& spec_attribute_type_from_code(self.spec_type_code()) == Some(S::spec_ty())
                &&& self.spec_is_resident()
                &&& self.spec_value_header_fits()
                &&& self.spec_resident_value_check() is Ok
            }) ==> S::spec_parsed_resident(
                self.spec_data().subrange(
                    self.spec_offset() + self.spec_resident_value_offset(),
                    self.spec_offset() + self.spec_resident_value_offset()
                        + self.spec_resident_value_length(),
                ),
                self.spec_position().spec_add(0),
                r,
            ),
            !({
                &&& spec_attribute_type_from_code(self.spec_type_code()) == Some(S::spec_ty())
                &&& self.spec_is_resident()
                &&& self.spec_value_header_fits()
                &&& self.spec_resident_value_check() is Ok
            }) ==> !(r matches Err(NtfsError::AttributeNotFound { .. })),
            match spec_attribute_type_from_code(self.spec_type_code()) {
                None => r == Err::<S, NtfsError>(
                    NtfsError::UnsupportedAttributeType {
                        position: self.spec_position(),
                        actual: self.spec_type_code(),
                    },
                ),
                Some(ty) => if ty != S::spec_ty() {
                    r == Err::<S, NtfsError>(
                        NtfsError::AttributeOfDifferentType {
                            position: self.spec_position(),
                            expected: S::spec_ty(),
                            actual: ty,
                        },
                    )
                } else if !self.spec_is_resident() {
                    r == Err::<S, NtfsError>(
                        NtfsError::UnexpectedNonResidentAttribute { position: self.spec_position() },
                    )
                } else if !self.spec_value_header_fits() {
                    r == Err::<S, NtfsError>(self.spec_value_header_error())
                } else {
                    self.spec_resident_value_check() matches Err(e) ==> r == Err::<S, NtfsError>(e)
                },
            },
    {
        match self.ensure_ty(S::ty()) {
            Ok(()) => {},
            Err(e) => return Err(e),
        }
        if !self.is_resident() {
            return Err(NtfsError::UnexpectedNonResidentAttribute { position: self.position() });
        }
        if !self.value_header_fits() {
            return Err(self.value_header_error());
        }
        let resident_value = match self.resident_value() {
            Ok(v) => v,
            Err(e) => return Err(e),
        };
        S::from_resident_attribute_value(resident_value)
    }

    /// Attempts to parse the value data as the given structured value type and returns that.
    ///
    /// This function first checks that the attribute is of the required type for that structured value.
    /// It returns with an error if that is not the case.
    /// It also returns an error for any parsing problem.
    pub fn structured_value<T, S>(&self, fs: &mut T) -> (r: Result<S>) where
        T: Read + Seek,
        S: NtfsStructuredValue<'n, 'f>,
        ensures
            final(fs).source() == old(fs).source(),
            spec_attribute_type_from_code(self.spec_type_code()) != Some(S::spec_structured_ty())
                ==> r is Err,
            spec_attribute_type_from_code(self.spec_type_code()) == Some(S::spec_structured_ty())
                && !self.spec_has_list_entries() && self.spec_value_header_fits()
                && self.spec_is_resident() && self.spec_resident_value_check() is Ok ==> exists|
                v: NtfsResidentAttributeValue<'f>,
            |
                #![trigger S::spec_from_value(NtfsAttributeValue::Resident(v), old(fs).source(), r)]
                {
                    &&& v.spec_data() == self.spec_data().subrange(
                        self.spec_offset() + self.spec_resident_value_offset(),
                        self.spec_offset() + self.spec_resident_value_offset()
                            + self.spec_resident_value_length(),
                    )
                    &&& v.spec_position() == self.spec_position()
                    &&& v.spec_stream_position() == 0
                    &&& S::spec_from_value(NtfsAttributeValue::Resident(v), old(fs).source(), r)
                },
            r is Ok ==> exists|v: NtfsAttributeValue<'n, 'f>|
                #![trigger S::spec_from_value(v, old(fs).source(), r)]
                {
                    &&& S::spec_from_value(v, old(fs).source(), r)
                    &&& self.spec_has_list_entries() ==> v is AttributeListNonResident
                    &&& !self.spec_has_list_entries() && self.spec_is_resident() ==> v is Resident
                    &&& !self.spec_has_list_entries() && !self.spec_is_resident()
                        ==> spec_non_resident_value_of(self.spec_file(), self.spec_offset(), v)
                },
    {
        match self.ensure_ty(S::structured_ty()) {
            Ok(()) => {},
            Err(e) => return Err(e),
        }
        let value = match self.value(fs) {
            Ok(v) => v,
            Err(e) => return Err(e),
        };
        let ghost v = value;
        let r = S::from_attribute_value(fs, value);
        proof {
            assert(S::spec_from_value(v, old(fs).source(), r));
        }
        r
    }

    /// Returns the length of the value data of this NTFS Attribute, in bytes.
    pub fn value_length(&self) -> (r: u64)
        requires
            self.spec_value_header_fits(),
        ensures
            r == if self.spec_is_resident() {
                self.spec_resident_value_length() as u64
            } else {
                self.spec_non_resident_data_size()
            },
    {
        if self.is_resident() {
            self.resident_value_length() as u64
        } else {
            self.non_resident_value_data_size()
        }
    }
}

/// One step of the iteration over the top-level attributes of a File Record.
pub enum AttributesRawStep {
    /// There are no further attributes.
    End,
    /// The attribute at the current offset is invalid.
    Error(NtfsError),
    /// The attribute at the current offset; the iteration continues at `next`.
    Attribute { next: usize },
}

/// One step of the iteration over the top-level attributes of the File Record bytes `data`
/// (at `file_position` within the filesystem) at offset `start`.
///
/// The attribute list ends at the end marker type code `0xFFFF_FFFF`, at an attribute of
/// length zero, or where not even a type code fits into the record.
pub open spec fn spec_attributes_raw_next(
    data: Seq<u8>,
    start: usize,
    file_position: NtfsPosition,
) -> AttributesRawStep {
    if start + 4 > data.len() {
        AttributesRawStep::End
    } else if spec_u32_le(data, start as int) == 0xFFFF_FFFF {
        AttributesRawStep::End
    } else {
        match spec_attribute_length_check(data, start as int, file_position.spec_add(start as u64)) {
            Err(e) => AttributesRawStep::Error(e),
            Ok(()) => {
                let length = spec_u32_le(data, start + ATTRIBUTE_LENGTH_OFFSET);
                if length == 0 {
                    AttributesRawStep::End
                } else {
                    AttributesRawStep::Attribute { next: (start + length) as usize }
                }
            },
        }
    }
}

/// Whether iterating over the top-level attributes of the File Record bytes `data` (at `position`)
/// from `start` on reaches an attribute at `offset`.
pub open spec fn spec_raw_visits(data: Seq<u8>, start: usize, position: NtfsPosition, offset: usize) -> bool
    decreases data.len() - start,
{
    match spec_attributes_raw_next(data, start, position) {
        AttributesRawStep::Attribute { next } => offset == start || (start < next && next <= data.len()
            && spec_raw_visits(data, next, position, offset)),
        _ => false,
    }
}

/// Whether the attribute at `offset` of the File Record bytes `data` is of type `ty` and, where
/// asked for, has the instance number `match_instance` and the name `match_name`.
pub open spec fn spec_attribute_matches(
    data: Seq<u8>,
    offset: usize,
    ty: NtfsAttributeType,
    match_name: Option<&str>,
    match_instance: Option<u16>,
) -> bool {
    &&& spec_attribute_type_from_code(spec_type_code_at(data, offset)) == Some(ty)
    &&& match_instance matches Some(i) ==> spec_u16_le(data, offset + ATTRIBUTE_INSTANCE_OFFSET) == i
    &&& match_name matches Some(n) ==> spec_attribute_name_units(data, offset) == spec_encode_utf16(n@)
}

/// Whether the attribute at `offset` of the File Record bytes `data` is resident and its value lies
/// within the attribute, so that it is read from the bytes [`spec_resident_value_bytes`] gives.
pub open spec fn spec_resident_value_readable(data: Seq<u8>, offset: usize) -> bool {
    let start = spec_u16_le(data, offset + RESIDENT_VALUE_OFFSET_OFFSET);
    let length = spec_u32_le(data, offset + RESIDENT_VALUE_LENGTH_OFFSET);
    let attribute_length = spec_u32_le(data, offset + ATTRIBUTE_LENGTH_OFFSET);
    &&& data[offset + ATTRIBUTE_NON_RESIDENT_OFFSET] == 0
    &&& offset + RESIDENT_HEADER_SIZE <= data.len()
    &&& start <= attribute_length
    &&& start + length <= attribute_length
}

/// Whether the attribute at `offset` of the File Record bytes `data` is the $DATA attribute named
/// `name`: one without a name for an empty `name`, otherwise one whose name equals `name` in
/// uppercase, by the $UpCase table `table`.
pub open spec fn spec_data_stream_matches(data: Seq<u8>, offset: usize, name: Seq<char>, table: Seq<u16>) -> bool {
    &&& spec_attribute_type_from_code(spec_type_code_at(data, offset)) == Some(NtfsAttributeType::Data)
    &&& if name.len() == 0 {
        spec_attribute_name_units(data, offset).len() == 0
    } else {
        spec_uppercase_units(spec_attribute_name_units(data, offset), table) == spec_uppercase_units(
            spec_encode_utf16(name),
            table,
        )
    }
}

/// Iterator over all top-level attributes of an [`NtfsFile`], returning an [`NtfsAttribute`] for each entry.
///
/// This iterator is returned from the [`NtfsFile::attributes_raw`] function.
/// Contrary to [`NtfsAttributes`], it does not traverse $ATTRIBUTE_LIST attributes and returns them
/// as raw [`NtfsAttribute`]s.
#[derive(Debug)]
pub struct NtfsAttributesRaw<'n, 'f> {
    file: &'f NtfsFile<'n>,
    items_range: Range<usize>,
}

impl<'n, 'f> NtfsAttributesRaw<'n, 'f> {
    #[verifier::type_invariant]
    spec fn inv(&self) -> bool {
        &&& self.file.wf()
        &&& self.items_range.start <= 0x1000_0000
    }

    /// The file whose attributes are iterated.
    pub closed spec fn spec_file(&self) -> NtfsFile<'n> {
        *self.file
    }

    /// The offset of the next attribute within the File Record.
    pub closed spec fn spec_start(&self) -> usize {
        self.items_range.start
    }

    /// Creates an iterator that starts at the first attribute of `file`.
    pub fn new(file: &'f NtfsFile<'n>) -> (r: Self)
        requires
            file.wf(),
        ensures
            r.spec_file() == *file,
            r.spec_start() == file.spec_first_attribute_offset(),
    {
        let start = file.first_attribute_offset() as usize;
        let end = file.data_size() as usize;
        Self { file, items_range: Range { start, end } }
    }

    /// Returns the file whose attributes are iterated.
    pub fn file(&self) -> (r: &'f NtfsFile<'n>)
        ensures
            *r == self.spec_file(),
            r.wf(),
            self.spec_start() <= 0x1000_0000,
    {
        proof {
            use_type_invariant(self);
        }
        self.file
    }

    /// Returns the next attribute, `None` at the end of the attribute list, or the error of an
    /// invalid attribute (the iteration then stays at that attribute).
    pub fn next(&mut self) -> (r: Option<Result<NtfsAttribute<'n, 'f>>>)
        ensures
            final(self).spec_file() == old(self).spec_file(),
            match spec_attributes_raw_next(
                old(self).spec_file().spec_data(),
                old(self).spec_start(),
                old(self).spec_file().spec_position(),
            ) {
                AttributesRawStep::End => r is None && final(self).spec_start()
                    == old(self).spec_start(),
                AttributesRawStep::Error(e) => r == Some(Err::<NtfsAttribute<'n, 'f>, NtfsError>(e))
                    && final(self).spec_start() == old(self).spec_start(),
                AttributesRawStep::Attribute { next } => {
                    &&& r matches Some(Ok(a))
                    &&& a.spec_file() == old(self).spec_file()
                    &&& !a.spec_has_list_entries()
                    &&& a.spec_offset() == old(self).spec_start()
                    &&& final(self).spec_start() == next
                    &&& old(self).spec_start() < next <= old(self).spec_file().spec_data().len()
                },
            },
    {
        proof {
            use_type_invariant(&*self);
            self.file.lemma_wf();
        }
        // This may be an entire attribute or just the 4-byte end marker.
        // Check if this marks the end of the attribute list.
        let start = self.items_range.start;
        let data = self.file.record_data();
        if data.len() < 4 || start > data.len() - 4 {
            return None;
        }
        let ty = read_u32_le(data, start);
        if ty == 0xFFFF_FFFF {
            return None;
        }
        // It's a real attribute.
        let attribute = match NtfsAttribute::new(self.file, start, None) {
            Ok(a) => a,
            Err(e) => return Some(Err(e)),
        };
        let length = attribute.attribute_length() as usize;
        if length == 0 {
            return None;
        }
        self.items_range.start = start + length;
        Some(Ok(attribute))
    }
}

/// Item returned by the [`NtfsAttributes`] iterator.
///
/// [`NtfsAttributes`] provides a flattened view over the attributes by traversing Attribute Lists.
/// Attribute Lists may contain entries with references to other [`NtfsFile`]s.
/// Therefore, the attribute's information may either be stored in the original [`NtfsFile`] or in another
/// [`NtfsFile`] that has been read just for this attribute.
///
/// [`NtfsAttributeItem`] abstracts over both cases by providing a reference to the original [`NtfsFile`],
/// and optionally holding another [`NtfsFile`] if the attribute is actually stored there.
#[derive(Debug)]
pub struct NtfsAttributeItem<'n, 'f> {
    attribute_file: &'f NtfsFile<'n>,
    attribute_value_file: Option<NtfsFile<'n>>,
    attribute_offset: usize,
    list_entries: Option<NtfsAttributeListEntries<'n, 'f>>,
}

impl<'n, 'f> NtfsAttributeItem<'n, 'f> {
    #[verifier::type_invariant]
    spec fn inv(&self) -> bool {
        &&& self.attribute_file.wf()
        &&& self.attribute_value_file matches Some(f) ==> f.wf()
    }

    /// The file that the attribute was found through.
    pub closed spec fn spec_attribute_file(&self) -> NtfsFile<'n> {
        *self.attribute_file
    }

    /// The file that holds the attribute: the one that the attribute was found through,
    /// or another one that an Attribute List entry refers to.
    pub closed spec fn spec_holding_file(&self) -> NtfsFile<'n> {
        match self.attribute_value_file {
            Some(f) => f,
            None => *self.attribute_file,
        }
    }

    /// The offset of the attribute within the File Record of [`Self::spec_holding_file`].
    pub closed spec fn spec_attribute_offset(&self) -> usize {
        self.attribute_offset
    }

    /// Whether the attribute value may be continued by connected attributes of an Attribute List.
    pub closed spec fn spec_has_list_entries(&self) -> bool {
        self.list_entries is Some
    }

    /// Whether the header and the length of the attribute fit into the File Record that holds
    /// it, so that [`Self::to_attribute`] succeeds.
    pub open spec fn spec_attribute_fits(&self) -> bool {
        spec_attribute_length_check(
            self.spec_holding_file().spec_data(),
            self.spec_attribute_offset() as int,
            self.spec_holding_file().spec_position().spec_add(self.spec_attribute_offset() as u64),
        ) is Ok
    }

    /// Returns the actual [`NtfsAttribute`] structure for this NTFS Attribute.
    pub fn to_attribute<'i>(&'i self) -> (r: Result<NtfsAttribute<'n, 'i>>)
        ensures
            ({
                let file = self.spec_holding_file();
                let position = file.spec_position().spec_add(self.spec_attribute_offset() as u64);
                match spec_attribute_length_check(
                    file.spec_data(),
                    self.spec_attribute_offset() as int,
                    position,
                ) {
                    Ok(()) => r matches Ok(a) && a.spec_file() == file && a.spec_offset()
                        == self.spec_attribute_offset() && (a.spec_has_list_entries()
                        <==> self.spec_has_list_entries()),
                    Err(e) => r == Err::<NtfsAttribute<'n, 'i>, NtfsError>(e),
                }
            }),
    {
        proof {
            use_type_invariant(self);
        }
        let list_entries = match &self.list_entries {
            Some(entries) => Some(entries),
            None => None,
        };
        match &self.attribute_value_file {
            Some(file) => NtfsAttribute::new(file, self.attribute_offset, list_entries),
            None => NtfsAttribute::new(self.attribute_file, self.attribute_offset, list_entries),
        }
    }
}

/// The outcome of looking for the next attribute that a resident Attribute List yields.
pub enum ListScan {
    /// No entry is left that refers to an attribute of another File Record.
    End,
    /// The entry that is reached first is invalid or has an unknown attribute type.
    Error(NtfsError),
    /// The entry `header` refers to the next attribute; the list continues with the bytes `rest`
    /// at `rest_position`.
    Found { header: AttributeListEntryHeader, rest: Seq<u8>, rest_position: NtfsPosition },
}

/// Looks through the Attribute List bytes `list` (at `position`) for the first entry that refers
/// to a File Record other than `own_record` and is not the connected attribute `skip` (an instance
/// and a type) of the previously returned one.
pub open spec fn spec_list_scan(
    list: Seq<u8>,
    position: NtfsPosition,
    own_record: u64,
    skip: Option<(u16, NtfsAttributeType)>,
) -> ListScan
    decreases list.len(),
{
    if list.len() == 0 {
        ListScan::End
    } else {
        match spec_entry(list, position) {
            Err(e) => ListScan::Error(e),
            Ok((header, _)) => {
                let length = header.list_entry_length as int;
                if length > list.len() {
                    ListScan::End
                } else {
                    let rest = list.subrange(length, list.len() as int);
                    let rest_position = position.spec_add(length as u64);
                    match spec_attribute_type_from_code(header.ty) {
                        None => ListScan::Error(
                            NtfsError::UnsupportedAttributeType { position, actual: header.ty },
                        ),
                        Some(t) => if header.base_file_reference.spec_file_record_number() == own_record
                            || skip == Some((header.instance, t)) {
                            spec_list_scan(rest, rest_position, own_record, skip)
                        } else {
                            ListScan::Found { header, rest, rest_position }
                        },
                    }
                }
            },
        }
    }
}

/// The instance and the type of the attribute of `item`, where its type is known.
pub open spec fn spec_item_key(item: NtfsAttributeItem) -> Option<(u16, NtfsAttributeType)> {
    let data = item.spec_holding_file().spec_data();
    let offset = item.spec_attribute_offset();
    match spec_attribute_type_from_code(spec_type_code_at(data, offset)) {
        Some(t) => Some((spec_u16_le(data, offset + ATTRIBUTE_INSTANCE_OFFSET), t)),
        None => None,
    }
}

/// The entry that a scan of a resident Attribute List finds never refers to the File Record of
/// the file itself, nor to the connected attribute (instance and type) `skip` of the previously
/// returned one: connected attributes of a returned attribute are passed over.
pub proof fn lemma_list_scan_skips_connected(
    list: Seq<u8>,
    position: NtfsPosition,
    own_record: u64,
    skip: Option<(u16, NtfsAttributeType)>,
)
    ensures
        spec_list_scan(list, position, own_record, skip) matches ListScan::Found { header, .. } ==> {
            &&& header.base_file_reference.spec_file_record_number() != own_record
            &&& spec_attribute_type_from_code(header.ty) matches Some(t)
            &&& skip != Some((header.instance, t))
        },
    decreases list.len(),
{
    if list.len() > 0 {
        if let Ok((header, _)) = spec_entry(list, position) {
            let length = header.list_entry_length as int;
            if length <= list.len() {
                if let Some(t) = spec_attribute_type_from_code(header.ty) {
                    if header.base_file_reference.spec_file_record_number() == own_record || skip
                        == Some((header.instance, t)) {
                        lemma_list_scan_skips_connected(
                            list.subrange(length, list.len() as int),
                            position.spec_add(length as u64),
                            own_record,
                            skip,
                        );
                    }
                }
            }
        }
    }
}

/// What [`NtfsAttributes::next`] gives when the Attribute List it traverses yields `scan`: the
/// error of an invalid entry, or the attribute that the entry found refers to (unless reading its
/// File Record fails), after which the list continues behind that entry.
pub open spec fn spec_list_scan_result<'n, 'f>(
    scan: ListScan,
    r: Option<Result<NtfsAttributeItem<'n, 'f>>>,
    list_after: Option<NtfsAttributeList<'n, 'f>>,
) -> bool {
    match scan {
        ListScan::End => true,
        ListScan::Error(e) => r == Some(Err::<NtfsAttributeItem<'n, 'f>, NtfsError>(e)),
        ListScan::Found { header, rest, rest_position } => {
            &&& r is Some
            &&& list_after matches Some(NtfsAttributeList::Resident(l, p))
            &&& l@ == rest
            &&& p == rest_position
            &&& r matches Some(Ok(item)) ==> spec_item_of_entry(item, header)
        },
    }
}

/// The scan of the resident Attribute List attribute at `offset` of the File Record `file`.
pub open spec fn spec_resident_list_scan(
    file: NtfsFile,
    offset: usize,
    skip: Option<(u16, NtfsAttributeType)>,
) -> ListScan {
    spec_list_scan(
        spec_resident_value_bytes(file.spec_data(), offset as int),
        file.spec_position().spec_add(offset as u64),
        file.spec_file_record_number(),
        skip,
    )
}

/// Whether `item` is the attribute that the Attribute List entry `header` refers to: one of the
/// File Record that the entry names, with the entry's type and instance.
pub open spec fn spec_item_of_entry(item: NtfsAttributeItem, header: AttributeListEntryHeader) -> bool {
    let data = item.spec_holding_file().spec_data();
    let offset = item.spec_attribute_offset();
    &&& item.spec_holding_file().spec_file_record_number()
        == header.base_file_reference.spec_file_record_number()
    &&& spec_attribute_type_from_code(spec_type_code_at(data, offset)) == spec_attribute_type_from_code(header.ty)
    &&& spec_u16_le(data, offset + ATTRIBUTE_INSTANCE_OFFSET) == header.instance
}

/// Iterator over all attributes of an [`NtfsFile`], returning an [`NtfsAttributeItem`] for each entry.
///
/// This iterator is returned from the [`NtfsFile::attributes`] function.
/// It provides a flattened "data-centric" view of the attributes and abstracts away the filesystem details
/// to deal with many or large attributes (Attribute Lists and connected attributes).
///
/// Check [`NtfsAttributesRaw`] if you want to iterate over the plain attributes on the filesystem.
#[derive(Debug)]
pub struct NtfsAttributes<'n, 'f> {
    raw_iter: NtfsAttributesRaw<'n, 'f>,
    list_entries: Option<NtfsAttributeListEntries<'n, 'f>>,
    list_skip_info: Option<(u16, NtfsAttributeType)>,
}

impl<'n, 'f> NtfsAttributes<'n, 'f> {
    /// The file whose attributes are iterated.
    pub closed spec fn spec_file(&self) -> NtfsFile<'n> {
        self.raw_iter.spec_file()
    }

    /// A measure of the top-level attributes left to iterate over.
    pub closed spec fn spec_raw_left(&self) -> int {
        0x1000_0000 - self.raw_iter.spec_start()
    }

    /// The offset of the next top-level attribute within the File Record.
    pub closed spec fn spec_raw_start(&self) -> usize {
        self.raw_iter.spec_start()
    }

    /// Whether the entries of an Attribute List are being traversed.
    pub closed spec fn spec_in_list(&self) -> bool {
        self.list_entries is Some
    }

    /// The rest of the Attribute List being traversed, if any.
    pub closed spec fn spec_list(&self) -> Option<NtfsAttributeList<'n, 'f>> {
        match self.list_entries {
            Some(entries) => Some(entries.spec_attribute_list()),
            None => None,
        }
    }

    /// The instance and type of the last attribute returned from an Attribute List whose value
    /// may be continued by connected attributes, which are skipped.
    pub closed spec fn spec_skip_info(&self) -> Option<(u16, NtfsAttributeType)> {
        self.list_skip_info
    }

    /// A measure of the entries of the current Attribute List left to iterate over.
    pub closed spec fn spec_list_left(&self) -> nat {
        match self.list_entries {
            Some(entries) => crate::structured_values::attribute_list::spec_entries_left(
                entries.spec_attribute_list(),
            ),
            None => 0,
        }
    }

    /// Creates an iterator over the attributes of `file`.
    pub fn new(file: &'f NtfsFile<'n>) -> (r: Self)
        requires
            file.wf(),
        ensures
            r.spec_file() == *file,
            r.spec_raw_left() >= 0,
            r.spec_raw_start() == file.spec_first_attribute_offset(),
            !r.spec_in_list(),
    {
        proof {
            file.lemma_wf();
        }
        Self { raw_iter: NtfsAttributesRaw::new(file), list_entries: None, list_skip_info: None }
    }

    /// Returns the next attribute listed by the current Attribute List that is not stored in the
    /// file itself and is not a connected attribute of a previously returned one, or `None` at the
    /// end of the Attribute List.
    fn next_list_item<T>(&mut self, attribute_list_entries: &mut NtfsAttributeListEntries<'n, 'f>, fs: &mut T) -> (r: Option<
        Result<NtfsAttributeItem<'n, 'f>>,
    >) where
        T: Read + Seek,
        ensures
            final(fs).source() == old(fs).source(),
            final(self).raw_iter == old(self).raw_iter,
            r matches Some(Ok(item)) ==> item.spec_attribute_file() == old(self).spec_file(),
            r matches Some(Ok(item)) ==> item.spec_holding_file().spec_file_record_number()
                != old(self).spec_file().spec_file_record_number(),
            r matches Some(Ok(item)) ==> exists|header: AttributeListEntryHeader|
                #[trigger] spec_item_of_entry(item, header),
            r matches Some(Ok(item)) ==> item.spec_attribute_fits(),
            r matches Some(Ok(_)) ==> crate::structured_values::attribute_list::spec_entries_left(
                final(attribute_list_entries).spec_attribute_list(),
            ) < crate::structured_values::attribute_list::spec_entries_left(
                old(attribute_list_entries).spec_attribute_list(),
            ),
            r is None ==> crate::structured_values::attribute_list::spec_entries_ended(
                final(attribute_list_entries).spec_attribute_list(),
            ),
            r is None ==> final(self).spec_skip_info() == old(self).spec_skip_info(),
            r matches Some(Ok(item)) ==> final(self).spec_skip_info() == (if item.spec_has_list_entries() {
                spec_item_key(item)
            } else {
                None
            }),
            r matches Some(Ok(item)) ==> spec_item_key(item) is Some && (old(self).spec_skip_info() matches Some(k)
                ==> spec_item_key(item) != Some(k)),
            old(attribute_list_entries).spec_attribute_list() matches NtfsAttributeList::Resident(list, position)
                ==> match spec_list_scan(
                list@,
                position,
                old(self).spec_file().spec_file_record_number(),
                old(self).spec_skip_info(),
            ) {
                ListScan::End => r is None,
                ListScan::Error(e) => r == Some(Err::<NtfsAttributeItem<'n, 'f>, NtfsError>(e)),
                ListScan::Found { header, rest, rest_position } => {
                    &&& r is Some
                    &&& final(attribute_list_entries).spec_attribute_list() matches NtfsAttributeList::Resident(
                        l,
                        p,
                    )
                    &&& l@ == rest
                    &&& p == rest_position
                    &&& r matches Some(Ok(item)) ==> spec_item_of_entry(item, header)
                },
            },
    {
        loop
            invariant
                fs.source() == old(fs).source(),
                self.raw_iter == old(self).raw_iter,
                crate::structured_values::attribute_list::spec_entries_left(
                    attribute_list_entries.spec_attribute_list(),
                ) <= crate::structured_values::attribute_list::spec_entries_left(
                    old(attribute_list_entries).spec_attribute_list(),
                ),
                self.list_skip_info == old(self).list_skip_info,
                old(attribute_list_entries).spec_attribute_list() matches NtfsAttributeList::Resident(list, position)
                    ==> attribute_list_entries.spec_attribute_list() matches NtfsAttributeList::Resident(
                    l,
                    p,
                ) && spec_list_scan(
                    l@,
                    p,
                    old(self).spec_file().spec_file_record_number(),
                    old(self).spec_skip_info(),
                ) == spec_list_scan(
                    list@,
                    position,
                    old(self).spec_file().spec_file_record_number(),
                    old(self).spec_skip_info(),
                ),
            decreases crate::structured_values::attribute_list::spec_entries_left(
                attribute_list_entries.spec_attribute_list(),
            ),
        {
            // If the next Attribute List entry turns out to be a non-resident attribute, that attribute's
            // value may be split over multiple (adjacent) attributes.
            // To view this value as a single one, we need an iterator over the Attribute List entries
            // where the next call to `next` yields the first connected attribute.
            // Therefore, we need to clone `attribute_list_entries` before every call.
            let attribute_list_entries_clone = attribute_list_entries.clone();
            let entry = match attribute_list_entries.next(fs) {
                Some(Ok(entry)) => entry,
                Some(Err(e)) => return Some(Err(e)),
                None => return None,
            };
            let entry_instance = entry.instance();
            let entry_record_number = entry.base_file_reference().file_record_number();
            let entry_ty = match entry.ty() {
                Ok(t) => t,
                Err(e) => return Some(Err(e)),
            };
            // Ignore all Attribute List entries that just repeat attributes of the raw iterator.
            if entry_record_number == self.raw_iter.file().file_record_number() {
                continue;
            }
            // Ignore all Attribute List entries that are connected attributes of a previous one.
            if let Some((skip_instance, skip_ty)) = self.list_skip_info {
                if entry_instance == skip_instance && entry_ty == skip_ty {
                    continue;
                }
            }
            // We found an attribute that we want to return.
            self.list_skip_info = None;
            let ntfs = self.raw_iter.file().ntfs();
            let entry_file = match entry.to_file(ntfs, fs) {
                Ok(f) => f,
                Err(e) => return Some(Err(e)),
            };
            let (attribute_offset, is_resident) = {
                let entry_attribute = match entry.to_attribute(&entry_file) {
                    Ok(a) => a,
                    Err(e) => return Some(Err(e)),
                };
                proof {
                    use_type_invariant(&entry_attribute);
                }
                (entry_attribute.offset(), entry_attribute.is_resident())
            };
            let mut list_entries = None;
            if !is_resident {
                list_entries = Some(attribute_list_entries_clone);
                self.list_skip_info = Some((entry_instance, entry_ty));
            }
            let item = NtfsAttributeItem {
                attribute_file: self.raw_iter.file(),
                attribute_value_file: Some(entry_file),
                attribute_offset,
                list_entries,
            };
            proof {
                assert(spec_item_of_entry(item, entry.spec_header()));
            }
            return Some(Ok(item));
        }
    }

    /// Returns the next attribute, `None` after the last one, or an error.
    ///
    /// Attribute Lists are traversed: the attributes they list in other File Records are returned
    /// as if they were part of this file.
    pub fn next<T>(&mut self, fs: &mut T) -> (r: Option<Result<NtfsAttributeItem<'n, 'f>>>) where
        T: Read + Seek,
        ensures
            final(fs).source() == old(fs).source(),
            final(self).spec_file() == old(self).spec_file(),
            r matches Some(Ok(item)) ==> item.spec_attribute_file() == old(self).spec_file(),
            r matches Some(Ok(item)) ==> item.spec_attribute_fits(),
            r matches Some(Ok(item)) ==> item.spec_holding_file() == old(self).spec_file() || exists|
                header: AttributeListEntryHeader,
            |
                #[trigger] spec_item_of_entry(item, header),
            r matches Some(Ok(item)) ==> (item.spec_holding_file() == old(self).spec_file()
                ==> spec_attribute_type_from_code(
                spec_type_code_at(old(self).spec_file().spec_data(), item.spec_attribute_offset()),
            ) != Some(NtfsAttributeType::AttributeList)),
            r matches Some(Ok(_)) ==> final(self).spec_raw_left() < old(self).spec_raw_left() || (
            final(self).spec_raw_left() == old(self).spec_raw_left() && final(self).spec_list_left()
                < old(self).spec_list_left()),
            final(self).spec_raw_left() >= 0,
            !old(self).spec_in_list() ==> match spec_attributes_raw_next(
                old(self).spec_file().spec_data(),
                old(self).spec_raw_start(),
                old(self).spec_file().spec_position(),
            ) {
                AttributesRawStep::End => r is None,
                AttributesRawStep::Error(e) => r == Some(Err::<NtfsAttributeItem<'n, 'f>, NtfsError>(e)),
                AttributesRawStep::Attribute { next } => spec_attribute_type_from_code(
                    spec_type_code_at(old(self).spec_file().spec_data(), old(self).spec_raw_start()),
                ) != Some(NtfsAttributeType::AttributeList) ==> {
                    &&& r matches Some(Ok(item))
                    &&& item.spec_holding_file() == old(self).spec_file()
                    &&& item.spec_attribute_offset() == old(self).spec_raw_start()
                    &&& !item.spec_has_list_entries()
                    &&& final(self).spec_raw_start() == next
                    &&& !final(self).spec_in_list()
                },
            },
            forall|offset: usize|
                #[trigger] spec_raw_visits(
                    old(self).spec_file().spec_data(),
                    old(self).spec_raw_start(),
                    old(self).spec_file().spec_position(),
                    offset,
                ) ==> spec_raw_visits(
                    old(self).spec_file().spec_data(),
                    final(self).spec_raw_start(),
                    old(self).spec_file().spec_position(),
                    offset,
                ) || spec_attribute_type_from_code(
                    spec_type_code_at(old(self).spec_file().spec_data(), offset),
                ) == Some(NtfsAttributeType::AttributeList) || (r matches Some(Ok(item))
                    && item.spec_holding_file() == old(self).spec_file()
                    && item.spec_attribute_offset() == offset && !item.spec_has_list_entries()),
            r is None ==> forall|offset: usize|
                !#[trigger] spec_raw_visits(
                    old(self).spec_file().spec_data(),
                    final(self).spec_raw_start(),
                    old(self).spec_file().spec_position(),
                    offset,
                ),
            r matches Some(Ok(item)) ==> (item.spec_holding_file().spec_file_record_number()
                != old(self).spec_file().spec_file_record_number() ==> {
                &&& final(self).spec_skip_info() == (if item.spec_has_list_entries() {
                    spec_item_key(item)
                } else {
                    None
                })
                &&& spec_item_key(item) is Some
                &&& old(self).spec_skip_info() matches Some(k) ==> spec_item_key(item) != Some(k)
            }),
            old(self).spec_list() matches Some(NtfsAttributeList::Resident(list, position)) ==> spec_list_scan_result(
                spec_list_scan(
                    list@,
                    position,
                    old(self).spec_file().spec_file_record_number(),
                    old(self).spec_skip_info(),
                ),
                r,
                final(self).spec_list(),
            ),
            !old(self).spec_in_list() && spec_attributes_raw_next(
                old(self).spec_file().spec_data(),
                old(self).spec_raw_start(),
                old(self).spec_file().spec_position(),
            ) is Attribute && spec_attribute_type_from_code(
                spec_type_code_at(old(self).spec_file().spec_data(), old(self).spec_raw_start()),
            ) == Some(NtfsAttributeType::AttributeList) && spec_resident_value_readable(
                old(self).spec_file().spec_data(),
                old(self).spec_raw_start(),
            ) ==> spec_list_scan_result(
                spec_resident_list_scan(
                    old(self).spec_file(),
                    old(self).spec_raw_start(),
                    old(self).spec_skip_info(),
                ),
                r,
                final(self).spec_list(),
            ),
    {
        let _ = self.raw_iter.file();
        loop
            invariant
                forall|offset: usize|
                    #[trigger] spec_raw_visits(
                        old(self).spec_file().spec_data(),
                        old(self).spec_raw_start(),
                        old(self).spec_file().spec_position(),
                        offset,
                    ) ==> spec_raw_visits(
                        old(self).spec_file().spec_data(),
                        self.spec_raw_start(),
                        old(self).spec_file().spec_position(),
                        offset,
                    ) || spec_attribute_type_from_code(
                        spec_type_code_at(old(self).spec_file().spec_data(), offset),
                    ) == Some(NtfsAttributeType::AttributeList),
                fs.source() == old(fs).source(),
                self.spec_file() == old(self).spec_file(),
                self.spec_file().wf(),
                self.spec_raw_left() >= 0,
                self.spec_raw_left() < old(self).spec_raw_left() || (self.spec_raw_left()
                    == old(self).spec_raw_left() && self.spec_list_left() <= old(self).spec_list_left()),
                !old(self).spec_in_list() && self.spec_raw_start() == old(self).spec_raw_start()
                    ==> !self.spec_in_list(),
                !old(self).spec_in_list() && self.spec_raw_start() != old(self).spec_raw_start() ==> {
                    &&& spec_attributes_raw_next(
                        old(self).spec_file().spec_data(),
                        old(self).spec_raw_start(),
                        old(self).spec_file().spec_position(),
                    ) is Attribute
                    &&& spec_attribute_type_from_code(
                        spec_type_code_at(old(self).spec_file().spec_data(), old(self).spec_raw_start()),
                    ) == Some(NtfsAttributeType::AttributeList)
                },
                self.spec_skip_info() == old(self).spec_skip_info(),
                old(self).spec_list() matches Some(NtfsAttributeList::Resident(list, position))
                    && !(spec_list_scan(
                    list@,
                    position,
                    old(self).spec_file().spec_file_record_number(),
                    old(self).spec_skip_info(),
                ) is End) ==> *self == *old(self),
                !old(self).spec_in_list() && spec_attributes_raw_next(
                    old(self).spec_file().spec_data(),
                    old(self).spec_raw_start(),
                    old(self).spec_file().spec_position(),
                ) is Attribute && spec_attribute_type_from_code(
                    spec_type_code_at(old(self).spec_file().spec_data(), old(self).spec_raw_start()),
                ) == Some(NtfsAttributeType::AttributeList) && spec_resident_value_readable(
                    old(self).spec_file().spec_data(),
                    old(self).spec_raw_start(),
                ) && !(spec_resident_list_scan(
                    old(self).spec_file(),
                    old(self).spec_raw_start(),
                    old(self).spec_skip_info(),
                ) is End) ==> self.spec_skip_info() == old(self).spec_skip_info() && ((
                self.spec_raw_start() == old(self).spec_raw_start() && !self.spec_in_list()) || (
                self.spec_list() matches Some(NtfsAttributeList::Resident(l, p)) && spec_list_scan(
                    l@,
                    p,
                    old(self).spec_file().spec_file_record_number(),
                    old(self).spec_skip_info(),
                ) == spec_resident_list_scan(
                    old(self).spec_file(),
                    old(self).spec_raw_start(),
                    old(self).spec_skip_info(),
                ))),
            decreases 0x1000_0000 - self.raw_iter.spec_start(),
        {
            proof {
                self.spec_file().lemma_wf();
            }
            if let Some(mut entries) = self.list_entries.take() {
                let item = self.next_list_item(&mut entries, fs);
                self.list_entries = Some(entries);
                if let Some(item) = item {
                    return Some(item);
                }
            }
            let ghost before = self.spec_raw_start();
            let attribute = match self.raw_iter.next() {
                None => {
                    proof {
                        assert forall|offset: usize|
                            !#[trigger] spec_raw_visits(
                                old(self).spec_file().spec_data(),
                                self.spec_raw_start(),
                                old(self).spec_file().spec_position(),
                                offset,
                            ) by {}
                    }
                    return None;
                },
                Some(Err(e)) => return Some(Err(e)),
                Some(Ok(a)) => a,
            };
            proof {
                NtfsFile::lemma_raw_visits_step(
                    old(self).spec_file().spec_data(),
                    before,
                    self.spec_raw_start(),
                    old(self).spec_file().spec_position(),
                );
            }
            let is_attribute_list = match attribute.ty() {
                Ok(NtfsAttributeType::AttributeList) => true,
                _ => false,
            };
            if is_attribute_list {
                proof {
                    NtfsPosition::lemma_spec_add_zero(attribute.spec_position());
                }
                let attribute_list = match attribute.structured_value::<T, NtfsAttributeList>(fs) {
                    Ok(l) => l,
                    Err(e) => return Some(Err(e)),
                };
                self.list_entries = Some(attribute_list.entries());
            } else {
                let item = NtfsAttributeItem {
                    attribute_file: self.raw_iter.file(),
                    attribute_value_file: None,
                    attribute_offset: attribute.offset(),
                    list_entries: None,
                };
                return Some(Ok(item));
            }
        }
    }
}

impl<'n> NtfsFile<'n> {
    /// Returns an iterator over all top-level attributes of this file.
    ///
    /// Contrary to [`NtfsFile::attributes`], it does not traverse $ATTRIBUTE_LIST attributes, but returns
    /// them as raw attributes.
    /// Check that function if you want an iterator providing a flattened "data-centric" view over
    /// the attributes by traversing Attribute Lists automatically.
    ///
    /// The iterator returns an [`NtfsAttribute`] for each entry.
    pub fn attributes_raw<'f>(&'f self) -> (r: NtfsAttributesRaw<'n, 'f>)
        requires
            self.wf(),
        ensures
            r.spec_file() == *self,
            r.spec_start() == self.spec_first_attribute_offset(),
    {
        NtfsAttributesRaw::new(self)
    }

    /// Returns an iterator over all attributes of this file.
    ///
    /// This provides a flattened "data-centric" view of the attributes and abstracts away the filesystem details
    /// to deal with many or large attributes (Attribute Lists and connected attributes).
    /// Use [`NtfsFile::attributes_raw`] to iterate over the plain attributes on the filesystem.
    ///
    /// Due to the abstraction, the iterator returns an [`NtfsAttributeItem`] for each entry.
    pub fn attributes<'f>(&'f self) -> (r: NtfsAttributes<'n, 'f>)
        requires
            self.wf(),
        ensures
            r.spec_file() == *self,
            r.spec_raw_left() >= 0,
            r.spec_raw_start() == self.spec_first_attribute_offset(),
            !r.spec_in_list(),
    {
        NtfsAttributes::new(self)
    }

    /// Convenience function to get a $DATA attribute of this file.
    ///
    /// As NTFS supports multiple data streams per file, you can specify the name of the $DATA attribute
    /// to look up.
    /// Passing an empty string here looks up the default unnamed $DATA attribute (commonly known as the "file data").
    /// The name is looked up case-insensitively, which needs the $UpCase table
    /// (see [`crate::ntfs::Ntfs::read_upcase_table`]).
    ///
    /// If you need more control over which $DATA attribute is available and picked up,
    /// you can use [`NtfsFile::attributes`] to iterate over all attributes of this file.
    pub fn data<'f, T>(&'f self, fs: &mut T, data_stream_name: &str) -> (r: Option<
        Result<NtfsAttributeItem<'n, 'f>>,
    >) where
        T: Read + Seek,
        requires
            self.wf(),
            data_stream_name@.len() > 0 ==> self.spec_ntfs().spec_has_upcase_table(),
        ensures
            final(fs).source() == old(fs).source(),
            r matches Some(Ok(item)) ==> {
                &&& item.spec_attribute_file() == *self
                &&& spec_attribute_type_from_code(
                    spec_type_code_at(item.spec_holding_file().spec_data(), item.spec_attribute_offset()),
                ) == Some(NtfsAttributeType::Data)
                &&& data_stream_name@.len() == 0 ==> spec_attribute_name_units(
                    item.spec_holding_file().spec_data(),
                    item.spec_attribute_offset(),
                ).len() == 0
                &&& data_stream_name@.len() > 0 ==> spec_uppercase_units(
                    spec_attribute_name_units(
                        item.spec_holding_file().spec_data(),
                        item.spec_attribute_offset(),
                    ),
                    self.spec_ntfs().spec_upcase_table(),
                ) == spec_uppercase_units(
                    spec_encode_utf16(data_stream_name@),
                    self.spec_ntfs().spec_upcase_table(),
                )
            },
            r is None ==> forall|offset: usize|
                #[trigger] spec_raw_visits(
                    self.spec_data(),
                    self.spec_first_attribute_start(),
                    self.spec_position(),
                    offset,
                ) ==> !spec_data_stream_matches(
                    self.spec_data(),
                    offset,
                    data_stream_name@,
                    self.spec_ntfs().spec_upcase_table(),
                ),
    {
        let mut iter = self.attributes();
        let want_unnamed = data_stream_name.unicode_len() == 0;
        loop
            invariant
                forall|offset: usize|
                    #[trigger] spec_raw_visits(
                        self.spec_data(),
                        self.spec_first_attribute_start(),
                        self.spec_position(),
                        offset,
                    ) ==> spec_raw_visits(self.spec_data(), iter.spec_raw_start(), self.spec_position(), offset)
                        || !spec_data_stream_matches(
                        self.spec_data(),
                        offset,
                        data_stream_name@,
                        self.spec_ntfs().spec_upcase_table(),
                    ),
                fs.source() == old(fs).source(),
                iter.spec_file() == *self,
                iter.spec_raw_left() >= 0,
                self.wf(),
                data_stream_name@.len() > 0 ==> self.spec_ntfs().spec_has_upcase_table(),
                want_unnamed == (data_stream_name@.len() == 0),
            decreases iter.spec_raw_left(), iter.spec_list_left(),
        {
            let ghost before = iter.spec_raw_start();
            let item = match iter.next(fs) {
                None => return None,
                Some(Err(e)) => return Some(Err(e)),
                Some(Ok(item)) => item,
            };
            let ghost wanted_here = spec_data_stream_matches(
                self.spec_data(),
                item.spec_attribute_offset(),
                data_stream_name@,
                self.spec_ntfs().spec_upcase_table(),
            );
            let matches = {
                let attribute = match item.to_attribute() {
                    Ok(a) => a,
                    Err(e) => return Some(Err(e)),
                };
                let ty = match attribute.ty() {
                    Ok(t) => t,
                    Err(e) => return Some(Err(e)),
                };
                if ty != NtfsAttributeType::Data {
                    proof {
                        assert(item.spec_holding_file() == *self ==> !wanted_here);
                    }
                    false
                } else {
                    proof {
                        assert(spec_attribute_type_from_code(
                            spec_type_code_at(item.spec_holding_file().spec_data(), item.spec_attribute_offset()),
                        ) == Some(NtfsAttributeType::Data));
                    }
                    let name = match attribute.name() {
                        Ok(n) => n,
                        Err(e) => return Some(Err(e)),
                    };
                    proof {
                        let table = self.spec_ntfs().spec_upcase_table();
                        let wanted = spec_encode_utf16(data_stream_name@);
                        assert(name.spec_units() =~= spec_attribute_name_units(
                            attribute.spec_data(),
                            attribute.spec_offset(),
                        ));
                        crate::string::lemma_units_upcase_order_is_uppercase_order(
                            name.spec_units(),
                            wanted,
                            table,
                        );
                        crate::string::lemma_units_order_equal_iff_same(
                            spec_uppercase_units(name.spec_units(), table),
                            spec_uppercase_units(wanted, table),
                        );
                    }
                    let found = if want_unnamed {
                        // Use a simpler "comparison" that doesn't require the $UpCase table.
                        name.is_empty()
                    } else {
                        match name.upcase_cmp(self.ntfs(), &data_stream_name) {
                            core::cmp::Ordering::Equal => true,
                            _ => false,
                        }
                    };
                    proof {
                        assert(item.spec_holding_file() == *self ==> (found == wanted_here));
                    }
                    found
                }
            };
            if matches {
                return Some(Ok(item));
            }
            proof {
                assert forall|offset: usize|
                    #[trigger] spec_raw_visits(
                        self.spec_data(),
                        self.spec_first_attribute_start(),
                        self.spec_position(),
                        offset,
                    ) implies spec_raw_visits(
                        self.spec_data(),
                        iter.spec_raw_start(),
                        self.spec_position(),
                        offset,
                    ) || !spec_data_stream_matches(
                        self.spec_data(),
                        offset,
                        data_stream_name@,
                        self.spec_ntfs().spec_upcase_table(),
                    ) by {
                    if spec_raw_visits(self.spec_data(), before, self.spec_position(), offset) {
                    }
                }
            }
        }
    }

    /// Finds an attribute of a specific type, optionally with a specific name, and returns its [`NtfsAttributeItem`].
    /// Returns [`NtfsError::AttributeNotFound`] if no such attribute could be found.
    ///
    /// This function also traverses Attribute Lists to look up the attribute.
    pub fn find_attribute<'f, T>(&'f self, fs: &mut T, ty: NtfsAttributeType, match_name: Option<&str>) -> (r: Result<
        NtfsAttributeItem<'n, 'f>,
    >) where
        T: Read + Seek,
        requires
            self.wf(),
        ensures
            final(fs).source() == old(fs).source(),
            r matches Ok(item) ==> {
                &&& item.spec_attribute_file() == *self
                &&& spec_attribute_type_from_code(
                    spec_type_code_at(item.spec_holding_file().spec_data(), item.spec_attribute_offset()),
                ) == Some(ty)
                &&& match_name matches Some(n) ==> spec_attribute_name_units(
                    item.spec_holding_file().spec_data(),
                    item.spec_attribute_offset(),
                ) == spec_encode_utf16(n@)
            },
    {
        let mut iter = self.attributes();
        loop
            invariant
                fs.source() == old(fs).source(),
                iter.spec_file() == *self,
                iter.spec_raw_left() >= 0,
                self.wf(),
            decreases iter.spec_raw_left(), iter.spec_list_left(),
        {
            let item = match iter.next(fs) {
                None => break,
                Some(Err(e)) => return Err(e),
                Some(Ok(item)) => item,
            };
            let ghost item_code = spec_type_code_at(
                item.spec_holding_file().spec_data(),
                item.spec_attribute_offset(),
            );
            let matches = {
                let attribute = match item.to_attribute() {
                    Ok(a) => a,
                    Err(e) => return Err(e),
                };
                let attribute_ty = match attribute.ty() {
                    Ok(t) => t,
                    Err(e) => return Err(e),
                };
                if attribute_ty != ty {
                    false
                } else {
                    proof {
                        assert(spec_attribute_type_from_code(item_code) == Some(ty));
                    }
                    match match_name {
                        Some(name) => {
                            let attribute_name = match attribute.name() {
                                Ok(n) => n,
                                Err(e) => return Err(e),
                            };
                            proof {
                                crate::string::lemma_units_order_equal_iff_same(
                                    attribute_name.spec_units(),
                                    spec_encode_utf16(name@),
                                );
                                assert(attribute_name.spec_units() =~= spec_attribute_name_units(
                                    attribute.spec_data(),
                                    attribute.spec_offset(),
                                ));
                            }
                            attribute_name.eq_str(name)
                        },
                        None => true,
                    }
                }
            };
            if matches {
                return Ok(item);
            }
        }
        Err(NtfsError::AttributeNotFound { position: self.position(), ty })
    }

    /// Iterating from an attribute on reaches that attribute and whatever iterating from the next
    /// attribute on reaches.
    proof fn lemma_raw_visits_step(data: Seq<u8>, start: usize, next: usize, position: NtfsPosition)
        requires
            spec_attributes_raw_next(data, start, position) == (AttributesRawStep::Attribute { next }),
            start < next <= data.len(),
        ensures
            forall|offset: usize|
                #[trigger] spec_raw_visits(data, start, position, offset) <==> (offset == start
                    || spec_raw_visits(data, next, position, offset)),
    {
    }

    /// Finds a top-level attribute of a specific type, optionally with a specific name and/or a specific
    /// instance identifier, and returns it.
    /// Returns [`NtfsError::AttributeNotFound`] if no such attribute could be found.
    ///
    /// Note that this function DOES NOT traverse Attribute Lists!
    pub fn find_resident_attribute<'f>(
        &'f self,
        ty: NtfsAttributeType,
        match_name: Option<&str>,
        match_instance: Option<u16>,
    ) -> (r: Result<NtfsAttribute<'n, 'f>>)
        requires
            self.wf(),
        ensures
            r matches Ok(a) ==> {
                &&& a.spec_file() == *self
                &&& spec_attribute_type_from_code(a.spec_type_code()) == Some(ty)
                &&& match_instance matches Some(i) ==> spec_u16_le(
                    a.spec_data(),
                    a.spec_offset() + ATTRIBUTE_INSTANCE_OFFSET,
                ) == i
                &&& match_name matches Some(n) ==> spec_attribute_name_units(
                    a.spec_data(),
                    a.spec_offset(),
                ) == spec_encode_utf16(n@)
            },
            r matches Err(NtfsError::AttributeNotFound { position, ty: t }) ==> position
                == self.spec_position() && t == ty,
            r matches Err(NtfsError::AttributeNotFound { .. }) ==> forall|offset: usize|
                #[trigger] spec_raw_visits(
                    self.spec_data(),
                    self.spec_first_attribute_start(),
                    self.spec_position(),
                    offset,
                ) ==> !spec_attribute_matches(self.spec_data(), offset, ty, match_name, match_instance),
    {
        // Resident attributes are always stored on the top-level (we don't have to dig into Attribute Lists).
        let mut iter = self.attributes_raw();
        loop
            invariant
                iter.spec_file() == *self,
                self.wf(),
                forall|offset: usize|
                    #[trigger] spec_raw_visits(
                        self.spec_data(),
                        self.spec_first_attribute_start(),
                        self.spec_position(),
                        offset,
                    ) ==> spec_raw_visits(self.spec_data(), iter.spec_start(), self.spec_position(), offset)
                        || !spec_attribute_matches(self.spec_data(), offset, ty, match_name, match_instance),
            ensures
                forall|offset: usize|
                    #[trigger] spec_raw_visits(
                        self.spec_data(),
                        self.spec_first_attribute_start(),
                        self.spec_position(),
                        offset,
                    ) ==> !spec_attribute_matches(self.spec_data(), offset, ty, match_name, match_instance),
            decreases 0x1000_0000 - iter.spec_start(),
        {
            let ghost before = iter.spec_start();
            let attribute = match iter.next() {
                None => {
                    proof {
                        assert forall|offset: usize|
                            !#[trigger] spec_raw_visits(
                                self.spec_data(),
                                iter.spec_start(),
                                self.spec_position(),
                                offset,
                            ) by {}
                    }
                    break;
                },
                Some(Err(e)) => return Err(e),
                Some(Ok(a)) => a,
            };
            proof {
                self.lemma_wf();
            }
            let ghost mismatch = !spec_attribute_matches(self.spec_data(), before, ty, match_name, match_instance);
            let ghost next = iter.spec_start();
            let attribute_ty = match attribute.ty() {
                Ok(t) => t,
                Err(e) => return Err(e),
            };
            if attribute_ty != ty {
                proof {
                    Self::lemma_raw_visits_step(self.spec_data(), before, next, self.spec_position());
                }
                continue;
            }
            if let Some(instance) = match_instance {
                if attribute.instance() != instance {
                    proof {
                        Self::lemma_raw_visits_step(self.spec_data(), before, next, self.spec_position());
                    }
                    continue;
                }
            }
            if let Some(name) = match_name {
                let attribute_name = match attribute.name() {
                    Ok(n) => n,
                    Err(e) => return Err(e),
                };
                proof {
                    crate::string::lemma_units_order_equal_iff_same(
                        attribute_name.spec_units(),
                        spec_encode_utf16(name@),
                    );
                    assert(attribute_name.spec_units() =~= spec_attribute_name_units(
                        attribute.spec_data(),
                        attribute.spec_offset(),
                    ));
                }
                if !attribute_name.eq_str(name) {
                    proof {
                        Self::lemma_raw_visits_step(self.spec_data(), before, next, self.spec_position());
                    }
                    continue;
                }
                proof {
                    crate::string::lemma_units_order_equal_iff_same(
                        attribute_name.spec_units(),
                        spec_encode_utf16(name@),
                    );
                    assert(attribute_name.spec_units() =~= spec_attribute_name_units(
                        attribute.spec_data(),
                        attribute.spec_offset(),
                    ));
                }
            }
            return Ok(attribute);
        }
        Err(NtfsError::AttributeNotFound { position: self.position(), ty })
    }

    /// Finds a top-level attribute of the type of the structured value `S`, optionally with a
    /// specific name, and returns its structured value.
    /// Returns [`NtfsError::AttributeNotFound`] if no such attribute could be found.
    ///
    /// Note that this function DOES NOT traverse Attribute Lists!
    pub fn find_resident_attribute_structured_value<'f, S>(&'f self, match_name: Option<&str>) -> (r:
        Result<S>) where
        S: NtfsStructuredValueFromResidentAttributeValue<'n, 'f>,
        requires
            self.wf(),
        ensures
            r is Ok ==> exists|offset: int|
                #![trigger spec_resident_value_bytes(self.spec_data(), offset)]
                {
                    &&& spec_attribute_type_from_code(spec_u32_le(self.spec_data(), offset)) == Some(
                        S::spec_ty(),
                    )
                    &&& S::spec_parsed_resident(
                        spec_resident_value_bytes(self.spec_data(), offset),
                        self.spec_position().spec_add(offset as u64).spec_add(0),
                        r,
                    )
                },
            r matches Err(NtfsError::AttributeNotFound { .. }) ==> (forall|offset: usize|
                #[trigger] spec_raw_visits(
                    self.spec_data(),
                    self.spec_first_attribute_start(),
                    self.spec_position(),
                    offset,
                ) ==> !spec_attribute_matches(self.spec_data(), offset, S::spec_ty(), match_name, None))
                || exists|offset: int|
                #![trigger spec_resident_value_bytes(self.spec_data(), offset)]
                S::spec_parsed_resident(
                    spec_resident_value_bytes(self.spec_data(), offset),
                    self.spec_position().spec_add(offset as u64).spec_add(0),
                    r,
                ),
    {
        let attribute = match self.find_resident_attribute(S::ty(), match_name, None) {
            Ok(a) => a,
            Err(e) => return Err(e),
        };
        let r = attribute.resident_structured_value::<S>();
        proof {
            if r is Ok || r matches Err(NtfsError::AttributeNotFound { .. }) {
                let offset = attribute.spec_offset() as int;
                assert(spec_resident_value_bytes(self.spec_data(), offset) == attribute.spec_data().subrange(
                    attribute.spec_offset() + attribute.spec_resident_value_offset(),
                    attribute.spec_offset() + attribute.spec_resident_value_offset()
                        + attribute.spec_resident_value_length(),
                ));
            }
        }
        r
    }
}

/// The raw type code of the attribute at `offset` of the File Record bytes `data`.
/// Where the byte `j` of the value of the non-resident attribute at `offset` of the File Record
/// `file` lies: the locations that its Data Run information describes (see
/// [`spec_runs_location`]).
pub open spec fn spec_non_resident_location(file: NtfsFile, offset: usize, j: int) -> Option<
    Option<int>,
> {
    let data = file.spec_data();
    let start = offset + spec_u16_le(data, offset + NON_RESIDENT_DATA_RUNS_OFFSET_OFFSET);
    let end = offset + spec_u32_le(data, offset + ATTRIBUTE_LENGTH_OFFSET);
    spec_runs_location(
        data.subrange(start, end),
        file.spec_position().spec_add(start as u64),
        DataRunsState { offset: 0, previous_lcn: Lcn(0) },
        file.spec_ntfs().spec_cluster_size(),
        j,
    )
}

/// Whether `value` is the value of the non-resident attribute at `offset` of the File Record
/// `file`, positioned at its start: the data size that the attribute gives, with its bytes where
/// its Data Run information puts them (see [`spec_non_resident_location`]).
pub open spec fn spec_non_resident_value_of(file: NtfsFile, offset: usize, value: NtfsAttributeValue) -> bool {
    match value {
        NtfsAttributeValue::NonResident(v) => {
            &&& v.spec_ntfs() == file.spec_ntfs()
            &&& v.spec_stream_position() == 0
            &&& v.spec_data_size() == spec_u64_le(
                file.spec_data(),
                offset + NON_RESIDENT_DATA_SIZE_OFFSET,
            )
            &&& forall|j: int|
                0 <= j ==> #[trigger] v.spec_location(j) == spec_non_resident_location(file, offset, j)
        },
        _ => false,
    }
}

pub open spec fn spec_type_code_at(data: Seq<u8>, offset: usize) -> u32 {
    spec_u32_le(data, offset as int)
}

/// The bytes of the resident value of the attribute at `offset` of the File Record bytes `data`.
pub open spec fn spec_resident_value_bytes(data: Seq<u8>, offset: int) -> Seq<u8> {
    let start = offset + spec_u16_le(data, offset + RESIDENT_VALUE_OFFSET_OFFSET);
    data.subrange(start, start + spec_u32_le(data, offset + RESIDENT_VALUE_LENGTH_OFFSET))
}

/// Returns `data[start..end]`.
pub fn slice_subrange<'a>(data: &'a [u8], start: usize, end: usize) -> (r: &'a [u8])
    requires
        start <= end <= data@.len(),
    ensures
        r@ == data@.subrange(start as int, end as int),
{
    let (head, _) = data.split_at(end);
    let (_, tail) = head.split_at(start);
    assert(tail@ =~= data@.subrange(start as int, end as int));
    tail
}

} // verus!
