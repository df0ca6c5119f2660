//! The $VOLUME_INFORMATION structured value.
use vstd::prelude::*;

use crate::attribute::NtfsAttributeType;
use crate::attribute_value::{spec_read_bytes, NtfsAttributeValue, NtfsResidentAttributeValue};
use crate::error::{NtfsError, Result};
use crate::io::{Read, Seek};
use crate::structured_values::{NtfsStructuredValue, NtfsStructuredValueFromResidentAttributeValue};
use crate::traits::NtfsReadSeek;
use crate::types::NtfsPosition;

verus! {

/// Size of all fields of the $VOLUME_INFORMATION structure.
pub const VOLUME_INFORMATION_SIZE: usize = 12;

/// Flags returned by [`NtfsVolumeInformation::flags`].
#[derive(Clone, Copy, Debug, Eq, PartialEq, Structural)]
pub struct NtfsVolumeFlags(u16);

impl NtfsVolumeFlags {
    /// The raw bits of the flags.
    pub closed spec fn spec_bits(&self) -> u16 {
        self.0
    }

    /// The flag telling: the volume is dirty and must be checked before it is mounted again.
    pub fn is_dirty() -> (r: Self)
        ensures
            r.spec_bits() == 0x0001,
    {
        NtfsVolumeFlags(0x0001)
    }

    /// The flag telling: the journaling logfile must be resized.
    pub fn resize_log_file() -> (r: Self)
        ensures
            r.spec_bits() == 0x0002,
    {
        NtfsVolumeFlags(0x0002)
    }

    /// The flag telling: the volume is upgraded to a newer NTFS version on the next mount.
    pub fn upgrade_on_mount() -> (r: Self)
        ensures
            r.spec_bits() == 0x0004,
    {
        NtfsVolumeFlags(0x0004)
    }

    /// The flag telling: the volume was mounted by Windows NT 4.
    pub fn mounted_on_nt4() -> (r: Self)
        ensures
            r.spec_bits() == 0x0008,
    {
        NtfsVolumeFlags(0x0008)
    }

    /// The flag telling: the change journal ($UsnJrnl) is being deleted.
    pub fn delete_usn_underway() -> (r: Self)
        ensures
            r.spec_bits() == 0x0010,
    {
        NtfsVolumeFlags(0x0010)
    }

    /// The flag telling: the object IDs ($ObjId) must be repaired.
    pub fn repair_object_id() -> (r: Self)
        ensures
            r.spec_bits() == 0x0020,
    {
        NtfsVolumeFlags(0x0020)
    }

    /// The flag telling: a check of the volume (chkdsk) is underway.
    pub fn chkdsk_underway() -> (r: Self)
        ensures
            r.spec_bits() == 0x4000,
    {
        NtfsVolumeFlags(0x4000)
    }

    /// The flag telling: the volume was modified by a check of the volume (chkdsk).
    pub fn modified_by_chkdsk() -> (r: Self)
        ensures
            r.spec_bits() == 0x8000,
    {
        NtfsVolumeFlags(0x8000)
    }

    /// Keeps the known flags of `bits` (0x0001 to 0x0020, 0x4000 and 0x8000) and drops all others.
    pub fn from_bits_truncate(bits: u16) -> (r: Self)
        ensures
            r.spec_bits() == bits & 0xC03F,
    {
        NtfsVolumeFlags(bits & 0xC03F)
    }

    /// Returns the raw bits of the flags.
    pub fn bits(&self) -> (r: u16)
        ensures
            r == self.spec_bits(),
    {
        self.0
    }

    /// Returns `true` if all flags of `other` are set in `self`.
    pub fn contains(&self, other: NtfsVolumeFlags) -> (r: bool)
        ensures
            r == (self.spec_bits() & other.spec_bits() == other.spec_bits()),
    {
        (self.0 & other.0) == other.0
    }
}

/// Structure of a $VOLUME_INFORMATION attribute.
///
/// This attribute is only used by the top-level $Volume file and contains general information about the filesystem.
/// You can easily access it via [`crate::ntfs::Ntfs::volume_info`].
///
/// Reference: <https://flatcap.github.io/linux-ntfs/ntfs/attributes/volume_information.html>
#[derive(Clone, Copy, Debug)]
pub struct NtfsVolumeInformation {
    major_version: u8,
    minor_version: u8,
    flags: u16,
}

/// The $VOLUME_INFORMATION structure of the value bytes `data` at `position`, or the error for
/// a value shorter than the structure.
pub open spec fn spec_volume_information(data: Seq<u8>, position: NtfsPosition) -> Result<(u8, u8, u16)> {
    if data.len() < VOLUME_INFORMATION_SIZE {
        Err(
            NtfsError::InvalidStructuredValueSize {
                position,
                ty: NtfsAttributeType::StandardInformation,
                expected: VOLUME_INFORMATION_SIZE as u64,
                actual: data.len() as u64,
            },
        )
    } else {
        Ok((data[8], data[9], (data[10] as int + data[11] as int * 0x100) as u16))
    }
}

impl NtfsVolumeInformation {
    /// The major version, the minor version and the raw flags.
    pub closed spec fn spec_fields(&self) -> (u8, u8, u16) {
        (self.major_version, self.minor_version, self.flags)
    }

    /// Parses the structure from the value bytes `data` at `position`.
    pub fn new(data: &[u8], position: NtfsPosition) -> (r: Result<Self>)
        ensures
            match spec_volume_information(data@, position) {
                Ok(fields) => r matches Ok(v) && v.spec_fields() == fields,
                Err(e) => r == Err::<Self, NtfsError>(e),
            },
    {
        if data.len() < VOLUME_INFORMATION_SIZE {
            return Err(
                NtfsError::InvalidStructuredValueSize {
                    position,
                    ty: NtfsAttributeType::StandardInformation,
                    expected: VOLUME_INFORMATION_SIZE as u64,
                    actual: data.len() as u64,
                },
            );
        }
        let flags = data[10] as u16 + data[11] as u16 * 0x100;
        Ok(Self { major_version: data[8], minor_version: data[9], flags })
    }

    /// Returns flags set for this NTFS filesystem/volume as specified by [`NtfsVolumeFlags`].
    pub fn flags(&self) -> (r: NtfsVolumeFlags)
        ensures
            r.spec_bits() == self.spec_fields().2 & 0xC03F,
    {
        NtfsVolumeFlags::from_bits_truncate(self.flags)
    }

    /// Returns the major NTFS version of this filesystem (e.g. `3` for NTFS 3.1).
    pub fn major_version(&self) -> (r: u8)
        ensures
            r == self.spec_fields().0,
    {
        self.major_version
    }

    /// Returns the minor NTFS version of this filesystem (e.g. `1` for NTFS 3.1).
    pub fn minor_version(&self) -> (r: u8)
        ensures
            r == self.spec_fields().1,
    {
        self.minor_version
    }
}

impl<'n, 'f> NtfsStructuredValue<'n, 'f> for NtfsVolumeInformation {
    open spec fn spec_structured_ty() -> NtfsAttributeType {
        NtfsAttributeType::VolumeInformation
    }

    fn structured_ty() -> (r: NtfsAttributeType) {
        NtfsAttributeType::VolumeInformation
    }

    /// Reads the structure from the current position of the value on.
    /// A value shorter than the structure is refused; a resident value read from its start is
    /// parsed from its bytes (see
    /// [`NtfsStructuredValueFromResidentAttributeValue::spec_parsed_resident`]); otherwise the
    /// structure is parsed from the next bytes that reading the value gives (see
    /// [`spec_read_bytes`]).
    open spec fn spec_from_value(value: NtfsAttributeValue<'n, 'f>, source: Seq<u8>, r: Result<Self>) -> bool {
        &&& value.spec_len() < VOLUME_INFORMATION_SIZE ==> r == Err::<Self, NtfsError>(
            NtfsError::InvalidStructuredValueSize {
                position: value.spec_data_position(),
                ty: NtfsAttributeType::StandardInformation,
                expected: VOLUME_INFORMATION_SIZE as u64,
                actual: value.spec_len() as u64,
            },
        )
        &&& value matches NtfsAttributeValue::Resident(v) ==> (v.spec_stream_position() == 0
            ==> Self::spec_parsed_resident(v.spec_data(), value.spec_data_position(), r))
        &&& !(value matches NtfsAttributeValue::Resident(v) && v.spec_stream_position() == 0)
            && value.spec_len() >= VOLUME_INFORMATION_SIZE ==> (r matches Ok(info) ==> exists|
            buf: Seq<u8>,
        |
            #![trigger spec_read_bytes(value, source, buf, VOLUME_INFORMATION_SIZE as int)]
            {
                &&& buf.len() == VOLUME_INFORMATION_SIZE
                &&& spec_read_bytes(value, source, buf, VOLUME_INFORMATION_SIZE as int)
                &&& spec_volume_information(buf, value.spec_data_position()) == Ok::<
                    (u8, u8, u16),
                    NtfsError,
                >(info.spec_fields())
            })
    }

    fn from_attribute_value<T>(fs: &mut T, value: NtfsAttributeValue<'n, 'f>) -> (r: Result<Self>) where
        T: Read + Seek,
    {
        if let NtfsAttributeValue::Resident(resident) = &value {
            if resident.stream_position() == 0 {
                return Self::from_resident_attribute_value(resident.clone());
            }
        }
        let position = value.data_position();
        let value_length = value.len();
        if value_length < VOLUME_INFORMATION_SIZE as u64 {
            return Err(
                NtfsError::InvalidStructuredValueSize {
                    position,
                    ty: NtfsAttributeType::StandardInformation,
                    expected: VOLUME_INFORMATION_SIZE as u64,
                    actual: value_length,
                },
            );
        }
        let mut value = value;
        let ghost before = value;
        let mut buf = [0u8; VOLUME_INFORMATION_SIZE];
        match value.read_exact(fs, &mut buf) {
            Ok(()) => {},
            Err(e) => return Err(e),
        }
        let r = Self::new(&buf, position);
        proof {
            assert(spec_read_bytes(before, old(fs).source(), buf@, VOLUME_INFORMATION_SIZE as int));
        }
        r
    }
}

impl<'n, 'f> NtfsStructuredValueFromResidentAttributeValue<'n, 'f> for NtfsVolumeInformation {
    open spec fn spec_ty() -> NtfsAttributeType {
        NtfsAttributeType::VolumeInformation
    }

    fn ty() -> (r: NtfsAttributeType) {
        NtfsAttributeType::VolumeInformation
    }

    open spec fn spec_parsed_resident(data: Seq<u8>, position: NtfsPosition, r: Result<Self>) -> bool {
        match spec_volume_information(data, position) {
            Ok(fields) => r matches Ok(v) && v.spec_fields() == fields,
            Err(e) => r == Err::<Self, NtfsError>(e),
        }
    }

    /// Parses the structure from the bytes of a resident value.
    fn from_resident_attribute_value(value: NtfsResidentAttributeValue<'f>) -> (r: Result<Self>) {
        let position = value.data_position();
        Self::new(value.data(), position)
    }
}

} // verus!
