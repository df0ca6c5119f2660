//! The $VOLUME_NAME structured value.
use vstd::prelude::*;

use arrayvec::ArrayVec;

use crate::attribute::NtfsAttributeType;
use crate::attribute_value::{NtfsAttributeValue, NtfsResidentAttributeValue};
use crate::error::{NtfsError, Result};
use crate::io::{Read, Seek};
use crate::names::{name_buffer_as_slice, name_buffer_bytes, name_buffer_from_slice, NAME_MAX_SIZE};
use crate::structured_values::{NtfsStructuredValue, NtfsStructuredValueFromResidentAttributeValue};
use crate::traits::NtfsReadSeek;
use crate::types::NtfsPosition;
use crate::utf16::NtfsString;

verus! {

/// The smallest size of a volume name, in bytes (one UTF-16 code unit).
pub const VOLUME_NAME_MIN_SIZE: usize = 2;
/// The largest size of a volume name, in bytes (128 UTF-16 code units).
pub const VOLUME_NAME_MAX_SIZE: usize = 256;

/// The check of a volume name of `value_length` bytes at `position`: it holds 2 to 256 bytes.
pub open spec fn spec_volume_name_check(position: NtfsPosition, value_length: nat) -> Result<()> {
    if value_length < VOLUME_NAME_MIN_SIZE {
        Err(
            NtfsError::InvalidStructuredValueSize {
                position,
                ty: NtfsAttributeType::VolumeName,
                expected: VOLUME_NAME_MIN_SIZE as u64,
                actual: value_length as u64,
            },
        )
    } else if value_length > VOLUME_NAME_MAX_SIZE {
        Err(
            NtfsError::InvalidStructuredValueSize {
                position,
                ty: NtfsAttributeType::VolumeName,
                expected: VOLUME_NAME_MAX_SIZE as u64,
                actual: value_length as u64,
            },
        )
    } else {
        Ok(())
    }
}

/// Checks the length of a volume name (see [`spec_volume_name_check`]).
fn validate_volume_name_length(position: NtfsPosition, value_length: u64) -> (r: Result<()>)
    ensures
        r == spec_volume_name_check(position, value_length as nat),
{
    if value_length < VOLUME_NAME_MIN_SIZE as u64 {
        Err(
            NtfsError::InvalidStructuredValueSize {
                position,
                ty: NtfsAttributeType::VolumeName,
                expected: VOLUME_NAME_MIN_SIZE as u64,
                actual: value_length,
            },
        )
    } else if value_length > VOLUME_NAME_MAX_SIZE as u64 {
        Err(
            NtfsError::InvalidStructuredValueSize {
                position,
                ty: NtfsAttributeType::VolumeName,
                expected: VOLUME_NAME_MAX_SIZE as u64,
                actual: value_length,
            },
        )
    } else {
        Ok(())
    }
}

/// Structure of a $VOLUME_NAME attribute.
///
/// This attribute is only used by the top-level $Volume file and contains the user-defined name of this filesystem.
/// You can easily access it via [`crate::ntfs::Ntfs::volume_name`].
///
/// Reference: <https://flatcap.github.io/linux-ntfs/ntfs/attributes/volume_name.html>
#[derive(Debug)]
pub struct NtfsVolumeName {
    name: ArrayVec<u8, NAME_MAX_SIZE>,
}

impl NtfsVolumeName {
    /// A volume name holds at most 256 bytes.
    #[verifier::type_invariant]
    spec fn volume_name_inv(self) -> bool {
        name_buffer_bytes(self.name).len() <= VOLUME_NAME_MAX_SIZE
    }

    /// The bytes of the volume name.
    pub closed spec fn spec_name(&self) -> Seq<u8> {
        name_buffer_bytes(self.name)
    }

    /// Takes the volume name from its value bytes `data` at `position` (see [`spec_volume_name_check`]).
    pub fn from_bytes(data: &[u8], position: NtfsPosition) -> (r: Result<Self>)
        ensures
            match spec_volume_name_check(position, data@.len()) {
                Ok(()) => r matches Ok(v) && v.spec_name() == data@,
                Err(e) => r == Err::<Self, NtfsError>(e),
            },
    {
        match validate_volume_name_length(position, data.len() as u64) {
            Ok(()) => {},
            Err(e) => return Err(e),
        }
        Ok(Self { name: name_buffer_from_slice(data) })
    }

    /// Gets the volume name and returns it wrapped in an [`NtfsString`].
    pub fn name<'s>(&'s self) -> (r: NtfsString<'s>)
        ensures
            r.0@ == self.spec_name(),
    {
        NtfsString(name_buffer_as_slice(&self.name))
    }

    /// Returns the volume name length, in bytes.
    ///
    /// A volume name has a maximum length of 128 UTF-16 code points (256 bytes).
    pub fn name_length(&self) -> (r: usize)
        ensures
            r == self.spec_name().len(),
    {
        name_buffer_as_slice(&self.name).len()
    }
}

impl Clone for NtfsVolumeName {
    fn clone(&self) -> (r: Self)
        ensures
            r.spec_name() == self.spec_name(),
    {
        proof {
            use_type_invariant(self);
        }
        Self { name: name_buffer_from_slice(name_buffer_as_slice(&self.name)) }
    }
}

impl<'n, 'f> NtfsStructuredValue<'n, 'f> for NtfsVolumeName {
    open spec fn spec_structured_ty() -> NtfsAttributeType {
        NtfsAttributeType::VolumeName
    }

    fn structured_ty() -> (r: NtfsAttributeType) {
        NtfsAttributeType::VolumeName
    }

    /// Reads the name from the current position of the value on.
    /// A value of a length outside the limits of a volume name is refused; a resident value read
    /// from its start is parsed from its bytes (see
    /// [`NtfsStructuredValueFromResidentAttributeValue::spec_parsed_resident`]).
    open spec fn spec_from_value(value: NtfsAttributeValue<'n, 'f>, source: Seq<u8>, r: Result<Self>) -> bool {
        &&& spec_volume_name_check(value.spec_data_position(), value.spec_len()) matches Err(e)
            ==> r == Err::<Self, NtfsError>(e)
        &&& value matches NtfsAttributeValue::Resident(v) ==> (v.spec_stream_position() == 0
            ==> Self::spec_parsed_resident(v.spec_data(), value.spec_data_position(), r))
    }

    fn from_attribute_value<T>(fs: &mut T, value: NtfsAttributeValue<'n, 'f>) -> (r: Result<Self>) where
        T: Read + Seek,
    {
        if let NtfsAttributeValue::Resident(resident) = &value {
            if resident.stream_position() == 0 {
                return Self::from_resident_attribute_value(resident.clone());
            }
        }
        let position = value.data_position();
        let value_length = value.len();
        match validate_volume_name_length(position, value_length) {
            Ok(()) => {},
            Err(e) => return Err(e),
        }
        let mut value = value;
        let mut buf: Vec<u8> = vec![0u8; value_length as usize];
        match value.read_exact(fs, buf.as_mut_slice()) {
            Ok(()) => {},
            Err(e) => return Err(e),
        }
        Self::from_bytes(buf.as_slice(), position)
    }
}

impl<'n, 'f> NtfsStructuredValueFromResidentAttributeValue<'n, 'f> for NtfsVolumeName {
    open spec fn spec_ty() -> NtfsAttributeType {
        NtfsAttributeType::VolumeName
    }

    fn ty() -> (r: NtfsAttributeType) {
        NtfsAttributeType::VolumeName
    }

    open spec fn spec_parsed_resident(data: Seq<u8>, position: NtfsPosition, r: Result<Self>) -> bool {
        match spec_volume_name_check(position, data.len()) {
            Ok(()) => r matches Ok(v) && v.spec_name() == data,
            Err(e) => r == Err::<Self, NtfsError>(e),
        }
    }

    fn from_resident_attribute_value(value: NtfsResidentAttributeValue<'f>) -> (r: Result<Self>) {
        let position = value.data_position();
        Self::from_bytes(value.data(), position)
    }
}

} // verus!
