//! The $OBJECT_ID structured value.
use vstd::prelude::*;

use crate::attribute::NtfsAttributeType;
use crate::attribute_value::{NtfsAttributeValue, NtfsResidentAttributeValue};
use crate::error::{NtfsError, Result};
use crate::guid::{NtfsGuid, GUID_SIZE};
use crate::io::{Read, Seek};
use crate::structured_values::{NtfsStructuredValue, NtfsStructuredValueFromResidentAttributeValue};
use crate::traits::NtfsReadSeek;
use crate::types::NtfsPosition;

verus! {

/// The largest size of an $OBJECT_ID structure: four GUIDs.
pub const OBJECT_ID_MAX_SIZE: usize = 64;

/// The bytes of the `k`-th GUID of the value bytes `data`, if the value holds it.
pub open spec fn spec_guid_at(data: Seq<u8>, k: int) -> Option<Seq<u8>> {
    if data.len() >= (k + 1) * GUID_SIZE {
        Some(data.subrange(k * GUID_SIZE, (k + 1) * GUID_SIZE))
    } else {
        None
    }
}

/// The bytes of a GUID that may be absent.
pub open spec fn spec_optional_guid_bytes(g: Option<NtfsGuid>) -> Option<Seq<u8>> {
    match g {
        Some(g) => Some(g.spec_bytes()),
        None => None,
    }
}

/// The bytes of a borrowed GUID that may be absent.
pub open spec fn spec_optional_guid_ref_bytes(g: Option<&NtfsGuid>) -> Option<Seq<u8>> {
    match g {
        Some(g) => Some(g.spec_bytes()),
        None => None,
    }
}

/// The error for a value of `value_length` bytes at `position` shorter than one GUID.
pub open spec fn spec_object_id_size_error(position: NtfsPosition, value_length: u64) -> NtfsError {
    NtfsError::InvalidStructuredValueSize {
        position,
        ty: NtfsAttributeType::ObjectId,
        expected: GUID_SIZE as u64,
        actual: value_length,
    }
}

/// Structure of an $OBJECT_ID attribute.
///
/// This optional attribute contains a globally unique identifier of the file.
///
/// Reference: <https://flatcap.github.io/linux-ntfs/ntfs/attributes/object_id.html>
#[derive(Clone, Copy, Debug)]
pub struct NtfsObjectId {
    object_id: NtfsGuid,
    birth_volume_id: Option<NtfsGuid>,
    birth_object_id: Option<NtfsGuid>,
    domain_id: Option<NtfsGuid>,
}

impl NtfsObjectId {
    /// The bytes of the GUIDs of this structure, in their on-disk order; all but the first are optional.
    pub closed spec fn spec_guids(&self) -> (Seq<u8>, Option<Seq<u8>>, Option<Seq<u8>>, Option<Seq<u8>>) {
        (
            self.object_id.spec_bytes(),
            spec_optional_guid_bytes(self.birth_volume_id),
            spec_optional_guid_bytes(self.birth_object_id),
            spec_optional_guid_bytes(self.domain_id),
        )
    }

    /// Whether this structure holds the GUIDs stored in the value bytes `data`.
    pub open spec fn spec_parsed_from(&self, data: Seq<u8>) -> bool {
        &&& Some(self.spec_guids().0) == spec_guid_at(data, 0)
        &&& self.spec_guids().1 == spec_guid_at(data, 1)
        &&& self.spec_guids().2 == spec_guid_at(data, 2)
        &&& self.spec_guids().3 == spec_guid_at(data, 3)
    }

    /// Parses the structure from the value bytes `data` at `position`, which make up a value of
    /// `value_length` bytes (`data` holds all of them, or at least the largest structure).
    fn parse(data: &[u8], position: NtfsPosition, value_length: u64) -> (r: Result<Self>)
        requires
            data@.len() == value_length || (data@.len() == OBJECT_ID_MAX_SIZE && value_length
                >= OBJECT_ID_MAX_SIZE),
        ensures
            value_length < GUID_SIZE ==> r == Err::<Self, NtfsError>(
                spec_object_id_size_error(position, value_length),
            ),
            value_length >= GUID_SIZE ==> (r matches Ok(o) && o.spec_parsed_from(data@)),
    {
        if value_length < GUID_SIZE as u64 {
            return Err(
                NtfsError::InvalidStructuredValueSize {
                    position,
                    ty: NtfsAttributeType::ObjectId,
                    expected: GUID_SIZE as u64,
                    actual: value_length,
                },
            );
        }
        let len = data.len();
        let object_id = NtfsGuid::from_bytes(data);
        let birth_volume_id = if len >= 2 * GUID_SIZE {
            Some(NtfsGuid::from_bytes(crate::attribute::slice_subrange(data, GUID_SIZE, len)))
        } else {
            None
        };
        let birth_object_id = if len >= 3 * GUID_SIZE {
            Some(NtfsGuid::from_bytes(crate::attribute::slice_subrange(data, 2 * GUID_SIZE, len)))
        } else {
            None
        };
        let domain_id = if len >= 4 * GUID_SIZE {
            Some(NtfsGuid::from_bytes(crate::attribute::slice_subrange(data, 3 * GUID_SIZE, len)))
        } else {
            None
        };
        let r = Self { object_id, birth_volume_id, birth_object_id, domain_id };
        proof {
            assert(data@.subrange(0, 16) =~= data@.subrange(0, GUID_SIZE as int));
            if len >= 32 {
                assert(data@.subrange(16, len as int).subrange(0, 16) =~= data@.subrange(16, 32));
            }
            if len >= 48 {
                assert(data@.subrange(32, len as int).subrange(0, 16) =~= data@.subrange(32, 48));
            }
            if len >= 64 {
                assert(data@.subrange(48, len as int).subrange(0, 16) =~= data@.subrange(48, 64));
            }
        }
        Ok(r)
    }

    /// Parses the structure from the value bytes `data` at `position`.
    pub fn from_bytes(data: &[u8], position: NtfsPosition) -> (r: Result<Self>)
        ensures
            data@.len() < GUID_SIZE ==> r == Err::<Self, NtfsError>(
                spec_object_id_size_error(position, data@.len() as u64),
            ),
            data@.len() >= GUID_SIZE ==> (r matches Ok(o) && o.spec_parsed_from(data@)),
    {
        Self::parse(data, position, data.len() as u64)
    }

    /// Returns the (optional) first Object ID that has ever been assigned to this file.
    pub fn birth_object_id(&self) -> (r: Option<&NtfsGuid>)
        ensures
            spec_optional_guid_ref_bytes(r) == self.spec_guids().2,
    {
        self.birth_object_id.as_ref()
    }

    /// Returns the (optional) Object ID of the $Volume file of the partition where this file was created.
    pub fn birth_volume_id(&self) -> (r: Option<&NtfsGuid>)
        ensures
            spec_optional_guid_ref_bytes(r) == self.spec_guids().1,
    {
        self.birth_volume_id.as_ref()
    }

    /// Returns the (optional) Domain ID of this file.
    pub fn domain_id(&self) -> (r: Option<&NtfsGuid>)
        ensures
            spec_optional_guid_ref_bytes(r) == self.spec_guids().3,
    {
        self.domain_id.as_ref()
    }

    /// Returns the Object ID, a globally unique identifier of the file.
    pub fn object_id(&self) -> (r: &NtfsGuid)
        ensures
            r.spec_bytes() == self.spec_guids().0,
    {
        &self.object_id
    }
}

impl<'n, 'f> NtfsStructuredValue<'n, 'f> for NtfsObjectId {
    open spec fn spec_structured_ty() -> NtfsAttributeType {
        NtfsAttributeType::ObjectId
    }

    fn structured_ty() -> (r: NtfsAttributeType) {
        NtfsAttributeType::ObjectId
    }

    /// Reads the structure from the current position of the value on.
    /// A value shorter than a GUID is refused; a resident value read from its start is parsed from
    /// its bytes (see [`NtfsStructuredValueFromResidentAttributeValue::spec_parsed_resident`]).
    open spec fn spec_from_value(value: NtfsAttributeValue<'n, 'f>, source: Seq<u8>, r: Result<Self>) -> bool {
        &&& value.spec_len() < GUID_SIZE ==> r == Err::<Self, NtfsError>(
            spec_object_id_size_error(value.spec_data_position(), value.spec_len() as u64),
        )
        &&& value matches NtfsAttributeValue::Resident(v) ==> (v.spec_stream_position() == 0
            ==> Self::spec_parsed_resident(v.spec_data(), value.spec_data_position(), r))
    }

    fn from_attribute_value<T>(fs: &mut T, value: NtfsAttributeValue<'n, 'f>) -> (r: Result<Self>) where
        T: Read + Seek,
    {
        if let NtfsAttributeValue::Resident(resident) = &value {
            if resident.stream_position() == 0 {
                return Self::from_resident_attribute_value(resident.clone());
            }
        }
        let position = value.data_position();
        let value_length = value.len();
        if value_length < GUID_SIZE as u64 {
            return Err(
                NtfsError::InvalidStructuredValueSize {
                    position,
                    ty: NtfsAttributeType::ObjectId,
                    expected: GUID_SIZE as u64,
                    actual: value_length,
                },
            );
        }
        let size = if value_length < OBJECT_ID_MAX_SIZE as u64 {
            value_length as usize
        } else {
            OBJECT_ID_MAX_SIZE
        };
        let mut value = value;
        let mut buf: Vec<u8> = vec![0u8; size];
        match value.read_exact(fs, buf.as_mut_slice()) {
            Ok(()) => {},
            Err(e) => return Err(e),
        }
        Self::parse(buf.as_slice(), position, value_length)
    }
}

impl<'n, 'f> NtfsStructuredValueFromResidentAttributeValue<'n, 'f> for NtfsObjectId {
    open spec fn spec_ty() -> NtfsAttributeType {
        NtfsAttributeType::ObjectId
    }

    fn ty() -> (r: NtfsAttributeType) {
        NtfsAttributeType::ObjectId
    }

    open spec fn spec_parsed_resident(data: Seq<u8>, position: NtfsPosition, r: Result<Self>) -> bool {
        &&& data.len() < GUID_SIZE ==> r == Err::<Self, NtfsError>(
            spec_object_id_size_error(position, data.len() as u64),
        )
        &&& data.len() >= GUID_SIZE ==> (r matches Ok(o) && o.spec_parsed_from(data))
    }

    fn from_resident_attribute_value(value: NtfsResidentAttributeValue<'f>) -> (r: Result<Self>) {
        let position = value.data_position();
        Self::from_bytes(value.data(), position)
    }
}

} // verus!
