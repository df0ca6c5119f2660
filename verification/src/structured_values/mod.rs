//! Various types of NTFS Attribute structured values.
use vstd::prelude::*;

pub mod attribute_list;
pub mod file_name;
pub mod index_allocation;
pub mod index_root;
pub mod object_id;
pub mod standard_information;
pub mod volume_information;
pub mod volume_name;

use crate::attribute::NtfsAttributeType;
use crate::attribute_value::{NtfsAttributeValue, NtfsResidentAttributeValue};
use crate::error::Result;
use crate::io::{Read, Seek};
use crate::traits::NtfsReadSeek;
use crate::types::NtfsPosition;

pub use attribute_list::{NtfsAttributeList, NtfsAttributeListEntries, NtfsAttributeListEntry};
pub use file_name::{NtfsFileAttributeFlags, NtfsFileName, NtfsFileNamespace};
pub use index_allocation::{NtfsIndexAllocation, NtfsIndexRecords};
pub use index_root::NtfsIndexRoot;
pub use object_id::NtfsObjectId;
pub use standard_information::NtfsStandardInformation;
pub use volume_information::{NtfsVolumeFlags, NtfsVolumeInformation};
pub use volume_name::NtfsVolumeName;

verus! {

/// Trait implemented by structures that can be parsed from an attribute value of any kind,
/// reading through the filesystem reader where needed.
pub trait NtfsStructuredValue<'n, 'f>: Sized {
    /// The attribute type that this structured value is stored in.
    spec fn spec_structured_ty() -> NtfsAttributeType;

    /// Returns the attribute type that this structured value is stored in.
    fn structured_ty() -> (r: NtfsAttributeType)
        ensures
            r == Self::spec_structured_ty(),
    ;

    /// Whether `r` is what parsing the structured value from the attribute value `value` gives.
    spec fn spec_from_value(value: NtfsAttributeValue<'n, 'f>, source: Seq<u8>, r: Result<Self>) -> bool;

    /// Parses the structured value from an attribute value.
    fn from_attribute_value<T>(fs: &mut T, value: NtfsAttributeValue<'n, 'f>) -> (r: Result<Self>) where
        T: Read + Seek,
        ensures
            final(fs).source() == old(fs).source(),
            Self::spec_from_value(value, old(fs).source(), r),
    ;
}

/// Trait implemented by structures that can be parsed from a resident attribute value
/// without a reference to the filesystem reader.
pub trait NtfsStructuredValueFromResidentAttributeValue<'n, 'f>: Sized {
    /// The attribute type that this structured value is stored in.
    spec fn spec_ty() -> NtfsAttributeType;

    /// Returns the attribute type that this structured value is stored in.
    fn ty() -> (r: NtfsAttributeType)
        ensures
            r == Self::spec_ty(),
    ;

    /// Whether `r` is what parsing the resident value bytes `data`, which begin at `position`, gives.
    spec fn spec_parsed_resident(data: Seq<u8>, position: NtfsPosition, r: Result<Self>) -> bool;

    /// Parses the structured value from all bytes of a resident attribute value, which lie at
    /// the value's current data position.
    fn from_resident_attribute_value(value: NtfsResidentAttributeValue<'f>) -> (r: Result<Self>)
        ensures
            Self::spec_parsed_resident(value.spec_data(), value.spec_data_position(), r),
    ;
}

} // verus!
