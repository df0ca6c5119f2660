//! Types of NTFS indexes and the traits that describe their entries.
//!
//! NTFS uses B-tree indexes to quickly look up files, Object IDs, Reparse Points, Security Descriptors, etc.
//! They are described via [`crate::structured_values::NtfsIndexRoot`] and
//! [`crate::structured_values::NtfsIndexAllocation`] attributes, which can be comfortably
//! accessed via [`crate::index::NtfsIndex`].
use vstd::prelude::*;

pub mod file_name;

use crate::error::Result;
use crate::types::NtfsPosition;

pub use file_name::NtfsFileNameIndex;

verus! {

/// Trait implemented by structures that describe Index Entry types.
///
/// See also [`crate::index::NtfsIndex`] and [`crate::index_entry::NtfsIndexEntry`], and
/// [`NtfsFileNameIndex`] for the most popular Index Entry type.
pub trait NtfsIndexEntryType {
    /// The structure that the key of an Index Entry is parsed into.
    type KeyType: NtfsIndexEntryKey;
}

/// Trait implemented by a structure that describes an Index Entry key.
pub trait NtfsIndexEntryKey: Sized {
    /// Whether `r` is what parsing the key bytes `b` found at `position` gives.
    spec fn spec_parsed_key(b: Seq<u8>, position: NtfsPosition, r: Result<Self>) -> bool;

    /// Parses the key bytes `slice` found at `position`.
    fn key_from_slice(slice: &[u8], position: NtfsPosition) -> (r: Result<Self>)
        ensures
            Self::spec_parsed_key(slice@, position, r),
    ;
}

/// Indicates that the Index Entry type has additional data (of [`NtfsIndexEntryData`] datatype).
///
/// This trait and [`NtfsIndexEntryHasFileReference`] are mutually exclusive.
pub trait NtfsIndexEntryHasData: NtfsIndexEntryType {
    /// The structure that the data of an Index Entry is parsed into.
    type DataType: NtfsIndexEntryData;
}

/// Trait implemented by a structure that describes Index Entry data.
pub trait NtfsIndexEntryData: Sized {
    /// Whether `r` is what parsing the data bytes `b` found at `position` gives.
    spec fn spec_parsed_data(b: Seq<u8>, position: NtfsPosition, r: Result<Self>) -> bool;

    /// Parses the data bytes `slice` found at `position`.
    fn data_from_slice(slice: &[u8], position: NtfsPosition) -> (r: Result<Self>)
        ensures
            Self::spec_parsed_data(slice@, position, r),
    ;
}

/// Indicates that the Index Entry type has a file reference.
///
/// This trait and [`NtfsIndexEntryHasData`] are mutually exclusive.
pub trait NtfsIndexEntryHasFileReference: NtfsIndexEntryType {

}

} // verus!
