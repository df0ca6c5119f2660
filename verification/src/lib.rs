//! A low-level NTFS filesystem library.
pub mod attribute;
pub mod attribute_value;
pub mod boot_sector;
pub mod error;
pub mod file;
pub mod file_reference;
pub mod guid;
pub mod helpers;
pub mod index;
pub mod index_entry;
pub mod index_record;
pub mod indexes;
pub mod io;
pub mod record;
pub mod string;
pub mod structured_values;
pub mod time;
pub mod traits;
pub mod utf16;
pub mod names;
pub mod ntfs;
pub mod types;
pub mod upcase_table;

pub use crate::attribute::{
    NtfsAttribute, NtfsAttributeFlags, NtfsAttributeItem, NtfsAttributeType, NtfsAttributes,
    NtfsAttributesRaw,
};
pub use crate::error::{NtfsError, Result};
pub use crate::file::{KnownNtfsFileRecordNumber, NtfsFile, NtfsFileFlags};
pub use crate::file_reference::NtfsFileReference;
pub use crate::guid::NtfsGuid;
pub use crate::index::{NtfsIndex, NtfsIndexEntries, NtfsIndexFinder};
pub use crate::index_entry::{NtfsIndexEntry, NtfsIndexEntryFlags, NtfsIndexNodeEntries};
pub use crate::index_record::NtfsIndexRecord;
pub use crate::ntfs::Ntfs;
pub use crate::time::NtfsTime;
pub use crate::traits::NtfsReadSeek;
pub use crate::upcase_table::UpcaseTable;
