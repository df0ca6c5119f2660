//! The $ATTRIBUTE_LIST structured value and its entries.
use vstd::prelude::*;

use arrayvec::ArrayVec;

use crate::attribute::{
    spec_attribute_type_from_code, NtfsAttribute, NtfsAttributeType, ATTRIBUTE_INSTANCE_OFFSET,
};
use crate::attribute_value::{NtfsAttributeValue, NtfsNonResidentAttributeValue};
use crate::error::{NtfsError, Result};
use crate::file::NtfsFile;
use crate::file_reference::NtfsFileReference;
use crate::helpers::{
    read_i64_le, read_u16_le, read_u32_le, spec_i64_le, spec_le2_value, spec_le4_value, spec_le8_value,
    spec_u16_le, spec_u32_le,
};
use crate::io::{Error, ErrorKind, Read, Seek, SeekFrom};
use crate::names::{name_buffer_as_slice, name_buffer_bytes, name_buffer_from_slice, NAME_MAX_SIZE};
use crate::ntfs::Ntfs;
use crate::structured_values::NtfsStructuredValue;
use crate::traits::NtfsReadSeek;
use crate::types::{NtfsPosition, Vcn};
use crate::utf16::NtfsString;

verus! {

/// Size of all fields of the header of an Attribute List entry.
pub const ATTRIBUTE_LIST_ENTRY_HEADER_SIZE: usize = 26;

/// The header fields of an Attribute List entry.
#[derive(Clone, Copy, Debug)]
pub struct AttributeListEntryHeader {
    /// Type code of the listed attribute.
    pub ty: u32,
    /// Length of this entry, in bytes.
    pub list_entry_length: u16,
    /// Length of the name, in UTF-16 code units.
    pub name_length: u8,
    /// Offset to the name, in bytes from the beginning of this entry.
    pub name_offset: u8,
    /// Lowest VCN of the value part held by the listed attribute.
    pub lowest_vcn: Vcn,
    /// Reference to the File Record holding the listed attribute.
    pub base_file_reference: NtfsFileReference,
    /// Instance identifier of the listed attribute within its File Record.
    pub instance: u16,
}

/// The header fields stored little-endian in the first 26 bytes of `b`.
pub open spec fn spec_entry_header(b: Seq<u8>) -> AttributeListEntryHeader {
    AttributeListEntryHeader {
        ty: spec_u32_le(b, 0),
        list_entry_length: spec_u16_le(b, 4),
        name_length: b[6],
        name_offset: b[7],
        lowest_vcn: Vcn(spec_i64_le(b, 8)),
        base_file_reference: NtfsFileReference([b[16], b[17], b[18], b[19], b[20], b[21], b[22], b[23]]),
        instance: spec_u16_le(b, 24),
    }
}

/// The check that the header and the name of an entry at `position` fit into the entry.
pub open spec fn spec_entry_length_check(header: AttributeListEntryHeader, position: NtfsPosition) -> Result<()> {
    let total_size = ATTRIBUTE_LIST_ENTRY_HEADER_SIZE + header.name_length * 2;
    if total_size > header.list_entry_length {
        Err(
            NtfsError::InvalidStructuredValueSize {
                position,
                ty: NtfsAttributeType::AttributeList,
                expected: header.list_entry_length as u64,
                actual: total_size as u64,
            },
        )
    } else {
        Ok(())
    }
}

/// The error for a value that ends before an entry.
pub open spec fn spec_eof_error() -> NtfsError {
    NtfsError::Io(Error::spec_from_kind(ErrorKind::UnexpectedEof))
}

/// The header and the name bytes of the entry at the beginning of `b` (which lies at `position`),
/// or the error that reading it gives.
pub open spec fn spec_entry(b: Seq<u8>, position: NtfsPosition) -> Result<(AttributeListEntryHeader, Seq<u8>)> {
    if b.len() < ATTRIBUTE_LIST_ENTRY_HEADER_SIZE {
        Err(spec_eof_error())
    } else {
        let header = spec_entry_header(b);
        match spec_entry_length_check(header, position) {
            Err(e) => Err(e),
            Ok(()) => {
                let name_end = ATTRIBUTE_LIST_ENTRY_HEADER_SIZE + header.name_length * 2;
                if name_end > b.len() {
                    Err(spec_eof_error())
                } else {
                    Ok((header, b.subrange(ATTRIBUTE_LIST_ENTRY_HEADER_SIZE as int, name_end)))
                }
            },
        }
    }
}

/// An Attribute List entry read from the bytes `b` gives the fields of the on-disk layout, each
/// little-endian: the attribute type in bytes 0..4, the entry length in bytes 4..6, the name
/// length (in UTF-16 code units) and offset in bytes 6 and 7, the lowest VCN (two's complement)
/// in bytes 8..16, the reference to the File Record holding the attribute in bytes 16..24 and
/// the attribute instance in bytes 24..26; the name follows the 26-byte header.
pub proof fn lemma_entry_layout(b: Seq<u8>, position: NtfsPosition)
    ensures
        spec_entry(b, position) matches Ok((header, name)) ==> {
            &&& header.ty == spec_le4_value(b, 0)
            &&& header.list_entry_length == spec_le2_value(b, 4)
            &&& header.name_length == b[6]
            &&& header.name_offset == b[7]
            &&& header.lowest_vcn.0 == (if spec_le8_value(b, 8) < 0x8000_0000_0000_0000 {
                spec_le8_value(b, 8)
            } else {
                spec_le8_value(b, 8) - 0x1_0000_0000_0000_0000
            })
            &&& header.base_file_reference.0@ == b.subrange(16, 24)
            &&& header.instance == spec_le2_value(b, 24)
            &&& name == b.subrange(26, 26 + 2 * b[6] as int)
        },
{
    if let Ok((header, name)) = spec_entry(b, position) {
        assert(header.base_file_reference.0@ =~= b.subrange(16, 24));
    }
}

/// Parses the header fields from the first 26 bytes of `b`.
fn parse_entry_header(b: &[u8]) -> (r: AttributeListEntryHeader)
    requires
        b@.len() >= ATTRIBUTE_LIST_ENTRY_HEADER_SIZE,
    ensures
        r == spec_entry_header(b@),
{
    AttributeListEntryHeader {
        ty: read_u32_le(b, 0),
        list_entry_length: read_u16_le(b, 4),
        name_length: b[6],
        name_offset: b[7],
        lowest_vcn: Vcn(read_i64_le(b, 8)),
        base_file_reference: NtfsFileReference::new([b[16], b[17], b[18], b[19], b[20], b[21], b[22], b[23]]),
        instance: read_u16_le(b, 24),
    }
}

/// Checks that the header and the name of an entry fit into the entry.
fn validate_entry_and_name_length(header: &AttributeListEntryHeader, position: NtfsPosition) -> (r: Result<()>)
    ensures
        r == spec_entry_length_check(*header, position),
{
    let total_size = ATTRIBUTE_LIST_ENTRY_HEADER_SIZE + header.name_length as usize * 2;
    if total_size > header.list_entry_length as usize {
        return Err(
            NtfsError::InvalidStructuredValueSize {
                position,
                ty: NtfsAttributeType::AttributeList,
                expected: header.list_entry_length as u64,
                actual: total_size as u64,
            },
        );
    }
    Ok(())
}

/// A single entry of an NTFS Attribute List.
///
/// Reference: <https://flatcap.github.io/linux-ntfs/ntfs/attributes/attribute_list.html>
#[derive(Debug)]
pub struct NtfsAttributeListEntry {
    header: AttributeListEntryHeader,
    name: ArrayVec<u8, NAME_MAX_SIZE>,
    position: NtfsPosition,
}

impl NtfsAttributeListEntry {
    /// The header fields of the entry.
    pub closed spec fn spec_header(&self) -> AttributeListEntryHeader {
        self.header
    }

    /// The bytes of the name of the listed attribute.
    pub closed spec fn spec_name(&self) -> Seq<u8> {
        name_buffer_bytes(self.name)
    }

    /// The absolute position of the entry within the filesystem.
    pub closed spec fn spec_position(&self) -> NtfsPosition {
        self.position
    }

    /// Creates an entry from its header and its name bytes.
    fn from_parts(header: AttributeListEntryHeader, name: &[u8], position: NtfsPosition) -> (r: Self)
        requires
            name@.len() == header.name_length * 2,
        ensures
            r.spec_header() == header,
            r.spec_name() == name@,
            r.spec_position() == position,
    {
        Self { header, name: name_buffer_from_slice(name), position }
    }

    /// Parses the entry at the beginning of the bytes `b`, which lie at `position`.
    pub fn from_bytes(b: &[u8], position: NtfsPosition) -> (r: Result<Self>)
        ensures
            match spec_entry(b@, position) {
                Ok((header, name)) => r matches Ok(e) && e.spec_header() == header && e.spec_name()
                    == name && e.spec_position() == position,
                Err(e) => r == Err::<Self, NtfsError>(e),
            },
    {
        if b.len() < ATTRIBUTE_LIST_ENTRY_HEADER_SIZE {
            return Err(NtfsError::Io(Error::new(ErrorKind::UnexpectedEof, "failed to fill whole buffer")));
        }
        let header = parse_entry_header(b);
        match validate_entry_and_name_length(&header, position) {
            Ok(()) => {},
            Err(e) => return Err(e),
        }
        let name_end = ATTRIBUTE_LIST_ENTRY_HEADER_SIZE + header.name_length as usize * 2;
        if name_end > b.len() {
            return Err(NtfsError::Io(Error::new(ErrorKind::UnexpectedEof, "failed to fill whole buffer")));
        }
        let name = crate::attribute::slice_subrange(b, ATTRIBUTE_LIST_ENTRY_HEADER_SIZE, name_end);
        Ok(Self::from_parts(header, name, position))
    }

    /// Reads the entry at the current position of a non-resident value, leaving `value` unchanged.
    fn read_from_value<T>(value: &NtfsNonResidentAttributeValue, fs: &mut T, position: NtfsPosition) -> (r: Result<Self>) where
        T: Read + Seek,
        ensures
            final(fs).source() == old(fs).source(),
            r matches Ok(e) ==> spec_entry_length_check(e.spec_header(), position) is Ok
                && e.spec_position() == position,
    {
        let mut reader = value.clone();
        let mut header_bytes = [0u8; ATTRIBUTE_LIST_ENTRY_HEADER_SIZE];
        match reader.read_exact(fs, &mut header_bytes) {
            Ok(()) => {},
            Err(e) => return Err(e),
        }
        let header = parse_entry_header(&header_bytes);
        match validate_entry_and_name_length(&header, position) {
            Ok(()) => {},
            Err(e) => return Err(e),
        }
        let name_length = header.name_length as usize * 2;
        let mut name: Vec<u8> = vec![0u8; name_length];
        match reader.read_exact(fs, name.as_mut_slice()) {
            Ok(()) => {},
            Err(e) => return Err(e),
        }
        Ok(Self::from_parts(header, name.as_slice(), position))
    }

    /// Returns a reference to the File Record where the attribute is stored.
    pub fn base_file_reference(&self) -> (r: NtfsFileReference)
        ensures
            r == self.spec_header().base_file_reference,
    {
        self.header.base_file_reference
    }

    /// Returns the instance number of this attribute.
    /// This can be used to look up the attribute in the referenced File Record.
    pub fn instance(&self) -> (r: u16)
        ensures
            r == self.spec_header().instance,
    {
        self.header.instance
    }

    /// Returns the length of this Attribute List entry, in bytes.
    pub fn list_entry_length(&self) -> (r: u16)
        ensures
            r == self.spec_header().list_entry_length,
    {
        self.header.list_entry_length
    }

    /// Returns the offset of this attribute's value data as a Virtual Cluster Number (VCN).
    ///
    /// This is zero for all unfragmented files and the first attribute of a fragmented file.
    pub fn lowest_vcn(&self) -> (r: Vcn)
        ensures
            r == self.spec_header().lowest_vcn,
    {
        self.header.lowest_vcn
    }

    /// Gets the attribute name and returns it wrapped in an [`NtfsString`].
    pub fn name<'s>(&'s self) -> (r: NtfsString<'s>)
        ensures
            r.0@ == self.spec_name(),
    {
        NtfsString(name_buffer_as_slice(&self.name))
    }

    /// Returns the file name length, in bytes.
    ///
    /// A file name has a maximum length of 255 UTF-16 code points (510 bytes).
    pub fn name_length(&self) -> (r: usize)
        ensures
            r == self.spec_header().name_length * 2,
    {
        self.header.name_length as usize * 2
    }

    /// Returns the absolute position of this Attribute List entry within the filesystem, in bytes.
    pub fn position(&self) -> (r: NtfsPosition)
        ensures
            r == self.spec_position(),
    {
        self.position
    }

    /// Returns an [`NtfsAttribute`] for the attribute described by this Attribute List entry.
    ///
    /// Use [`NtfsAttributeListEntry::to_file`] first to get the required File Record.
    pub fn to_attribute<'n, 'f>(&self, file: &'f NtfsFile<'n>) -> (r: Result<NtfsAttribute<'n, 'f>>)
        requires
            file.wf(),
            file.spec_file_record_number() == self.spec_header().base_file_reference.spec_file_record_number(),
        ensures
            r matches Ok(a) ==> {
                &&& a.spec_file() == *file
                &&& spec_attribute_type_from_code(a.spec_type_code()) == spec_attribute_type_from_code(self.spec_header().ty)
                &&& spec_attribute_type_from_code(self.spec_header().ty) is Some
                &&& spec_u16_le(a.spec_data(), a.spec_offset() + ATTRIBUTE_INSTANCE_OFFSET) == self.spec_header().instance
            },
    {
        let instance = self.instance();
        let ty = match self.ty() {
            Ok(t) => t,
            Err(e) => return Err(e),
        };
        file.find_resident_attribute(ty, None, Some(instance))
    }

    /// Reads the corresponding File Record and returns it wrapped in an [`NtfsFile`].
    pub fn to_file<'n, T>(&self, ntfs: &'n Ntfs, fs: &mut T) -> (r: Result<NtfsFile<'n>>) where
        T: Read + Seek,
        ensures
            final(fs).source() == old(fs).source(),
            r matches Ok(f) ==> f.wf() && f.spec_ntfs() == *ntfs && f.spec_file_record_number()
                == self.spec_header().base_file_reference.spec_file_record_number(),
    {
        let file_record_number = self.base_file_reference().file_record_number();
        ntfs.file(fs, file_record_number)
    }

    /// Returns the type of this NTFS Attribute, or [`NtfsError::UnsupportedAttributeType`]
    /// if it's an unknown type.
    pub fn ty(&self) -> (r: Result<NtfsAttributeType>)
        ensures
            match spec_attribute_type_from_code(self.spec_header().ty) {
                Some(t) => r == Ok::<NtfsAttributeType, NtfsError>(t),
                None => r == Err::<NtfsAttributeType, NtfsError>(
                    NtfsError::UnsupportedAttributeType {
                        position: self.spec_position(),
                        actual: self.spec_header().ty,
                    },
                ),
            },
    {
        match NtfsAttributeType::n(self.header.ty) {
            Some(t) => Ok(t),
            None => Err(NtfsError::UnsupportedAttributeType { position: self.position, actual: self.header.ty }),
        }
    }
}

/// Structure of an $ATTRIBUTE_LIST attribute.
///
/// When a File Record lacks space to incorporate further attributes, NTFS creates an additional File Record,
/// moves all or some of the existing attributes there, and references them via a resident $ATTRIBUTE_LIST attribute
/// in the original File Record.
///
/// Reference: <https://flatcap.github.io/linux-ntfs/ntfs/attributes/attribute_list.html>
#[derive(Debug)]
pub enum NtfsAttributeList<'n, 'f> {
    /// A resident $ATTRIBUTE_LIST attribute: the remaining list bytes and their position.
    Resident(&'f [u8], NtfsPosition),
    /// A non-resident $ATTRIBUTE_LIST attribute.
    NonResident(NtfsNonResidentAttributeValue<'n, 'f>),
}

impl<'n, 'f> Clone for NtfsAttributeList<'n, 'f> {
    fn clone(&self) -> (r: Self)
        ensures
            r == *self,
    {
        match self {
            NtfsAttributeList::Resident(data, position) => NtfsAttributeList::Resident(*data, *position),
            NtfsAttributeList::NonResident(value) => NtfsAttributeList::NonResident(value.clone()),
        }
    }
}

impl<'n, 'f> NtfsAttributeList<'n, 'f> {
    /// Returns an iterator over all entries of this Attribute List.
    pub fn entries(&self) -> (r: NtfsAttributeListEntries<'n, 'f>)
        ensures
            r.spec_attribute_list() == *self,
    {
        NtfsAttributeListEntries::new(self.clone())
    }

    /// Returns the absolute position of this Attribute List within the filesystem, in bytes.
    pub fn position(&self) -> (r: NtfsPosition)
        ensures
            self matches NtfsAttributeList::Resident(_, p) ==> r == p,
            self matches NtfsAttributeList::NonResident(v) ==> r == match v.spec_data_run() {
                Some(run) => crate::attribute_value::non_resident::spec_run_data_position(run),
                None => NtfsPosition::spec_at(0),
            },
    {
        match self {
            NtfsAttributeList::Resident(_slice, position) => *position,
            NtfsAttributeList::NonResident(value) => value.data_position(),
        }
    }
}

impl<'n, 'f> NtfsStructuredValue<'n, 'f> for NtfsAttributeList<'n, 'f> {
    open spec fn spec_structured_ty() -> NtfsAttributeType {
        NtfsAttributeType::AttributeList
    }

    fn structured_ty() -> (r: NtfsAttributeType) {
        NtfsAttributeType::AttributeList
    }

    /// Takes over the bytes of a resident value and the reader of a non-resident value.
    /// A resident value gives its bytes and their position, a non-resident value itself; a value
    /// that is part of an Attribute List is refused, as Attribute Lists are never nested.
    open spec fn spec_from_value(value: NtfsAttributeValue<'n, 'f>, source: Seq<u8>, r: Result<Self>) -> bool {
        match value {
            NtfsAttributeValue::Resident(v) => r matches Ok(NtfsAttributeList::Resident(s, p))
                && s@ == v.spec_data() && p == value.spec_data_position(),
            NtfsAttributeValue::NonResident(v) => r == Ok::<Self, NtfsError>(
                NtfsAttributeList::NonResident(v),
            ),
            NtfsAttributeValue::AttributeListNonResident(_) => r == Err::<Self, NtfsError>(
                NtfsError::UnexpectedAttributeListAttribute { position: value.spec_data_position() },
            ),
        }
    }

    fn from_attribute_value<T>(_fs: &mut T, value: NtfsAttributeValue<'n, 'f>) -> (r: Result<Self>) where
        T: Read + Seek,
    {
        match value {
            NtfsAttributeValue::Resident(value) => {
                let slice = value.data();
                let position = value.data_position();
                Ok(NtfsAttributeList::Resident(slice, position))
            },
            NtfsAttributeValue::NonResident(value) => Ok(NtfsAttributeList::NonResident(value)),
            NtfsAttributeValue::AttributeListNonResident(value) => {
                let position = value.data_position();
                Err(NtfsError::UnexpectedAttributeListAttribute { position })
            },
        }
    }
}

/// Iterator over all entries of an [`NtfsAttributeList`], returning an [`NtfsAttributeListEntry`] for each entry.
///
/// This iterator is returned from the [`NtfsAttributeList::entries`] function.
#[derive(Debug)]
pub struct NtfsAttributeListEntries<'n, 'f> {
    attribute_list: NtfsAttributeList<'n, 'f>,
}

impl<'n, 'f> Clone for NtfsAttributeListEntries<'n, 'f> {
    fn clone(&self) -> (r: Self)
        ensures
            r == *self,
    {
        NtfsAttributeListEntries { attribute_list: self.attribute_list.clone() }
    }
}

/// A measure of the Attribute List left to iterate over.
pub open spec fn spec_entries_left(list: NtfsAttributeList) -> nat {
    match list {
        NtfsAttributeList::Resident(slice, _) => slice@.len(),
        NtfsAttributeList::NonResident(value) => if value.spec_stream_position() < value.spec_data_size() {
            (value.spec_data_size() - value.spec_stream_position()) as nat
        } else {
            0
        },
    }
}

/// Whether nothing is left to iterate over in the Attribute List `list`: a resident list has no
/// bytes left or its next entry claims more bytes than are left, a non-resident list has been read
/// to its end.
pub open spec fn spec_entries_ended(list: NtfsAttributeList) -> bool {
    match list {
        NtfsAttributeList::Resident(slice, position) => slice@.len() == 0 || (spec_entry(
            slice@,
            position,
        ) matches Ok((header, _)) && header.list_entry_length > slice@.len()),
        NtfsAttributeList::NonResident(value) => value.spec_stream_position() >= value.spec_data_size(),
    }
}

impl<'n, 'f> NtfsAttributeListEntries<'n, 'f> {
    /// The remaining Attribute List.
    pub closed spec fn spec_attribute_list(&self) -> NtfsAttributeList<'n, 'f> {
        self.attribute_list
    }

    fn new(attribute_list: NtfsAttributeList<'n, 'f>) -> (r: Self)
        ensures
            r.spec_attribute_list() == attribute_list,
    {
        Self { attribute_list }
    }

    /// Returns the next entry, `None` at the end of the list, or the error of an invalid entry.
    ///
    /// Every entry returned consumes at least the size of an entry header.
    pub fn next<T>(&mut self, fs: &mut T) -> (r: Option<Result<NtfsAttributeListEntry>>) where
        T: Read + Seek,
        ensures
            final(fs).source() == old(fs).source(),
            r matches Some(Ok(_)) ==> spec_entries_left(final(self).spec_attribute_list())
                < spec_entries_left(old(self).spec_attribute_list()),
            old(self).spec_attribute_list() matches NtfsAttributeList::Resident(slice, position) ==> {
                if slice@.len() == 0 {
                    r is None
                } else {
                    match spec_entry(slice@, position) {
                        Err(e) => r == Some(Err::<NtfsAttributeListEntry, NtfsError>(e))
                            && final(self).spec_attribute_list() == old(self).spec_attribute_list(),
                        Ok((header, name)) => if header.list_entry_length > slice@.len() {
                            r is None && final(self).spec_attribute_list() == old(self).spec_attribute_list()
                        } else {
                            &&& r matches Some(Ok(e))
                            &&& e.spec_header() == header
                            &&& e.spec_name() == name
                            &&& e.spec_position() == position
                            &&& final(self).spec_attribute_list() matches NtfsAttributeList::Resident(
                                rest,
                                p,
                            )
                            &&& rest@ == slice@.subrange(header.list_entry_length as int, slice@.len() as int)
                            &&& p == position.spec_add(header.list_entry_length as u64)
                        },
                    }
                }
            },
            old(self).spec_attribute_list() matches NtfsAttributeList::NonResident(v) ==> (r is None
                <==> v.spec_stream_position() >= v.spec_data_size()),
            r is None <==> spec_entries_ended(old(self).spec_attribute_list()),
            r is None ==> *final(self) == *old(self),
    {
        match &mut self.attribute_list {
            NtfsAttributeList::Resident(slice, position) => Self::next_resident(slice, position),
            NtfsAttributeList::NonResident(value) => Self::next_non_resident(fs, value),
        }
    }

    fn next_non_resident<T>(fs: &mut T, value: &mut NtfsNonResidentAttributeValue<'n, 'f>) -> (r: Option<
        Result<NtfsAttributeListEntry>,
    >) where
        T: Read + Seek,
        ensures
            final(fs).source() == old(fs).source(),
            final(value).spec_data_size() == old(value).spec_data_size(),
            r matches Some(Ok(e)) ==> final(value).spec_stream_position() == old(
                value,
            ).spec_stream_position() + e.spec_header().list_entry_length
                && e.spec_header().list_entry_length >= ATTRIBUTE_LIST_ENTRY_HEADER_SIZE
                && old(value).spec_stream_position() < old(value).spec_data_size(),
            r is None <==> old(value).spec_stream_position() >= old(value).spec_data_size(),
            r is None ==> *final(value) == *old(value),
    {
        if value.stream_position() >= value.len() {
            return None;
        }
        let position = value.data_position();
        let entry = match NtfsAttributeListEntry::read_from_value(value, fs, position) {
            Ok(e) => e,
            Err(e) => return Some(Err(e)),
        };
        match value.seek(fs, SeekFrom::Current(entry.list_entry_length() as i64)) {
            Ok(_) => {},
            Err(e) => return Some(Err(e)),
        }
        Some(Ok(entry))
    }

    fn next_resident(slice: &mut &'f [u8], position: &mut NtfsPosition) -> (r: Option<
        Result<NtfsAttributeListEntry>,
    >)
        ensures
            old(slice)@.len() == 0 ==> r is None,
            r is None ==> *final(slice) == *old(slice) && *final(position) == *old(position),
            old(slice)@.len() != 0 ==> match spec_entry(old(slice)@, *old(position)) {
                Err(e) => r == Some(Err::<NtfsAttributeListEntry, NtfsError>(e))
                    && *final(slice) == *old(slice) && *final(position) == *old(position),
                Ok((header, name)) => if header.list_entry_length > old(slice)@.len() {
                    r is None && *final(slice) == *old(slice) && *final(position) == *old(position)
                } else {
                    &&& r matches Some(Ok(e))
                    &&& e.spec_header() == header
                    &&& e.spec_name() == name
                    &&& e.spec_position() == *old(position)
                    &&& final(slice)@ == old(slice)@.subrange(
                        header.list_entry_length as int,
                        old(slice)@.len() as int,
                    )
                    &&& *final(position) == old(position).spec_add(header.list_entry_length as u64)
                    &&& header.list_entry_length >= ATTRIBUTE_LIST_ENTRY_HEADER_SIZE
                },
            },
    {
        if slice.len() == 0 {
            return None;
        }
        let entry = match NtfsAttributeListEntry::from_bytes(*slice, *position) {
            Ok(e) => e,
            Err(e) => return Some(Err(e)),
        };
        let bytes_to_advance = entry.list_entry_length() as usize;
        if bytes_to_advance > slice.len() {
            return None;
        }
        let len = slice.len();
        *slice = crate::attribute::slice_subrange(*slice, bytes_to_advance, len);
        *position = position.add_offset(bytes_to_advance as u64);
        Some(Ok(entry))
    }
}

} // verus!
