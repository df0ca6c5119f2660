//! Reader for a non-resident attribute value that is part of an Attribute List.
//!
//! Such values are not only split up into Data Runs, but may also be continued by connected attributes
//! which are listed in the same Attribute List.
//! This reader provides one contiguous data stream for all Data Runs in all connected attributes.
//!
//! Connected attributes are stored in a way that the first attribute reports the entire data size and all
//! further attributes report a zero value length.
//! Hence, this reader goes down to the Data Run level to get trustable lengths again.
use vstd::prelude::*;

use super::non_resident::{
    lemma_optimize_seek_target, spec_data_runs_next, spec_located_byte, spec_on_disk,
    spec_optimize_seek, spec_run_has_bytes, spec_run_location, spec_run_on_disk, spec_run_remaining,
    spec_runs_location, DataRunsState, DataRunsStep, NtfsDataRun, NtfsDataRuns, StreamState,
};
use super::spec_invalid_seek_error;
use crate::attribute::{
    spec_attribute_length_check, spec_attribute_type_from_code, NtfsAttribute, NtfsAttributeType,
    ATTRIBUTE_INSTANCE_OFFSET, ATTRIBUTE_LENGTH_OFFSET, ATTRIBUTE_NON_RESIDENT_OFFSET, NON_RESIDENT_DATA_RUNS_OFFSET_OFFSET,
    NON_RESIDENT_HEADER_SIZE,
};
use crate::helpers::{spec_u16_le, spec_u32_le};
use crate::error::{NtfsError, Result};
use crate::file::NtfsFile;
use crate::io::{seek_target, Read, Seek, SeekFrom};
use crate::ntfs::Ntfs;
use crate::structured_values::attribute_list::{spec_entries_left, spec_entry};
use crate::structured_values::{NtfsAttributeList, NtfsAttributeListEntries, NtfsAttributeListEntry};
use crate::traits::NtfsReadSeek;
use crate::types::NtfsPosition;

verus! {

/// Whether `r` is the next connected entry for the attribute `instance` of type `ty` in the remaining
/// resident Attribute List bytes `slice` at `position`, where `ended` tells whether the iteration
/// has ended: the end of the list gives `None`, an invalid entry its error, an entry of an unknown
/// type an [`NtfsError::UnsupportedAttributeType`], the matching entry itself, and any other entry
/// ends the iteration with `None`.
spec fn spec_connected_resident_next(
    slice: Seq<u8>,
    position: NtfsPosition,
    instance: u16,
    ty: NtfsAttributeType,
    r: Option<Result<NtfsAttributeListEntry>>,
    ended: bool,
) -> bool {
    if slice.len() == 0 {
        r is None
    } else {
        match spec_entry(slice, position) {
            Err(e) => r == Some(Err::<NtfsAttributeListEntry, NtfsError>(e)),
            Ok((header, name)) => if header.list_entry_length > slice.len() {
                r is None
            } else {
                match spec_attribute_type_from_code(header.ty) {
                    None => r == Some(
                        Err::<NtfsAttributeListEntry, NtfsError>(
                            NtfsError::UnsupportedAttributeType { position, actual: header.ty },
                        ),
                    ),
                    Some(t) => if header.instance == instance && t == ty {
                        r matches Some(Ok(e)) && e.spec_header() == header && e.spec_name() == name
                            && e.spec_position() == position
                    } else {
                        r is None && ended
                    },
                }
            },
        }
    }
}

/// Iterator over the entries of an Attribute List that describe the connected attributes of one
/// attribute (given by its instance and type): the entries directly following, as long as they match.
#[derive(Debug)]
struct AttributeListConnectedEntries<'n, 'f> {
    attribute_list_entries: Option<NtfsAttributeListEntries<'n, 'f>>,
    instance: u16,
    ty: NtfsAttributeType,
}

impl<'n, 'f> Clone for AttributeListConnectedEntries<'n, 'f> {
    fn clone(&self) -> (r: Self)
        ensures
            r == *self,
    {
        let attribute_list_entries = match &self.attribute_list_entries {
            Some(entries) => Some(entries.clone()),
            None => None,
        };
        AttributeListConnectedEntries { attribute_list_entries, instance: self.instance, ty: self.ty }
    }
}

impl<'n, 'f> AttributeListConnectedEntries<'n, 'f> {
    /// A measure of the entries left to iterate over.
    spec fn spec_left(&self) -> nat {
        match self.attribute_list_entries {
            None => 0,
            Some(entries) => 1 + spec_entries_left(entries.spec_attribute_list()),
        }
    }

    /// Creates an iterator over the entries connected to the attribute `instance` of type `ty`.
    fn new(attribute_list_entries: NtfsAttributeListEntries<'n, 'f>, instance: u16, ty: NtfsAttributeType) -> (r: Self)
        ensures
            r.attribute_list_entries == Some(attribute_list_entries),
            r.instance == instance,
            r.ty == ty,
    {
        Self { attribute_list_entries: Some(attribute_list_entries), instance, ty }
    }

    /// Returns the next connected entry, or `None` once an entry describes another attribute.
    fn next<T>(&mut self, fs: &mut T) -> (r: Option<Result<NtfsAttributeListEntry>>) where
        T: Read + Seek,
        ensures
            final(fs).source() == old(fs).source(),
            r matches Some(Ok(_)) ==> final(self).spec_left() < old(self).spec_left(),
            r matches Some(Ok(e)) ==> e.spec_header().instance == old(self).instance
                && spec_attribute_type_from_code(e.spec_header().ty) == Some(old(self).ty),
            final(self).instance == old(self).instance,
            final(self).ty == old(self).ty,
            old(self).attribute_list_entries is None ==> r is None,
            old(self).attribute_list_entries matches Some(entries) ==> (
            entries.spec_attribute_list() matches NtfsAttributeList::NonResident(v) ==> (
            v.spec_stream_position() >= v.spec_data_size() ==> r is None)),
            old(self).attribute_list_entries matches Some(entries) ==> (
            entries.spec_attribute_list() matches NtfsAttributeList::Resident(slice, position) ==> (
            spec_connected_resident_next(
                slice@,
                position,
                old(self).instance,
                old(self).ty,
                r,
                final(self).attribute_list_entries is None,
            ))),
    {
        let mut entries = match self.attribute_list_entries.take() {
            Some(entries) => entries,
            None => return None,
        };
        let entry = match entries.next(fs) {
            None => {
                self.attribute_list_entries = Some(entries);
                return None;
            },
            Some(Err(e)) => {
                self.attribute_list_entries = Some(entries);
                return Some(Err(e));
            },
            Some(Ok(entry)) => entry,
        };
        self.attribute_list_entries = Some(entries);
        let ty = match entry.ty() {
            Ok(t) => t,
            Err(e) => return Some(Err(e)),
        };
        if entry.instance() == self.instance && ty == self.ty {
            Some(Ok(entry))
        } else {
            self.attribute_list_entries = None;
            None
        }
    }
}

/// The File Record, the location and the Data Runs iteration state of the current connected attribute.
#[derive(Debug)]
struct AttributeState<'n> {
    file: NtfsFile<'n>,
    attribute_offset: usize,
    /// The `NtfsDataRuns` iterator cannot be stored here, because it refers to the `NtfsFile` that is also stored here.
    /// Hence its state is stored and turned into an `NtfsDataRuns` iterator whenever necessary.
    data_runs_state: Option<DataRunsState>,
}

impl<'n> AttributeState<'n> {
    #[verifier::type_invariant]
    spec fn inv(&self) -> bool {
        self.file.wf()
    }

    /// A measure of the Data Run information left to iterate over.
    spec fn spec_runs_left(&self) -> nat {
        match self.data_runs_state {
            None => 0,
            Some(state) => if state.offset <= 0x1000_0000 {
                (0x1000_0001 - state.offset) as nat
            } else {
                0
            },
        }
    }
}

impl<'n> Clone for AttributeState<'n> {
    fn clone(&self) -> (r: Self) {
        proof {
            use_type_invariant(self);
        }
        AttributeState {
            file: self.file.clone(),
            attribute_offset: self.attribute_offset,
            data_runs_state: self.data_runs_state,
        }
    }
}

/// The Data Run information of the non-resident attribute at `offset` of the File Record `file`,
/// and where it lies, or `None` where the attribute does not fit into the record, is resident,
/// lacks a complete non-resident header or has its Data Run information beyond its end.
pub open spec fn spec_non_resident_runs(file: NtfsFile, offset: usize) -> Option<(Seq<u8>, NtfsPosition)> {
    let data = file.spec_data();
    let start = offset + spec_u16_le(data, offset + NON_RESIDENT_DATA_RUNS_OFFSET_OFFSET);
    let end = offset + spec_u32_le(data, offset + ATTRIBUTE_LENGTH_OFFSET);
    if spec_attribute_length_check(data, offset as int, file.spec_position().spec_add(offset as u64))
        is Ok && data[offset + ATTRIBUTE_NON_RESIDENT_OFFSET] != 0 && offset + NON_RESIDENT_HEADER_SIZE
        <= data.len() && start <= end {
        Some((data.subrange(start, end), file.spec_position().spec_add(start as u64)))
    } else {
        None
    }
}

/// Where the byte `j` bytes after the Data Run header at iteration state `state` of the
/// non-resident attribute at `offset` of `file` lies (see [`spec_runs_location`]); `None` where the
/// attribute has no valid Data Run information.
pub open spec fn spec_attribute_runs_location(
    file: NtfsFile,
    offset: usize,
    state: DataRunsState,
    cluster_size: u32,
    j: int,
) -> Option<Option<int>> {
    match spec_non_resident_runs(file, offset) {
        Some((data, position)) => spec_runs_location(data, position, state, cluster_size, j),
        None => None,
    }
}

/// Continues the Data Runs of the non-resident attribute at `attribute_offset` in `file` from `state`:
/// the next Data Run and the state after it, `None` at the end of the Data Runs, or an error.
fn advance_data_runs<'n>(
    ntfs: &'n Ntfs,
    file: &NtfsFile<'n>,
    attribute_offset: usize,
    state: DataRunsState,
) -> (r: Result<Option<(NtfsDataRun, DataRunsState)>>)
    requires
        file.wf(),
    ensures
        r matches Ok(Some((_, s))) ==> state.offset < s.offset <= 0x1000_0000,
        match spec_non_resident_runs(*file, attribute_offset) {
            None => r is Err,
            Some((data, position)) => match spec_data_runs_next(
                data,
                position,
                state,
                ntfs.spec_cluster_size(),
            ) {
                DataRunsStep::End { .. } => r == Ok::<Option<(NtfsDataRun, DataRunsState)>, NtfsError>(None),
                DataRunsStep::Error { error, .. } => r == Err::<
                    Option<(NtfsDataRun, DataRunsState)>,
                    NtfsError,
                >(error),
                DataRunsStep::Run { position: p, allocated_size, offset, previous_lcn } => {
                    &&& r matches Ok(Some((run, s)))
                    &&& run.spec_position() == p
                    &&& run.spec_allocated_size() == allocated_size
                    &&& run.spec_stream_position() == 0
                    &&& allocated_size > 0
                    &&& s == (DataRunsState { offset, previous_lcn })
                    &&& state.offset < offset <= data.len()
                },
            },
        },
{
    let attribute = match NtfsAttribute::new(file, attribute_offset, None) {
        Ok(a) => a,
        Err(e) => return Err(e),
    };
    if attribute.is_resident() || !attribute.value_header_fits() {
        return Err(NtfsError::UnexpectedResidentAttribute { position: attribute.position() });
    }
    let (data, position) = match attribute.non_resident_value_data_and_position() {
        Ok(v) => v,
        Err(e) => return Err(e),
    };
    proof {
        file.lemma_wf();
    }
    let mut stream_data_runs = NtfsDataRuns::from_state(ntfs, data, position, state);
    match stream_data_runs.next() {
        None => Ok(None),
        Some(Err(e)) => Err(e),
        Some(Ok(run)) => Ok(Some((run, stream_data_runs.into_state()))),
    }
}

/// Whether a forward seek by `n` bytes ends within the rest of the Data Run `data_run`, so that
/// no further Data Run or connected attribute is needed.
pub open spec fn spec_ends_in_run(data_run: Option<NtfsDataRun>, n: u64) -> bool {
    n == 0 || match data_run {
        Some(run) => n < spec_run_remaining(run),
        None => false,
    }
}

/// Reader for a non-resident attribute value that is part of an Attribute List.
///
/// It reads the Data Runs of the first attribute and of all connected attributes as one
/// contiguous data stream.
#[derive(Debug)]
pub struct NtfsAttributeListNonResidentAttributeValue<'n, 'f> {
    /// Reference to the base `Ntfs` object of this filesystem.
    ntfs: &'n Ntfs,
    /// An untouched copy of the Attribute List entries passed in [`Self::new`] to rewind to the beginning when desired.
    initial_attribute_list_entries: NtfsAttributeListEntries<'n, 'f>,
    /// Iterator through all connected attributes of this attribute in the Attribute List.
    connected_entries: AttributeListConnectedEntries<'n, 'f>,
    /// File, location, and Data Runs iteration state of the current attribute.
    attribute_state: Option<AttributeState<'n>>,
    /// Iteration state of the current Data Run.
    stream_state: StreamState,
}

impl<'n, 'f> Clone for NtfsAttributeListNonResidentAttributeValue<'n, 'f> {
    fn clone(&self) -> (r: Self)
        ensures
            r.spec_ntfs() == self.spec_ntfs(),
            r.spec_data_size() == self.spec_data_size(),
            r.spec_stream_position() == self.spec_stream_position(),
            r.spec_data_run() == self.spec_data_run(),
    {
        let attribute_state = match &self.attribute_state {
            Some(state) => Some(state.clone()),
            None => None,
        };
        NtfsAttributeListNonResidentAttributeValue {
            ntfs: self.ntfs,
            initial_attribute_list_entries: self.initial_attribute_list_entries.clone(),
            connected_entries: self.connected_entries.clone(),
            attribute_state,
            stream_state: self.stream_state.clone(),
        }
    }
}

impl<'n, 'f> NtfsAttributeListNonResidentAttributeValue<'n, 'f> {
    /// The filesystem the value belongs to.
    pub closed spec fn spec_ntfs(&self) -> Ntfs {
        *self.ntfs
    }

    /// The total (used) data size of the value, in bytes.
    pub closed spec fn spec_data_size(&self) -> u64 {
        self.stream_state.spec_data_size()
    }

    /// The Data Run that reading continues in.
    pub closed spec fn spec_data_run(&self) -> Option<NtfsDataRun> {
        self.stream_state.spec_data_run()
    }

    /// The File Record and the offset of the current connected attribute, with the iteration state
    /// of its Data Runs after the current Data Run (`None` once they have ended or failed).
    pub closed spec fn spec_runs_state(&self) -> Option<(NtfsFile<'n>, usize, DataRunsState)> {
        match self.attribute_state {
            Some(st) => match st.data_runs_state {
                Some(state) => Some((st.file, st.attribute_offset, state)),
                None => None,
            },
            None => None,
        }
    }

    /// The number of bytes left in the current Data Run (none without one).
    pub open spec fn spec_run_bytes_left(&self) -> nat {
        match self.spec_data_run() {
            Some(run) => spec_run_remaining(run),
            None => 0,
        }
    }

    /// Where the byte `j` bytes after the current position lies, as far as the current connected
    /// attribute tells: within the rest of the current Data Run, then within the Data Runs of the
    /// current attribute that follow it (see [`spec_attribute_runs_location`]); `None` beyond
    /// them, where a further connected attribute, read from the filesystem, may continue the value.
    pub open spec fn spec_location(&self, j: int) -> Option<Option<int>> {
        match self.spec_data_run() {
            Some(run) if j < spec_run_remaining(run) => Some(
                spec_run_location(run.spec_position(), run.spec_stream_position() + j),
            ),
            _ => match self.spec_runs_state() {
                Some((file, offset, state)) => spec_attribute_runs_location(
                    file,
                    offset,
                    state,
                    self.spec_ntfs().spec_cluster_size(),
                    j - self.spec_run_bytes_left(),
                ),
                None => None,
            },
        }
    }

    /// Where the byte `n + j` bytes after the current position lies (see [`Self::spec_location`]).
    pub open spec fn spec_location_after(&self, n: int, j: int) -> Option<Option<int>> {
        self.spec_location(n + j)
    }

    /// Whether every byte of the value from the current position up to its data size whose
    /// location the current connected attribute gives and that lies on the filesystem at all lies
    /// within the filesystem bytes `source`.
    pub open spec fn spec_within(&self, source: Seq<u8>) -> bool {
        forall|j: int|
            0 <= j && self.spec_stream_position() + j < self.spec_data_size() ==> (
            #[trigger] self.spec_location(j) matches Some(Some(x)) ==> x < source.len())
    }

    /// Whether reading `len` bytes from the current position on stays within the value and
    /// within the current connected attribute, and reads nothing from the filesystem: each of
    /// these bytes lies in a sparse Data Run.
    pub open spec fn spec_reads_without_fs(&self, len: nat) -> bool {
        &&& self.spec_stream_position() + len <= self.spec_data_size()
        &&& forall|j: int| 0 <= j < len ==> #[trigger] self.spec_location(j) == Some(None::<int>)
    }

    /// Moving on to the next Data Run of the current connected attribute keeps where each byte
    /// after the bytes left in the current Data Run lies.
    proof fn lemma_location_after_next_run(before: Self, after: Self, j: int)
        requires
            0 <= j,
            after.spec_ntfs() == before.spec_ntfs(),
            before.spec_runs_state() matches Some((file, offset, state)) && spec_non_resident_runs(
                file,
                offset,
            ) matches Some((data, position)) && spec_data_runs_next(
                data,
                position,
                state,
                before.spec_ntfs().spec_cluster_size(),
            ) matches DataRunsStep::Run { position: p, allocated_size, offset: next, previous_lcn } && {
                &&& after.spec_runs_state() == Some(
                    (file, offset, DataRunsState { offset: next, previous_lcn }),
                )
                &&& after.spec_data_run() matches Some(run)
                &&& run.spec_position() == p
                &&& run.spec_allocated_size() == allocated_size
                &&& run.spec_stream_position() == 0
                &&& state.offset < next <= data.len()
            },
        ensures
            after.spec_location(j) == before.spec_location(before.spec_run_bytes_left() + j),
    {
    }

    /// A measure of the connected attributes and Data Runs left to iterate over.
    closed spec fn spec_left(&self) -> (nat, nat) {
        (
            self.connected_entries.spec_left(),
            match self.attribute_state {
                None => 0,
                Some(s) => s.spec_runs_left(),
            },
        )
    }

    /// Creates a reader for the value of `data_size` bytes of the attribute `instance` of type `ty`,
    /// whose connected attributes follow in `attribute_list_entries`, positioned at its first Data Run.
    pub fn new<T>(
        ntfs: &'n Ntfs,
        fs: &mut T,
        attribute_list_entries: NtfsAttributeListEntries<'n, 'f>,
        instance: u16,
        ty: NtfsAttributeType,
        data_size: u64,
    ) -> (r: Result<Self>) where
        T: Read + Seek,
        ensures
            final(fs).source() == old(fs).source(),
            r matches Ok(v) ==> v.spec_ntfs() == *ntfs && v.spec_data_size() == data_size
                && v.spec_stream_position() == 0,
    {
        let connected_entries = AttributeListConnectedEntries::new(attribute_list_entries.clone(), instance, ty);
        let mut value = Self {
            ntfs,
            initial_attribute_list_entries: attribute_list_entries,
            connected_entries,
            attribute_state: None,
            stream_state: StreamState::new(data_size),
        };
        match value.next_attribute(fs) {
            Ok(_) => Ok(value),
            Err(e) => Err(e),
        }
    }

    /// Returns the absolute current data seek position within the filesystem, in bytes.
    /// This may be `None` if:
    ///   * The current seek position is outside the valid range, or
    ///   * The current Data Run is a "sparse" Data Run
    pub fn data_position(&self) -> (r: NtfsPosition)
        ensures
            r == match self.spec_data_run() {
                Some(run) => super::non_resident::spec_run_data_position(run),
                None => NtfsPosition::spec_at(0),
            },
    {
        self.stream_state.data_position()
    }

    /// Returns `true` if the value contains no data.
    pub fn is_empty(&self) -> (r: bool)
        ensures
            r == (self.spec_data_size() == 0),
    {
        self.len() == 0
    }

    /// Returns the total length of the value data, in bytes.
    pub fn len(&self) -> (r: u64)
        ensures
            r == self.spec_data_size(),
    {
        self.stream_state.data_size()
    }

    /// Moves on to the next Data Run of the current connected attribute and returns whether there is one.
    fn next_data_run(&mut self) -> (r: Result<bool>)
        ensures
            final(self).spec_ntfs() == old(self).spec_ntfs(),
            final(self).spec_data_size() == old(self).spec_data_size(),
            final(self).spec_stream_position() == old(self).spec_stream_position(),
            final(self).connected_entries == old(self).connected_entries,
            r == Ok::<bool, NtfsError>(true) ==> final(self).spec_left().1 < old(self).spec_left().1,
            match old(self).spec_runs_state() {
                None => r == Ok::<bool, NtfsError>(false) && *final(self) == *old(self),
                Some((file, offset, state)) => match spec_non_resident_runs(file, offset) {
                    None => r is Err && final(self).spec_runs_state() is None
                        && final(self).spec_data_run() == old(self).spec_data_run(),
                    Some((data, position)) => match spec_data_runs_next(
                        data,
                        position,
                        state,
                        old(self).spec_ntfs().spec_cluster_size(),
                    ) {
                        DataRunsStep::End { .. } => r == Ok::<bool, NtfsError>(false)
                            && final(self).spec_runs_state() is None
                            && final(self).spec_data_run() == old(self).spec_data_run(),
                        DataRunsStep::Error { .. } => r is Err && final(self).spec_runs_state() is None
                            && final(self).spec_data_run() == old(self).spec_data_run(),
                        DataRunsStep::Run { position: p, allocated_size, offset: next, previous_lcn } => {
                            &&& r == Ok::<bool, NtfsError>(true)
                            &&& final(self).spec_runs_state() == Some(
                                (file, offset, DataRunsState { offset: next, previous_lcn }),
                            )
                            &&& final(self).spec_data_run() matches Some(run)
                            &&& run.spec_position() == p
                            &&& run.spec_allocated_size() == allocated_size
                            &&& run.spec_stream_position() == 0
                            &&& allocated_size > 0
                            &&& state.offset < next <= data.len()
                        },
                    },
                },
            },
    {
        // Do we have a file and a (non-resident) attribute to iterate through its Data Runs?
        let mut attribute_state = match self.attribute_state.take() {
            Some(s) => s,
            None => return Ok(false),
        };
        proof {
            use_type_invariant(&attribute_state);
        }
        // Get the state of the `NtfsDataRuns` iterator of that attribute.
        let data_runs_state = match attribute_state.data_runs_state {
            Some(s) => s,
            None => {
                self.attribute_state = Some(attribute_state);
                return Ok(false);
            },
        };
        attribute_state.data_runs_state = None;
        let outcome = advance_data_runs(
            self.ntfs,
            &attribute_state.file,
            attribute_state.attribute_offset,
            data_runs_state,
        );
        match outcome {
            Err(e) => {
                self.attribute_state = Some(attribute_state);
                Err(e)
            },
            Ok(None) => {
                self.attribute_state = Some(attribute_state);
                Ok(false)
            },
            Ok(Some((run, new_state))) => {
                // We got another Data Run, so store the updated `NtfsDataRuns` state for the next iteration.
                attribute_state.data_runs_state = Some(new_state);
                self.attribute_state = Some(attribute_state);
                self.stream_state.set_stream_data_run(Some(run));
                Ok(true)
            },
        }
    }

    /// Whether `after` reads the first Data Run of the connected attribute that the next entry of
    /// `before` refers to: a non-resident attribute of the same type and instance, in the File
    /// Record that the entry names (where the Attribute List is resident).
    #[verifier::opaque]
    spec fn spec_loads_next_connected(before: Self, after: Self) -> bool {
        after.spec_runs_state() matches Some((file, offset, _)) && {
            let data = file.spec_data();
            &&& spec_attribute_type_from_code(spec_u32_le(data, offset as int)) == Some(
                before.connected_entries.ty,
            )
            &&& spec_u16_le(data, offset + ATTRIBUTE_INSTANCE_OFFSET) == before.connected_entries.instance
            &&& data[offset + ATTRIBUTE_NON_RESIDENT_OFFSET] != 0
            &&& before.connected_entries.attribute_list_entries matches Some(entries)
            &&& entries.spec_attribute_list() matches NtfsAttributeList::Resident(slice, position) ==> (spec_entry(
                slice@,
                position,
            ) matches Ok((header, _)) && file.spec_file_record_number()
                == header.base_file_reference.spec_file_record_number())
        }
    }

    /// Moves on to the first Data Run of the next connected attribute and returns whether there is one.
    fn next_attribute<T>(&mut self, fs: &mut T) -> (r: Result<bool>) where
        T: Read + Seek,
        ensures
            final(fs).source() == old(fs).source(),
            final(self).spec_ntfs() == old(self).spec_ntfs(),
            final(self).spec_data_size() == old(self).spec_data_size(),
            final(self).spec_stream_position() == old(self).spec_stream_position(),
            r == Ok::<bool, NtfsError>(true) ==> final(self).spec_left().0 < old(self).spec_left().0,
            old(self).connected_entries.attribute_list_entries is None ==> r == Ok::<bool, NtfsError>(false),
            r == Ok::<bool, NtfsError>(true) ==> spec_run_has_bytes(final(self).spec_data_run()),
            r == Ok::<bool, NtfsError>(true) ==> Self::spec_loads_next_connected(*old(self), *final(self)),
    {
        proof {
            reveal(NtfsAttributeListNonResidentAttributeValue::spec_loads_next_connected);
        }
        // Do we have another connected attribute?
        let entry = match self.connected_entries.next(fs) {
            None => return Ok(false),
            Some(Err(e)) => return Err(e),
            Some(Ok(entry)) => entry,
        };
        // Read the corresponding FILE record into an `NtfsFile` and get the corresponding `NtfsAttribute`.
        let file = match entry.to_file(self.ntfs, fs) {
            Ok(f) => f,
            Err(e) => return Err(e),
        };
        let first = {
            let attribute = match entry.to_attribute(&file) {
                Ok(a) => a,
                Err(e) => return Err(e),
            };
            let attribute_offset = attribute.offset();
            // Connected attributes must always be non-resident. Verify that.
            if attribute.is_resident() || !attribute.value_header_fits() {
                return Err(NtfsError::UnexpectedResidentAttribute { position: attribute.position() });
            }
            // Get an `NtfsDataRuns` iterator for iterating through the attribute value's Data Runs.
            let (data, position) = match attribute.non_resident_value_data_and_position() {
                Ok(v) => v,
                Err(e) => return Err(e),
            };
            let mut stream_data_runs = NtfsDataRuns::new(self.ntfs, data, position);
            // Get the first Data Run already here to let `data_position` return something meaningful.
            match stream_data_runs.next() {
                None => None,
                Some(Err(e)) => return Err(e),
                Some(Ok(run)) => Some((attribute_offset, run, stream_data_runs.into_state())),
            }
        };
        let (attribute_offset, run, data_runs_state) = match first {
            Some(v) => v,
            None => return Ok(false),
        };
        self.stream_state.set_stream_data_run(Some(run));
        // Store the `NtfsFile` and the `NtfsDataRuns` state for a later iteration.
        self.attribute_state = Some(AttributeState { file, attribute_offset, data_runs_state: Some(data_runs_state) });
        Ok(true)
    }

    /// Returns the [`Ntfs`] object reference associated to this value.
    pub fn ntfs(&self) -> (r: &'n Ntfs)
        ensures
            *r == self.spec_ntfs(),
    {
        self.ntfs
    }
}

impl<'n, 'f> NtfsReadSeek for NtfsAttributeListNonResidentAttributeValue<'n, 'f> {
    closed spec fn spec_stream_position(&self) -> u64 {
        self.stream_state.spec_stream_position()
    }

    /// Reads from the current position on, Data Run after Data Run and connected attribute
    /// after connected attribute, up to the (used) data size of the value.
    #[verifier::rlimit(100)]
    fn read<T>(&mut self, fs: &mut T, buf: &mut [u8]) -> (r: Result<usize>) where T: Read + Seek
        ensures
            final(self).spec_ntfs() == old(self).spec_ntfs(),
            final(self).spec_data_size() == old(self).spec_data_size(),
            r matches Ok(n) ==> {
                &&& final(self).spec_stream_position() == old(self).spec_stream_position() + n
                &&& n > 0 ==> old(self).spec_stream_position() + n <= old(self).spec_data_size()
                &&& forall|i: int| n <= i < old(buf)@.len() ==> final(buf)@[i] == old(buf)@[i]
            },
            old(buf)@.len() == 0 ==> r == Ok::<usize, NtfsError>(0),
            r matches Ok(n) ==> (old(fs).source().len() <= 0x1_0000_0000_0000_0000 && old(
                self,
            ).spec_within(old(fs).source()) ==> {
                &&& forall|i: int|
                    0 <= i < n ==> (#[trigger] old(self).spec_location(i) matches Some(location)
                        ==> final(buf)@[i] == spec_located_byte(location, old(fs).source()))
                &&& {
                    ||| n == old(buf)@.len()
                    ||| old(self).spec_stream_position() + n >= old(self).spec_data_size()
                    ||| old(self).spec_location(n as int) is None
                }
            }),
            old(self).spec_reads_without_fs(old(buf)@.len()) ==> r is Ok,
    {
        let ghost old_buf = buf@;
        let ghost start_position = self.stream_state.spec_stream_position();
        let ghost src = fs.source();
        let ghost within = src.len() <= 0x1_0000_0000_0000_0000 && old(self).spec_within(src);
        let ghost quiet = old(self).spec_reads_without_fs(old(buf)@.len());
        let ghost mut switched = false;
        let mut bytes_read = 0usize;
        while bytes_read < buf.len()
            invariant_except_break
                !switched && (within || quiet) ==> forall|j: int|
                    0 <= j && start_position + bytes_read + j < self.spec_data_size()
                        ==> #[trigger] self.spec_location(j) == old(self).spec_location(
                        bytes_read + j,
                    ),
            invariant
                bytes_read <= buf@.len(),
                buf@.len() == old_buf.len(),
                old_buf == old(buf)@,
                self.spec_ntfs() == old(self).spec_ntfs(),
                self.spec_data_size() == old(self).spec_data_size(),
                fs.source() == old(fs).source(),
                src == old(fs).source(),
                within == (src.len() <= 0x1_0000_0000_0000_0000 && old(self).spec_within(src)),
                quiet == old(self).spec_reads_without_fs(old_buf.len()),
                quiet ==> !switched,
                start_position == old(self).spec_stream_position(),
                self.stream_state.spec_stream_position() == start_position + bytes_read,
                bytes_read > 0 ==> start_position + bytes_read <= self.spec_data_size(),
                forall|i: int| bytes_read <= i < old_buf.len() ==> buf@[i] == old_buf[i],
                switched && within ==> start_position + bytes_read >= self.spec_data_size() || forall|k: int|
                    bytes_read <= k && start_position + k < self.spec_data_size()
                        ==> #[trigger] old(self).spec_location(k) is None,
                within ==> forall|i: int|
                    0 <= i < bytes_read ==> (#[trigger] old(self).spec_location(i) matches Some(
                        location,
                    ) ==> buf@[i] == spec_located_byte(location, src)),
            ensures
                within ==> {
                    ||| bytes_read == buf@.len()
                    ||| start_position + bytes_read >= self.spec_data_size()
                    ||| old(self).spec_location(bytes_read as int) is None
                },
            decreases buf@.len() - bytes_read, self.spec_left().0, self.spec_left().1,
        {
            let ghost prev = *self;
            let ghost prev_read = bytes_read as int;
            let ghost prev_buf = buf@;
            // Read from the current Data Run if there is one.
            let got_data = match self.stream_state.read_data_run(fs, buf, &mut bytes_read) {
                Ok(b) => b,
                Err(e) => {
                    proof {
                        if quiet {
                            assert(prev.spec_location(0) == old(self).spec_location(
                                bytes_read as int,
                            ));
                        }
                    }
                    return Err(e);
                },
            };
            if got_data {
                proof {
                    let n = bytes_read - prev_read;
                    let run = prev.spec_data_run()->0;
                    if !switched && (within || quiet) {
                        assert forall|j: int|
                            0 <= j && start_position + bytes_read + j < self.spec_data_size()
                                implies #[trigger] self.spec_location(j) == old(
                            self,
                        ).spec_location(bytes_read + j) by {
                            assert(self.spec_location(j) == prev.spec_location(n + j));
                        }
                    }
                    if within {
                        assert forall|i: int| 0 <= i < bytes_read implies (#[trigger] old(
                            self,
                        ).spec_location(i) matches Some(location) ==> buf@[i]
                            == spec_located_byte(location, src)) by {
                            if i >= prev_read {
                                let k = i - prev_read;
                                assert(old(self).spec_stream_position() + i
                                    < old(self).spec_data_size());
                                if !switched {
                                    assert(prev.spec_location(k) == old(self).spec_location(i));
                                    assert(prev.spec_location(k) == Some(
                                        spec_run_location(
                                            run.spec_position(),
                                            run.spec_stream_position() + k,
                                        ),
                                    ));
                                }
                            } else {
                                assert(buf@[i] == prev_buf[i]);
                            }
                        }
                    }
                }
                // We read something, so check the loop condition again if we need to read more.
                continue;
            }
            let ghost mid = *self;
            // Move to the next Data Run of the current attribute.
            let next_run = match self.next_data_run() {
                Ok(b) => b,
                Err(e) => {
                    proof {
                        if quiet {
                            assert(mid.spec_location(0) == old(self).spec_location(
                                bytes_read as int,
                            ));
                            if let Some(run) = mid.spec_data_run() {
                                if spec_run_remaining(run) > 0 {
                                    assert(spec_on_disk(mid.spec_location(0)));
                                }
                            }
                        }
                    }
                    return Err(e);
                },
            };
            if next_run {
                proof {
                    if !switched && (within || quiet) {
                        assert forall|j: int|
                            0 <= j && start_position + bytes_read + j < self.spec_data_size()
                                implies #[trigger] self.spec_location(j) == old(
                            self,
                        ).spec_location(bytes_read + j) by {
                            assert(mid.spec_location(j) == old(self).spec_location(bytes_read + j));
                            if let Some(run) = mid.spec_data_run() {
                                if spec_run_remaining(run) > 0 {
                                    assert(mid.spec_location(0) == old(self).spec_location(
                                        bytes_read as int,
                                    ));
                                    assert(old(self).spec_stream_position() + bytes_read
                                        < old(self).spec_data_size());
                                    if quiet {
                                        assert(spec_on_disk(mid.spec_location(0)));
                                    }
                                }
                            }
                            Self::lemma_location_after_next_run(mid, *self, j);
                        }
                    }
                }
                continue;
            }
            proof {
                if !switched && (within || quiet) && start_position + bytes_read
                    < self.spec_data_size() {
                    if let Some(run) = mid.spec_data_run() {
                        if spec_run_remaining(run) > 0 {
                            assert(mid.spec_location(0) == old(self).spec_location(
                                bytes_read as int,
                            ));
                            if quiet {
                                assert(spec_on_disk(mid.spec_location(0)));
                            }
                        }
                    }
                    assert forall|k: int|
                        bytes_read <= k && start_position + k < self.spec_data_size()
                            implies #[trigger] old(self).spec_location(k) is None by {
                        assert(mid.spec_location(k - bytes_read) == old(self).spec_location(k));
                    }
                    if quiet {
                        assert(old(self).spec_location(bytes_read as int) is None);
                    }
                }
            }
            // Move to the first Data Run of the next connected attribute.
            let next_attribute = match self.next_attribute(fs) {
                Ok(b) => b,
                Err(e) => return Err(e),
            };
            proof {
                if next_attribute {
                    switched = true;
                }
            }
            if !next_attribute {
                // We read everything we could.
                break;
            }
        }
        Ok(bytes_read)
    }

    /// Moves the current position within the entire value, traversing Data Runs and connected
    /// attributes from the very beginning or from the current position on.
    #[verifier::rlimit(100)]
    fn seek<T>(&mut self, fs: &mut T, pos: SeekFrom) -> (r: Result<u64>) where T: Read + Seek
        ensures
            final(self).spec_ntfs() == old(self).spec_ntfs(),
            final(self).spec_data_size() == old(self).spec_data_size(),
            ({
                let t = seek_target(
                    pos,
                    old(self).spec_stream_position() as int,
                    old(self).spec_data_size() as int,
                );
                &&& (t < 0 || t > u64::MAX) ==> r == Err::<u64, NtfsError>(spec_invalid_seek_error())
                    && final(self).spec_stream_position() == old(self).spec_stream_position()
                &&& r matches Ok(p) ==> p == t && final(self).spec_stream_position() == p
            }),
            spec_optimize_seek(pos, old(self).spec_stream_position(), old(self).spec_data_size())
                matches Some(SeekFrom::Current(n)) && spec_ends_in_run(old(self).spec_data_run(), n as u64)
                ==> r is Ok,
            r is Ok ==> final(self).spec_data_run() is None || spec_run_has_bytes(
                final(self).spec_data_run(),
            ) || final(self).spec_data_run() == old(self).spec_data_run(),
            spec_optimize_seek(pos, old(self).spec_stream_position(), old(self).spec_data_size())
                matches Some(SeekFrom::Current(n)) ==> (old(self).spec_location(n as int) is Some ==> {
                &&& r is Ok
                &&& forall|j: int|
                    0 <= j ==> #[trigger] final(self).spec_location(j) == old(self).spec_location(
                        n + j,
                    )
            }),
    {
        let ghost target = seek_target(
            pos,
            self.stream_state.spec_stream_position() as int,
            self.spec_data_size() as int,
        );
        proof {
            lemma_optimize_seek_target(pos, self.stream_state.spec_stream_position(), self.spec_data_size());
        }
        let simplified = match self.stream_state.optimize_seek(pos, self.len()) {
            Ok(p) => p,
            Err(e) => return Err(e),
        };
        let mut bytes_left_to_seek = match simplified {
            SeekFrom::Start(n) => {
                // Rewind to the very beginning.
                self.connected_entries.attribute_list_entries = Some(self.initial_attribute_list_entries.clone());
                self.attribute_state = None;
                self.stream_state = StreamState::new(self.len());
                n
            },
            SeekFrom::Current(n) => n as u64,
            SeekFrom::End(_) => {
                proof {
                    assert(false);
                }
                0
            },
        };
        let ghost base_position = self.stream_state.spec_stream_position();
        let ghost within_run = simplified is Current && spec_ends_in_run(
            self.spec_data_run(),
            bytes_left_to_seek,
        );
        let ghost base_n = bytes_left_to_seek as int;
        let ghost fwd = simplified is Current && old(self).spec_location(base_n) is Some;
        let ghost mut attr_switched = false;
        while bytes_left_to_seek > 0
            invariant_except_break
                within_run ==> simplified is Current && spec_ends_in_run(
                    self.spec_data_run(),
                    bytes_left_to_seek,
                ),
                simplified is Current && !attr_switched ==> forall|j: int|
                    #![trigger old(self).spec_location_after(base_n, j)]
                    0 <= j ==> self.spec_location(bytes_left_to_seek + j) == old(
                        self,
                    ).spec_location_after(base_n, j),
            invariant
                fwd == (simplified is Current && old(self).spec_location(base_n) is Some),
                spec_optimize_seek(pos, old(self).spec_stream_position(), old(self).spec_data_size())
                    == Some(simplified),
                simplified is Current ==> base_n == spec_optimize_seek(
                    pos,
                    old(self).spec_stream_position(),
                    old(self).spec_data_size(),
                )->Some_0->Current_0,
                fwd ==> !attr_switched,
                self.spec_data_run() is None || spec_run_has_bytes(self.spec_data_run())
                    || self.spec_data_run() == old(self).spec_data_run() || bytes_left_to_seek > 0,
                within_run == (spec_optimize_seek(
                    pos,
                    old(self).spec_stream_position(),
                    old(self).spec_data_size(),
                ) matches Some(SeekFrom::Current(n)) && spec_ends_in_run(
                    old(self).spec_data_run(),
                    n as u64,
                )),
                self.spec_ntfs() == old(self).spec_ntfs(),
                self.spec_data_size() == old(self).spec_data_size(),
                fs.source() == old(fs).source(),
                self.stream_state.spec_stream_position() == base_position,
                !(simplified is End),
                simplified is Current ==> bytes_left_to_seek <= i64::MAX,
                0 <= target <= u64::MAX,
                target == seek_target(
                    pos,
                    old(self).spec_stream_position() as int,
                    old(self).spec_data_size() as int,
                ),
                target == seek_target(
                    simplified,
                    base_position as int,
                    old(self).spec_data_size() as int,
                ),
            ensures
                self.spec_data_run() is None || spec_run_has_bytes(self.spec_data_run())
                    || self.spec_data_run() == old(self).spec_data_run(),
                fwd ==> forall|j: int|
                    #![trigger old(self).spec_location_after(base_n, j)]
                    0 <= j ==> self.spec_location(j) == old(self).spec_location_after(base_n, j),
            decreases self.spec_left().0, self.spec_left().1,
        {
            let ghost prev = *self;
            let ghost prev_left = bytes_left_to_seek as int;
            // Seek inside the current Data Run if there is one.
            let done = match self.stream_state.seek_data_run(fs, simplified, &mut bytes_left_to_seek) {
                Ok(b) => b,
                Err(e) => return Err(e),
            };
            if done {
                proof {
                    if fwd {
                        assert forall|j: int| 0 <= j implies self.spec_location(j)
                            == #[trigger] old(self).spec_location_after(base_n, j) by {
                            assert(self.spec_location(j) == prev.spec_location(prev_left + j));
                        }
                    }
                }
                // We have reached our final seek position.
                break;
            }
            let ghost mid = *self;
            // Move to the next Data Run of the current attribute.
            let next_run = match self.next_data_run() {
                Ok(b) => b,
                Err(e) => {
                    proof {
                        if fwd {
                            assert(prev.spec_location(prev_left) == old(self).spec_location_after(
                                base_n,
                                0,
                            ));
                            assert(prev.spec_location(prev_left) is None);
                        }
                    }
                    return Err(e);
                },
            };
            if next_run {
                proof {
                    if simplified is Current && !attr_switched {
                        assert forall|j: int| 0 <= j implies self.spec_location(
                            bytes_left_to_seek + j,
                        ) == #[trigger] old(self).spec_location_after(base_n, j) by {
                            Self::lemma_location_after_next_run(mid, *self, bytes_left_to_seek + j);
                            assert(mid.spec_location(mid.spec_run_bytes_left() + bytes_left_to_seek + j)
                                == prev.spec_location(prev_left + j));
                        }
                    }
                }
                continue;
            }
            proof {
                if fwd {
                    assert(prev.spec_location(prev_left) == old(self).spec_location_after(base_n, 0));
                    assert(prev.spec_location(prev_left) is None);
                }
            }
            // Move to the first Data Run of the next connected attribute.
            let next_attribute = match self.next_attribute(fs) {
                Ok(b) => b,
                Err(e) => return Err(e),
            };
            proof {
                attr_switched = true;
            }
            if !next_attribute {
                // We seeked as far as we could: there is no Data Run at the sought position.
                self.stream_state.set_stream_data_run(None);
                break;
            }
        }
        match simplified {
            SeekFrom::Start(n) => self.stream_state.set_stream_position(n),
            SeekFrom::Current(n) => {
                let p = self.stream_state.stream_position() + n as u64;
                self.stream_state.set_stream_position(p)
            },
            SeekFrom::End(_) => {},
        }
        proof {
            if fwd {
                assert forall|j: int| 0 <= j implies #[trigger] self.spec_location(j) == old(
                    self,
                ).spec_location(base_n + j) by {
                    assert(old(self).spec_location_after(base_n, j) == old(self).spec_location(
                        base_n + j,
                    ));
                }
            }
        }
        Ok(self.stream_position())
    }

    fn stream_position(&self) -> (r: u64) {
        self.stream_state.stream_position()
    }
}

} // verus!
