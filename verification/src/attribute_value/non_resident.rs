//! Reader for a non-resident attribute value (that is not part of an Attribute List).
//!
//! Non-resident attribute values are split up into one or more data runs, which are spread across the filesystem.
//! This reader provides one contiguous data stream for all data runs.
use vstd::prelude::*;

use super::{seek_contiguous, spec_invalid_seek_error, spec_seek_contiguous};
use crate::error::{NtfsError, Result};
use crate::helpers::spec_offset_position;
use crate::io::{seek_target, Error, ErrorKind, Read, Seek, SeekFrom};
use crate::ntfs::Ntfs;
use crate::traits::NtfsReadSeek;
use crate::types::{Lcn, NtfsPosition, Vcn};

verus! {

/// The largest number of bytes that a variable length integer in a Data Run header may have.
pub const MAX_BYTE_COUNT: u8 = 8;

/// `256` raised to the power `count`.
pub open spec fn spec_pow256(count: nat) -> nat
    decreases count,
{
    if count == 0 {
        1
    } else {
        256 * spec_pow256((count - 1) as nat)
    }
}

/// The unsigned little-endian integer stored in the `count` bytes `data[start..start + count]`.
pub open spec fn spec_le_unsigned(data: Seq<u8>, start: int, count: nat) -> nat
    decreases count,
{
    if count == 0 {
        0
    } else {
        data[start] as nat + 256 * spec_le_unsigned(data, start + 1, (count - 1) as nat)
    }
}

/// The two's complement interpretation of a `count`-byte unsigned integer `raw`
/// (its highest bit is the sign bit).
pub open spec fn spec_sign_extend(raw: nat, count: nat) -> int {
    if count > 0 && raw >= spec_pow256(count) / 2 {
        raw - spec_pow256(count)
    } else {
        raw as int
    }
}

/// The first powers of 256.
proof fn lemma_pow256_values()
    ensures
        spec_pow256(0) == 1,
        spec_pow256(1) == 0x100,
        spec_pow256(2) == 0x1_0000,
        spec_pow256(3) == 0x100_0000,
        spec_pow256(4) == 0x1_0000_0000,
        spec_pow256(5) == 0x100_0000_0000,
        spec_pow256(6) == 0x1_0000_0000_0000,
        spec_pow256(7) == 0x100_0000_0000_0000,
        spec_pow256(8) == 0x1_0000_0000_0000_0000,
{
    reveal_with_fuel(spec_pow256, 9);
}

/// A little-endian integer of `count` bytes is less than `256^count`.
proof fn lemma_le_unsigned_bound(data: Seq<u8>, start: int, count: nat)
    ensures
        spec_le_unsigned(data, start, count) < spec_pow256(count),
    decreases count,
{
    if count > 0 {
        lemma_le_unsigned_bound(data, start + 1, (count - 1) as nat);
    }
}

/// Reads the unsigned little-endian integer stored in `data[start..start + count]`.
fn read_le_unsigned(data: &[u8], start: usize, count: u8) -> (r: u64)
    requires
        count <= MAX_BYTE_COUNT,
        start + count <= data@.len(),
    ensures
        r == spec_le_unsigned(data@, start as int, count as nat),
{
    proof {
        lemma_pow256_values();
    }
    let data_len = data.len();
    let mut value: u64 = 0;
    let mut i: u8 = count;
    while i > 0
        invariant
            i <= count <= 8,
            start + count <= data@.len(),
            data@.len() == data_len,
            value == spec_le_unsigned(data@, start + i, (count - i) as nat),
        decreases i,
    {
        proof {
            lemma_pow256_values();
            lemma_le_unsigned_bound(data@, start + i, (count - i) as nat);
            let k = (count - i) as nat;
            assert(k <= 7);
            assert(spec_pow256(k) <= 0x100_0000_0000_0000) by {
                assert(k == 0 || k == 1 || k == 2 || k == 3 || k == 4 || k == 5 || k == 6 || k
                    == 7);
            }
        }
        i = i - 1;
        value = value * 256 + data[start + i as usize] as u64;
    }
    value
}

/// Returns `256^count` for a byte count below 8.
fn pow256(count: u8) -> (r: u64)
    requires
        count < MAX_BYTE_COUNT,
    ensures
        r == spec_pow256(count as nat),
{
    proof {
        lemma_pow256_values();
    }
    let mut p: u64 = 1;
    let mut i: u8 = 0;
    while i < count
        invariant
            i <= count < 8,
            p == spec_pow256(i as nat),
        decreases count - i,
    {
        proof {
            lemma_pow256_values();
            assert(i == 0 || i == 1 || i == 2 || i == 3 || i == 4 || i == 5 || i == 6);
        }
        p = p * 256;
        i = i + 1;
    }
    p
}

/// Sign-extends a `count`-byte unsigned integer to 64 bits.
fn sign_extend(raw: u64, count: u8) -> (r: i64)
    requires
        count <= MAX_BYTE_COUNT,
        raw < spec_pow256(count as nat),
    ensures
        r == spec_sign_extend(raw as nat, count as nat),
{
    proof {
        lemma_pow256_values();
    }
    if count == 0 {
        0
    } else if count == MAX_BYTE_COUNT {
        if raw < 0x8000_0000_0000_0000 {
            raw as i64
        } else {
            -((u64::MAX - raw) as i64) - 1
        }
    } else {
        let p = pow256(count);
        proof {
            assert(count == 1 || count == 2 || count == 3 || count == 4 || count == 5 || count == 6
                || count == 7);
        }
        if raw >= p / 2 {
            -((p - raw) as i64)
        } else {
            raw as i64
        }
    }
}

/// The value of the variable length integer of `count` bytes at `start`, or the error
/// that reading it from the Data Run header at `position` gives.
pub open spec fn spec_variable_length(
    data: Seq<u8>,
    start: int,
    count: u8,
    position: NtfsPosition,
) -> core::result::Result<nat, NtfsError> {
    if count > MAX_BYTE_COUNT {
        Err(
            NtfsError::InvalidByteCountInDataRunHeader {
                position,
                expected: count,
                actual: MAX_BYTE_COUNT,
            },
        )
    } else if start + count > data.len() {
        Err(NtfsError::Io(Error::spec_from_kind(ErrorKind::UnexpectedEof)))
    } else {
        Ok(spec_le_unsigned(data, start, count as nat))
    }
}

/// Iteration state of [`NtfsDataRuns`].
#[derive(Clone, Copy, Debug)]
pub struct DataRunsState {
    /// Offset of the next Data Run header within the Data Run information.
    pub offset: usize,
    /// The LCN of the previous Data Run with real data (Data Runs store their LCN relative to it).
    pub previous_lcn: Lcn,
}

/// The outcome of one step of the iteration over Data Runs.
pub enum DataRunsStep {
    /// There is no further Data Run; the iteration continues at `offset`.
    End { offset: usize },
    /// The Data Run header is invalid; the iteration continues with `previous_lcn`.
    Error { error: NtfsError, previous_lcn: Lcn },
    /// A Data Run at `position` (none for a sparse Data Run) of `allocated_size` bytes;
    /// the iteration continues at `offset` with `previous_lcn`.
    Run { position: NtfsPosition, allocated_size: u64, offset: usize, previous_lcn: Lcn },
}

/// One step of the iteration over the Data Run information `data`, which starts at `base` within
/// the filesystem, from the state `state`, for a filesystem with clusters of `cluster_size` bytes.
///
/// A Data Run header is a byte whose lower nibble gives the byte count of the following cluster
/// count and whose upper nibble gives the byte count of the following (signed) LCN offset
/// relative to the previous Data Run. A zero header ends the list; a zero LCN offset marks a
/// sparse Data Run.
pub open spec fn spec_data_runs_next(
    data: Seq<u8>,
    base: NtfsPosition,
    state: DataRunsState,
    cluster_size: u32,
) -> DataRunsStep {
    let offset = state.offset as int;
    let position = base.spec_add(state.offset as u64);
    let previous_lcn = state.previous_lcn;
    if offset >= data.len() {
        DataRunsStep::End { offset: state.offset }
    } else if data[offset] == 0 {
        DataRunsStep::End { offset: data.len() as usize }
    } else {
        let header = data[offset];
        let cluster_count_byte_count = (header % 16) as u8;
        let vcn_byte_count = (header / 16) as u8;
        match spec_variable_length(data, offset + 1, cluster_count_byte_count, position) {
            Err(error) => DataRunsStep::Error { error, previous_lcn },
            Ok(cluster_count) => {
                if cluster_count == 0 || cluster_count * cluster_size > u64::MAX {
                    DataRunsStep::Error {
                        error: NtfsError::InvalidClusterCountInDataRunHeader {
                            position,
                            cluster_count: cluster_count as u64,
                        },
                        previous_lcn,
                    }
                } else {
                    let vcn_start = offset + 1 + cluster_count_byte_count;
                    match spec_variable_length(data, vcn_start, vcn_byte_count, position) {
                        Err(error) => DataRunsStep::Error { error, previous_lcn },
                        Ok(raw) => {
                            let vcn = Vcn(spec_sign_extend(raw, vcn_byte_count as nat) as i64);
                            let allocated_size = (cluster_count * cluster_size) as u64;
                            let next_offset = (vcn_start + vcn_byte_count) as usize;
                            if vcn.0 == 0 {
                                DataRunsStep::Run {
                                    position: NtfsPosition::spec_at(0),
                                    allocated_size,
                                    offset: next_offset,
                                    previous_lcn,
                                }
                            } else {
                                match spec_offset_position(previous_lcn.0, vcn.0) {
                                    None => DataRunsStep::Error {
                                        error: NtfsError::InvalidVcnInDataRunHeader {
                                            position,
                                            vcn,
                                            previous_lcn,
                                        },
                                        previous_lcn,
                                    },
                                    Some(lcn) => {
                                        if lcn * cluster_size > u64::MAX {
                                            DataRunsStep::Error {
                                                error: NtfsError::LcnTooBig { lcn: Lcn(lcn) },
                                                previous_lcn: Lcn(lcn),
                                            }
                                        } else {
                                            DataRunsStep::Run {
                                                position: NtfsPosition::spec_at(
                                                    (lcn * cluster_size) as u64,
                                                ),
                                                allocated_size,
                                                offset: next_offset,
                                                previous_lcn: Lcn(lcn),
                                            }
                                        }
                                    },
                                }
                            }
                        },
                    }
                }
            },
        }
    }
}

/// Iterator over all data runs of a non-resident attribute, returning an [`NtfsDataRun`] for each entry.
///
/// This iterator is returned from the [`NtfsNonResidentAttributeValue::data_runs`] function.
#[derive(Debug)]
pub struct NtfsDataRuns<'n, 'f> {
    ntfs: &'n Ntfs,
    data: &'f [u8],
    position: NtfsPosition,
    state: DataRunsState,
}

impl<'n, 'f> NtfsDataRuns<'n, 'f> {
    /// The filesystem the Data Runs belong to.
    pub closed spec fn spec_ntfs(&self) -> Ntfs {
        *self.ntfs
    }

    /// The Data Run information.
    pub closed spec fn spec_data(&self) -> Seq<u8> {
        self.data@
    }

    /// The absolute position of the Data Run information within the filesystem.
    pub closed spec fn spec_base(&self) -> NtfsPosition {
        self.position
    }

    /// The iteration state.
    pub closed spec fn spec_state(&self) -> DataRunsState {
        self.state
    }

    /// Creates an iterator over the Data Run information `data` at `position` within the filesystem.
    pub fn new(ntfs: &'n Ntfs, data: &'f [u8], position: NtfsPosition) -> (r: Self)
        ensures
            r.spec_ntfs() == *ntfs,
            r.spec_data() == data@,
            r.spec_base() == position,
            r.spec_state() == (DataRunsState { offset: 0, previous_lcn: Lcn(0) }),
    {
        let state = DataRunsState { offset: 0, previous_lcn: Lcn(0) };
        Self { ntfs, data, position, state }
    }

    /// Creates an iterator that continues from a saved iteration state.
    pub fn from_state(ntfs: &'n Ntfs, data: &'f [u8], position: NtfsPosition, state: DataRunsState) -> (r: Self)
        ensures
            r.spec_ntfs() == *ntfs,
            r.spec_data() == data@,
            r.spec_base() == position,
            r.spec_state() == state,
    {
        Self { ntfs, data, position, state }
    }

    /// Returns the iteration state.
    pub fn into_state(self) -> (r: DataRunsState)
        ensures
            r == self.spec_state(),
    {
        self.state
    }

    /// Returns the absolute position of the current Data Run header within the filesystem, in bytes.
    pub fn position(&self) -> (r: NtfsPosition)
        ensures
            r == self.spec_base().spec_add(self.spec_state().offset as u64),
    {
        self.position.add_offset(self.state.offset as u64)
    }

    /// Reads the variable length integer of `byte_count` bytes at `start`.
    fn read_variable_length_unsigned_integer(&self, start: usize, byte_count: u8) -> (r: Result<u64>)
        requires
            start <= self.spec_data().len(),
        ensures
            match spec_variable_length(self.spec_data(), start as int, byte_count, self.position_spec()) {
                Ok(v) => v <= u64::MAX && r == Ok::<u64, NtfsError>(v as u64),
                Err(e) => r == Err::<u64, NtfsError>(e),
            },
    {
        if byte_count > MAX_BYTE_COUNT {
            return Err(
                NtfsError::InvalidByteCountInDataRunHeader {
                    position: self.position(),
                    expected: byte_count,
                    actual: MAX_BYTE_COUNT,
                },
            );
        }
        if self.data.len() - start < byte_count as usize {
            return Err(
                NtfsError::Io(Error::new(ErrorKind::UnexpectedEof, "failed to fill whole buffer")),
            );
        }
        proof {
            lemma_le_unsigned_bound(self.data@, start as int, byte_count as nat);
            lemma_pow256_values();
            assert(byte_count == 0 || byte_count == 1 || byte_count == 2 || byte_count == 3
                || byte_count == 4 || byte_count == 5 || byte_count == 6 || byte_count == 7
                || byte_count == 8);
        }
        Ok(read_le_unsigned(self.data, start, byte_count))
    }

    /// Reads the signed variable length integer of `byte_count` bytes at `start`.
    fn read_variable_length_signed_integer(&self, start: usize, byte_count: u8) -> (r: Result<i64>)
        requires
            start <= self.spec_data().len(),
        ensures
            match spec_variable_length(self.spec_data(), start as int, byte_count, self.position_spec()) {
                Ok(v) => r == Ok::<i64, NtfsError>(spec_sign_extend(v, byte_count as nat) as i64),
                Err(e) => r == Err::<i64, NtfsError>(e),
            },
    {
        let raw = match self.read_variable_length_unsigned_integer(start, byte_count) {
            Ok(raw) => raw,
            Err(e) => return Err(e),
        };
        proof {
            lemma_le_unsigned_bound(self.data@, start as int, byte_count as nat);
            lemma_pow256_values();
            assert(byte_count == 0 || byte_count == 1 || byte_count == 2 || byte_count == 3
                || byte_count == 4 || byte_count == 5 || byte_count == 6 || byte_count == 7
                || byte_count == 8);
        }
        Ok(sign_extend(raw, byte_count))
    }

    /// The position of the current Data Run header.
    pub open spec fn position_spec(&self) -> NtfsPosition {
        self.spec_base().spec_add(self.spec_state().offset as u64)
    }

    /// Returns the next Data Run, `None` at the end of the list, or the error of an invalid header.
    ///
    /// After an error, the iteration stays at the invalid header.
    pub fn next(&mut self) -> (r: Option<Result<NtfsDataRun>>)
        ensures
            final(self).spec_ntfs() == old(self).spec_ntfs(),
            final(self).spec_data() == old(self).spec_data(),
            final(self).spec_base() == old(self).spec_base(),
            old(self).spec_state().offset <= old(self).spec_data().len()
                ==> final(self).spec_state().offset <= final(self).spec_data().len(),
            spec_data_runs_next(
                old(self).spec_data(),
                old(self).spec_base(),
                old(self).spec_state(),
                old(self).spec_ntfs().spec_cluster_size(),
            ) matches DataRunsStep::Run { offset, .. } ==> old(self).spec_state().offset < offset
                <= old(self).spec_data().len(),
            match spec_data_runs_next(
                old(self).spec_data(),
                old(self).spec_base(),
                old(self).spec_state(),
                old(self).spec_ntfs().spec_cluster_size(),
            ) {
                DataRunsStep::End { offset } => r is None && final(self).spec_state() == (
                DataRunsState { offset, previous_lcn: old(self).spec_state().previous_lcn }),
                DataRunsStep::Error { error, previous_lcn } => r == Some(
                    Err::<NtfsDataRun, NtfsError>(error),
                ) && final(self).spec_state() == (DataRunsState {
                    offset: old(self).spec_state().offset,
                    previous_lcn,
                }),
                DataRunsStep::Run { position, allocated_size, offset, previous_lcn } => {
                    &&& r matches Some(Ok(run))
                    &&& run.spec_position() == position
                    &&& run.spec_allocated_size() == allocated_size
                    &&& run.spec_stream_position() == 0
                    &&& final(self).spec_state() == (DataRunsState { offset, previous_lcn })
                },
            },
            r matches Some(Ok(run)) ==> run.spec_allocated_size() > 0,
            r matches Some(Ok(run)) ==> (run.spec_allocated_size() as int) % (old(self).spec_ntfs().spec_cluster_size() as int)
                == 0,
    {
        let data = self.data;
        let offset = self.state.offset;
        let data_len = data.len();
        proof {
            lemma_data_runs_next_progress(
                data@,
                self.position,
                self.state,
                self.ntfs.spec_cluster_size(),
            );
        }
        if offset >= data_len {
            return None;
        }
        let header = data[offset];
        if header == 0 {
            // A zero byte marks the end of the data runs.
            self.state.offset = data.len();
            return None;
        }
        // The lower nibble indicates the length of the following cluster count variable length integer.
        let cluster_count_byte_count = header & 0x0f;
        assert(header & 0x0f == header % 16) by (bit_vector);
        let cluster_count = match self.read_variable_length_unsigned_integer(
            offset + 1,
            cluster_count_byte_count,
        ) {
            Ok(v) => v,
            Err(e) => return Some(Err(e)),
        };
        if cluster_count == 0 {
            return Some(
                Err(
                    NtfsError::InvalidClusterCountInDataRunHeader {
                        position: self.position(),
                        cluster_count,
                    },
                ),
            );
        }
        let cluster_size = self.ntfs.cluster_size();
        let allocated_size = match cluster_count.checked_mul(cluster_size as u64) {
            Some(v) => {
                assert(v > 0 && (v as int) % (cluster_size as int) == 0) by (nonlinear_arith)
                    requires
                        v == cluster_count * cluster_size,
                        cluster_count > 0,
                        cluster_size > 0,
                ;
                v
            },
            None => {
                return Some(
                    Err(
                        NtfsError::InvalidClusterCountInDataRunHeader {
                            position: self.position(),
                            cluster_count,
                        },
                    ),
                );
            },
        };
        // The upper nibble indicates the length of the following VCN variable length integer.
        let vcn_byte_count = (header & 0xf0) >> 4;
        assert((header & 0xf0) >> 4 == header / 16) by (bit_vector);
        let vcn_start = offset + 1 + cluster_count_byte_count as usize;
        let vcn = match self.read_variable_length_signed_integer(vcn_start, vcn_byte_count) {
            Ok(v) => Vcn(v),
            Err(e) => return Some(Err(e)),
        };
        // The VCN may either indicate "real" data or a sparse Data Run.
        let position = if vcn.value() != 0 {
            // This Data Run contains "real" data.
            // Turn the read VCN into an absolute LCN.
            let new_lcn = match self.state.previous_lcn.checked_add(vcn) {
                Some(l) => l,
                None => {
                    return Some(
                        Err(
                            NtfsError::InvalidVcnInDataRunHeader {
                                position: self.position(),
                                vcn,
                                previous_lcn: self.state.previous_lcn,
                            },
                        ),
                    );
                },
            };
            self.state.previous_lcn = new_lcn;
            match new_lcn.position(self.ntfs) {
                Ok(p) => p,
                Err(e) => return Some(Err(e)),
            }
        } else {
            // This is a sparse Data Run.
            NtfsPosition::none()
        };
        // Only advance after having checked for success.
        self.state.offset = vcn_start + vcn_byte_count as usize;
        Some(Ok(NtfsDataRun::new(position, allocated_size)))
    }
}

/// A single NTFS Data Run, which is a continuous cluster range of a non-resident value.
///
/// A Data Run's size is a multiple of the cluster size configured for the filesystem.
/// However, a Data Run does not know about the actual size used by data. This information is only available in the corresponding attribute.
/// Keep this in mind when doing reads and seeks on data runs. You may end up on allocated but unused data.
#[derive(Debug, Eq, PartialEq, Structural)]
pub struct NtfsDataRun {
    /// Absolute position of the Data Run within the filesystem, in bytes.
    /// This holds no value if this is a "sparse" Data Run.
    position: NtfsPosition,
    /// Total allocated size of the Data Run, in bytes.
    allocated_size: u64,
    /// Current relative position within the Data Run value, in bytes.
    stream_position: u64,
}

impl NtfsDataRun {
    /// The absolute position of the Data Run within the filesystem (none for a sparse Data Run).
    pub closed spec fn spec_position(&self) -> NtfsPosition {
        self.position
    }

    /// The allocated size of the Data Run, in bytes.
    pub closed spec fn spec_allocated_size(&self) -> u64 {
        self.allocated_size
    }

    /// Creates a Data Run at `position` of `allocated_size` bytes, positioned at its start.
    pub fn new(position: NtfsPosition, allocated_size: u64) -> (r: Self)
        ensures
            r.spec_position() == position,
            r.spec_allocated_size() == allocated_size,
            r.spec_stream_position() == 0,
    {
        Self { position, allocated_size, stream_position: 0 }
    }

    /// Returns the allocated size of the Data Run, in bytes.
    pub fn allocated_size(&self) -> (r: u64)
        ensures
            r == self.spec_allocated_size(),
    {
        self.allocated_size
    }

    /// Returns the length of the Data Run, in bytes: its allocated size.
    pub fn len(&self) -> (r: u64)
        ensures
            r == self.spec_allocated_size(),
    {
        self.allocated_size
    }

    /// Returns the absolute current data seek position within the filesystem, in bytes.
    /// This may be `None` if:
    ///   * The current seek position is outside the valid range, or
    ///   * The Data Run is a "sparse" Data Run
    pub fn data_position(&self) -> (r: NtfsPosition)
        ensures
            r == spec_run_data_position(*self),
    {
        if self.stream_position <= self.allocated_size() {
            self.position.add_offset(self.stream_position)
        } else {
            NtfsPosition::none()
        }
    }

    /// Returns the number of bytes of the Data Run that are left from the current position on.
    pub fn remaining_len(&self) -> (r: u64)
        ensures
            r == spec_run_remaining(*self),
    {
        self.allocated_size().saturating_sub(self.stream_position)
    }
}

/// The absolute filesystem position that the current position of a Data Run corresponds to
/// (none for a sparse Data Run or a position beyond the Data Run).
pub open spec fn spec_run_data_position(run: NtfsDataRun) -> NtfsPosition {
    if run.spec_stream_position() <= run.spec_allocated_size() {
        run.spec_position().spec_add(run.spec_stream_position())
    } else {
        NtfsPosition::spec_at(0)
    }
}

/// The number of bytes of a Data Run that are left from its current position on.
pub open spec fn spec_run_remaining(run: NtfsDataRun) -> nat {
    if run.spec_stream_position() < run.spec_allocated_size() {
        (run.spec_allocated_size() - run.spec_stream_position()) as nat
    } else {
        0
    }
}

/// `a + b`, wrapped around at 2^64.
pub open spec fn spec_wrapping_add(a: u64, b: u64) -> int {
    (a as int + b as int) % 0x1_0000_0000_0000_0000
}

/// The byte `i` bytes after the current position of the Data Run `run` on a filesystem whose
/// bytes are `source`: zero for a sparse Data Run.
pub open spec fn spec_run_byte(run: NtfsDataRun, source: Seq<u8>, i: int) -> u8 {
    match run.spec_position()@ {
        None => 0u8,
        Some(p) => source[spec_wrapping_add(p, run.spec_stream_position()) + i],
    }
}

/// The outcome `r` of reading into `old_buf` (which becomes `new_buf`) from the Data Run `old_run`
/// (which becomes `new_run`) on a filesystem whose bytes are `source`.
///
/// Up to as many bytes as fit into the buffer and are left in the Data Run are read.
/// A sparse Data Run reads as zeros and is always read completely.
pub open spec fn spec_run_read(
    old_run: NtfsDataRun,
    new_run: NtfsDataRun,
    source: Seq<u8>,
    old_buf: Seq<u8>,
    new_buf: Seq<u8>,
    r: Result<usize>,
) -> bool {
    let k = if old_buf.len() < spec_run_remaining(old_run) {
        old_buf.len()
    } else {
        spec_run_remaining(old_run)
    };
    &&& new_run.spec_position() == old_run.spec_position()
    &&& new_run.spec_allocated_size() == old_run.spec_allocated_size()
    &&& new_buf.len() == old_buf.len()
    &&& match r {
        Ok(n) => {
            &&& n <= k
            &&& new_run.spec_stream_position() == old_run.spec_stream_position() + n
            &&& old_run.spec_position()@ is None ==> n == k
            &&& forall|i: int| 0 <= i < n ==> new_buf[i] == spec_run_byte(old_run, source, i)
            &&& forall|i: int| n <= i < old_buf.len() ==> new_buf[i] == old_buf[i]
        },
        Err(_) => new_run.spec_stream_position() == old_run.spec_stream_position(),
    }
}

/// Where the byte `j` bytes after the start of a Data Run at `position` lies within the
/// filesystem: nowhere for a sparse Data Run, whose bytes read as zeros.
pub open spec fn spec_run_location(position: NtfsPosition, j: int) -> Option<int> {
    match position@ {
        None => None,
        Some(p) => Some(p + j),
    }
}

/// The byte at `location` on a filesystem whose bytes are `source`: zero for no location.
pub open spec fn spec_located_byte(location: Option<int>, source: Seq<u8>) -> u8 {
    match location {
        None => 0u8,
        Some(x) => source[x],
    }
}

/// The outcome `r` of reading into `old_buf` (which becomes `new_buf`) from the Data Run
/// `old_run` on a filesystem whose bytes are `source`, in terms of where the bytes lie.
///
/// Each byte read is the byte at its location wherever that lies within the filesystem, and a
/// Data Run with bytes left reads no bytes into a non-empty buffer only where its current byte
/// lies beyond the end of the filesystem.
pub open spec fn spec_run_read_located(
    old_run: NtfsDataRun,
    source: Seq<u8>,
    old_buf: Seq<u8>,
    new_buf: Seq<u8>,
    r: Result<usize>,
) -> bool {
    match r {
        Ok(n) => {
            &&& forall|i: int|
                0 <= i < n ==> match #[trigger] spec_run_location(
                    old_run.spec_position(),
                    old_run.spec_stream_position() + i,
                ) {
                    None => new_buf[i] == 0u8,
                    Some(x) => x < source.len() ==> new_buf[i] == source[x],
                }
            &&& (n == 0 && old_buf.len() > 0 && spec_run_remaining(old_run) > 0) ==> (
            spec_run_location(
                old_run.spec_position(),
                old_run.spec_stream_position() as int,
            ) matches Some(x) && x >= source.len())
        },
        Err(_) => true,
    }
}

impl NtfsReadSeek for NtfsDataRun {
    closed spec fn spec_stream_position(&self) -> u64 {
        self.stream_position
    }

    /// Reads from the current position of the Data Run on: from the filesystem for a Data Run
    /// with real data, zeros for a sparse Data Run.
    fn read<T>(&mut self, fs: &mut T, buf: &mut [u8]) -> (r: Result<usize>) where T: Read + Seek
        ensures
            spec_run_read(*old(self), *final(self), old(fs).source(), old(buf)@, final(buf)@, r),
            old(fs).source().len() <= 0x1_0000_0000_0000_0000 ==> spec_run_read_located(
                *old(self),
                old(fs).source(),
                old(buf)@,
                final(buf)@,
                r,
            ),
            final(fs).source() == old(fs).source(),
            r is Err ==> old(self).spec_position()@ is Some && spec_run_remaining(*old(self)) > 0,
    {
        let remaining = self.remaining_len();
        if remaining == 0 {
            return Ok(0);
        }
        let bytes_to_read: usize = if (buf.len() as u64) < remaining {
            buf.len()
        } else {
            remaining as usize
        };
        let ghost old_buf = buf@;
        let (work, rest) = buf.split_at_mut(bytes_to_read);
        let ghost rest_view = rest@;
        let bytes_read = match self.position.value() {
            Some(position) => {
                // This Data Run contains "real" data.
                let target = position.wrapping_add(self.stream_position);
                match fs.seek(SeekFrom::Start(target)) {
                    Ok(_) => {},
                    Err(e) => return Err(NtfsError::Io(e)),
                }
                match fs.read(work) {
                    Ok(n) => n,
                    Err(e) => return Err(NtfsError::Io(e)),
                }
            },
            None => {
                // This is a sparse Data Run.
                let len = work.len();
                let mut i: usize = 0;
                while i < len
                    invariant
                        i <= len,
                        work@.len() == len,
                        forall|k: int| 0 <= k < i ==> work@[k] == 0u8,
                    decreases len - i,
                {
                    work[i] = 0;
                    i = i + 1;
                }
                len
            },
        };
        assert(buf@ == work@ + rest_view);
        self.stream_position = self.stream_position + bytes_read as u64;
        Ok(bytes_read)
    }

    /// Moves the current position within the Data Run (see [`seek_contiguous`]).
    fn seek<T>(&mut self, _fs: &mut T, pos: SeekFrom) -> (r: Result<u64>) where T: Read + Seek
        ensures
            *final(_fs) == *old(_fs),
            final(self).spec_position() == old(self).spec_position(),
            final(self).spec_allocated_size() == old(self).spec_allocated_size(),
            match spec_seek_contiguous(
                old(self).spec_stream_position(),
                old(self).spec_allocated_size(),
                pos,
            ) {
                Some(p) => r == Ok::<u64, NtfsError>(p) && final(self).spec_stream_position() == p,
                None => r == Err::<u64, NtfsError>(spec_invalid_seek_error())
                    && final(self).spec_stream_position() == old(self).spec_stream_position(),
            },
    {
        let length = self.allocated_size();
        seek_contiguous(&mut self.stream_position, length, pos)
    }

    fn stream_position(&self) -> (r: u64) {
        self.stream_position
    }
}


/// A seek request reduced to a seek from the very beginning or a forward seek from the current
/// position `stream_position` within a value of `data_size` bytes, or `None` for a seek to a
/// negative or overflowing position.
pub open spec fn spec_simplify_seek(pos: SeekFrom, stream_position: u64, data_size: u64) -> Option<
    SeekFrom,
> {
    match pos {
        SeekFrom::Start(n) => Some(SeekFrom::Start(n)),
        SeekFrom::End(n) => {
            if 0 <= data_size + n <= u64::MAX {
                Some(SeekFrom::Start((data_size + n) as u64))
            } else {
                None
            }
        },
        SeekFrom::Current(n) => {
            if n >= 0 {
                if stream_position + n <= u64::MAX {
                    Some(SeekFrom::Current(n))
                } else {
                    None
                }
            } else if stream_position + n >= 0 {
                Some(SeekFrom::Start((stream_position + n) as u64))
            } else {
                None
            }
        },
    }
}

/// [`spec_simplify_seek`], with a seek from the beginning to a position at or after
/// `stream_position` turned into a forward seek from the current position where it fits into an `i64`.
pub open spec fn spec_optimize_seek(pos: SeekFrom, stream_position: u64, data_size: u64) -> Option<
    SeekFrom,
> {
    match spec_simplify_seek(pos, stream_position, data_size) {
        Some(SeekFrom::Start(n)) => {
            if n >= stream_position && n - stream_position <= i64::MAX {
                Some(SeekFrom::Current((n - stream_position) as i64))
            } else {
                Some(SeekFrom::Start(n))
            }
        },
        other => other,
    }
}

/// Simplifying and optimizing a seek request keeps the position it leads to: the request is
/// refused exactly when it leads before the first byte or beyond `u64::MAX`, and otherwise it
/// becomes a seek from the beginning or a forward seek from the current position that leads to
/// the same position.
pub proof fn lemma_optimize_seek_target(pos: SeekFrom, stream_position: u64, data_size: u64)
    ensures
        ({
            let t = seek_target(pos, stream_position as int, data_size as int);
            match spec_optimize_seek(pos, stream_position, data_size) {
                None => t < 0 || t > u64::MAX,
                Some(SeekFrom::Start(n)) => n == t,
                Some(SeekFrom::Current(n)) => n >= 0 && stream_position + n == t && t <= u64::MAX,
                Some(SeekFrom::End(_)) => false,
            }
        }),
{
}

/// The outcome of reading `n` bytes into `new_buf` from the non-resident value `before` (which
/// becomes `after`) on a filesystem whose bytes are `source`, in terms of where the bytes lie.
///
/// On a filesystem of at most 2^64 bytes that holds the rest of the value (see
/// [`NtfsNonResidentAttributeValue::spec_within`]), the bytes read are the bytes at the locations
/// of the next `n` bytes of the value, and reading continues right after them.
pub open spec fn spec_read_located(
    before: NtfsNonResidentAttributeValue,
    after: NtfsNonResidentAttributeValue,
    source: Seq<u8>,
    new_buf: Seq<u8>,
    n: int,
) -> bool {
    source.len() <= 0x1_0000_0000_0000_0000 && before.spec_within(source) ==> {
        &&& forall|i: int|
            0 <= i < n ==> (#[trigger] before.spec_location(i) matches Some(location)
                && new_buf[i] == spec_located_byte(location, source))
        &&& forall|j: int|
            0 <= j && after.spec_stream_position() + j < after.spec_data_size()
                ==> #[trigger] after.spec_location(j) == before.spec_location(n + j)
    }
}

/// Where the byte `j` bytes after the position that the seek request `request` (simplified as by
/// [`spec_optimize_seek`]) leads to lies, for a seek in `value`.
pub open spec fn spec_seek_location(
    value: NtfsNonResidentAttributeValue,
    request: Option<SeekFrom>,
    j: int,
) -> Option<Option<int>> {
    match request {
        Some(SeekFrom::Start(n)) => value.spec_start_location(n + j),
        Some(SeekFrom::Current(n)) => value.spec_location(n + j),
        _ => None,
    }
}

/// Whether the Data Run `data_run` has bytes left.
pub open spec fn spec_run_has_bytes(data_run: Option<NtfsDataRun>) -> bool {
    match data_run {
        Some(run) => spec_run_remaining(run) > 0,
        None => false,
    }
}

/// Whether the Data Run `data_run` has bytes left and they lie on the filesystem (it is not sparse).
pub open spec fn spec_run_on_disk(data_run: Option<NtfsDataRun>) -> bool {
    match data_run {
        Some(run) => spec_run_remaining(run) > 0 && run.spec_position()@ is Some,
        None => false,
    }
}

/// Whether a location (see [`NtfsNonResidentAttributeValue::spec_location`]) lies on the
/// filesystem, so that reading the byte there reads from the filesystem.
pub open spec fn spec_on_disk(location: Option<Option<int>>) -> bool {
    match location {
        Some(Some(_)) => true,
        _ => false,
    }
}

/// The state of reading or seeking in a non-resident value: the current Data Run and the
/// position within the entire value.
#[derive(Debug)]
pub struct StreamState {
    /// Current Data Run we are reading from.
    stream_data_run: Option<NtfsDataRun>,
    /// Current relative position within the entire value, in bytes.
    stream_position: u64,
    /// Total (used) data size, in bytes.
    data_size: u64,
}

impl StreamState {
    /// The current Data Run.
    pub closed spec fn spec_data_run(&self) -> Option<NtfsDataRun> {
        self.stream_data_run
    }

    /// The current position within the entire value, in bytes.
    pub closed spec fn spec_stream_position(&self) -> u64 {
        self.stream_position
    }

    /// The total (used) data size of the value, in bytes.
    pub closed spec fn spec_data_size(&self) -> u64 {
        self.data_size
    }

    /// Creates the state at the beginning of a value of `data_size` bytes, without a Data Run.
    pub fn new(data_size: u64) -> (r: Self)
        ensures
            r.spec_data_run() is None,
            r.spec_stream_position() == 0,
            r.spec_data_size() == data_size,
    {
        Self { stream_data_run: None, stream_position: 0, data_size }
    }

    /// Returns the absolute current data seek position within the filesystem, in bytes.
    /// This may be `None` if:
    ///   * The current seek position is outside the valid range, or
    ///   * The attribute does not have a Data Run, or
    ///   * The current Data Run is a "sparse" Data Run
    pub fn data_position(&self) -> (r: NtfsPosition)
        ensures
            r == match self.spec_data_run() {
                Some(run) => spec_run_data_position(run),
                None => NtfsPosition::spec_at(0),
            },
    {
        match &self.stream_data_run {
            Some(stream_data_run) => stream_data_run.data_position(),
            None => NtfsPosition::none(),
        }
    }

    /// Returns the total (used) data size of the value, in bytes.
    pub fn data_size(&self) -> (r: u64)
        ensures
            r == self.spec_data_size(),
    {
        self.data_size
    }

    /// Simplifies any [`SeekFrom`] (see [`spec_optimize_seek`]) and translates a seek from the
    /// beginning into a more efficient forward seek from the current position where possible,
    /// as Data Runs need not be traversed from the very beginning then.
    pub fn optimize_seek(&self, pos: SeekFrom, data_size: u64) -> (r: Result<SeekFrom>)
        ensures
            match spec_optimize_seek(pos, self.spec_stream_position(), data_size) {
                Some(p) => r == Ok::<SeekFrom, NtfsError>(p),
                None => r == Err::<SeekFrom, NtfsError>(spec_invalid_seek_error()),
            },
    {
        let mut pos = match self.simplify_seek(pos, data_size) {
            Ok(p) => p,
            Err(e) => return Err(e),
        };
        if let SeekFrom::Start(n) = pos {
            if let Some(n_from_current) = n.checked_sub(self.stream_position()) {
                if n_from_current <= i64::MAX as u64 {
                    pos = SeekFrom::Current(n_from_current as i64);
                }
            }
        }
        Ok(pos)
    }

    /// Simplifies any [`SeekFrom`] to the two cases [`SeekFrom::Start(n)`] and [`SeekFrom::Current(n)`], with n >= 0.
    /// This is necessary, because an NTFS Data Run has necessary information for the next Data Run, but not the other way round.
    /// Hence, we can't efficiently move backwards.
    fn simplify_seek(&self, pos: SeekFrom, data_size: u64) -> (r: Result<SeekFrom>)
        ensures
            match spec_simplify_seek(pos, self.spec_stream_position(), data_size) {
                Some(p) => r == Ok::<SeekFrom, NtfsError>(p),
                None => r == Err::<SeekFrom, NtfsError>(spec_invalid_seek_error()),
            },
    {
        match pos {
            SeekFrom::Start(n) => {
                // Seek n bytes from the very beginning.
                return Ok(SeekFrom::Start(n));
            },
            SeekFrom::End(n) => {
                if n >= 0 {
                    if let Some(bytes_to_seek) = data_size.checked_add(n as u64) {
                        // Seek data_size + n bytes from the very beginning.
                        return Ok(SeekFrom::Start(bytes_to_seek));
                    }
                } else {
                    let magnitude = (-(n + 1)) as u64 + 1;
                    if let Some(bytes_to_seek) = data_size.checked_sub(magnitude) {
                        // Seek data_size + n bytes (with n being negative) from the very beginning.
                        return Ok(SeekFrom::Start(bytes_to_seek));
                    }
                }
            },
            SeekFrom::Current(n) => {
                if n >= 0 {
                    if self.stream_position().checked_add(n as u64).is_some() {
                        // Seek n bytes from the current position.
                        return Ok(SeekFrom::Current(n));
                    }
                } else {
                    let magnitude = (-(n + 1)) as u64 + 1;
                    if let Some(bytes_to_seek) = self.stream_position().checked_sub(magnitude) {
                        // Seek stream_position + n bytes (with n being negative) from the very beginning.
                        return Ok(SeekFrom::Start(bytes_to_seek));
                    }
                }
            },
        }
        Err(
            NtfsError::Io(
                Error::new(
                    ErrorKind::InvalidInput,
                    "invalid seek to a negative or overflowing position",
                ),
            ),
        )
    }

    /// Reads from the current Data Run into `buf` from `*bytes_read` on, up to the (used) data
    /// size of the value, and advances `*bytes_read`. Returns whether some bytes were read.
    pub fn read_data_run<T>(&mut self, fs: &mut T, buf: &mut [u8], bytes_read: &mut usize) -> (r:
        Result<bool>) where T: Read + Seek
        requires
            *old(bytes_read) <= old(buf)@.len(),
        ensures
            final(self).spec_data_size() == old(self).spec_data_size(),
            final(fs).source() == old(fs).source(),
            final(buf)@.len() == old(buf)@.len(),
            *final(bytes_read) <= final(buf)@.len(),
            forall|i: int| 0 <= i < *old(bytes_read) ==> final(buf)@[i] == old(buf)@[i],
            match r {
                Ok(false) => {
                    &&& *final(self) == *old(self)
                    &&& *final(bytes_read) == *old(bytes_read)
                    &&& final(buf)@ == old(buf)@
                },
                Ok(true) => {
                    let start = *old(bytes_read) as int;
                    let n = *final(bytes_read) - start;
                    let run = old(self).spec_data_run()->0;
                    &&& old(self).spec_data_run() is Some
                    &&& 0 < n <= spec_run_remaining(run)
                    &&& old(self).spec_stream_position() + n <= old(self).spec_data_size()
                    &&& final(self).spec_stream_position() == old(self).spec_stream_position() + n
                    &&& final(self).spec_data_run() matches Some(run2) && run2.spec_position()
                        == run.spec_position() && run2.spec_allocated_size()
                        == run.spec_allocated_size() && run2.spec_stream_position()
                        == run.spec_stream_position() + n
                    &&& forall|i: int|
                        0 <= i < n ==> final(buf)@[start + i] == spec_run_byte(
                            run,
                            old(fs).source(),
                            i,
                        )
                    &&& forall|i: int|
                        start + n <= i < old(buf)@.len() ==> final(buf)@[i] == old(buf)@[i]
                },
                Err(_) => {
                    &&& final(self).spec_stream_position() == old(self).spec_stream_position()
                    &&& *final(bytes_read) == *old(bytes_read)
                },
            },
            old(fs).source().len() <= 0x1_0000_0000_0000_0000 ==> match r {
                Ok(true) => {
                    let start = *old(bytes_read) as int;
                    let run = old(self).spec_data_run()->0;
                    forall|i: int|
                        0 <= i < *final(bytes_read) - start ==> match #[trigger] spec_run_location(
                            run.spec_position(),
                            run.spec_stream_position() + i,
                        ) {
                            None => final(buf)@[start + i] == 0u8,
                            Some(x) => x < old(fs).source().len() ==> final(buf)@[start + i]
                                == old(fs).source()[x],
                        }
                },
                Ok(false) => old(self).spec_data_run() matches Some(run) ==> {
                    ||| spec_run_remaining(run) == 0
                    ||| old(self).spec_stream_position() >= old(self).spec_data_size()
                    ||| *old(bytes_read) == old(buf)@.len()
                    ||| spec_run_location(
                        run.spec_position(),
                        run.spec_stream_position() as int,
                    ) matches Some(x) && x >= old(fs).source().len()
                },
                Err(_) => true,
            },
            r is Err ==> spec_run_on_disk(old(self).spec_data_run()) && old(self).spec_stream_position()
                < old(self).spec_data_size(),
            r == Ok::<bool, NtfsError>(false) && *old(bytes_read) < old(buf)@.len()
                && old(self).spec_stream_position() < old(self).spec_data_size() && spec_run_has_bytes(
                old(self).spec_data_run(),
            ) ==> spec_run_on_disk(old(self).spec_data_run()),
    {
        // Is there a Data Run to read from?
        let mut data_run = match self.stream_data_run.take() {
            Some(data_run) => data_run,
            None => return Ok(false),
        };
        // Have we already seeked past the size of the Data Run?
        if data_run.stream_position() >= data_run.allocated_size() {
            self.stream_data_run = Some(data_run);
            return Ok(false);
        }
        // We also must not read past the (used) data size of the entire value.
        // (remember that a Data Run only knows about its allocated size, not its used size!)
        let remaining_data_size = self.data_size.saturating_sub(self.stream_position);
        if remaining_data_size == 0 {
            self.stream_data_run = Some(data_run);
            return Ok(false);
        }
        // Read up to the buffer length or up to the (used) data size, whatever comes first.
        let start = *bytes_read;
        let remaining_buf_len = buf.len() - start;
        let limit: usize = if (remaining_buf_len as u64) < remaining_data_size {
            remaining_buf_len
        } else {
            remaining_data_size as usize
        };
        let ghost old_buf = buf@;
        let ghost old_run = data_run;
        let (head, tail) = buf.split_at_mut(start);
        let ghost head_view = head@;
        let (work, rest) = tail.split_at_mut(limit);
        let ghost rest_view = rest@;
        // Perform the actual read.
        let res = data_run.read(fs, work);
        assert(tail@ == work@ + rest_view);
        assert(buf@ == head_view + tail@);
        let bytes_read_in_data_run = match res {
            Ok(n) => n,
            Err(e) => {
                self.stream_data_run = Some(data_run);
                return Err(e);
            },
        };
        if bytes_read_in_data_run == 0 {
            assert(data_run == old_run);
            assert(buf@ =~= old_buf);
            self.stream_data_run = Some(data_run);
            return Ok(false);
        }
        *bytes_read = *bytes_read + bytes_read_in_data_run;
        self.stream_position = self.stream_position + bytes_read_in_data_run as u64;
        self.stream_data_run = Some(data_run);
        Ok(true)
    }

    /// Seeks within the current Data Run if the remaining distance `*bytes_left_to_seek` ends
    /// in it (returning `true`), and otherwise skips the rest of the Data Run by reducing the
    /// remaining distance (returning `false`).
    ///
    /// `bytes_to_seek` tells whether the distance is counted from the very beginning of the
    /// value (and hence of this Data Run) or from the current position.
    pub fn seek_data_run<T>(
        &mut self,
        fs: &mut T,
        bytes_to_seek: SeekFrom,
        bytes_left_to_seek: &mut u64,
    ) -> (r: Result<bool>) where T: Read + Seek
        requires
            !(bytes_to_seek is End),
            bytes_to_seek is Current ==> *old(bytes_left_to_seek) <= i64::MAX,
        ensures
            *final(fs) == *old(fs),
            final(self).spec_data_size() == old(self).spec_data_size(),
            final(self).spec_stream_position() == old(self).spec_stream_position(),
            match old(self).spec_data_run() {
                None => r == Ok::<bool, NtfsError>(false) && *final(self) == *old(self)
                    && *final(bytes_left_to_seek) == *old(bytes_left_to_seek),
                Some(run) => if *old(bytes_left_to_seek) < spec_run_remaining(run) {
                    &&& r == Ok::<bool, NtfsError>(true)
                    &&& *final(bytes_left_to_seek) == *old(bytes_left_to_seek)
                    &&& final(self).spec_data_run() matches Some(run2) && run2.spec_position()
                        == run.spec_position() && run2.spec_allocated_size()
                        == run.spec_allocated_size() && run2.spec_stream_position() == (
                    match bytes_to_seek {
                        SeekFrom::Start(_) => *old(bytes_left_to_seek) as int,
                        _ => run.spec_stream_position() + *old(bytes_left_to_seek),
                    })
                } else {
                    &&& r == Ok::<bool, NtfsError>(false)
                    &&& *final(self) == *old(self)
                    &&& *final(bytes_left_to_seek) == *old(bytes_left_to_seek)
                        - spec_run_remaining(run)
                },
            },
    {
        // Is there a Data Run to seek in?
        let mut data_run = match self.stream_data_run.take() {
            Some(data_run) => data_run,
            None => return Ok(false),
        };
        let remaining = data_run.remaining_len();
        if *bytes_left_to_seek < remaining {
            // We have found the right Data Run, now we have to seek inside the Data Run.
            //
            // If we were called to seek from the very beginning, we can be sure that this
            // Data Run is also seeked from the beginning.
            // Hence, we can use SeekFrom::Start and use the full u64 range.
            //
            // If we were called to seek from the current position, we have to use
            // SeekFrom::Current and can only use the positive part of the i64 range.
            // This is no problem though, as `bytes_left_to_seek` was also created from a
            // positive i64 value in that case.
            let pos = match bytes_to_seek {
                SeekFrom::Start(_) => SeekFrom::Start(*bytes_left_to_seek),
                _ => SeekFrom::Current(*bytes_left_to_seek as i64),
            };
            let res = data_run.seek(fs, pos);
            self.stream_data_run = Some(data_run);
            match res {
                Ok(_) => Ok(true),
                Err(e) => Err(e),
            }
        } else {
            // We can skip the entire Data Run.
            *bytes_left_to_seek = *bytes_left_to_seek - remaining;
            self.stream_data_run = Some(data_run);
            Ok(false)
        }
    }

    /// Replaces the current Data Run.
    pub fn set_stream_data_run(&mut self, stream_data_run: Option<NtfsDataRun>)
        ensures
            final(self).spec_data_run() == stream_data_run,
            final(self).spec_stream_position() == old(self).spec_stream_position(),
            final(self).spec_data_size() == old(self).spec_data_size(),
    {
        self.stream_data_run = stream_data_run;
    }

    /// Replaces the current position within the entire value.
    pub fn set_stream_position(&mut self, stream_position: u64)
        ensures
            final(self).spec_data_run() == old(self).spec_data_run(),
            final(self).spec_stream_position() == stream_position,
            final(self).spec_data_size() == old(self).spec_data_size(),
    {
        self.stream_position = stream_position;
    }

    /// Returns the current relative position within the entire value, in bytes.
    pub fn stream_position(&self) -> (r: u64)
        ensures
            r == self.spec_stream_position(),
    {
        self.stream_position
    }
}


/// A Data Run found by one step of the iteration lies after the previous header and within
/// the Data Run information.
pub proof fn lemma_data_runs_next_progress(
    data: Seq<u8>,
    base: NtfsPosition,
    state: DataRunsState,
    cluster_size: u32,
)
    requires
        data.len() <= usize::MAX,
    ensures
        spec_data_runs_next(data, base, state, cluster_size) matches DataRunsStep::Run {
            offset,
            ..
        } ==> state.offset < offset <= data.len(),
        spec_data_runs_next(data, base, state, cluster_size) matches DataRunsStep::End {
            offset,
        } ==> offset == state.offset || offset == data.len(),
{
}

/// Variable-length integers of Data Run headers are little-endian: no bytes hold zero, and a
/// further byte adds its value times `256^n` to the `n` bytes before it.
pub proof fn lemma_le_unsigned_top_byte(data: Seq<u8>, start: int, n: nat)
    ensures
        spec_le_unsigned(data, start, 0) == 0,
        spec_le_unsigned(data, start, n + 1) == spec_le_unsigned(data, start, n) + data[start + n]
            as int * spec_pow256(n),
    decreases n,
{
    if n > 0 {
        lemma_le_unsigned_top_byte(data, start + 1, (n - 1) as nat);
        let low = spec_le_unsigned(data, start + 1, (n - 1) as nat);
        let top = data[start + n] as int;
        let p = spec_pow256((n - 1) as nat);
        assert(spec_pow256(n) == 256 * p);
        assert(spec_le_unsigned(data, start + 1, n) == low + top * p);
        assert(spec_le_unsigned(data, start, n + 1) == data[start] as int + 256
            * spec_le_unsigned(data, start + 1, n));
        assert(spec_le_unsigned(data, start, n) == data[start] as int + 256 * low);
        assert(256 * (low + top * p) == 256 * low + top * (256 * p)) by (nonlinear_arith);
    } else {
        assert(spec_pow256(0) == 1);
        assert(spec_le_unsigned(data, start + 1, 0) == 0);
    }
}

/// The size of a Data Run is its cluster count, the little-endian integer of `h % 16` bytes after
/// its header byte `h`, times the cluster size; the cluster count is never zero.
pub proof fn lemma_data_run_allocated_size(
    data: Seq<u8>,
    base: NtfsPosition,
    state: DataRunsState,
    cluster_size: u32,
)
    requires
        data.len() <= usize::MAX,
    ensures
        spec_data_runs_next(data, base, state, cluster_size) matches DataRunsStep::Run {
            allocated_size,
            ..
        } ==> {
            let header = data[state.offset as int];
            let count = spec_le_unsigned(data, state.offset + 1, (header % 16) as nat);
            &&& count > 0
            &&& allocated_size == count * cluster_size
        },
{
}

/// A sign-extended integer of `count` bytes (`0 < count <= 8`) is the two's complement value of
/// its raw bytes: the one number in `[-256^count / 2, 256^count / 2)` that differs from `raw` by a
/// multiple of `256^count` (`raw` itself, or `raw - 256^count` when the sign bit is set).
pub proof fn lemma_sign_extend_twos_complement(raw: nat, count: nat)
    requires
        0 < count <= MAX_BYTE_COUNT,
        raw < spec_pow256(count),
    ensures
        spec_sign_extend(raw, count) == raw || spec_sign_extend(raw, count) == raw - spec_pow256(
            count,
        ),
        -(spec_pow256(count) / 2) <= spec_sign_extend(raw, count) < spec_pow256(count) / 2,
        spec_sign_extend(raw, count) == 0 <==> raw == 0,
{
    assert(spec_pow256(count) == 256 * spec_pow256((count - 1) as nat));
    lemma_pow256_values();
    assert(spec_pow256((count - 1) as nat) >= 1) by {
        assert(count - 1 == 0 || count - 1 == 1 || count - 1 == 2 || count - 1 == 3 || count - 1
            == 4 || count - 1 == 5 || count - 1 == 6 || count - 1 == 7);
    }
}

/// The LCN of a Data Run is the LCN of the previous Data Run with real data plus the LCN offset
/// of its header, read as a two's complement number of `h / 16` bytes: the difference between
/// the two LCNs lies in `[-256^m / 2, 256^m / 2)` for `m` offset bytes and differs from the raw
/// little-endian offset by a multiple of `256^m`. A zero offset marks a sparse Data Run, which
/// keeps the previous LCN; any other Data Run lies at its LCN times the cluster size.
pub proof fn lemma_data_run_lcn_offset(
    data: Seq<u8>,
    base: NtfsPosition,
    state: DataRunsState,
    cluster_size: u32,
)
    requires
        data.len() <= usize::MAX,
    ensures
        spec_data_runs_next(data, base, state, cluster_size) matches DataRunsStep::Run {
            position,
            previous_lcn,
            ..
        } ==> {
            let header = data[state.offset as int];
            let m = (header / 16) as nat;
            let raw = spec_le_unsigned(data, state.offset + 1 + header % 16, m);
            let d = previous_lcn.0 - state.previous_lcn.0;
            &&& m <= MAX_BYTE_COUNT
            &&& raw == 0 ==> d == 0 && position == NtfsPosition::spec_at(0)
            &&& raw != 0 ==> {
                &&& d == raw || d == raw - spec_pow256(m)
                &&& -(spec_pow256(m) / 2) <= d < spec_pow256(m) / 2
                &&& position == NtfsPosition::spec_at(
                    (previous_lcn.0 as int * cluster_size as int) as u64,
                )
            }
        },
{
    let step = spec_data_runs_next(data, base, state, cluster_size);
    if let DataRunsStep::Run { position, previous_lcn, .. } = step {
        let header = data[state.offset as int];
        let m = (header / 16) as nat;
        let raw = spec_le_unsigned(data, state.offset + 1 + header % 16, m);
        if m > 0 {
            lemma_le_unsigned_bound(data, state.offset + 1 + header % 16, m);
            lemma_sign_extend_twos_complement(raw, m);
            lemma_pow256_values();
            assert(spec_pow256(m) <= 0x1_0000_0000_0000_0000) by {
                assert(m == 1 || m == 2 || m == 3 || m == 4 || m == 5 || m == 6 || m == 7 || m
                    == 8);
            }
        } else {
            assert(raw == 0);
        }
    }
}

/// A Data Run header byte `h` is followed by `h % 16` bytes of cluster count and `h / 16` bytes of
/// LCN offset, after which the next header follows; a zero header ends the list at the end of the
/// Data Run information.
pub proof fn lemma_data_run_header_length(
    data: Seq<u8>,
    base: NtfsPosition,
    state: DataRunsState,
    cluster_size: u32,
)
    requires
        data.len() <= usize::MAX,
    ensures
        spec_data_runs_next(data, base, state, cluster_size) matches DataRunsStep::Run { offset, .. }
            ==> offset == state.offset + 1 + data[state.offset as int] % 16 + data[state.offset as int]
            / 16,
        state.offset < data.len() && data[state.offset as int] == 0 ==> spec_data_runs_next(
            data,
            base,
            state,
            cluster_size,
        ) == (DataRunsStep::End { offset: data.len() as usize }),
{
}

/// A measure of the Data Run information left to iterate over.
pub open spec fn spec_runs_left(runs: NtfsDataRuns) -> nat {
    if runs.spec_state().offset <= runs.spec_data().len() {
        (runs.spec_data().len() - runs.spec_state().offset) as nat
    } else {
        0
    }
}

/// Where the byte `j` bytes after the start of the data that the Data Runs of the information
/// `data` (at `base` within a filesystem with clusters of `cluster_size` bytes) describe from
/// the iteration state `state` on lies: `None` beyond the last Data Run or at an invalid
/// header, otherwise its location within its Data Run (see [`spec_run_location`]).
pub open spec fn spec_runs_location(
    data: Seq<u8>,
    base: NtfsPosition,
    state: DataRunsState,
    cluster_size: u32,
    j: int,
) -> Option<Option<int>>
    decreases data.len() - state.offset,
{
    match spec_data_runs_next(data, base, state, cluster_size) {
        DataRunsStep::Run { position, allocated_size, offset, previous_lcn } => {
            if j < allocated_size {
                Some(spec_run_location(position, j))
            } else if state.offset < offset && offset <= data.len() {
                spec_runs_location(
                    data,
                    base,
                    DataRunsState { offset, previous_lcn },
                    cluster_size,
                    j - allocated_size,
                )
            } else {
                None
            }
        },
        _ => None,
    }
}

/// The bytes that a Data Run describes lie one after the other from its position on, and those of a
/// sparse Data Run nowhere (they read as zeros); the bytes after it are those that the following
/// Data Runs describe, counted from the end of this one.
pub proof fn lemma_runs_location_in_order(
    data: Seq<u8>,
    base: NtfsPosition,
    state: DataRunsState,
    cluster_size: u32,
    j: int,
)
    requires
        data.len() <= usize::MAX,
        0 <= j,
    ensures
        spec_data_runs_next(data, base, state, cluster_size) matches DataRunsStep::Run {
            position,
            allocated_size,
            offset,
            previous_lcn,
        } ==> {
            &&& j < allocated_size ==> spec_runs_location(data, base, state, cluster_size, j) == Some(
                match position@ {
                    Some(p) => Some(p + j),
                    None => None::<int>,
                },
            )
            &&& j >= allocated_size ==> spec_runs_location(data, base, state, cluster_size, j)
                == spec_runs_location(
                data,
                base,
                DataRunsState { offset, previous_lcn },
                cluster_size,
                j - allocated_size,
            )
        },
{
    lemma_data_runs_next_progress(data, base, state, cluster_size);
}

/// Whether every Data Run header of the information `data` (at `base` within a filesystem with
/// clusters of `cluster_size` bytes) from the iteration state `state` on is valid, up to the end
/// of the list.
pub open spec fn spec_runs_decode(
    data: Seq<u8>,
    base: NtfsPosition,
    state: DataRunsState,
    cluster_size: u32,
) -> bool
    decreases data.len() - state.offset,
{
    match spec_data_runs_next(data, base, state, cluster_size) {
        DataRunsStep::Error { .. } => false,
        DataRunsStep::End { .. } => true,
        DataRunsStep::Run { offset, previous_lcn, .. } => {
            if state.offset < offset && offset <= data.len() {
                spec_runs_decode(data, base, DataRunsState { offset, previous_lcn }, cluster_size)
            } else {
                true
            }
        },
    }
}

/// One step of an iteration whose Data Run headers are all valid gives no error and leads to a
/// state whose headers are all valid.
pub proof fn lemma_runs_decode_step(
    data: Seq<u8>,
    base: NtfsPosition,
    state: DataRunsState,
    cluster_size: u32,
)
    requires
        data.len() <= usize::MAX,
        spec_runs_decode(data, base, state, cluster_size),
    ensures
        match spec_data_runs_next(data, base, state, cluster_size) {
            DataRunsStep::Error { .. } => false,
            DataRunsStep::End { offset } => spec_runs_decode(
                data,
                base,
                DataRunsState { offset, previous_lcn: state.previous_lcn },
                cluster_size,
            ),
            DataRunsStep::Run { offset, previous_lcn, .. } => spec_runs_decode(
                data,
                base,
                DataRunsState { offset, previous_lcn },
                cluster_size,
            ),
        },
{
    lemma_data_runs_next_progress(data, base, state, cluster_size);
    match spec_data_runs_next(data, base, state, cluster_size) {
        DataRunsStep::End { offset } => {
            let next = DataRunsState { offset, previous_lcn: state.previous_lcn };
            assert(offset >= data.len());
            assert(spec_data_runs_next(data, base, next, cluster_size) is End);
        },
        _ => {},
    }
}

/// Reader for a non-resident attribute value (whose data is in a cluster range outside the File Record).
#[derive(Debug)]
pub struct NtfsNonResidentAttributeValue<'n, 'f> {
    /// Reference to the base `Ntfs` object of this filesystem.
    ntfs: &'n Ntfs,
    /// Attribute bytes where the Data Run information of this non-resident value is stored on the filesystem.
    data: &'f [u8],
    /// Absolute position of the Data Run information within the filesystem, in bytes.
    position: NtfsPosition,
    /// Iterator of data runs used for reading/seeking.
    stream_data_runs: NtfsDataRuns<'n, 'f>,
    /// Iteration state of the current Data Run.
    stream_state: StreamState,
}

impl<'n, 'f> NtfsNonResidentAttributeValue<'n, 'f> {
    /// The filesystem the value belongs to.
    pub closed spec fn spec_ntfs(&self) -> Ntfs {
        *self.ntfs
    }

    /// The Data Run information of the value.
    pub closed spec fn spec_data(&self) -> Seq<u8> {
        self.data@
    }

    /// The absolute position of the Data Run information within the filesystem.
    pub closed spec fn spec_position(&self) -> NtfsPosition {
        self.position
    }

    /// The total (used) data size of the value, in bytes.
    pub closed spec fn spec_data_size(&self) -> u64 {
        self.stream_state.spec_data_size()
    }

    /// The Data Run that reading continues in.
    pub closed spec fn spec_data_run(&self) -> Option<NtfsDataRun> {
        self.stream_state.spec_data_run()
    }

    /// The iterator that yields the next Data Run to read.
    pub closed spec fn spec_stream_data_runs(&self) -> NtfsDataRuns<'n, 'f> {
        self.stream_data_runs
    }

    /// Where the byte `j` bytes after the current position of the value lies: within the rest of
    /// the current Data Run, then within the Data Runs that follow it (see
    /// [`spec_runs_location`]).
    pub open spec fn spec_location(&self, j: int) -> Option<Option<int>> {
        let runs = self.spec_stream_data_runs();
        let skipped = match self.spec_data_run() {
            Some(run) => spec_run_remaining(run) as int,
            None => 0,
        };
        match self.spec_data_run() {
            Some(run) if j < spec_run_remaining(run) => Some(
                spec_run_location(run.spec_position(), run.spec_stream_position() + j),
            ),
            _ => spec_runs_location(
                runs.spec_data(),
                runs.spec_base(),
                runs.spec_state(),
                runs.spec_ntfs().spec_cluster_size(),
                j - skipped,
            ),
        }
    }

    /// The number of bytes left in the current Data Run (none without one).
    pub open spec fn spec_run_bytes_left(&self) -> nat {
        match self.spec_data_run() {
            Some(run) => spec_run_remaining(run),
            None => 0,
        }
    }

    /// Where the byte `j` bytes after the start of the value lies (see [`spec_runs_location`]).
    pub open spec fn spec_start_location(&self, j: int) -> Option<Option<int>> {
        spec_runs_location(
            self.spec_data(),
            self.spec_position(),
            DataRunsState { offset: 0, previous_lcn: Lcn(0) },
            self.spec_ntfs().spec_cluster_size(),
            j,
        )
    }

    /// Skipping the bytes left in the current Data Run (if any) by moving on to the next Data
    /// Run keeps where each byte after them lies.
    proof fn lemma_location_after_next_data_run(before: Self, after: Self, j: int)
        requires
            0 <= j,
            before.spec_stream_data_runs().spec_data().len() <= usize::MAX,
            after.spec_stream_data_runs().spec_data() == before.spec_stream_data_runs().spec_data(),
            after.spec_stream_data_runs().spec_base() == before.spec_stream_data_runs().spec_base(),
            after.spec_stream_data_runs().spec_ntfs() == before.spec_stream_data_runs().spec_ntfs(),
            match spec_data_runs_next(
                before.spec_stream_data_runs().spec_data(),
                before.spec_stream_data_runs().spec_base(),
                before.spec_stream_data_runs().spec_state(),
                before.spec_stream_data_runs().spec_ntfs().spec_cluster_size(),
            ) {
                DataRunsStep::End { offset } => {
                    &&& after.spec_run_bytes_left() == 0
                    &&& after.spec_stream_data_runs().spec_state() == (DataRunsState {
                        offset,
                        previous_lcn: before.spec_stream_data_runs().spec_state().previous_lcn,
                    })
                },
                DataRunsStep::Error { .. } => false,
                DataRunsStep::Run { position, allocated_size, offset, previous_lcn } => {
                    &&& after.spec_stream_data_runs().spec_state() == (DataRunsState {
                        offset,
                        previous_lcn,
                    })
                    &&& before.spec_stream_data_runs().spec_state().offset < offset
                        <= before.spec_stream_data_runs().spec_data().len()
                    &&& after.spec_data_run() matches Some(run)
                    &&& run.spec_position() == position
                    &&& run.spec_allocated_size() == allocated_size
                    &&& run.spec_stream_position() == 0
                },
            },
        ensures
            after.spec_location(j) == before.spec_location(before.spec_run_bytes_left() + j),
    {
        let runs = before.spec_stream_data_runs();
        let runs2 = after.spec_stream_data_runs();
        let data = runs.spec_data();
        let base = runs.spec_base();
        let cluster_size = runs.spec_ntfs().spec_cluster_size();
        assert(before.spec_location(before.spec_run_bytes_left() + j) == spec_runs_location(
            data,
            base,
            runs.spec_state(),
            cluster_size,
            j,
        ));
        match spec_data_runs_next(data, base, runs.spec_state(), cluster_size) {
            DataRunsStep::End { offset } => {
                assert(spec_data_runs_next(data, base, runs2.spec_state(), cluster_size) is End);
            },
            _ => {},
        }
    }

    /// Whether every Data Run header that a seek by `request` (simplified as by
    /// [`spec_optimize_seek`]) may traverse is valid: all headers from the first one on for a
    /// seek from the beginning, all headers after the current Data Run for a forward seek.
    pub open spec fn spec_seek_decodes(&self, request: Option<SeekFrom>) -> bool {
        match request {
            Some(SeekFrom::Start(_)) => spec_runs_decode(
                self.spec_data(),
                self.spec_position(),
                DataRunsState { offset: 0, previous_lcn: Lcn(0) },
                self.spec_ntfs().spec_cluster_size(),
            ),
            _ => spec_runs_decode(
                self.spec_stream_data_runs().spec_data(),
                self.spec_stream_data_runs().spec_base(),
                self.spec_stream_data_runs().spec_state(),
                self.spec_stream_data_runs().spec_ntfs().spec_cluster_size(),
            ),
        }
    }

    /// Whether reading up to `len` bytes from the current position on reads nothing from the
    /// filesystem and meets no invalid Data Run header: each of these bytes up to the data size
    /// lies in a sparse Data Run or beyond the last Data Run, and all Data Run headers after the
    /// current Data Run are valid.
    pub open spec fn spec_reads_without_fs(&self, len: nat) -> bool {
        &&& spec_runs_decode(
            self.spec_stream_data_runs().spec_data(),
            self.spec_stream_data_runs().spec_base(),
            self.spec_stream_data_runs().spec_state(),
            self.spec_stream_data_runs().spec_ntfs().spec_cluster_size(),
        )
        &&& forall|j: int|
            0 <= j < len && self.spec_stream_position() + j < self.spec_data_size() ==> !spec_on_disk(
                #[trigger] self.spec_location(j),
            )
    }

    /// Whether every byte of the value from the current position up to its data size that lies
    /// within the filesystem at all lies within the filesystem bytes `source`.
    pub open spec fn spec_within(&self, source: Seq<u8>) -> bool {
        forall|j: int|
            0 <= j && self.spec_stream_position() + j < self.spec_data_size() ==> (
            #[trigger] self.spec_location(j) matches Some(Some(x)) ==> x < source.len())
    }

    /// Creates a reader for a value of `data_size` bytes whose Data Run information `data` lies
    /// at `position` within the filesystem, positioned at the first Data Run.
    ///
    /// Fails with the error of the first Data Run header if that is invalid.
    pub fn new(ntfs: &'n Ntfs, data: &'f [u8], position: NtfsPosition, data_size: u64) -> (r:
        Result<Self>)
        ensures
            ({
                let first = spec_data_runs_next(
                    data@,
                    position,
                    DataRunsState { offset: 0, previous_lcn: Lcn(0) },
                    ntfs.spec_cluster_size(),
                );
                match first {
                    DataRunsStep::Error { error, .. } => r == Err::<Self, NtfsError>(error),
                    DataRunsStep::End { .. } => r matches Ok(v) && v.spec_data_run() is None,
                    DataRunsStep::Run { position: p, allocated_size, .. } => r matches Ok(v)
                        && v.spec_data_run() matches Some(run) && run.spec_position() == p
                        && run.spec_allocated_size() == allocated_size
                        && run.spec_stream_position() == 0 && allocated_size > 0,
                }
            }),
            r matches Ok(v) ==> {
                &&& v.spec_ntfs() == *ntfs
                &&& v.spec_data() == data@
                &&& v.spec_position() == position
                &&& v.spec_data_size() == data_size
                &&& v.spec_stream_position() == 0
                &&& forall|j: int| 0 <= j ==> #[trigger] v.spec_location(j) == v.spec_start_location(j)
            },
    {
        let stream_data_runs = NtfsDataRuns::new(ntfs, data, position);
        let stream_state = StreamState::new(data_size);
        let mut value = Self { ntfs, data, position, stream_data_runs, stream_state };
        let ghost before = value;
        match value.next_data_run() {
            Ok(_) => {
                proof {
                    assert forall|j: int| 0 <= j implies #[trigger] value.spec_location(j)
                        == value.spec_start_location(j) by {
                        assert(data@.len() == data.len());
                        Self::lemma_location_after_next_data_run(before, value, j);
                    }
                }
                Ok(value)
            },
            Err(e) => Err(e),
        }
    }

    /// Returns the absolute current data seek position within the filesystem, in bytes.
    /// This may be `None` if:
    ///   * The current seek position is outside the valid range, or
    ///   * The attribute does not have a Data Run, or
    ///   * The current Data Run is a "sparse" Data Run
    pub fn data_position(&self) -> (r: NtfsPosition)
        ensures
            r == match self.spec_data_run() {
                Some(run) => spec_run_data_position(run),
                None => NtfsPosition::spec_at(0),
            },
    {
        self.stream_state.data_position()
    }

    /// Returns an iterator over all data runs of this non-resident attribute.
    pub fn data_runs(&self) -> (r: NtfsDataRuns<'n, 'f>)
        ensures
            r.spec_ntfs() == self.spec_ntfs(),
            r.spec_data() == self.spec_data(),
            r.spec_base() == self.spec_position(),
            r.spec_state() == (DataRunsState { offset: 0, previous_lcn: Lcn(0) }),
    {
        NtfsDataRuns::new(self.ntfs, self.data, self.position)
    }

    /// Returns `true` if the non-resident attribute value contains no data.
    pub fn is_empty(&self) -> (r: bool)
        ensures
            r == (self.spec_data_size() == 0),
    {
        self.len() == 0
    }

    /// Returns the total length of the non-resident attribute value data, in bytes.
    pub fn len(&self) -> (r: u64)
        ensures
            r == self.spec_data_size(),
    {
        self.stream_state.data_size()
    }

    /// Moves on to the next Data Run and returns whether there is one.
    fn next_data_run(&mut self) -> (r: Result<bool>)
        ensures
            final(self).spec_ntfs() == old(self).spec_ntfs(),
            final(self).spec_data() == old(self).spec_data(),
            final(self).spec_position() == old(self).spec_position(),
            final(self).spec_data_size() == old(self).spec_data_size(),
            final(self).spec_stream_position() == old(self).spec_stream_position(),
            final(self).spec_stream_data_runs().spec_data() == old(self).spec_stream_data_runs().spec_data(),
            final(self).spec_stream_data_runs().spec_base() == old(self).spec_stream_data_runs().spec_base(),
            final(self).spec_stream_data_runs().spec_ntfs() == old(self).spec_stream_data_runs().spec_ntfs(),
            old(self).spec_stream_data_runs().spec_state().offset <= old(self).spec_stream_data_runs().spec_data().len() ==> final(self).spec_stream_data_runs().spec_state().offset <= final(self).spec_stream_data_runs().spec_data().len(),
            match spec_data_runs_next(
                old(self).spec_stream_data_runs().spec_data(),
                old(self).spec_stream_data_runs().spec_base(),
                old(self).spec_stream_data_runs().spec_state(),
                old(self).spec_stream_data_runs().spec_ntfs().spec_cluster_size(),
            ) {
                DataRunsStep::End { offset } => r == Ok::<bool, NtfsError>(false)
                    && final(self).spec_data_run() == old(self).spec_data_run()
                    && final(self).spec_stream_data_runs().spec_state() == (DataRunsState {
                    offset,
                    previous_lcn: old(self).spec_stream_data_runs().spec_state().previous_lcn,
                }),
                DataRunsStep::Error { error, .. } => r == Err::<bool, NtfsError>(error)
                    && final(self).spec_data_run() == old(self).spec_data_run(),
                DataRunsStep::Run { position, allocated_size, offset, previous_lcn } => {
                    &&& r == Ok::<bool, NtfsError>(true)
                    &&& final(self).spec_stream_data_runs().spec_state() == (DataRunsState {
                        offset,
                        previous_lcn,
                    })
                    &&& old(self).spec_stream_data_runs().spec_state().offset < offset
                        <= old(self).spec_stream_data_runs().spec_data().len()
                    &&& final(self).spec_data_run() matches Some(run)
                    &&& run.spec_position() == position
                    &&& run.spec_allocated_size() == allocated_size
                    &&& run.spec_stream_position() == 0
                    &&& spec_runs_left(final(self).spec_stream_data_runs()) < spec_runs_left(
                        old(self).spec_stream_data_runs(),
                    )
                    &&& run.spec_allocated_size() > 0
                },
            },
            spec_runs_decode(
                old(self).spec_stream_data_runs().spec_data(),
                old(self).spec_stream_data_runs().spec_base(),
                old(self).spec_stream_data_runs().spec_state(),
                old(self).spec_stream_data_runs().spec_ntfs().spec_cluster_size(),
            ) ==> r is Ok && spec_runs_decode(
                final(self).spec_stream_data_runs().spec_data(),
                final(self).spec_stream_data_runs().spec_base(),
                final(self).spec_stream_data_runs().spec_state(),
                final(self).spec_stream_data_runs().spec_ntfs().spec_cluster_size(),
            ),
    {
        proof {
            let runs = self.stream_data_runs;
            assert(runs.data@.len() == runs.data.len());
            if spec_runs_decode(runs.spec_data(), runs.spec_base(), runs.spec_state(), runs.spec_ntfs().spec_cluster_size()) {
                lemma_runs_decode_step(runs.spec_data(), runs.spec_base(), runs.spec_state(), runs.spec_ntfs().spec_cluster_size());
            }
        }
        let stream_data_run = match self.stream_data_runs.next() {
            Some(stream_data_run) => stream_data_run,
            None => return Ok(false),
        };
        let stream_data_run = match stream_data_run {
            Ok(run) => run,
            Err(e) => return Err(e),
        };
        self.stream_state.set_stream_data_run(Some(stream_data_run));
        Ok(true)
    }

    /// Returns the [`Ntfs`] object reference associated to this value.
    pub fn ntfs(&self) -> (r: &'n Ntfs)
        ensures
            *r == self.spec_ntfs(),
    {
        self.ntfs
    }

    /// Returns the absolute position of the Data Run information within the filesystem, in bytes.
    pub fn position(&self) -> (r: NtfsPosition)
        ensures
            r == self.spec_position(),
    {
        self.position
    }

    /// Rewinds this value reader to the very beginning.
    fn rewind(&mut self) -> (r: Result<()>)
        ensures
            final(self).spec_ntfs() == old(self).spec_ntfs(),
            final(self).spec_data() == old(self).spec_data(),
            final(self).spec_position() == old(self).spec_position(),
            final(self).spec_data_size() == old(self).spec_data_size(),
            final(self).spec_stream_position() == 0,
            r is Ok ==> forall|j: int|
                0 <= j ==> #[trigger] final(self).spec_location(j)
                    == final(self).spec_start_location(j),
            final(self).spec_stream_data_runs().spec_data() == old(self).spec_data(),
            final(self).spec_stream_data_runs().spec_base() == old(self).spec_position(),
            final(self).spec_stream_data_runs().spec_ntfs() == old(self).spec_ntfs(),
            final(self).spec_stream_data_runs().spec_state().offset <= final(self).spec_stream_data_runs().spec_data().len(),
            spec_runs_decode(
                old(self).spec_data(),
                old(self).spec_position(),
                DataRunsState { offset: 0, previous_lcn: Lcn(0) },
                old(self).spec_ntfs().spec_cluster_size(),
            ) ==> r is Ok && spec_runs_decode(
                final(self).spec_stream_data_runs().spec_data(),
                final(self).spec_stream_data_runs().spec_base(),
                final(self).spec_stream_data_runs().spec_state(),
                final(self).spec_stream_data_runs().spec_ntfs().spec_cluster_size(),
            ),
            match spec_data_runs_next(
                old(self).spec_data(),
                old(self).spec_position(),
                DataRunsState { offset: 0, previous_lcn: Lcn(0) },
                old(self).spec_ntfs().spec_cluster_size(),
            ) {
                DataRunsStep::Error { error, .. } => r == Err::<(), NtfsError>(error),
                DataRunsStep::End { .. } => r is Ok && final(self).spec_data_run() is None,
                DataRunsStep::Run { position, allocated_size, .. } => {
                    &&& r is Ok
                    &&& final(self).spec_data_run() matches Some(run)
                    &&& run.spec_position() == position
                    &&& run.spec_allocated_size() == allocated_size
                    &&& run.spec_stream_position() == 0
                    &&& allocated_size > 0
                },
            },
    {
        self.stream_data_runs = self.data_runs();
        self.stream_state = StreamState::new(self.len());
        let ghost before = *self;
        match self.next_data_run() {
            Ok(_) => {
                proof {
                    assert forall|j: int| 0 <= j implies #[trigger] self.spec_location(j)
                        == self.spec_start_location(j) by {
                        assert(self.data@.len() == self.data.len());
                        Self::lemma_location_after_next_data_run(before, *self, j);
                    }
                }
                Ok(())
            },
            Err(e) => Err(e),
        }
    }
}

impl<'n, 'f> NtfsReadSeek for NtfsNonResidentAttributeValue<'n, 'f> {
    closed spec fn spec_stream_position(&self) -> u64 {
        self.stream_state.spec_stream_position()
    }

    /// Reads from the current position on, Data Run after Data Run, up to the (used) data size
    /// of the value.
    fn read<T>(&mut self, fs: &mut T, buf: &mut [u8]) -> (r: Result<usize>) where T: Read + Seek
        ensures
            final(self).spec_ntfs() == old(self).spec_ntfs(),
            final(self).spec_data() == old(self).spec_data(),
            final(self).spec_position() == old(self).spec_position(),
            final(self).spec_data_size() == old(self).spec_data_size(),
            final(fs).source() == old(fs).source(),
            r matches Ok(n) ==> {
                &&& final(self).spec_stream_position() == old(self).spec_stream_position() + n
                &&& n > 0 ==> old(self).spec_stream_position() + n <= old(self).spec_data_size()
                &&& forall|i: int| n <= i < old(buf)@.len() ==> final(buf)@[i] == old(buf)@[i]
                &&& spec_read_located(*old(self), *final(self), old(fs).source(), final(buf)@, n as int)
            },
            old(buf)@.len() == 0 ==> r == Ok::<usize, NtfsError>(0),
            r matches Ok(n) ==> (old(fs).source().len() <= 0x1_0000_0000_0000_0000 && old(
                self,
            ).spec_within(old(fs).source()) ==> {
                ||| n == old(buf)@.len()
                ||| old(self).spec_stream_position() + n >= old(self).spec_data_size()
                ||| old(self).spec_location(n as int) is None
            }),
            old(self).spec_reads_without_fs(old(buf)@.len()) ==> r is Ok,
    {
        let ghost old_buf = buf@;
        let ghost start_position = self.stream_state.spec_stream_position();
        let ghost src = fs.source();
        let ghost within = src.len() <= 0x1_0000_0000_0000_0000 && old(self).spec_within(src);
        let ghost quiet = old(self).spec_reads_without_fs(old(buf)@.len());
        let mut bytes_read = 0usize;
        while bytes_read < buf.len()
            invariant
                src == old(fs).source(),
                within == (src.len() <= 0x1_0000_0000_0000_0000 && old(self).spec_within(src)),
                quiet == old(self).spec_reads_without_fs(old_buf.len()),
                quiet ==> spec_runs_decode(
                    self.spec_stream_data_runs().spec_data(),
                    self.spec_stream_data_runs().spec_base(),
                    self.spec_stream_data_runs().spec_state(),
                    self.spec_stream_data_runs().spec_ntfs().spec_cluster_size(),
                ),
                within || quiet ==> forall|j: int|
                    0 <= j && start_position + bytes_read + j < self.spec_data_size()
                        ==> #[trigger] self.spec_location(j) == old(self).spec_location(
                        bytes_read + j,
                    ),
                within ==> forall|i: int|
                    0 <= i < bytes_read ==> (#[trigger] old(self).spec_location(i) matches Some(
                        location,
                    ) && buf@[i] == spec_located_byte(location, src)),
                bytes_read <= buf@.len(),
                buf@.len() == old_buf.len(),
                self.spec_ntfs() == old(self).spec_ntfs(),
                self.spec_data() == old(self).spec_data(),
                self.spec_position() == old(self).spec_position(),
                self.spec_data_size() == old(self).spec_data_size(),
                fs.source() == old(fs).source(),
                start_position == old(self).spec_stream_position(),
                old_buf == old(buf)@,
                self.stream_state.spec_stream_position() == start_position + bytes_read,
                bytes_read > 0 ==> start_position + bytes_read <= self.spec_data_size(),
                forall|i: int| bytes_read <= i < old_buf.len() ==> buf@[i] == old_buf[i],
            ensures
                within ==> {
                    ||| bytes_read == buf@.len()
                    ||| start_position + bytes_read >= self.spec_data_size()
                    ||| old(self).spec_location(bytes_read as int) is None
                },
            decreases buf@.len() - bytes_read, spec_runs_left(self.stream_data_runs),
        {
            let ghost prev = *self;
            let ghost prev_read = bytes_read as int;
            let ghost prev_buf = buf@;
            // Read from the current Data Run if there is one.
            let got_data = match self.stream_state.read_data_run(fs, buf, &mut bytes_read) {
                Ok(b) => b,
                Err(e) => {
                    proof {
                        if quiet {
                            assert(prev.spec_location(0) == old(self).spec_location(
                                bytes_read as int,
                            ));
                            assert(spec_on_disk(old(self).spec_location(bytes_read as int)));
                        }
                    }
                    return Err(e);
                },
            };
            if got_data {
                proof {
                    let n = bytes_read - prev_read;
                    let run = prev.spec_data_run()->0;
                    if within || quiet {
                        assert forall|j: int|
                            0 <= j && start_position + bytes_read + j < self.spec_data_size()
                                implies #[trigger] self.spec_location(j) == old(
                            self,
                        ).spec_location(bytes_read + j) by {
                            assert(self.spec_location(j) == prev.spec_location(n + j));
                        }
                    }
                    if within {
                        assert forall|i: int| 0 <= i < bytes_read implies (#[trigger] old(
                            self,
                        ).spec_location(i) matches Some(location) && buf@[i]
                            == spec_located_byte(location, src)) by {
                            if i >= prev_read {
                                let k = i - prev_read;
                                assert(prev.spec_location(k) == old(self).spec_location(i));
                                assert(prev.spec_location(k) == Some(
                                    spec_run_location(
                                        run.spec_position(),
                                        run.spec_stream_position() + k,
                                    ),
                                ));
                                assert(old(self).spec_stream_position() + i
                                    < old(self).spec_data_size());
                            } else {
                                assert(buf@[i] == prev_buf[i]);
                            }
                        }
                    }
                }
                // We read something, so check the loop condition again if we need to read more.
                continue;
            }
            let ghost mid = *self;
            // Move to the next Data Run.
            let next = match self.next_data_run() {
                Ok(b) => b,
                Err(e) => return Err(e),
            };
            proof {
                if within || quiet {
                    assert forall|j: int|
                        0 <= j && start_position + bytes_read + j < self.spec_data_size()
                            implies #[trigger] self.spec_location(j) == old(self).spec_location(
                        bytes_read + j,
                    ) by {
                        assert(mid.spec_location(j) == old(self).spec_location(bytes_read + j));
                        if let Some(run) = mid.spec_data_run() {
                            if spec_run_remaining(run) > 0 {
                                assert(mid.spec_location(0) == old(self).spec_location(
                                    bytes_read as int,
                                ));
                                assert(old(self).spec_stream_position() + bytes_read
                                    < old(self).spec_data_size());
                                if quiet {
                                    assert(spec_on_disk(old(self).spec_location(bytes_read as int)));
                                }
                            }
                        }
                        assert(mid.stream_data_runs.data@.len() == mid.stream_data_runs.data.len());
                        Self::lemma_location_after_next_data_run(mid, *self, j);
                        assert(self.spec_location(j) == mid.spec_location(j));
                    }
                }
            }
            if !next {
                proof {
                    if within && bytes_read < buf@.len() && start_position + bytes_read
                        < self.spec_data_size() {
                        assert(self.spec_location(0) == old(self).spec_location(bytes_read as int));
                        let runs = self.stream_data_runs;
                        let mruns = mid.stream_data_runs;
                        let cs = mruns.spec_ntfs().spec_cluster_size();
                        assert(spec_data_runs_next(
                            mruns.spec_data(),
                            mruns.spec_base(),
                            mruns.spec_state(),
                            cs,
                        ) is End);
                        if let DataRunsStep::End { offset } = spec_data_runs_next(
                            mruns.spec_data(),
                            mruns.spec_base(),
                            mruns.spec_state(),
                            cs,
                        ) {
                            assert(mruns.data@.len() == mruns.data.len());
                            assert(offset >= mruns.spec_data().len());
                            assert(runs.spec_state().offset == offset);
                        }
                        assert(runs.spec_state().offset >= runs.spec_data().len());
                        assert(spec_data_runs_next(
                            runs.spec_data(),
                            runs.spec_base(),
                            runs.spec_state(),
                            runs.spec_ntfs().spec_cluster_size(),
                        ) is End);
                        if let Some(run) = mid.spec_data_run() {
                            if spec_run_remaining(run) > 0 {
                                assert(mid.spec_location(0) == old(self).spec_location(
                                    bytes_read as int,
                                ));
                                assert(old(self).spec_stream_position() + bytes_read
                                    < old(self).spec_data_size());
                                assert(false);
                            }
                        }
                    }
                }
                // We read everything we could.
                break;
            }
        }
        Ok(bytes_read)
    }

    /// Moves the current position within the entire value, traversing Data Runs from the very
    /// beginning or from the current position on.
    fn seek<T>(&mut self, fs: &mut T, pos: SeekFrom) -> (r: Result<u64>) where T: Read + Seek
        ensures
            final(self).spec_ntfs() == old(self).spec_ntfs(),
            final(self).spec_data() == old(self).spec_data(),
            final(self).spec_position() == old(self).spec_position(),
            final(self).spec_data_size() == old(self).spec_data_size(),
            final(fs).source() == old(fs).source(),
            ({
                let t = seek_target(
                    pos,
                    old(self).spec_stream_position() as int,
                    old(self).spec_data_size() as int,
                );
                &&& (t < 0 || t > u64::MAX) ==> r == Err::<u64, NtfsError>(spec_invalid_seek_error())
                    && final(self).spec_stream_position() == old(self).spec_stream_position()
                &&& r matches Ok(p) ==> p == t && final(self).spec_stream_position() == p
                &&& 0 <= t <= u64::MAX && old(self).spec_seek_decodes(
                    spec_optimize_seek(
                        pos,
                        old(self).spec_stream_position(),
                        old(self).spec_data_size(),
                    ),
                ) ==> r is Ok
            }),
            r is Ok ==> final(self).spec_data_run() is None || spec_run_has_bytes(
                final(self).spec_data_run(),
            ) || final(self).spec_data_run() == old(self).spec_data_run(),
            r is Ok ==> forall|j: int|
                0 <= j ==> #[trigger] final(self).spec_location(j) == spec_seek_location(
                    *old(self),
                    spec_optimize_seek(
                        pos,
                        old(self).spec_stream_position(),
                        old(self).spec_data_size(),
                    ),
                    j,
                ),
    {
        let ghost target = seek_target(
            pos,
            self.stream_state.spec_stream_position() as int,
            self.spec_data_size() as int,
        );
        proof {
            lemma_optimize_seek_target(pos, self.stream_state.spec_stream_position(), self.spec_data_size());
        }
        let simplified = match self.stream_state.optimize_seek(pos, self.len()) {
            Ok(p) => p,
            Err(e) => return Err(e),
        };
        let mut bytes_left_to_seek = match simplified {
            SeekFrom::Start(n) => {
                match self.rewind() {
                    Ok(()) => {},
                    Err(e) => return Err(e),
                }
                n
            },
            SeekFrom::Current(n) => n as u64,
            SeekFrom::End(_) => {
                proof {
                    assert(false);
                }
                0
            },
        };
        let ghost base_position = self.stream_state.spec_stream_position();
        let ghost origin = *old(self);
        let ghost request = Some(simplified);
        assert(request == spec_optimize_seek(
            pos,
            old(self).spec_stream_position(),
            old(self).spec_data_size(),
        ));
        assert(self.stream_data_runs.data@.len() == self.stream_data_runs.data.len());
        while bytes_left_to_seek > 0
            invariant_except_break
                simplified is Start ==> (self.spec_data_run() matches Some(run)
                    ==> run.spec_stream_position() == 0),
                forall|j: int|
                    #![trigger spec_seek_location(origin, request, j)]
                    0 <= j ==> self.spec_location(bytes_left_to_seek + j) == spec_seek_location(
                        origin,
                        request,
                        j,
                    ),
            invariant
                request == Some(simplified),
                request == spec_optimize_seek(
                    pos,
                    old(self).spec_stream_position(),
                    old(self).spec_data_size(),
                ),
                origin == *old(self),
                self.spec_data_run() is None || spec_run_has_bytes(self.spec_data_run())
                    || self.spec_data_run() == old(self).spec_data_run() || bytes_left_to_seek > 0,
                origin.spec_seek_decodes(request) ==> spec_runs_decode(
                    self.spec_stream_data_runs().spec_data(),
                    self.spec_stream_data_runs().spec_base(),
                    self.spec_stream_data_runs().spec_state(),
                    self.spec_stream_data_runs().spec_ntfs().spec_cluster_size(),
                ),
                self.stream_data_runs.data@.len() <= usize::MAX,
                self.spec_ntfs() == old(self).spec_ntfs(),
                self.spec_data() == old(self).spec_data(),
                self.spec_position() == old(self).spec_position(),
                self.spec_data_size() == old(self).spec_data_size(),
                fs.source() == old(fs).source(),
                self.stream_state.spec_stream_position() == base_position,
                !(simplified is End),
                simplified is Current ==> bytes_left_to_seek <= i64::MAX,
                0 <= target <= u64::MAX,
                target == seek_target(
                    pos,
                    old(self).spec_stream_position() as int,
                    old(self).spec_data_size() as int,
                ),
                target == seek_target(
                    simplified,
                    base_position as int,
                    old(self).spec_data_size() as int,
                ),
            ensures
                forall|j: int|
                    0 <= j ==> #[trigger] self.spec_location(j) == spec_seek_location(
                        origin,
                        request,
                        j,
                    ),
                self.spec_data_run() is None || spec_run_has_bytes(self.spec_data_run())
                    || self.spec_data_run() == old(self).spec_data_run(),
            decreases spec_runs_left(self.stream_data_runs),
        {
            let ghost prev = *self;
            let ghost prev_left = bytes_left_to_seek as int;
            // Seek inside the current Data Run if there is one.
            let done = match self.stream_state.seek_data_run(fs, simplified, &mut bytes_left_to_seek) {
                Ok(b) => b,
                Err(e) => return Err(e),
            };
            if done {
                proof {
                    let run = prev.spec_data_run()->0;
                    let run2 = self.spec_data_run()->0;
                    assert(run2.spec_stream_position() == run.spec_stream_position() + prev_left);
                    assert(spec_run_remaining(run2) == spec_run_remaining(run) - prev_left);
                    assert forall|j: int| 0 <= j implies #[trigger] self.spec_location(j)
                        == spec_seek_location(origin, request, j) by {
                        assert(self.spec_location(j) == prev.spec_location(prev_left + j));
                    }
                }
                // We have reached our final seek position.
                break;
            }
            let ghost mid = *self;
            // Move to the next Data Run.
            let next = match self.next_data_run() {
                Ok(b) => b,
                Err(e) => return Err(e),
            };
            if !next {
                // We seeked as far as we could.
                self.stream_state.set_stream_data_run(None);
                proof {
                    assert forall|j: int| 0 <= j implies #[trigger] self.spec_location(j)
                        == spec_seek_location(origin, request, j) by {
                        Self::lemma_location_after_next_data_run(mid, *self, bytes_left_to_seek + j);
                        Self::lemma_location_after_next_data_run(mid, *self, j);
                        assert(mid.spec_location(mid.spec_run_bytes_left() + bytes_left_to_seek + j)
                            == prev.spec_location(prev_left + j));
                        assert(self.spec_location(j) == None::<Option<int>>);
                        assert(self.spec_location(bytes_left_to_seek + j) == None::<Option<int>>);
                    }
                }
                break;
            }
            proof {
                assert forall|j: int| 0 <= j implies #[trigger] self.spec_location(
                    bytes_left_to_seek + j,
                ) == spec_seek_location(origin, request, j) by {
                    Self::lemma_location_after_next_data_run(mid, *self, bytes_left_to_seek + j);
                    assert(mid.spec_location(mid.spec_run_bytes_left() + bytes_left_to_seek + j)
                        == prev.spec_location(prev_left + j));
                }
            }
        }
        let ghost sought = *self;
        match simplified {
            SeekFrom::Start(n) => self.stream_state.set_stream_position(n),
            SeekFrom::Current(n) => {
                let p = self.stream_state.stream_position() + n as u64;
                self.stream_state.set_stream_position(p)
            },
            SeekFrom::End(_) => {},
        }
        proof {
            assert forall|j: int| 0 <= j implies #[trigger] self.spec_location(j)
                == spec_seek_location(origin, request, j) by {
                assert(self.spec_location(j) == sought.spec_location(j));
            }
        }
        Ok(self.stream_position())
    }

    fn stream_position(&self) -> (r: u64) {
        self.stream_state.stream_position()
    }
}


impl<'n, 'f> Clone for NtfsDataRuns<'n, 'f> {
    fn clone(&self) -> (r: Self)
        ensures
            r == *self,
    {
        NtfsDataRuns { ntfs: self.ntfs, data: self.data, position: self.position, state: self.state }
    }
}

impl Clone for NtfsDataRun {
    fn clone(&self) -> (r: Self)
        ensures
            r == *self,
    {
        NtfsDataRun {
            position: self.position,
            allocated_size: self.allocated_size,
            stream_position: self.stream_position,
        }
    }
}

impl Clone for StreamState {
    fn clone(&self) -> (r: Self)
        ensures
            r == *self,
    {
        let stream_data_run = match &self.stream_data_run {
            Some(run) => Some(run.clone()),
            None => None,
        };
        StreamState {
            stream_data_run,
            stream_position: self.stream_position,
            data_size: self.data_size,
        }
    }
}

impl<'n, 'f> Clone for NtfsNonResidentAttributeValue<'n, 'f> {
    fn clone(&self) -> (r: Self)
        ensures
            r == *self,
    {
        NtfsNonResidentAttributeValue {
            ntfs: self.ntfs,
            data: self.data,
            position: self.position,
            stream_data_runs: self.stream_data_runs.clone(),
            stream_state: self.stream_state.clone(),
        }
    }
}

} // verus!

