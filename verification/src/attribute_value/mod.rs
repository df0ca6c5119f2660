//! Readers for attribute values.
use vstd::prelude::*;

pub mod attribute_list_non_resident;
pub mod non_resident;
pub mod resident;

use crate::error::{NtfsError, Result};
use crate::io::{seek_target, Error, ErrorKind, Read, Seek, SeekFrom};
use crate::traits::NtfsReadSeek;
use crate::types::NtfsPosition;

pub use attribute_list_non_resident::NtfsAttributeListNonResidentAttributeValue;
pub use non_resident::{NtfsDataRun, NtfsDataRuns, NtfsNonResidentAttributeValue};
pub use resident::NtfsResidentAttributeValue;

verus! {

/// The outcome of a seek within a contiguous value of `length` bytes, starting at `stream_position`:
/// the new position, or `None` if the request points before the first byte or beyond `u64::MAX`.
pub open spec fn spec_seek_contiguous(stream_position: u64, length: u64, pos: SeekFrom) -> Option<u64> {
    let t = seek_target(pos, stream_position as int, length as int);
    if 0 <= t <= u64::MAX {
        Some(t as u64)
    } else {
        None
    }
}

/// The error for a seek to a negative or overflowing position.
pub open spec fn spec_invalid_seek_error() -> NtfsError {
    NtfsError::Io(Error::spec_from_kind(ErrorKind::InvalidInput))
}

/// Moves `stream_position` within a contiguous value of `length` bytes as requested by `pos`.
///
/// Returns the new position, or an [`ErrorKind::InvalidInput`] error (leaving `stream_position`
/// unchanged) for a seek to a negative or overflowing position.
pub fn seek_contiguous(stream_position: &mut u64, length: u64, pos: SeekFrom) -> (r: Result<u64>)
    ensures
        match spec_seek_contiguous(*old(stream_position), length, pos) {
            Some(p) => r == Ok::<u64, NtfsError>(p) && *final(stream_position) == p,
            None => r == Err::<u64, NtfsError>(spec_invalid_seek_error())
                && *final(stream_position) == *old(stream_position),
        },
{
    let (base_pos, offset) = match pos {
        SeekFrom::Start(n) => {
            *stream_position = n;
            return Ok(n);
        },
        SeekFrom::End(n) => (length, n),
        SeekFrom::Current(n) => (*stream_position, n),
    };
    let new_pos = if offset >= 0 {
        base_pos.checked_add(offset as u64)
    } else {
        let magnitude = (-(offset + 1)) as u64 + 1;
        base_pos.checked_sub(magnitude)
    };
    match new_pos {
        Some(n) => {
            *stream_position = n;
            Ok(*stream_position)
        },
        None => Err(
            NtfsError::Io(
                Error::new(
                    ErrorKind::InvalidInput,
                    "invalid seek to a negative or overflowing position",
                ),
            ),
        ),
    }
}


/// Reader for an NTFS Attribute value, which is either resident (part of the File Record)
/// or non-resident (stored in Data Runs).
#[derive(Debug)]
pub enum NtfsAttributeValue<'n, 'f> {
    /// A resident value.
    Resident(NtfsResidentAttributeValue<'f>),
    /// A non-resident value.
    NonResident(NtfsNonResidentAttributeValue<'n, 'f>),
    /// A non-resident value that is continued by connected attributes of an Attribute List.
    AttributeListNonResident(NtfsAttributeListNonResidentAttributeValue<'n, 'f>),
}

impl<'n, 'f> NtfsAttributeValue<'n, 'f> {
    /// The total length of the value data, in bytes.
    pub open spec fn spec_len(&self) -> nat {
        match self {
            NtfsAttributeValue::Resident(inner) => inner.spec_data().len(),
            NtfsAttributeValue::NonResident(inner) => inner.spec_data_size() as nat,
            NtfsAttributeValue::AttributeListNonResident(inner) => inner.spec_data_size() as nat,
        }
    }

    /// The absolute current data seek position within the filesystem (see [`NtfsAttributeValue::data_position`]).
    pub open spec fn spec_data_position(&self) -> NtfsPosition {
        match self {
            NtfsAttributeValue::Resident(inner) => if inner.spec_stream_position()
                <= inner.spec_data().len() {
                inner.spec_position().spec_add(inner.spec_stream_position())
            } else {
                NtfsPosition::spec_at(0)
            },
            NtfsAttributeValue::NonResident(inner) => match inner.spec_data_run() {
                Some(run) => non_resident::spec_run_data_position(run),
                None => NtfsPosition::spec_at(0),
            },
            NtfsAttributeValue::AttributeListNonResident(inner) => match inner.spec_data_run() {
                Some(run) => non_resident::spec_run_data_position(run),
                None => NtfsPosition::spec_at(0),
            },
        }
    }

    /// Returns the absolute current data seek position within the filesystem, in bytes.
    /// This may be `None` if:
    ///   * The current seek position is outside the valid range, or
    ///   * The value is non-resident and does not have a Data Run, or
    ///   * The current Data Run is a "sparse" Data Run
    pub fn data_position(&self) -> (r: NtfsPosition)
        ensures
            r == self.spec_data_position(),
    {
        match self {
            NtfsAttributeValue::Resident(inner) => inner.data_position(),
            NtfsAttributeValue::NonResident(inner) => inner.data_position(),
            NtfsAttributeValue::AttributeListNonResident(inner) => inner.data_position(),
        }
    }

    /// Returns the total length of the value data, in bytes.
    pub fn len(&self) -> (r: u64)
        ensures
            r == self.spec_len(),
    {
        match self {
            NtfsAttributeValue::Resident(inner) => inner.len(),
            NtfsAttributeValue::NonResident(inner) => inner.len(),
            NtfsAttributeValue::AttributeListNonResident(inner) => inner.len(),
        }
    }

    /// Returns `true` if the value contains no data.
    pub fn is_empty(&self) -> (r: bool)
        ensures
            r == (self.spec_len() == 0),
    {
        self.len() == 0
    }
}

/// Whether the first `count` bytes of `buf` are the next `count` bytes of the value `value` on a
/// filesystem whose bytes are `source`: for a resident value, its bytes from the current position
/// on; for a non-resident value on a filesystem of at most 2^64 bytes that holds the rest of the
/// value, the bytes at their locations (see [`non_resident::spec_read_located`]). Nothing is said
/// of a value spread over the attributes of an Attribute List.
pub open spec fn spec_read_bytes(
    value: NtfsAttributeValue,
    source: Seq<u8>,
    buf: Seq<u8>,
    count: int,
) -> bool {
    match value {
        NtfsAttributeValue::Resident(v) => forall|i: int|
            0 <= i < count ==> buf[i] == v.spec_data()[v.spec_stream_position() + i],
        NtfsAttributeValue::NonResident(v) => source.len() <= 0x1_0000_0000_0000_0000
            && v.spec_within(source) ==> forall|i: int|
            0 <= i < count ==> (#[trigger] v.spec_location(i) matches Some(location) && buf[i]
                == non_resident::spec_located_byte(location, source)),
        NtfsAttributeValue::AttributeListNonResident(_) => true,
    }
}

/// Whether the first `count` bytes of `buf` are the bytes of the value `value` that start `skip`
/// bytes after its current position, on a filesystem whose bytes are `source` (as
/// [`spec_read_bytes`] says of the next bytes; for a non-resident value only for a forward
/// `skip`).
pub open spec fn spec_read_bytes_after(
    value: NtfsAttributeValue,
    source: Seq<u8>,
    buf: Seq<u8>,
    skip: int,
    count: int,
) -> bool {
    match value {
        NtfsAttributeValue::Resident(v) => forall|i: int|
            0 <= i < count ==> buf[i] == v.spec_data()[v.spec_stream_position() + skip + i],
        NtfsAttributeValue::NonResident(v) => source.len() <= 0x1_0000_0000_0000_0000
            && v.spec_within(source) && skip >= 0 ==> forall|i: int|
            0 <= i < count ==> (#[trigger] v.spec_location(skip + i) matches Some(location)
                && buf[i] == non_resident::spec_located_byte(location, source)),
        NtfsAttributeValue::AttributeListNonResident(_) => true,
    }
}

/// Reading right after a seek by `skip` bytes from the current position of `before` (which became
/// `after`) reads the bytes that start `skip` bytes after the position before the seek.
pub proof fn lemma_read_after_forward_seek(
    before: NtfsAttributeValue,
    after: NtfsAttributeValue,
    source: Seq<u8>,
    buf: Seq<u8>,
    skip: i64,
    count: int,
)
    requires
        !(before is AttributeListNonResident) ==> after.spec_stream_position()
            == before.spec_stream_position() + skip,
        after.spec_len() == before.spec_len(),
        before matches NtfsAttributeValue::Resident(b) ==> (
        after matches NtfsAttributeValue::Resident(a) && a.spec_data() == b.spec_data()),
        before matches NtfsAttributeValue::NonResident(b) ==> (
        after matches NtfsAttributeValue::NonResident(a) && forall|j: int|
            0 <= j ==> #[trigger] a.spec_location(j) == non_resident::spec_seek_location(
                b,
                non_resident::spec_optimize_seek(
                    SeekFrom::Current(skip),
                    b.spec_stream_position(),
                    b.spec_data_size(),
                ),
                j,
            )),
        spec_read_bytes(after, source, buf, count),
    ensures
        spec_read_bytes_after(before, source, buf, skip as int, count),
{
    match before {
        NtfsAttributeValue::NonResident(b) => {
            let a = after->NonResident_0;
            if source.len() <= 0x1_0000_0000_0000_0000 && b.spec_within(source) && skip >= 0 {
                assert forall|j: int| 0 <= j implies #[trigger] a.spec_location(j) == b.spec_location(
                    skip + j,
                ) by {
                    assert(non_resident::spec_seek_location(
                        b,
                        non_resident::spec_optimize_seek(
                            SeekFrom::Current(skip),
                            b.spec_stream_position(),
                            b.spec_data_size(),
                        ),
                        j,
                    ) == b.spec_location(skip + j));
                }
                assert forall|j: int|
                    0 <= j && a.spec_stream_position() + j < a.spec_data_size() implies (
                    #[trigger] a.spec_location(j) matches Some(Some(x)) ==> x < source.len()) by {
                    assert(a.spec_location(j) == b.spec_location(skip + j));
                }
                assert(a.spec_within(source));
                assert forall|i: int| 0 <= i < count implies (#[trigger] b.spec_location(
                    skip + i,
                ) matches Some(location) && buf[i] == non_resident::spec_located_byte(
                    location,
                    source,
                )) by {
                    assert(a.spec_location(i) == b.spec_location(skip + i));
                }
            }
        },
        _ => {},
    }
}

/// One read of `n` bytes from the non-resident value `current` (becoming `next`), which continues
/// `filled` bytes after the start value `start`, continues `filled + n` bytes after it, and the
/// bytes read are those of `start` from `filled` on.
proof fn lemma_non_resident_read_step(
    start: NtfsNonResidentAttributeValue,
    current: NtfsNonResidentAttributeValue,
    next: NtfsNonResidentAttributeValue,
    source: Seq<u8>,
    filled: int,
    n: int,
    read: Seq<u8>,
)
    requires
        source.len() <= 0x1_0000_0000_0000_0000,
        start.spec_within(source),
        0 <= filled,
        0 <= n,
        current.spec_stream_position() == start.spec_stream_position() + filled,
        current.spec_data_size() == start.spec_data_size(),
        next.spec_data_size() == start.spec_data_size(),
        next.spec_stream_position() == current.spec_stream_position() + n,
        n > 0 ==> current.spec_stream_position() + n <= current.spec_data_size(),
        forall|j: int|
            0 <= j && current.spec_stream_position() + j < current.spec_data_size()
                ==> #[trigger] current.spec_location(j) == start.spec_location(filled + j),
        non_resident::spec_read_located(current, next, source, read, n),
    ensures
        next.spec_within(source),
        forall|j: int|
            0 <= j && next.spec_stream_position() + j < next.spec_data_size()
                ==> #[trigger] next.spec_location(j) == start.spec_location(filled + n + j),
        forall|i: int|
            0 <= i < n ==> (#[trigger] start.spec_location(filled + i) matches Some(location)
                && read[i] == non_resident::spec_located_byte(location, source)),
{
    assert forall|j: int|
        0 <= j && current.spec_stream_position() + j < current.spec_data_size() implies (
        #[trigger] current.spec_location(j) matches Some(Some(x)) ==> x < source.len()) by {
        assert(start.spec_location(filled + j) == current.spec_location(j));
    }
    assert(current.spec_within(source));
    assert forall|j: int|
        0 <= j && next.spec_stream_position() + j < next.spec_data_size()
            implies #[trigger] next.spec_location(j) == start.spec_location(filled + n + j) by {
        assert(next.spec_location(j) == current.spec_location(n + j));
        assert(current.spec_location(n + j) == start.spec_location(filled + (n + j)));
    }
    assert forall|j: int|
        0 <= j && next.spec_stream_position() + j < next.spec_data_size() implies (
        #[trigger] next.spec_location(j) matches Some(Some(x)) ==> x < source.len()) by {
        assert(next.spec_location(j) == start.spec_location(filled + n + j));
        assert(start.spec_location(filled + n + j) == start.spec_location(filled + n + j));
    }
    assert forall|i: int| 0 <= i < n implies (#[trigger] start.spec_location(filled + i) matches Some(
        location,
    ) && read[i] == non_resident::spec_located_byte(location, source)) by {
        assert(current.spec_location(i) == start.spec_location(filled + i));
    }
}

impl<'n, 'f> NtfsReadSeek for NtfsAttributeValue<'n, 'f> {
    open spec fn spec_stream_position(&self) -> u64 {
        match self {
            NtfsAttributeValue::Resident(inner) => inner.spec_stream_position(),
            NtfsAttributeValue::NonResident(inner) => inner.spec_stream_position(),
            NtfsAttributeValue::AttributeListNonResident(inner) => inner.spec_stream_position(),
        }
    }

    /// Reads from the current position of the inner value on.
    fn read<T>(&mut self, fs: &mut T, buf: &mut [u8]) -> (r: Result<usize>) where T: Read + Seek
        ensures
            final(fs).source() == old(fs).source(),
            (*final(self) is Resident) <==> (*old(self) is Resident),
            final(self).spec_len() == old(self).spec_len(),
            r matches Ok(n) ==> {
                &&& final(self).spec_stream_position() == old(self).spec_stream_position() + n
                &&& n > 0 ==> old(self).spec_stream_position() + n <= old(self).spec_len()
                &&& forall|i: int| n <= i < old(buf)@.len() ==> final(buf)@[i] == old(buf)@[i]
                &&& *old(self) matches NtfsAttributeValue::Resident(inner) ==> forall|i: int|
                    0 <= i < n ==> final(buf)@[i] == inner.spec_data()[inner.spec_stream_position()
                        + i]
            },
            *old(self) matches NtfsAttributeValue::Resident(before) ==> (
            *final(self) matches NtfsAttributeValue::Resident(after) && after.spec_data()
                == before.spec_data()),
            *old(self) matches NtfsAttributeValue::NonResident(before) ==> (
            *final(self) matches NtfsAttributeValue::NonResident(after) && (r matches Ok(n)
                ==> non_resident::spec_read_located(
                before,
                after,
                old(fs).source(),
                final(buf)@,
                n as int,
            ))),
            *old(self) matches NtfsAttributeValue::NonResident(before) ==> (before.spec_reads_without_fs(
                old(buf)@.len(),
            ) ==> r is Ok),
            *old(self) matches NtfsAttributeValue::AttributeListNonResident(before) ==> (
            *final(self) is AttributeListNonResident && (r matches Ok(n) ==> (old(fs).source().len()
                <= 0x1_0000_0000_0000_0000 && before.spec_within(old(fs).source()) ==> forall|i: int|
                0 <= i < n ==> (#[trigger] before.spec_location(i) matches Some(location)
                    ==> final(buf)@[i] == non_resident::spec_located_byte(location, old(fs).source()))))
                && (before.spec_reads_without_fs(old(buf)@.len()) ==> r is Ok)),
    {
        match self {
            NtfsAttributeValue::Resident(inner) => inner.read(fs, buf),
            NtfsAttributeValue::NonResident(inner) => inner.read(fs, buf),
            NtfsAttributeValue::AttributeListNonResident(inner) => inner.read(fs, buf),
        }
    }

    /// Moves the current position within the inner value.
    /// Reads exactly `buf.len()` bytes at the current position into `buf`: the next bytes of the
    /// value (see [`spec_read_bytes`]).
    ///
    /// Returns an [`ErrorKind::UnexpectedEof`] error if the value ends before `buf` is filled.
    /// Any error of [`NtfsReadSeek::read`] is passed on to the caller.
    fn read_exact<T>(&mut self, fs: &mut T, buf: &mut [u8]) -> (r: Result<()>) where T: Read + Seek
        ensures
            (*final(self) is Resident) <==> (*old(self) is Resident),
            final(self).spec_len() == old(self).spec_len(),
            r is Ok ==> {
                &&& final(self).spec_stream_position() == old(self).spec_stream_position()
                    + old(buf)@.len()
                &&& old(buf)@.len() > 0 ==> old(self).spec_stream_position() + old(buf)@.len()
                    <= old(self).spec_len()
                &&& spec_read_bytes(*old(self), old(fs).source(), final(buf)@, old(buf)@.len() as int)
            },
    {
        let ghost src = fs.source();
        let ghost start = *self;
        let len = buf.len();
        let mut filled: usize = 0;
        while filled < len
            invariant
                filled <= len,
                len == buf@.len(),
                len == old(buf)@.len(),
                fs.source() == src,
                src == old(fs).source(),
                start == *old(self),
                (*self is Resident) <==> (start is Resident),
                self.spec_len() == start.spec_len(),
                self.spec_stream_position() == start.spec_stream_position() + filled,
                filled > 0 ==> start.spec_stream_position() + filled <= start.spec_len(),
                spec_read_bytes(start, src, buf@, filled as int),
                start matches NtfsAttributeValue::Resident(a) ==> (
                *self matches NtfsAttributeValue::Resident(b) && b.spec_data() == a.spec_data()),
                start matches NtfsAttributeValue::NonResident(a) ==> (
                *self matches NtfsAttributeValue::NonResident(b) && (src.len()
                    <= 0x1_0000_0000_0000_0000 && a.spec_within(src) ==> forall|j: int|
                    0 <= j && b.spec_stream_position() + j < b.spec_data_size()
                        ==> #[trigger] b.spec_location(j) == a.spec_location(filled + j))),
            decreases len - filled,
        {
            let ghost before = *self;
            let ghost before_buf = buf@;
            let (head, tail) = buf.split_at_mut(filled);
            let ghost head_view = head@;
            let res = self.read(fs, tail);
            assert(buf@ == head_view + tail@);
            match res {
                Ok(n) => {
                    proof {
                        assert forall|i: int| 0 <= i < filled implies buf@[i] == before_buf[i] by {
                            assert(buf@[i] == head_view[i]);
                        }
                        match start {
                            NtfsAttributeValue::NonResident(a) => {
                                if src.len() <= 0x1_0000_0000_0000_0000 && a.spec_within(src) {
                                    let b = before->NonResident_0;
                                    let b2 = self->NonResident_0;
                                    lemma_non_resident_read_step(
                                        a,
                                        b,
                                        b2,
                                        src,
                                        filled as int,
                                        n as int,
                                        tail@,
                                    );
                                    assert forall|i: int| 0 <= i < filled + n implies (
                                    #[trigger] a.spec_location(i) matches Some(location) && buf@[i]
                                        == non_resident::spec_located_byte(location, src)) by {
                                        if i >= filled {
                                            assert(buf@[i] == tail@[i - filled]);
                                            assert(a.spec_location(filled + (i - filled))
                                                == a.spec_location(i));
                                        }
                                    }
                                }
                            },
                            NtfsAttributeValue::Resident(a) => {
                                assert forall|i: int| 0 <= i < filled + n implies buf@[i]
                                    == a.spec_data()[a.spec_stream_position() + i] by {
                                    if i >= filled {
                                        assert(buf@[i] == tail@[i - filled]);
                                    }
                                }
                            },
                            _ => {},
                        }
                    }
                    if n == 0 {
                        break ;
                    }
                    filled = filled + n;
                },
                Err(e) => {
                    return Err(e);
                },
            }
        }
        if filled < len {
            Err(NtfsError::Io(Error::new(ErrorKind::UnexpectedEof, "failed to fill whole buffer")))
        } else {
            Ok(())
        }
    }

    fn seek<T>(&mut self, fs: &mut T, pos: SeekFrom) -> (r: Result<u64>) where T: Read + Seek
        ensures
            final(fs).source() == old(fs).source(),
            (*final(self) is Resident) <==> (*old(self) is Resident),
            final(self).spec_len() == old(self).spec_len(),
            ({
                let t = seek_target(
                    pos,
                    old(self).spec_stream_position() as int,
                    old(self).spec_len() as int,
                );
                &&& (t < 0 || t > u64::MAX) ==> r == Err::<u64, NtfsError>(spec_invalid_seek_error())
                    && final(self).spec_stream_position() == old(self).spec_stream_position()
                &&& r matches Ok(p) ==> p == t && final(self).spec_stream_position() == p
            }),
            *old(self) matches NtfsAttributeValue::Resident(before) ==> (
            *final(self) matches NtfsAttributeValue::Resident(after) && after.spec_data()
                == before.spec_data()),
            *old(self) matches NtfsAttributeValue::NonResident(before) ==> (
            *final(self) matches NtfsAttributeValue::NonResident(after) && (r is Ok
                ==> forall|j: int|
                0 <= j ==> #[trigger] after.spec_location(j) == non_resident::spec_seek_location(
                    before,
                    non_resident::spec_optimize_seek(
                        pos,
                        before.spec_stream_position(),
                        before.spec_data_size(),
                    ),
                    j,
                ))),
    {
        match self {
            NtfsAttributeValue::Resident(inner) => inner.seek(fs, pos),
            NtfsAttributeValue::NonResident(inner) => inner.seek(fs, pos),
            NtfsAttributeValue::AttributeListNonResident(inner) => inner.seek(fs, pos),
        }
    }

    fn stream_position(&self) -> (r: u64) {
        match self {
            NtfsAttributeValue::Resident(inner) => inner.stream_position(),
            NtfsAttributeValue::NonResident(inner) => inner.stream_position(),
            NtfsAttributeValue::AttributeListNonResident(inner) => inner.stream_position(),
        }
    }
}

impl<'n, 'f> Clone for NtfsAttributeValue<'n, 'f> {
    fn clone(&self) -> (r: Self)
        ensures
            (r is Resident) <==> (*self is Resident),
            r.spec_len() == self.spec_len(),
            !(*self is AttributeListNonResident) ==> r == *self,
    {
        match self {
            NtfsAttributeValue::Resident(inner) => NtfsAttributeValue::Resident(inner.clone()),
            NtfsAttributeValue::NonResident(inner) => NtfsAttributeValue::NonResident(inner.clone()),
            NtfsAttributeValue::AttributeListNonResident(inner) => NtfsAttributeValue::AttributeListNonResident(
                inner.clone(),
            ),
        }
    }
}

} // verus!
