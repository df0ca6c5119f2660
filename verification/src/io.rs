//! Minimal reader and seeker abstractions that work in `no_std` environments.
//!
//! A filesystem is accessed through a type implementing [`Read`] and [`Seek`].
//! Both traits describe the device they give access to by a byte sequence
//! ([`Read::source`]) and a current position within it ([`Read::cursor`]).
use vstd::prelude::*;

verus! {

/// A specialized `Result` type for I/O operations.
pub type Result<T> = core::result::Result<T, Error>;

/// Enumeration of possible methods to seek within an I/O object.
///
/// It is used by the [`Seek`] trait.
#[derive(Clone, Copy, Debug, Eq, PartialEq, Structural)]
pub enum SeekFrom {
    /// Sets the offset to the provided number of bytes.
    Start(u64),
    /// Sets the offset to the size of this object plus the specified number of bytes.
    ///
    /// It is possible to seek beyond the end of an object, but it's an error to
    /// seek before byte 0.
    End(i64),
    /// Sets the offset to the current position plus the specified number of bytes.
    ///
    /// It is possible to seek beyond the end of an object, but it's an error to
    /// seek before byte 0.
    Current(i64),
}

/// Kinds of I/O errors.
#[derive(Clone, Copy, Debug, Eq, Hash, PartialEq, Structural)]
#[non_exhaustive]
pub enum ErrorKind {
    /// A parameter was incorrect.
    InvalidInput,
    /// This operation was interrupted.
    Interrupted,
    /// An operation could not be completed because an "end of file" was reached prematurely.
    UnexpectedEof,
    /// A custom error that does not fall under any other I/O error kind.
    Other,
}

/// An I/O error, identified by its [`ErrorKind`].
#[derive(Debug)]
pub struct Error(ErrorKind);

impl Error {
    /// The kind of this error.
    pub closed spec fn spec_kind(&self) -> ErrorKind {
        self.0
    }

    /// The error of the given kind.
    pub closed spec fn spec_from_kind(kind: ErrorKind) -> Error {
        Error(kind)
    }

    /// The kind of [`Error::spec_from_kind`].
    pub broadcast proof fn lemma_from_kind(kind: ErrorKind)
        ensures
            #[trigger] Error::spec_from_kind(kind).spec_kind() == kind,
    {
    }

    /// Creates a new I/O error from a known kind of error.
    ///
    /// The second parameter only describes the error and is not stored.
    pub fn new<E>(kind: ErrorKind, _error: E) -> (r: Error)
        ensures
            r == Error::spec_from_kind(kind),
            r.spec_kind() == kind,
    {
        Error(kind)
    }

    /// Returns the corresponding [`ErrorKind`] for this error.
    pub fn kind(&self) -> (r: ErrorKind)
        ensures
            r == self.spec_kind(),
    {
        self.0
    }
}

/// The position a seek request leads to, starting from `cursor` in a source of `len` bytes
/// (negative when the request points before the first byte).
pub open spec fn seek_target(pos: SeekFrom, cursor: int, len: int) -> int {
    match pos {
        SeekFrom::Start(n) => n as int,
        SeekFrom::End(n) => len + n,
        SeekFrom::Current(n) => cursor + n,
    }
}

/// A source of bytes that is read from a current position onwards.
pub trait Read {
    /// All bytes of the underlying source.
    spec fn source(&self) -> Seq<u8>;

    /// The current read position within [`Read::source`].
    spec fn cursor(&self) -> nat;

    /// Reads up to `buf.len()` bytes at the current position into the beginning of `buf`
    /// and advances the position by the number of bytes read.
    ///
    /// A successful read never returns more bytes than are left in the source, and reads no
    /// bytes only for an empty buffer or at the end of the source. A failed read reads no bytes:
    /// it leaves the position where it was.
    fn read(&mut self, buf: &mut [u8]) -> (r: Result<usize>)
        ensures
            final(self).source() == old(self).source(),
            final(buf)@.len() == old(buf)@.len(),
            r matches Ok(n) ==> {
                &&& n <= old(buf)@.len()
                &&& old(buf)@.len() > 0 && old(self).cursor() < old(self).source().len() ==> n > 0
                &&& n > 0 ==> old(self).cursor() + n <= old(self).source().len()
                &&& final(self).cursor() == old(self).cursor() + n
                &&& forall|i: int|
                    0 <= i < n ==> final(buf)@[i] == old(self).source()[old(self).cursor() + i]
                &&& forall|i: int| n <= i < old(buf)@.len() ==> final(buf)@[i] == old(buf)@[i]
            },
            r is Err ==> final(self).cursor() == old(self).cursor(),
    ;

    /// Reads exactly `buf.len()` bytes at the current position into `buf`.
    ///
    /// Returns an [`ErrorKind::UnexpectedEof`] error if a read returns no bytes before `buf` is
    /// filled. A read that fails with [`ErrorKind::Interrupted`] is retried (up to `u64::MAX`
    /// times in one call); any other error of [`Read::read`] is passed on to the caller.
    fn read_exact(&mut self, buf: &mut [u8]) -> (r: Result<()>)
        ensures
            final(self).source() == old(self).source(),
            final(buf)@.len() == old(buf)@.len(),
            r is Ok ==> {
                &&& old(buf)@.len() > 0 ==> old(self).cursor() + old(buf)@.len() <= old(self).source().len()
                &&& final(self).cursor() == old(self).cursor() + old(buf)@.len()
                &&& forall|i: int|
                    0 <= i < old(buf)@.len() ==> final(buf)@[i] == old(self).source()[old(self).cursor() + i]
            },
            old(buf)@.len() == 0 ==> r is Ok,
    {
        let ghost src = self.source();
        let ghost start = self.cursor();
        let len = buf.len();
        let mut filled: usize = 0;
        let mut retries_left: u64 = u64::MAX;
        while filled < len
            invariant
                filled <= len,
                len == buf@.len(),
                len == old(buf)@.len(),
                src == old(self).source(),
                start == old(self).cursor(),
                self.source() == src,
                self.cursor() == start + filled,
                filled > 0 ==> start + filled <= src.len(),
                forall|i: int| 0 <= i < filled ==> buf@[i] == src[start + i],
            decreases len - filled, retries_left,
        {
            let ghost before = buf@;
            let (head, tail) = buf.split_at_mut(filled);
            let ghost head_view = head@;
            let res = self.read(tail);
            assert(buf@ == head_view + tail@);
            match res {
                Ok(n) => {
                    if n == 0 {
                        return Err(Error::new(ErrorKind::UnexpectedEof, ()));
                    }
                    assert forall|i: int| 0 <= i < filled + n implies buf@[i] == src[start + i] by {
                        if i >= filled {
                            assert(buf@[i] == tail@[i - filled]);
                        } else {
                            assert(buf@[i] == head_view[i]);
                            assert(head_view[i] == before[i]);
                        }
                    }
                    filled = filled + n;
                },
                Err(e) => {
                    if e.kind() == ErrorKind::Interrupted && retries_left > 0 {
                        retries_left = retries_left - 1;
                    } else {
                        return Err(e);
                    }
                },
            }
        }
        Ok(())
    }
}

/// A source of bytes whose current position can be moved.
pub trait Seek: Read {
    /// Moves the current position as requested by `pos` and returns the new position.
    ///
    /// It is possible to seek beyond the end of the source, but it's an error to seek before byte 0.
    fn seek(&mut self, pos: SeekFrom) -> (r: Result<u64>)
        ensures
            final(self).source() == old(self).source(),
            r matches Ok(p) ==> {
                &&& p as int == seek_target(
                    pos,
                    old(self).cursor() as int,
                    old(self).source().len() as int,
                )
                &&& final(self).cursor() == p
            },
    ;

    /// Moves the current position back to the beginning of the source.
    fn rewind(&mut self) -> (r: Result<()>)
        ensures
            final(self).source() == old(self).source(),
            r is Ok ==> final(self).cursor() == 0,
    {
        self.seek(SeekFrom::Start(0))?;
        Ok(())
    }

    /// Returns the current position.
    fn stream_position(&mut self) -> (r: Result<u64>)
        ensures
            final(self).source() == old(self).source(),
            r matches Ok(p) ==> p == old(self).cursor() && final(self).cursor() == p,
    {
        self.seek(SeekFrom::Current(0))
    }
}

} // verus!
