//! Reading and seeking in values that live on the filesystem.
use vstd::prelude::*;

use crate::error::{NtfsError, Result};
use crate::io::{Error, ErrorKind, Read, Seek, SeekFrom};

verus! {

/// Trait to read/seek in a source by the help of a temporarily passed mutable reference to the filesystem reader.
///
/// By requiring the user to pass the filesystem reader on every read, we circumvent the problems associated with permanently
/// holding a mutable reference.
/// If we held one, we could not read from two objects in alternation.
pub trait NtfsReadSeek {
    /// The current position within the value, in bytes.
    spec fn spec_stream_position(&self) -> u64;

    /// Reads up to `buf.len()` bytes at the current position into the beginning of `buf`
    /// (see [`Read::read`]).
    fn read<T>(&mut self, fs: &mut T, buf: &mut [u8]) -> (r: Result<usize>) where T: Read + Seek
        ensures
            final(fs).source() == old(fs).source(),
            final(buf)@.len() == old(buf)@.len(),
            r matches Ok(n) ==> {
                &&& n <= old(buf)@.len()
                &&& final(self).spec_stream_position() == old(self).spec_stream_position() + n
                &&& forall|i: int| n <= i < old(buf)@.len() ==> final(buf)@[i] == old(buf)@[i]
            },
    ;

    /// Reads exactly `buf.len()` bytes at the current position into `buf`
    /// (see [`Read::read_exact`]).
    ///
    /// Returns an [`ErrorKind::UnexpectedEof`] error if a read returns no bytes before `buf` is
    /// filled. A read that fails with [`ErrorKind::Interrupted`] without having moved the position
    /// is retried (up to `u64::MAX` times in one call); any other error of [`NtfsReadSeek::read`]
    /// is passed on to the caller.
    fn read_exact<T>(&mut self, fs: &mut T, buf: &mut [u8]) -> (r: Result<()>) where T: Read + Seek
        ensures
            final(fs).source() == old(fs).source(),
            final(buf)@.len() == old(buf)@.len(),
            r is Ok ==> final(self).spec_stream_position() == old(self).spec_stream_position()
                + old(buf)@.len(),
            old(buf)@.len() == 0 ==> r is Ok,
    {
        let len = buf.len();
        let mut filled: usize = 0;
        let mut retries_left: u64 = u64::MAX;
        while filled < len
            invariant
                filled <= len,
                len == buf@.len(),
                len == old(buf)@.len(),
                fs.source() == old(fs).source(),
                self.spec_stream_position() == old(self).spec_stream_position() + filled,
            decreases len - filled, retries_left,
        {
            let position = self.stream_position();
            let (_head, tail) = buf.split_at_mut(filled);
            let res = self.read(fs, tail);
            match res {
                Ok(n) => {
                    if n == 0 {
                        break ;
                    }
                    filled = filled + n;
                },
                Err(e) => {
                    let interrupted = match &e {
                        NtfsError::Io(io) => io.kind() == ErrorKind::Interrupted,
                        _ => false,
                    };
                    if interrupted && retries_left > 0 && self.stream_position() == position {
                        retries_left = retries_left - 1;
                    } else {
                        return Err(e);
                    }
                },
            }
        }
        if filled < len {
            Err(NtfsError::Io(Error::new(ErrorKind::UnexpectedEof, "failed to fill whole buffer")))
        } else {
            Ok(())
        }
    }

    /// Moves the current position as requested by `pos` and returns the new position
    /// (see [`Seek::seek`]).
    fn seek<T>(&mut self, fs: &mut T, pos: SeekFrom) -> (r: Result<u64>) where T: Read + Seek
        ensures
            final(fs).source() == old(fs).source(),
            r matches Ok(p) ==> final(self).spec_stream_position() == p,
    ;

    /// Returns the current position within the value (see [`Seek::stream_position`]).
    fn stream_position(&self) -> (r: u64)
        ensures
            r == self.spec_stream_position(),
    ;
}

} // verus!
