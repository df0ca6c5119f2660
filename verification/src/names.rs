//! Fixed-capacity storage for names read from the filesystem.
//!
//! A name of an NTFS structure has at most 255 UTF-16 code units, so its bytes fit into an
//! inline buffer of [`NAME_MAX_SIZE`] bytes.
use vstd::prelude::*;

use arrayvec::ArrayVec;

verus! {

/// The largest size of a name, in bytes (255 UTF-16 code units).
pub const NAME_MAX_SIZE: usize = 510;

#[verifier::external_type_specification]
#[verifier::external_body]
#[verifier::reject_recursive_types(T)]
pub struct ExArrayVec<T, const CAP: usize>(ArrayVec<T, CAP>);

/// The bytes held by a name buffer.
pub uninterp spec fn name_buffer_bytes(buffer: ArrayVec<u8, NAME_MAX_SIZE>) -> Seq<u8>;

/// Creates a name buffer holding the bytes of `bytes`.
///
/// Calls `ArrayVec::try_from(&[u8])`, which copies a slice that fits into the capacity;
/// the contract claims that the buffer then holds exactly those bytes.
#[verifier::external_body]
pub(crate) fn name_buffer_from_slice(bytes: &[u8]) -> (r: ArrayVec<u8, NAME_MAX_SIZE>)
    requires
        bytes@.len() <= NAME_MAX_SIZE,
    ensures
        name_buffer_bytes(r) == bytes@,
{
    match ArrayVec::try_from(bytes) {
        Ok(buffer) => buffer,
        Err(_) => ArrayVec::new(),
    }
}

/// Returns the bytes held by a name buffer.
///
/// Calls `ArrayVec::as_slice`, which returns the initialized part of the buffer;
/// the contract claims that these are the bytes the buffer holds.
#[verifier::external_body]
pub(crate) fn name_buffer_as_slice(buffer: &ArrayVec<u8, NAME_MAX_SIZE>) -> (r: &[u8])
    ensures
        r@ == name_buffer_bytes(*buffer),
{
    buffer.as_slice()
}

} // verus!
