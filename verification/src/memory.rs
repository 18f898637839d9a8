//! Buffers in memory, through which the decoders read and the WAV writer
//! writes: `std::io::Cursor` over a vector of bytes.

use vstd::prelude::*;

verus! {

/// `std::io::Cursor`, carried through untouched.
#[verifier::external_type_specification]
#[verifier::external_body]
#[verifier::reject_recursive_types(T)]
pub struct ExCursor<T>(std::io::Cursor<T>);

/// The bytes that a buffer in memory holds.
pub uninterp spec fn cursor_bytes(buffer: std::io::Cursor<Vec<u8>>) -> Seq<u8>;

/// `std::io::Cursor::new`: a buffer in memory over the given bytes, at their
/// start.
#[verifier::external_body]
pub(crate) fn cursor_over(bytes: Vec<u8>) -> (r: std::io::Cursor<Vec<u8>>)
    ensures
        cursor_bytes(r) == bytes@,
{
    std::io::Cursor::new(bytes)
}

/// `std::io::Cursor::into_inner`: the bytes that the buffer holds.
#[verifier::external_body]
pub(crate) fn cursor_into_bytes(buffer: std::io::Cursor<Vec<u8>>) -> (r: Vec<u8>)
    ensures
        r@ == cursor_bytes(buffer),
{
    buffer.into_inner()
}

} // verus!
