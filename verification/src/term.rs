//! Buffers of the terminal library, which hold what is to be printed.

use vstd::prelude::*;
use vstd::utf8::*;

verus! {

/// `termcolor::Buffer`, a buffer in memory. Nothing is known of it but what
/// the functions below say.
#[verifier::external_type_specification]
#[verifier::external_body]
pub struct ExBuffer(termcolor::Buffer);

/// The bytes that a buffer holds.
pub uninterp spec fn buffer_bytes(buffer: termcolor::Buffer) -> Seq<u8>;

/// `Buffer::no_color`: a buffer that holds nothing yet.
#[verifier::external_body]
pub(crate) fn buffer_no_color() -> (buffer: termcolor::Buffer)
    ensures
        buffer_bytes(buffer) == Seq::<u8>::empty(),
{
    termcolor::Buffer::no_color()
}

/// `Write::write_all` on a buffer: the bytes are added at the end of what
/// the buffer holds. Writing to a buffer is writing to memory and does not
/// fail.
#[verifier::external_body]
pub(crate) fn buffer_write_all(buffer: &mut termcolor::Buffer, bytes: &[u8])
    ensures
        buffer_bytes(*final(buffer)) == buffer_bytes(*old(buffer)) + bytes@,
{
    let _ = std::io::Write::write_all(buffer, bytes);
}

/// `Buffer::into_inner`: the bytes that the buffer held.
#[verifier::external_body]
pub(crate) fn buffer_into_inner(buffer: termcolor::Buffer) -> (bytes: Vec<u8>)
    ensures
        bytes@ == buffer_bytes(buffer),
{
    buffer.into_inner()
}

/// `String::from_utf8`: the text that the bytes encode, where they are
/// UTF-8, and nothing where they are not.
#[verifier::external_body]
pub(crate) fn string_from_utf8(bytes: Vec<u8>) -> (text: Option<String>)
    ensures
        match text {
            Some(text) => valid_utf8(bytes@) && encode_utf8(text@) == bytes@,
            None => !valid_utf8(bytes@),
        },
{
    String::from_utf8(bytes).ok()
}

} // verus!
