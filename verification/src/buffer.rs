//! Fixed-capacity buffers of the `heapless` crate, as the command server uses them.
//!
//! Everything here is trusted: the contracts restate what the crate's source does.

use vstd::prelude::*;
use vstd::utf8::encode_utf8;

verus! {

/// The number of bytes that a command buffer can hold.
pub const COMMAND_CAPACITY: usize = 256;

/// The number of bytes that a reply can hold.
pub const REPLY_CAPACITY: usize = 128;

/// `heapless::Vec`, a vector stored in place. Its contents are known only through
/// [`command_bytes`].
#[verifier::external_type_specification]
#[verifier::external_body]
#[verifier::reject_recursive_types(T)]
pub struct ExHeaplessVec<T, const N: usize>(heapless::Vec<T, N>);

/// `heapless::String`, a UTF-8 string stored in place. Its contents are known only through
/// [`reply_text`].
#[verifier::external_type_specification]
#[verifier::external_body]
pub struct ExHeaplessString<const N: usize>(heapless::String<N>);

/// The bytes in a command buffer, first to last.
pub uninterp spec fn command_bytes(v: heapless::Vec<u8, 256>) -> Seq<u8>;

/// The characters in a reply, first to last.
pub uninterp spec fn reply_text(s: heapless::String<128>) -> Seq<char>;

/// `heapless::Vec::new`: the new vector is empty.
#[verifier::external_body]
pub(crate) fn vec_new() -> (v: heapless::Vec<u8, 256>)
    ensures
        command_bytes(v) == Seq::<u8>::empty(),
{
    heapless::Vec::new()
}

/// `len` of the slice that `heapless::Vec::as_slice` gives: the number of bytes held.
#[verifier::external_body]
pub(crate) fn vec_len(v: &heapless::Vec<u8, 256>) -> (n: usize)
    ensures
        n == command_bytes(*v).len(),
{
    v.len()
}

/// `heapless::Vec::capacity`: the capacity in the type, whatever the vector holds.
#[verifier::external_body]
pub(crate) fn vec_capacity(v: &heapless::Vec<u8, 256>) -> (n: usize)
    ensures
        n == COMMAND_CAPACITY,
{
    v.capacity()
}

/// `heapless::Vec::clear`: nothing is left in the vector.
#[verifier::external_body]
pub(crate) fn vec_clear(v: &mut heapless::Vec<u8, 256>)
    ensures
        command_bytes(*final(v)) == Seq::<u8>::empty(),
{
    v.clear()
}

/// `heapless::Vec::extend_from_slice`: appends the slice if all of it fits; otherwise reports an
/// error and leaves the contents alone.
#[verifier::external_body]
pub(crate) fn vec_extend_from_slice(v: &mut heapless::Vec<u8, 256>, other: &[u8]) -> (r: Result<
    (),
    (),
>)
    ensures
        r is Ok <==> command_bytes(*old(v)).len() + other@.len() <= COMMAND_CAPACITY,
        r is Ok ==> command_bytes(*final(v)) == command_bytes(*old(v)) + other@,
        r is Err ==> command_bytes(*final(v)) == command_bytes(*old(v)),
{
    v.extend_from_slice(other)
}

/// `heapless::Vec::pop`: takes the last byte off, if there is one.
#[verifier::external_body]
pub(crate) fn vec_pop(v: &mut heapless::Vec<u8, 256>) -> (r: Option<u8>)
    ensures
        command_bytes(*old(v)).len() == 0 ==> r is None && command_bytes(*final(v))
            == command_bytes(*old(v)),
        command_bytes(*old(v)).len() > 0 ==> r == Some(command_bytes(*old(v)).last())
            && command_bytes(*final(v)) == command_bytes(*old(v)).drop_last(),
{
    v.pop()
}

/// `heapless::String::push`: appends the character if its UTF-8 encoding fits; otherwise reports
/// an error and leaves the text alone.
#[verifier::external_body]
pub(crate) fn string_push(s: &mut heapless::String<128>, c: char) -> (r: Result<(), ()>)
    ensures
        r is Ok <==> encode_utf8(reply_text(*old(s)).push(c)).len() <= REPLY_CAPACITY,
        r is Ok ==> reply_text(*final(s)) == reply_text(*old(s)).push(c),
        r is Err ==> reply_text(*final(s)) == reply_text(*old(s)),
{
    s.push(c)
}

} // verus!
