//! The bytes of an encoded batch, as they travel from the encoder to the
//! socket.

use bytes::Bytes;
use vstd::prelude::*;

verus! {

/// Trusted: the type `bytes::Bytes`, of which nothing is seen but what
/// [`held`] says.
#[verifier::external_type_specification]
#[verifier::external_body]
pub struct ExBytes(Bytes);

/// The bytes that a `Bytes` holds, in their order.
pub uninterp spec fn held(bytes: Bytes) -> Seq<u8>;

/// Trusted: `Bytes::from` a vector, which holds the bytes of the vector.
#[verifier::external_body]
pub(crate) fn frozen(data: Vec<u8>) -> (bytes: Bytes)
    ensures
        held(bytes) == data@,
{
    Bytes::from(data)
}

/// Trusted: `Bytes::from` a slice, which holds a copy of the slice.
#[verifier::external_body]
pub(crate) fn copy_of(data: &[u8]) -> (bytes: Bytes)
    ensures
        held(bytes) == data@,
{
    Bytes::from(data)
}

/// Trusted: `Bytes::len`, the number of bytes held.
#[verifier::external_body]
pub(crate) fn length(bytes: &Bytes) -> (n: usize)
    ensures
        n == held(*bytes).len(),
{
    bytes.len()
}

/// Trusted: `AsRef<[u8]>::as_ref` of `Bytes`, the bytes held as a slice.
#[verifier::external_body]
pub(crate) fn contents(bytes: &Bytes) -> (slice: &[u8])
    ensures
        slice@ == held(*bytes),
{
    bytes.as_ref()
}

/// Trusted: `Bytes::advance`, which drops the first `cnt` bytes and keeps
/// the rest. It stops the program when there are fewer than `cnt`.
#[verifier::external_body]
pub(crate) fn advance(bytes: &mut Bytes, cnt: usize)
    requires
        cnt <= held(*old(bytes)).len(),
    ensures
        held(*final(bytes)) == held(*old(bytes)).subrange(
            cnt as int,
            held(*old(bytes)).len() as int,
        ),
{
    bytes.advance(cnt)
}

} // verus!
