//! Octet buffers of the `bytes` crate and what the library relies on of them.

use bytes::{Buf, Bytes, BytesMut};
use vstd::prelude::*;

verus! {

/// `bytes::Bytes`, an immutable shared run of octets.
#[verifier::external_type_specification]
#[verifier::external_body]
pub struct ExBytes(Bytes);

/// `bytes::BytesMut`, a growable run of octets.
#[verifier::external_type_specification]
#[verifier::external_body]
pub struct ExBytesMut(BytesMut);

/// The octets that a `Bytes` holds, first to last.
pub uninterp spec fn octets(value: Bytes) -> Seq<u8>;

/// The octets that a `BytesMut` holds, first to last.
pub uninterp spec fn buffered(value: BytesMut) -> Seq<u8>;

/// `Deref for Bytes`: the contents as a slice.
#[verifier::external_body]
pub(crate) fn as_slice(value: &Bytes) -> (slice: &[u8])
    ensures
        slice@ == octets(*value),
{
    &value[..]
}

/// `Clone for Bytes`: another handle on the same contents.
pub assume_specification [<Bytes as std::clone::Clone>::clone] (
    value: &Bytes,
) -> (copy: Bytes)
    ensures
        octets(copy) == octets(*value),
;

/// `Bytes::split_to`: removes and returns the first `at` octets. The call panics
/// past the end, which the precondition rules out.
#[verifier::external_body]
pub(crate) fn split_to(value: &mut Bytes, at: usize) -> (head: Bytes)
    requires
        at <= octets(*old(value)).len(),
    ensures
        octets(head) == octets(*old(value)).take(at as int),
        octets(*final(value)) == octets(*old(value)).skip(at as int),
{
    value.split_to(at)
}

/// `Buf::advance for Bytes`: removes the first `count` octets. The call panics
/// past the end, which the precondition rules out.
#[verifier::external_body]
pub(crate) fn advance(value: &mut Bytes, count: usize)
    requires
        count <= octets(*old(value)).len(),
    ensures
        octets(*final(value)) == octets(*old(value)).skip(count as int),
{
    value.advance(count)
}

/// `From<Vec<u8>> for Bytes`: takes over the vector's contents unchanged.
#[verifier::external_body]
pub(crate) fn from_vec(value: Vec<u8>) -> (bytes: Bytes)
    ensures
        octets(bytes) == value@,
{
    Bytes::from(value)
}

/// `Bytes::copy_from_slice`: holds the slice's contents.
#[verifier::external_body]
pub(crate) fn copy_from_slice(slice: &[u8]) -> (bytes: Bytes)
    ensures
        octets(bytes) == slice@,
{
    Bytes::copy_from_slice(slice)
}

/// `Deref for BytesMut`: the contents as a slice.
#[verifier::external_body]
pub(crate) fn buffer_slice(value: &BytesMut) -> (slice: &[u8])
    ensures
        slice@ == buffered(*value),
{
    &value[..]
}

/// `BytesMut::split_to`: removes and returns the first `at` octets. The call
/// panics past the end, which the precondition rules out.
#[verifier::external_body]
pub(crate) fn buffer_split_to(value: &mut BytesMut, at: usize) -> (head: BytesMut)
    requires
        at <= buffered(*old(value)).len(),
    ensures
        buffered(head) == buffered(*old(value)).take(at as int),
        buffered(*final(value)) == buffered(*old(value)).skip(at as int),
{
    value.split_to(at)
}

/// `BytesMut::freeze`: the same contents, no longer growable.
#[verifier::external_body]
pub(crate) fn freeze(value: BytesMut) -> (bytes: Bytes)
    ensures
        octets(bytes) == buffered(value),
{
    value.freeze()
}

/// `BytesMut::extend_from_slice`: appends the slice. The call panics when the
/// total exceeds the largest allocation, which the precondition rules out.
#[verifier::external_body]
pub(crate) fn extend(value: &mut BytesMut, slice: &[u8])
    requires
        buffered(*old(value)).len() + slice@.len() <= isize::MAX,
    ensures
        buffered(*final(value)) == buffered(*old(value)) + slice@,
{
    value.extend_from_slice(slice)
}

} // verus!
