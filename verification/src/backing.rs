//! The backing byte region of a frame: `bytes::BytesMut`, held behind
//! trusted wrappers whose contracts speak of the bytes the region holds.

use vstd::prelude::*;

verus! {

/// `bytes::BytesMut` stands in fields and signatures of this crate; Verus
/// treats a value of it as opaque, so the type is declared here.
#[verifier::external_type_specification]
#[verifier::external_body]
pub struct ExBytesMut(bytes::BytesMut);

/// The bytes a `bytes::BytesMut` currently holds, in order.
pub uninterp spec fn contents(b: bytes::BytesMut) -> Seq<u8>;

/// Relies on `bytes::BytesMut::with_capacity`: the new buffer holds no bytes
/// (and can hold at least `capacity` bytes without reallocating).
#[verifier::external_body]
pub(crate) fn bm_with_capacity(capacity: usize) -> (b: bytes::BytesMut)
    ensures
        contents(b) == Seq::<u8>::empty(),
{
    bytes::BytesMut::with_capacity(capacity)
}

/// Relies on `bytes::BytesMut::len`: the number of bytes held.
#[verifier::external_body]
pub(crate) fn bm_len(b: &bytes::BytesMut) -> (n: usize)
    ensures
        n == contents(*b).len(),
{
    b.len()
}

/// Relies on `bytes::BytesMut::reserve`: makes room for at least `additional`
/// more bytes, reclaiming space freed by earlier splits where it can, and
/// leaves the held bytes unchanged. It panics when the new capacity would
/// overflow `usize`, so that case is excluded here.
#[verifier::external_body]
pub(crate) fn bm_reserve(b: &mut bytes::BytesMut, additional: usize)
    requires
        contents(*old(b)).len() + additional <= usize::MAX,
    ensures
        contents(*final(b)) == contents(*old(b)),
{
    b.reserve(additional)
}

/// Relies on `bytes::BytesMut::extend_from_slice`: appends every byte of `s`.
/// It reserves room itself and panics when the new capacity would overflow
/// `usize`, so that case is excluded here.
#[verifier::external_body]
pub(crate) fn bm_extend_from_slice(b: &mut bytes::BytesMut, s: &[u8])
    requires
        contents(*old(b)).len() + s@.len() <= usize::MAX,
    ensures
        contents(*final(b)) == contents(*old(b)) + s@,
{
    b.extend_from_slice(s)
}

/// Relies on `bytes::BytesMut::split_to`: detaches and returns the first `at`
/// bytes as a buffer of their own; the remaining bytes stay where they are in
/// the backing storage. It panics when `at` exceeds the length, so that case
/// is excluded here.
#[verifier::external_body]
pub(crate) fn bm_split_to(b: &mut bytes::BytesMut, at: usize) -> (front: bytes::BytesMut)
    requires
        at <= contents(*old(b)).len(),
    ensures
        contents(front) == contents(*old(b)).subrange(0, at as int),
        contents(*final(b)) == contents(*old(b)).subrange(
            at as int,
            contents(*old(b)).len() as int,
        ),
{
    b.split_to(at)
}

/// Relies on `bytes::BytesMut`'s `AsRef<[u8]>` impl: a read-only view of the
/// held bytes.
#[verifier::external_body]
pub(crate) fn bm_as_slice(b: &bytes::BytesMut) -> (s: &[u8])
    ensures
        s@ == contents(*b),
{
    b.as_ref()
}

} // verus!
