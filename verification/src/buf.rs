//! Trusted view of `bytes::Bytes`, the reference-counted immutable byte
//! buffer that frames are carried in. Cloning such a buffer shares the
//! underlying bytes, so fanning a frame out to many destinations costs one
//! reference-count bump per destination, never a byte copy.

use bytes::Bytes;
use vstd::prelude::*;

verus! {

/// The bytes that a shared buffer holds.
pub uninterp spec fn bytes_view(b: Bytes) -> Seq<u8>;

#[verifier::external_type_specification]
#[verifier::external_body]
pub struct ExBytes(Bytes);

/// Relies on `bytes::Bytes::copy_from_slice`: the new buffer holds a copy of
/// the given slice.
#[verifier::external_body]
pub(crate) fn bytes_copy_from_slice(data: &[u8]) -> (r: Bytes)
    ensures
        bytes_view(r) == data@,
{
    Bytes::copy_from_slice(data)
}

/// Relies on `bytes::Bytes::len`: the length of the held bytes.
#[verifier::external_body]
pub(crate) fn bytes_len(b: &Bytes) -> (r: usize)
    ensures
        r == bytes_view(*b).len(),
{
    b.len()
}

/// Relies on `<bytes::Bytes as AsRef<[u8]>>::as_ref`: a borrow of exactly the
/// held bytes.
#[verifier::external_body]
pub(crate) fn bytes_as_slice(b: &Bytes) -> (r: &[u8])
    ensures
        r@ == bytes_view(*b),
{
    b.as_ref()
}

/// Relies on `<bytes::Bytes as Index<usize>>` via `Deref` to `[u8]`: the byte
/// at the given position.
#[verifier::external_body]
pub(crate) fn bytes_get(b: &Bytes, i: usize) -> (r: u8)
    requires
        i < bytes_view(*b).len(),
    ensures
        r == bytes_view(*b)[i as int],
{
    b[i]
}

/// Relies on `<bytes::Bytes as Clone>::clone`: the clone holds the same bytes
/// (it shares the underlying allocation).
#[verifier::external_body]
pub(crate) fn bytes_clone(b: &Bytes) -> (r: Bytes)
    ensures
        bytes_view(r) == bytes_view(*b),
{
    b.clone()
}

} // verus!
