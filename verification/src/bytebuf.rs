//! The shared byte buffer that carries an encoded field section (a QPACK
//! block) through a request stream: `bytes::Bytes`, taken on trust behind
//! the wrappers below. The block itself stays opaque; its contents are named
//! by `bytes_view` so contracts can speak of them.
use vstd::prelude::*;

verus! {

/// bytes::Bytes, used as an opaque reference-counted byte container.
#[verifier::external_type_specification]
#[verifier::external_body]
pub struct ExBytes(bytes::Bytes);

/// The bytes a `bytes::Bytes` value holds, in order.
pub uninterp spec fn bytes_view(b: bytes::Bytes) -> Seq<u8>;

/// Relies on the From<Vec<u8>> impl of bytes::Bytes: the new value holds
/// exactly the vector's bytes.
#[verifier::external_body]
pub fn bytes_from_vec(v: Vec<u8>) -> (r: bytes::Bytes)
    ensures
        bytes_view(r) == v@,
{
    bytes::Bytes::from(v)
}

/// Relies on the Deref<Target = [u8]> impl of bytes::Bytes and
/// slice::to_vec: a copy of the bytes held.
#[verifier::external_body]
pub fn bytes_to_vec(b: &bytes::Bytes) -> (r: Vec<u8>)
    ensures
        r@ == bytes_view(*b),
{
    b.to_vec()
}

} // verus!
