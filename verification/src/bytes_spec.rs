//! What the library relies on of `bytes::Bytes`.
use bytes::Bytes;
use vstd::prelude::*;

verus! {

/// A shared, immutable run of bytes.
#[verifier::external_type_specification]
#[verifier::external_body]
pub struct ExBytes(bytes::Bytes);

/// The bytes that a `Bytes` value holds.
pub uninterp spec fn content(b: Bytes) -> Seq<u8>;

/// `Bytes::new`: a value that holds no bytes.
pub assume_specification[ bytes::Bytes::new ]() -> (r: Bytes)
    ensures
        content(r) == Seq::<u8>::empty(),
;

/// `Bytes::len`: how many bytes the value holds.
pub assume_specification[ bytes::Bytes::len ](b: &Bytes) -> (r: usize)
    ensures
        r == content(*b).len(),
;

} // verus!
