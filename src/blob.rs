use bytes::Bytes;
use vstd::prelude::*;

verus! {

/// The global weights and the clients' weights travel as `bytes::Bytes`:
/// an immutable, cheaply cloneable byte buffer that this library carries
/// without reading.
#[verifier::external_type_specification]
#[verifier::external_body]
pub struct ExBytes(Bytes);

/// The number of bytes that a buffer holds, as `Bytes::len` reports it.
pub uninterp spec fn blob_len(b: Bytes) -> nat;

/// Relies on `bytes::Bytes::new`, which builds an empty buffer over a
/// static empty slice.
pub assume_specification[ Bytes::new ]() -> (r: Bytes)
    ensures
        blob_len(r) == 0,
;

} // verus!
