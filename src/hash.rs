//! The code digest, computed by the sha3 crate.
use vstd::prelude::*;

use sha3::{Digest, Keccak256};

verus! {

/// The Keccak-256 digest of a byte sequence.
pub uninterp spec fn keccak256_of(data: Seq<u8>) -> Seq<u8>;

/// Relies on sha3's `Keccak256::digest`: the 32-byte Keccak-256 digest of
/// `data`, which depends on the bytes alone.
#[verifier::external_body]
pub(crate) fn keccak256(data: &[u8]) -> (r: [u8; 32])
    ensures
        r@ == keccak256_of(data@),
{
    Keccak256::digest(data).into()
}

} // verus!
