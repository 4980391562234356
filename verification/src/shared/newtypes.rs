//! Hashes.

use crate::types::key::bytes_eq;
use vstd::prelude::*;

verus! {

/// The BLAKE2b digest of 32 bytes of `data`.
pub uninterp spec fn blake2b256_digest(data: Seq<u8>) -> Seq<u8>;

/// Calls `blake2::Blake2b::<U32>::digest`, the one-shot form of the hash function BLAKE2b
/// with an output of 32 bytes. The contract gives the digest its name: it depends on the
/// bytes of `data` alone.
#[verifier::external_body]
fn blake2b256_of(data: &[u8]) -> (digest: [u8; 32])
    ensures
        digest@ == blake2b256_digest(data@),
{
    let out = <blake2::Blake2b<blake2::digest::consts::U32> as blake2::Digest>::digest(data);
    out.into()
}

/// The BLAKE2b digest of 32 bytes of `data`, as an array.
pub open spec fn blake2b256(data: Seq<u8>) -> [u8; 32] {
    choose|digest: [u8; 32]| digest@ == blake2b256_digest(data)
}

/// A BLAKE2b digest of 32 bytes. The roots of the global state are such digests.
#[derive(Clone, Copy, Debug)]
pub struct Blake2bHash(pub [u8; 32]);

impl Blake2bHash {
    /// The digest of `data`.
    pub fn new(data: &[u8]) -> (r: Self)
        ensures
            r.0 == blake2b256(data@),
    {
        let digest = blake2b256_of(data);
        assert(digest =~= blake2b256(data@));
        Blake2bHash(digest)
    }

    /// The hash that holds the given bytes.
    pub fn from_bytes(bytes: [u8; 32]) -> (r: Self)
        ensures
            r == Blake2bHash(bytes),
    {
        Blake2bHash(bytes)
    }

    pub fn value(&self) -> (r: [u8; 32])
        ensures
            r == self.0,
    {
        self.0
    }
}

impl PartialEq for Blake2bHash {
    fn eq(&self, other: &Self) -> (r: bool) {
        bytes_eq(&self.0, &other.0)
    }
}

impl Eq for Blake2bHash {

}

impl vstd::std_specs::cmp::PartialEqSpecImpl for Blake2bHash {
    open spec fn obeys_eq_spec() -> bool {
        true
    }

    open spec fn eq_spec(&self, other: &Self) -> bool {
        *self == *other
    }
}

} // verus!
