//! Stored contracts.

use crate::types::account::NamedKeys;
use crate::types::key::Key;
use crate::types::vec_map::Duplicate;
use vstd::prelude::*;

verus! {

/// A copy of a list of plain values.
pub fn copy_vec<T: Copy>(v: &Vec<T>) -> (r: Vec<T>)
    ensures
        r@ == v@,
{
    let mut out: Vec<T> = Vec::new();
    let mut i: usize = 0;
    while i < v.len()
        invariant
            i <= v.len(),
            out@ == v@.take(i as int),
        decreases v.len() - i,
    {
        out.push(v[i]);
        assert(v@.take(i as int).push(v@[i as int]) =~= v@.take(i + 1));
        i += 1;
    }
    assert(v@.take(v.len() as int) =~= v@);
    out
}

/// What a contract is, as plain values.
pub struct ContractView {
    pub bytes: Seq<u8>,
    pub named_keys: Map<Seq<char>, Key>,
    pub protocol_version: u64,
}

/// A contract of the global state: its code, the keys it knows by name, and the protocol
/// version it was stored under.
#[derive(Debug)]
pub struct Contract {
    bytes: Vec<u8>,
    named_keys: NamedKeys,
    protocol_version: u64,
}

impl View for Contract {
    type V = ContractView;

    closed spec fn view(&self) -> ContractView {
        ContractView {
            bytes: self.bytes@,
            named_keys: self.named_keys@,
            protocol_version: self.protocol_version,
        }
    }
}

impl Contract {
    pub fn new(bytes: Vec<u8>, named_keys: NamedKeys, protocol_version: u64) -> (r: Self)
        ensures
            r@ == (ContractView { bytes: bytes@, named_keys: named_keys@, protocol_version }),
    {
        Contract { bytes, named_keys, protocol_version }
    }

    /// The parts of the contract: code, named keys, protocol version.
    pub fn destructure(self) -> (r: (Vec<u8>, NamedKeys, u64))
        ensures
            r.0@ == self@.bytes,
            r.1@ == self@.named_keys,
            r.2 == self@.protocol_version,
    {
        (self.bytes, self.named_keys, self.protocol_version)
    }

    pub fn bytes(&self) -> (r: &Vec<u8>)
        ensures
            r@ == self@.bytes,
    {
        &self.bytes
    }

    /// The keys that the contract knows by name.
    pub fn urefs_lookup(&self) -> (r: &NamedKeys)
        ensures
            r@ == self@.named_keys,
    {
        &self.named_keys
    }

    pub fn protocol_version(&self) -> (r: u64)
        ensures
            r == self@.protocol_version,
    {
        self.protocol_version
    }

    /// Adds the names of `keys` to those that the contract knows.
    pub fn insert_urefs(&mut self, keys: &NamedKeys)
        ensures
            final(self)@ == (ContractView {
                named_keys: old(self)@.named_keys.union_prefer_right(keys@),
                ..old(self)@
            }),
    {
        self.named_keys.extend_from(keys);
    }
}

impl Duplicate for Contract {
    fn duplicate(&self) -> (r: Self) {
        Contract {
            bytes: copy_vec(&self.bytes),
            named_keys: self.named_keys.duplicate(),
            protocol_version: self.protocol_version,
        }
    }
}

} // verus!
