//! Keys of the global state, and unforgeable references with their access rights.

use crate::types::vec_map::{Duplicate, KeyEq};
use vstd::prelude::*;

verus! {

/// The length of the address of an account and of a hash key.
pub const HASH_SIZE: usize = 32;

/// The length of the address of an unforgeable reference.
pub const UREF_ADDR_SIZE: usize = 32;

/// Whether two byte arrays hold the same bytes.
pub fn bytes_eq<const N: usize>(a: &[u8; N], b: &[u8; N]) -> (r: bool)
    ensures
        r == (*a == *b),
{
    let mut i: usize = 0;
    while i < N
        invariant
            i <= N,
            forall|j: int| 0 <= j < i ==> a@[j] == b@[j],
        decreases N - i,
    {
        if a[i] != b[i] {
            return false;
        }
        i += 1;
    }
    assert(*a =~= *b);
    true
}

/// The array that holds the 32 bytes of `bytes`.
pub open spec fn array32(bytes: Seq<u8>) -> [u8; 32] {
    choose|a: [u8; 32]| a@ == bytes
}

/// The array that holds the bytes of `bytes`, where there are 32 of them.
pub fn to_array32(bytes: &Vec<u8>) -> (r: Option<[u8; 32]>)
    ensures
        bytes@.len() == 32 ==> r == Some(array32(bytes@)) && r.unwrap()@ == bytes@,
        bytes@.len() != 32 ==> r.is_none(),
{
    if bytes.len() != 32 {
        return None;
    }
    let mut out = [0u8; 32];
    let mut i: usize = 0;
    while i < 32
        invariant
            i <= 32,
            bytes.len() == 32,
            forall|j: int| 0 <= j < i ==> out@[j] == bytes@[j],
        decreases 32 - i,
    {
        out[i] = bytes[i];
        i += 1;
    }
    assert(out@ =~= bytes@);
    assert(out =~= array32(bytes@));
    Some(out)
}

/// What the holder of a reference may do with the value it points to.
#[derive(Clone, Copy, Debug, PartialEq, Eq, Structural)]
pub struct AccessRights {
    pub read: bool,
    pub write: bool,
    pub add: bool,
}

impl AccessRights {
    pub fn new(read: bool, write: bool, add: bool) -> (r: Self)
        ensures
            r == (AccessRights { read, write, add }),
    {
        AccessRights { read, write, add }
    }

    /// The right to read, and no other.
    pub fn read_only() -> (r: Self)
        ensures
            r == (AccessRights { read: true, write: false, add: false }),
    {
        AccessRights { read: true, write: false, add: false }
    }

    /// All three rights.
    pub fn read_add_write() -> (r: Self)
        ensures
            r == (AccessRights { read: true, write: true, add: true }),
    {
        AccessRights { read: true, write: true, add: true }
    }

    /// The rights as a bit mask: 1 for reading, 2 for writing, 4 for adding.
    pub open spec fn spec_bits(self) -> u8 {
        ((if self.read { 1int } else { 0int }) + (if self.write { 2int } else { 0int }) + (if self.add {
            4int
        } else {
            0int
        })) as u8
    }

    pub fn bits(&self) -> (r: u8)
        ensures
            r == self.spec_bits(),
    {
        let r: u8 = if self.read { 1 } else { 0 };
        let w: u8 = if self.write { 2 } else { 0 };
        let a: u8 = if self.add { 4 } else { 0 };
        r + w + a
    }

    /// The rights that a bit mask stands for, where it names no right but these three.
    pub fn from_bits(bits: u8) -> (r: Option<Self>)
        ensures
            bits < 8 ==> r.is_some() && r.unwrap().spec_bits() == bits,
            bits >= 8 ==> r.is_none(),
    {
        if bits >= 8 {
            None
        } else {
            Some(AccessRights { read: bits % 2 == 1, write: (bits / 2) % 2 == 1, add: bits / 4 == 1 })
        }
    }

    /// Whether these rights hold every right of `other`.
    pub fn covers(&self, other: &AccessRights) -> (r: bool)
        ensures
            r == ((other.read ==> self.read) && (other.write ==> self.write) && (other.add
                ==> self.add)),
    {
        (!other.read || self.read) && (!other.write || self.write) && (!other.add || self.add)
    }
}

/// An unforgeable reference: the address of a value, and the rights of the holder, if any.
#[derive(Clone, Copy, Debug)]
pub struct URef {
    pub addr: [u8; 32],
    pub access_rights: Option<AccessRights>,
}

impl URef {
    pub fn new(addr: [u8; 32], access_rights: AccessRights) -> (r: Self)
        ensures
            r == (URef { addr, access_rights: Some(access_rights) }),
    {
        URef { addr, access_rights: Some(access_rights) }
    }

    pub fn addr(&self) -> (r: [u8; 32])
        ensures
            r == self.addr,
    {
        self.addr
    }

    pub fn access_rights(&self) -> (r: Option<AccessRights>)
        ensures
            r == self.access_rights,
    {
        self.access_rights
    }

    pub open spec fn spec_is_readable(&self) -> bool {
        self.access_rights matches Some(rights) && rights.read
    }

    pub open spec fn spec_is_writeable(&self) -> bool {
        self.access_rights matches Some(rights) && rights.write
    }

    pub open spec fn spec_is_addable(&self) -> bool {
        self.access_rights matches Some(rights) && rights.add
    }

    #[verifier::when_used_as_spec(spec_is_readable)]
    pub fn is_readable(&self) -> (r: bool)
        ensures
            r == self.spec_is_readable(),
    {
        match self.access_rights {
            Some(rights) => rights.read,
            None => false,
        }
    }

    #[verifier::when_used_as_spec(spec_is_writeable)]
    pub fn is_writeable(&self) -> (r: bool)
        ensures
            r == self.spec_is_writeable(),
    {
        match self.access_rights {
            Some(rights) => rights.write,
            None => false,
        }
    }

    #[verifier::when_used_as_spec(spec_is_addable)]
    pub fn is_addable(&self) -> (r: bool)
        ensures
            r == self.spec_is_addable(),
    {
        match self.access_rights {
            Some(rights) => rights.add,
            None => false,
        }
    }

    /// The same address with no rights.
    pub open spec fn spec_remove_access_rights(&self) -> URef {
        URef { addr: self.addr, access_rights: None }
    }

    #[verifier::when_used_as_spec(spec_remove_access_rights)]
    pub fn remove_access_rights(&self) -> (r: URef)
        ensures
            r == self.spec_remove_access_rights(),
    {
        URef { addr: self.addr, access_rights: None }
    }
}

impl PartialEq for URef {
    fn eq(&self, other: &Self) -> (r: bool) {
        let rights = match (self.access_rights, other.access_rights) {
            (Some(a), Some(b)) => a == b,
            (None, None) => true,
            _ => false,
        };
        bytes_eq(&self.addr, &other.addr) && rights
    }
}

impl Eq for URef {

}

impl vstd::std_specs::cmp::PartialEqSpecImpl for URef {
    open spec fn obeys_eq_spec() -> bool {
        true
    }

    open spec fn eq_spec(&self, other: &Self) -> bool {
        *self == *other
    }
}

/// What a value of the global state is stored under.
#[derive(Clone, Copy, Debug)]
pub enum Key {
    Account([u8; 32]),
    Hash([u8; 32]),
    URef(URef),
}

impl Key {
    /// The key under which the value is stored: a reference without its rights, any other
    /// key as it is.
    pub open spec fn spec_normalize(&self) -> Key {
        match *self {
            Key::URef(uref) => Key::URef(uref.spec_remove_access_rights()),
            other => other,
        }
    }

    #[verifier::when_used_as_spec(spec_normalize)]
    pub fn normalize(&self) -> (r: Key)
        ensures
            r == self.spec_normalize(),
    {
        match *self {
            Key::URef(uref) => Key::URef(uref.remove_access_rights()),
            other => other,
        }
    }

    pub open spec fn is_normal(&self) -> bool {
        self.spec_normalize() == *self
    }

    /// Normalizing twice is normalizing once.
    pub proof fn lemma_normalize_idempotent(&self)
        ensures
            self.spec_normalize().is_normal(),
    {
    }

    /// The account's address, where the key names an account.
    pub fn as_account(&self) -> (r: Option<[u8; 32]>)
        ensures
            r == (match *self {
                Key::Account(addr) => Some(addr),
                _ => None::<[u8; 32]>,
            }),
    {
        match *self {
            Key::Account(addr) => Some(addr),
            _ => None,
        }
    }

    /// The reference, where the key is one.
    pub fn as_uref(&self) -> (r: Option<URef>)
        ensures
            r == (match *self {
                Key::URef(uref) => Some(uref),
                _ => None::<URef>,
            }),
    {
        match *self {
            Key::URef(uref) => Some(uref),
            _ => None,
        }
    }

    /// The hash, where the key is one.
    pub fn as_hash(&self) -> (r: Option<[u8; 32]>)
        ensures
            r == (match *self {
                Key::Hash(hash) => Some(hash),
                _ => None::<[u8; 32]>,
            }),
    {
        match *self {
            Key::Hash(hash) => Some(hash),
            _ => None,
        }
    }
}

impl PartialEq for Key {
    fn eq(&self, other: &Self) -> (r: bool) {
        match (self, other) {
            (Key::Account(a), Key::Account(b)) => bytes_eq(a, b),
            (Key::Hash(a), Key::Hash(b)) => bytes_eq(a, b),
            (Key::URef(a), Key::URef(b)) => *a == *b,
            _ => false,
        }
    }
}

impl Eq for Key {

}

impl vstd::std_specs::cmp::PartialEqSpecImpl for Key {
    open spec fn obeys_eq_spec() -> bool {
        true
    }

    open spec fn eq_spec(&self, other: &Self) -> bool {
        *self == *other
    }
}

/// The public key of an account holder, which is also the account's address.
#[derive(Clone, Copy, Debug)]
pub struct PublicKey(pub [u8; 32]);

impl PublicKey {
    pub fn new(bytes: [u8; 32]) -> (r: Self)
        ensures
            r == PublicKey(bytes),
    {
        PublicKey(bytes)
    }

    pub fn value(&self) -> (r: [u8; 32])
        ensures
            r == self.0,
    {
        self.0
    }
}

impl PartialEq for PublicKey {
    fn eq(&self, other: &Self) -> (r: bool) {
        bytes_eq(&self.0, &other.0)
    }
}

impl Eq for PublicKey {

}

impl vstd::std_specs::cmp::PartialEqSpecImpl for PublicKey {
    open spec fn obeys_eq_spec() -> bool {
        true
    }

    open spec fn eq_spec(&self, other: &Self) -> bool {
        *self == *other
    }
}

/// The weight that an associated key carries towards an action threshold.
#[derive(Clone, Copy, Debug, PartialEq, Eq, Structural)]
pub struct Weight(pub u8);

impl Weight {
    pub fn new(weight: u8) -> (r: Self)
        ensures
            r == Weight(weight),
    {
        Weight(weight)
    }

    pub fn value(&self) -> (r: u8)
        ensures
            r == self.0,
    {
        self.0
    }
}

impl View for Key {
    type V = Key;

    open spec fn view(&self) -> Key {
        *self
    }
}

impl View for URef {
    type V = URef;

    open spec fn view(&self) -> URef {
        *self
    }
}

impl View for PublicKey {
    type V = PublicKey;

    open spec fn view(&self) -> PublicKey {
        *self
    }
}

impl View for Weight {
    type V = Weight;

    open spec fn view(&self) -> Weight {
        *self
    }
}

impl Duplicate for Key {
    fn duplicate(&self) -> (r: Self) {
        *self
    }
}

impl KeyEq for Key {
    fn key_eq(&self, other: &Self) -> (r: bool) {
        *self == *other
    }
}

impl Duplicate for PublicKey {
    fn duplicate(&self) -> (r: Self) {
        *self
    }
}

impl KeyEq for PublicKey {
    fn key_eq(&self, other: &Self) -> (r: bool) {
        *self == *other
    }
}

impl Duplicate for Weight {
    fn duplicate(&self) -> (r: Self) {
        *self
    }
}

impl Duplicate for String {
    fn duplicate(&self) -> (r: Self) {
        self.clone()
    }
}

impl KeyEq for String {
    fn key_eq(&self, other: &Self) -> (r: bool) {
        *self == *other
    }
}

} // verus!
