//! The tracking copy: the overlay over one state of the global state in which a deploy
//! reads and writes, and which records what the deploy did as ops and transforms.

use crate::engine_state::execution_effect::{
    add_op,
    add_transform,
    record_op,
    record_transform,
    EffectView,
    ExecutionEffect,
    OpMap,
    TransformMap,
};
use crate::engine_state::op::Op;
use crate::execution::{Error, ErrorView};
use crate::shared::motes::Motes;
use crate::shared::newtypes::{blake2b256, Blake2bHash};
use crate::shared::transform::{Transform, TransformView};
use crate::storage::global_state::{StateReader, StateView};
use crate::types::account::{Account, AccountView, NamedKeys};
use crate::types::contract::{Contract, ContractView};
use crate::types::key::{Key, URef};
use crate::types::value::{TypeMismatch, TypeName, Value, ValueView};
use crate::types::vec_map::{Duplicate, VecMap};
use vstd::prelude::*;

verus! {

/// What a purse that is no unforgeable reference is reported as.
pub const PURSE_IS_NO_UREF: &'static str = "purse is no reference";

/// What a purse whose balance the mint does not know is reported as.
pub const PURSE_HAS_NO_BALANCE: &'static str = "purse has no balance";

/// How an add ended.
#[derive(Clone, Copy, Debug, PartialEq, Eq)]
pub enum AddResult {
    Success,
    KeyNotFound(Key),
    TypeMismatch(TypeMismatch),
}

/// The transform that adds `value`: a number adds itself, a named key adds its name.
pub open spec fn addend(value: ValueView) -> Option<TransformView> {
    match value {
        ValueView::Int32(i) => Some(TransformView::AddInt32(i)),
        ValueView::UInt64(i) => Some(TransformView::AddUInt64(i)),
        ValueView::UInt128(i) => Some(TransformView::AddUInt128(i)),
        ValueView::UInt256(i) => Some(TransformView::AddUInt256(i)),
        ValueView::UInt512(i) => Some(TransformView::AddUInt512(i)),
        ValueView::NamedKey(name, key) => Some(
            TransformView::AddKeys(Map::<Seq<char>, Key>::empty().insert(name, key)),
        ),
        _ => None,
    }
}

/// The transform that adds `value`, where a value of its kind can be added.
pub fn transform_of_addend(value: Value) -> (r: Option<Transform>)
    ensures
        match r {
            Some(t) => addend(value@) == Some(t@),
            None => addend(value@).is_none(),
        },
{
    match value {
        Value::Int32(i) => Some(Transform::AddInt32(i)),
        Value::UInt64(i) => Some(Transform::AddUInt64(i)),
        Value::UInt128(i) => Some(Transform::AddUInt128(i)),
        Value::UInt256(i) => Some(Transform::AddUInt256(i)),
        Value::UInt512(i) => Some(Transform::AddUInt512(i)),
        Value::NamedKey(name, key) => {
            let mut keys: NamedKeys = VecMap::new();
            keys.insert(name, key);
            Some(Transform::AddKeys(keys))
        },
        _ => None,
    }
}

/// The key under which the mint keeps the balance key of the purse `purse`: the hash of
/// the address of the mint followed by the address of the purse.
pub open spec fn spec_purse_index_key(mint: URef, purse: URef) -> Key {
    Key::Hash(blake2b256(mint.addr@ + purse.addr@))
}

/// The key under which the mint keeps the balance key of the purse `purse`.
pub fn purse_index_key(mint: URef, purse: URef) -> (r: Key)
    ensures
        r == spec_purse_index_key(mint, purse),
{
    let mut bytes: Vec<u8> = Vec::new();
    let mut i: usize = 0;
    while i < 32
        invariant
            i <= 32,
            bytes@ == mint.addr@.take(i as int),
        decreases 32 - i,
    {
        bytes.push(mint.addr[i]);
        assert(mint.addr@.take(i as int).push(mint.addr@[i as int]) =~= mint.addr@.take(i + 1));
        i += 1;
    }
    let mut i: usize = 0;
    while i < 32
        invariant
            i <= 32,
            bytes@ == mint.addr@.take(32) + purse.addr@.take(i as int),
        decreases 32 - i,
    {
        bytes.push(purse.addr[i]);
        assert((mint.addr@.take(32) + purse.addr@.take(i as int)).push(purse.addr@[i as int])
            =~= mint.addr@.take(32) + purse.addr@.take(i + 1));
        i += 1;
    }
    assert(bytes@ =~= mint.addr@ + purse.addr@);
    Key::Hash(Blake2bHash::new(bytes.as_slice()).value())
}

/// A system contract as the engine finds it: the key that the account knows, the key under
/// which the contract is stored, and the contract.
#[derive(Debug)]
pub struct SystemContractInfo {
    public_key: Key,
    inner_key: Key,
    contract: Contract,
}

/// What a system contract is as the engine finds it, as plain values.
pub struct SystemContractInfoView {
    pub public_key: Key,
    pub inner_key: Key,
    pub contract: ContractView,
}

impl View for SystemContractInfo {
    type V = SystemContractInfoView;

    closed spec fn view(&self) -> SystemContractInfoView {
        SystemContractInfoView {
            public_key: self.public_key,
            inner_key: self.inner_key,
            contract: self.contract@,
        }
    }
}

impl SystemContractInfo {
    pub fn new(public_key: Key, inner_key: Key, contract: Contract) -> (r: Self)
        ensures
            r@ == (SystemContractInfoView { public_key, inner_key, contract: contract@ }),
    {
        SystemContractInfo { public_key, inner_key, contract }
    }

    pub fn public_key(&self) -> (r: Key)
        ensures
            r == self@.public_key,
    {
        self.public_key
    }

    pub fn inner_key(&self) -> (r: Key)
        ensures
            r == self@.inner_key,
    {
        self.inner_key
    }

    pub fn contract(&self) -> (r: &Contract)
        ensures
            r@ == self@.contract,
    {
        &self.contract
    }

    /// The contract alone.
    pub fn into_contract(self) -> (r: Contract)
        ensures
            r@ == self@.contract,
    {
        self.contract
    }

    pub fn module_bytes(&self) -> (r: &Vec<u8>)
        ensures
            r@ == self@.contract.bytes,
    {
        self.contract.bytes()
    }
}

/// What a tracking copy is, as plain values: the state as the deploy sees it, and what the
/// deploy did so far to each key.
pub struct TrackingCopyView {
    pub state: Map<Key, ValueView>,
    pub ops: Map<Key, Op>,
    pub fns: Map<Key, TransformView>,
}

impl TrackingCopyView {
    /// The tracking copy over `state` in which nothing was done yet.
    pub open spec fn new(state: Map<Key, ValueView>) -> TrackingCopyView {
        TrackingCopyView { state, ops: Map::empty(), fns: Map::empty() }
    }

    /// The value under `key` as it stands, with no record of the access.
    pub open spec fn get(self, key: Key) -> Option<ValueView> {
        if self.state.contains_key(key) {
            Some(self.state[key])
        } else {
            None
        }
    }

    /// The tracking copy after a read of a key that holds a value.
    pub open spec fn after_read(self, key: Key) -> TrackingCopyView {
        let k = key.normalize();
        if self.state.contains_key(k) {
            TrackingCopyView {
                ops: record_op(self.ops, k, Op::Read),
                fns: record_transform(self.fns, k, TransformView::Identity, false),
                ..self
            }
        } else {
            self
        }
    }

    /// The tracking copy after `value` was written under `key`.
    pub open spec fn after_write(self, key: Key, value: ValueView) -> TrackingCopyView {
        let k = key.normalize();
        TrackingCopyView {
            state: self.state.insert(k, value),
            ops: record_op(self.ops, k, Op::Write),
            fns: record_transform(self.fns, k, TransformView::Write(value), false),
        }
    }

    /// How adding `value` to the value under `key` ends.
    pub open spec fn add_result(self, key: Key, value: ValueView) -> AddResult {
        let k = key.normalize();
        match self.get(k) {
            None => AddResult::KeyNotFound(k),
            Some(current) => match addend(value) {
                None => AddResult::TypeMismatch(
                    TypeMismatch { expected: TypeName::NumberOrNamedKey, found: value.type_tag() },
                ),
                Some(t) => match t.apply(current) {
                    Ok(_) => AddResult::Success,
                    Err(e) => AddResult::TypeMismatch(e),
                },
            },
        }
    }

    /// The tracking copy after `value` was added to the value under `key`: changed where
    /// the add succeeds, and only there.
    pub open spec fn after_add(self, key: Key, value: ValueView) -> TrackingCopyView {
        let k = key.normalize();
        if self.add_result(key, value) == AddResult::Success {
            let t = addend(value).unwrap();
            TrackingCopyView {
                state: self.state.insert(k, t.apply(self.state[k])->Ok_0),
                ops: record_op(self.ops, k, Op::Add),
                fns: record_transform(self.fns, k, t, false),
            }
        } else {
            self
        }
    }

    /// The fork: it sees the state as it stands, and nothing was done in it yet.
    pub open spec fn fork(self) -> TrackingCopyView {
        TrackingCopyView::new(self.state)
    }

    /// What was done so far.
    pub open spec fn effect(self) -> EffectView {
        EffectView { ops: self.ops, transforms: self.fns }
    }

    /// The account with address `addr`.
    pub open spec fn get_account(self, addr: [u8; 32]) -> Result<AccountView, ErrorView> {
        spec_account_found(Key::Account(addr), self.get(Key::Account(addr)))
    }

    /// The contract under `key`.
    pub open spec fn get_contract(self, key: Key) -> Result<ContractView, ErrorView> {
        spec_contract_found(key, self.get(key.normalize()))
    }

    /// The key under which the system contract is stored, where `public_key` leads to one.
    pub open spec fn system_contract_inner_key(self, public_key: Key) -> Result<Key, ErrorView> {
        spec_contract_key_found(public_key, self.get(public_key.normalize()))
    }

    /// The system contract that `public_key` leads to: under `public_key` lies the key of
    /// the contract, an unforgeable reference, and under that key the contract.
    pub open spec fn get_system_contract_info(self, public_key: Key) -> Result<
        SystemContractInfoView,
        ErrorView,
    > {
        match self.system_contract_inner_key(public_key) {
            Err(e) => Err(e),
            Ok(inner_key) => match self.after_read(public_key).get_contract(inner_key) {
                Err(e) => Err(e),
                Ok(contract) => Ok(SystemContractInfoView { public_key, inner_key, contract }),
            },
        }
    }

    /// The tracking copy after the look-up of a system contract.
    pub open spec fn after_get_system_contract_info(self, public_key: Key) -> TrackingCopyView {
        match self.system_contract_inner_key(public_key) {
            Err(_) => self.after_read(public_key),
            Ok(inner_key) => self.after_read(public_key).after_read(inner_key),
        }
    }

    /// The key under which the balance of the purse `purse` lies, as the mint with the
    /// reference `mint` keeps it.
    pub open spec fn get_purse_balance_key(self, mint: URef, purse: Key) -> Result<Key, ErrorView> {
        match purse {
            Key::URef(uref) => spec_balance_key_found(self.get(spec_purse_index_key(mint, uref))),
            _ => Err(ErrorView::URefNotFound(PURSE_IS_NO_UREF@)),
        }
    }

    /// The tracking copy after the look-up of a balance key.
    pub open spec fn after_get_purse_balance_key(self, mint: URef, purse: Key) -> TrackingCopyView {
        match purse {
            Key::URef(uref) => self.after_read(spec_purse_index_key(mint, uref)),
            _ => self,
        }
    }

    /// The balance under `balance_key`, in motes.
    pub open spec fn get_purse_balance(self, balance_key: Key) -> Result<nat, ErrorView> {
        spec_balance_found(balance_key, self.get(balance_key.normalize()))
    }
}

/// What a look-up of an account makes of what was found under `key`: the account, a
/// mismatch of types where another value lies there, and a missing key where none does.
pub open spec fn spec_account_found(key: Key, found: Option<ValueView>) -> Result<
    AccountView,
    ErrorView,
> {
    match found {
        Some(ValueView::Account(account)) => Ok(account),
        Some(other) => Err(
            ErrorView::TypeMismatch(
                TypeMismatch { expected: TypeName::Account, found: other.type_tag() },
            ),
        ),
        None => Err(ErrorView::KeyNotFound(key)),
    }
}

/// What a look-up of a contract makes of what was found under `key`.
pub open spec fn spec_contract_found(key: Key, found: Option<ValueView>) -> Result<
    ContractView,
    ErrorView,
> {
    match found {
        Some(ValueView::Contract(contract)) => Ok(contract),
        Some(other) => Err(
            ErrorView::TypeMismatch(
                TypeMismatch { expected: TypeName::Contract, found: other.type_tag() },
            ),
        ),
        None => Err(ErrorView::KeyNotFound(key)),
    }
}

/// What a look-up of a system contract makes of what was found under its public key: the
/// key of the contract, which is an unforgeable reference.
pub open spec fn spec_contract_key_found(public_key: Key, found: Option<ValueView>) -> Result<
    Key,
    ErrorView,
> {
    match found {
        Some(ValueView::Key(Key::URef(uref))) => Ok(Key::URef(uref)),
        Some(other) => Err(
            ErrorView::TypeMismatch(
                TypeMismatch { expected: TypeName::KeyURef, found: other.type_tag() },
            ),
        ),
        None => Err(ErrorView::KeyNotFound(public_key)),
    }
}

/// What a look-up of a balance key makes of what the mint holds for the purse.
pub open spec fn spec_balance_key_found(found: Option<ValueView>) -> Result<Key, ErrorView> {
    match found {
        Some(ValueView::Key(key)) => Ok(key),
        Some(other) => Err(
            ErrorView::TypeMismatch(
                TypeMismatch { expected: TypeName::Key, found: other.type_tag() },
            ),
        ),
        None => Err(ErrorView::URefNotFound(PURSE_HAS_NO_BALANCE@)),
    }
}

/// What a look-up of a balance makes of what was found under `balance_key`.
pub open spec fn spec_balance_found(balance_key: Key, found: Option<ValueView>) -> Result<
    nat,
    ErrorView,
> {
    match found {
        Some(ValueView::UInt512(balance)) => Ok(balance),
        Some(other) => Err(
            ErrorView::TypeMismatch(
                TypeMismatch { expected: TypeName::UInt512, found: other.type_tag() },
            ),
        ),
        None => Err(ErrorView::KeyNotFound(balance_key)),
    }
}

/// The view of what a read found.
pub open spec fn found_view(found: Option<Value>) -> Option<ValueView> {
    match found {
        Some(value) => Some(value@),
        None => None,
    }
}

/// The account that a read under `key` found, or why it found none.
pub fn account_found(key: Key, found: Option<Value>) -> (r: Result<Account, Error>)
    ensures
        match r {
            Ok(account) => spec_account_found(key, found_view(found)) == Ok::<
                AccountView,
                ErrorView,
            >(account@),
            Err(e) => spec_account_found(key, found_view(found)) == Err::<AccountView, ErrorView>(
                e@,
            ),
        },
{
    match found {
        Some(Value::Account(account)) => Ok(account),
        Some(other) => Err(
            Error::TypeMismatch(TypeMismatch::new(TypeName::Account, other.type_tag())),
        ),
        None => Err(Error::KeyNotFound(key)),
    }
}

/// The contract that a read under `key` found, or why it found none.
pub fn contract_found(key: Key, found: Option<Value>) -> (r: Result<Contract, Error>)
    ensures
        match r {
            Ok(contract) => spec_contract_found(key, found_view(found)) == Ok::<
                ContractView,
                ErrorView,
            >(contract@),
            Err(e) => spec_contract_found(key, found_view(found)) == Err::<
                ContractView,
                ErrorView,
            >(e@),
        },
{
    match found {
        Some(Value::Contract(contract)) => Ok(contract),
        Some(other) => Err(
            Error::TypeMismatch(TypeMismatch::new(TypeName::Contract, other.type_tag())),
        ),
        None => Err(Error::KeyNotFound(key)),
    }
}

/// The key of a system contract that a read under its public key found, or why it found
/// none.
pub fn contract_key_found(public_key: Key, found: Option<Value>) -> (r: Result<Key, Error>)
    ensures
        match r {
            Ok(key) => spec_contract_key_found(public_key, found_view(found)) == Ok::<
                Key,
                ErrorView,
            >(key),
            Err(e) => spec_contract_key_found(public_key, found_view(found)) == Err::<
                Key,
                ErrorView,
            >(e@),
        },
{
    match found {
        Some(Value::Key(Key::URef(uref))) => Ok(Key::URef(uref)),
        Some(other) => Err(
            Error::TypeMismatch(TypeMismatch::new(TypeName::KeyURef, other.type_tag())),
        ),
        None => Err(Error::KeyNotFound(public_key)),
    }
}

/// The balance key that a read of the mint's entry for a purse found, or why it found
/// none.
pub fn balance_key_found(found: Option<Value>) -> (r: Result<Key, Error>)
    ensures
        match r {
            Ok(key) => spec_balance_key_found(found_view(found)) == Ok::<Key, ErrorView>(key),
            Err(e) => spec_balance_key_found(found_view(found)) == Err::<Key, ErrorView>(e@),
        },
{
    match found {
        Some(Value::Key(key)) => Ok(key),
        Some(other) => Err(Error::TypeMismatch(TypeMismatch::new(TypeName::Key, other.type_tag()))),
        None => Err(Error::URefNotFound(PURSE_HAS_NO_BALANCE.to_owned())),
    }
}

/// The balance that a read under `balance_key` found, or why it found none.
pub fn balance_found(balance_key: Key, found: Option<Value>) -> (r: Result<Motes, Error>)
    ensures
        match r {
            Ok(balance) => spec_balance_found(balance_key, found_view(found)) == Ok::<
                nat,
                ErrorView,
            >(balance@),
            Err(e) => spec_balance_found(balance_key, found_view(found)) == Err::<nat, ErrorView>(
                e@,
            ),
        },
{
    match found {
        Some(Value::UInt512(balance)) => Ok(Motes::new(balance)),
        Some(other) => Err(
            Error::TypeMismatch(TypeMismatch::new(TypeName::UInt512, other.type_tag())),
        ),
        None => Err(Error::KeyNotFound(balance_key)),
    }
}

/// The overlay over one state of the global state in which a deploy reads and writes.
pub struct TrackingCopy<R: StateReader> {
    reader: R,
    cache: VecMap<Key, Value>,
    ops: OpMap,
    fns: TransformMap,
}

impl<R: StateReader> View for TrackingCopy<R> {
    type V = TrackingCopyView;

    closed spec fn view(&self) -> TrackingCopyView {
        TrackingCopyView {
            state: self.reader.contents().values.union_prefer_right(self.cache@),
            ops: self.ops@,
            fns: self.fns@,
        }
    }
}

impl<R: StateReader> TrackingCopy<R> {
    /// The tracking copy over the state that `reader` reads, in which nothing was done yet.
    pub fn new(reader: R) -> (r: Self)
        ensures
            r@ == TrackingCopyView::new(reader.contents().values),
            r.spec_reader() == reader,
            r.spec_held() == Set::<Key>::empty(),
    {
        let r = TrackingCopy { reader, cache: VecMap::new(), ops: VecMap::new(), fns: VecMap::new() };
        assert(r@.state =~= reader.contents().values);
        r
    }

    /// The reader of the state that lies under the tracking copy.
    pub closed spec fn spec_reader(&self) -> R {
        self.reader
    }

    /// The keys whose values the tracking copy holds itself, because they were written or
    /// added to in it. What lies under them is looked up without the store.
    pub closed spec fn spec_held(&self) -> Set<Key> {
        self.cache@.dom()
    }

    pub fn reader(&self) -> (r: &R)
        ensures
            *r == self.spec_reader(),
    {
        &self.reader
    }

    /// The value under `key` as it stands, with no record of the access. Only the store
    /// can fail, and it is not asked for what the tracking copy holds itself.
    pub fn get(&self, key: &Key) -> (r: Result<Option<Value>, R::Error>)
        ensures
            r matches Ok(found) ==> match found {
                Some(value) => self@.get(*key) == Some(value@),
                None => self@.get(*key).is_none(),
            },
            self.spec_held().contains(*key) ==> r is Ok,
    {
        match self.cache.get(key) {
            Some(value) => Ok(Some(value.duplicate())),
            None => self.reader.read(key),
        }
    }

    /// The value under `key`. A read that finds a value is recorded; one that fails
    /// changes nothing.
    pub fn read(&mut self, key: &Key) -> (r: Result<Option<Value>, R::Error>)
        ensures
            match r {
                Ok(Some(value)) => old(self)@.get(key.normalize()) == Some(value@),
                Ok(None) => old(self)@.get(key.normalize()).is_none(),
                Err(_) => true,
            },
            r is Ok ==> final(self)@ == old(self)@.after_read(*key),
            r is Err ==> final(self)@ == old(self)@,
            old(self).spec_held().contains(key.normalize()) ==> r is Ok,
            final(self).spec_held() == old(self).spec_held(),
            final(self).spec_reader() == old(self).spec_reader(),
    {
        let k = key.normalize();
        match self.get(&k) {
            Ok(Some(value)) => {
                add_op(&mut self.ops, k, Op::Read);
                add_transform(&mut self.fns, k, Transform::Identity, false);
                Ok(Some(value))
            },
            Ok(None) => Ok(None),
            Err(e) => Err(e),
        }
    }

    /// Writes `value` under `key`.
    pub fn write(&mut self, key: Key, value: Value)
        ensures
            final(self)@ == old(self)@.after_write(key, value@),
            final(self).spec_held() == old(self).spec_held().insert(key.normalize()),
            final(self).spec_reader() == old(self).spec_reader(),
    {
        let k = key.normalize();
        let copy = value.duplicate();
        self.cache.insert(k, copy);
        add_op(&mut self.ops, k, Op::Write);
        add_transform(&mut self.fns, k, Transform::Write(value), false);
        assert(self@.state =~= old(self)@.state.insert(k, value@));
    }

    /// Adds `value` to the value under `key`: a number to a number of its kind, a named key
    /// to the keys that an account or a contract knows. Where the store fails, nothing is
    /// changed.
    pub fn add(&mut self, key: Key, value: Value) -> (r: Result<AddResult, R::Error>)
        ensures
            r matches Ok(result) ==> result == old(self)@.add_result(key, value@) && final(self)@
                == old(self)@.after_add(key, value@),
            r is Err ==> final(self)@ == old(self)@,
            old(self).spec_held().contains(key.normalize()) ==> r is Ok,
            final(self).spec_held() == if r matches Ok(AddResult::Success) {
                old(self).spec_held().insert(key.normalize())
            } else {
                old(self).spec_held()
            },
            final(self).spec_reader() == old(self).spec_reader(),
    {
        let k = key.normalize();
        let current = match self.get(&k) {
            Ok(Some(current)) => current,
            Ok(None) => {
                return Ok(AddResult::KeyNotFound(k));
            },
            Err(e) => {
                return Err(e);
            },
        };
        let found = value.type_tag();
        match transform_of_addend(value) {
            None => Ok(
                AddResult::TypeMismatch(TypeMismatch::new(TypeName::NumberOrNamedKey, found)),
            ),
            Some(t) => match t.duplicate().apply(current) {
                Ok(new_value) => {
                    let ghost new_view = new_value@;
                    self.cache.insert(k, new_value);
                    add_op(&mut self.ops, k, Op::Add);
                    add_transform(&mut self.fns, k, t, false);
                    assert(self@.state =~= old(self)@.state.insert(k, new_view));
                    Ok(AddResult::Success)
                },
                Err(e) => Ok(AddResult::TypeMismatch(e)),
            },
        }
    }

    /// A tracking copy that sees the state as it stands in this one, and in which nothing
    /// was done yet. This one lies under it and is not changed by what is done in the fork.
    pub fn fork(&self) -> (r: TrackingCopy<&TrackingCopy<R>>)
        ensures
            r@ == self@.fork(),
            *r.spec_reader() == *self,
            r.spec_held() == Set::<Key>::empty(),
    {
        let r = TrackingCopy { reader: self, cache: VecMap::new(), ops: VecMap::new(), fns: VecMap::new() };
        assert(r@.state =~= self@.state);
        r
    }

    /// What was done so far.
    pub fn effect(&self) -> (r: ExecutionEffect)
        ensures
            r@ == self@.effect(),
    {
        ExecutionEffect::new(self.ops.duplicate(), self.fns.duplicate())
    }

    /// The account with address `addr`. Where the store fails, nothing is changed; it is
    /// not asked where the tracking copy holds the account itself.
    pub fn get_account(&mut self, addr: [u8; 32]) -> (r: Result<Account, Error>)
        ensures
            match r {
                Ok(account) => old(self)@.get_account(addr) == Ok::<AccountView, ErrorView>(account@)
                    && final(self)@ == old(self)@.after_read(Key::Account(addr)),
                Err(e) => (e@ is Storage && final(self)@ == old(self)@) || (old(self)@.get_account(
                    addr,
                ) == Err::<AccountView, ErrorView>(e@) && final(self)@ == old(self)@.after_read(
                    Key::Account(addr),
                )),
            },
            old(self).spec_held().contains(Key::Account(addr)) ==> !(r matches Err(e) && e@ is Storage),
            final(self).spec_held() == old(self).spec_held(),
            final(self).spec_reader() == old(self).spec_reader(),
    {
        let key = Key::Account(addr);
        match self.read(&key) {
            Ok(found) => account_found(key, found),
            Err(_) => Err(Error::Storage),
        }
    }

    /// The contract under `key`. Where the store fails, nothing is changed.
    pub fn get_contract(&mut self, key: Key) -> (r: Result<Contract, Error>)
        ensures
            match r {
                Ok(contract) => old(self)@.get_contract(key) == Ok::<ContractView, ErrorView>(
                    contract@,
                ) && final(self)@ == old(self)@.after_read(key),
                Err(e) => (e@ is Storage && final(self)@ == old(self)@) || (old(self)@.get_contract(
                    key,
                ) == Err::<ContractView, ErrorView>(e@) && final(self)@ == old(self)@.after_read(
                    key,
                )),
            },
            old(self).spec_held().contains(key.normalize()) ==> !(r matches Err(e) && e@ is Storage),
            final(self).spec_held() == old(self).spec_held(),
            final(self).spec_reader() == old(self).spec_reader(),
    {
        match self.read(&key) {
            Ok(found) => contract_found(key, found),
            Err(_) => Err(Error::Storage),
        }
    }

    /// The system contract that `public_key` leads to. Where the store fails at the first
    /// read nothing is changed; where it fails at the second, the first read stands.
    pub fn get_system_contract_info(&mut self, public_key: Key) -> (r: Result<
        SystemContractInfo,
        Error,
    >)
        ensures
            match r {
                Ok(info) => old(self)@.get_system_contract_info(public_key) == Ok::<
                    SystemContractInfoView,
                    ErrorView,
                >(info@) && final(self)@ == old(self)@.after_get_system_contract_info(public_key),
                Err(e) => (e@ is Storage && (final(self)@ == old(self)@ || (old(
                    self,
                )@.system_contract_inner_key(public_key) is Ok && final(self)@ == old(
                    self,
                )@.after_read(public_key)))) || (old(self)@.get_system_contract_info(public_key)
                    == Err::<SystemContractInfoView, ErrorView>(e@) && final(self)@
                    == old(self)@.after_get_system_contract_info(public_key)),
            },
            old(self).spec_held().contains(public_key.normalize()) && (old(
                self,
            )@.system_contract_inner_key(public_key) matches Ok(inner_key) ==> old(
                self,
            ).spec_held().contains(inner_key.normalize())) ==> !(r matches Err(e) && e@ is Storage),
            final(self).spec_held() == old(self).spec_held(),
            final(self).spec_reader() == old(self).spec_reader(),
    {
        let found = match self.read(&public_key) {
            Ok(found) => found,
            Err(_) => {
                return Err(Error::Storage);
            },
        };
        let inner_key = match contract_key_found(public_key, found) {
            Ok(inner_key) => inner_key,
            Err(e) => {
                return Err(e);
            },
        };
        match self.get_contract(inner_key) {
            Ok(contract) => Ok(SystemContractInfo::new(public_key, inner_key, contract)),
            Err(e) => Err(e),
        }
    }

    /// The key under which the balance of the purse `purse` lies. A purse that is no
    /// unforgeable reference is refused before anything is read. Where the store fails,
    /// nothing is changed.
    pub fn get_purse_balance_key(&mut self, mint: URef, purse: Key) -> (r: Result<Key, Error>)
        ensures
            match r {
                Ok(key) => old(self)@.get_purse_balance_key(mint, purse) == Ok::<Key, ErrorView>(key)
                    && final(self)@ == old(self)@.after_get_purse_balance_key(mint, purse),
                Err(e) => (e@ is Storage && purse is URef && final(self)@ == old(self)@) || (old(
                    self,
                )@.get_purse_balance_key(mint, purse) == Err::<Key, ErrorView>(e@) && final(self)@
                    == old(self)@.after_get_purse_balance_key(mint, purse)),
            },
            !(purse is URef) ==> final(self)@ == old(self)@ && (r matches Err(e) && e@
                == ErrorView::URefNotFound(PURSE_IS_NO_UREF@)),
            purse matches Key::URef(uref) && old(self).spec_held().contains(
                spec_purse_index_key(mint, uref),
            ) ==> !(r matches Err(e) && e@ is Storage),
            final(self).spec_held() == old(self).spec_held(),
            final(self).spec_reader() == old(self).spec_reader(),
    {
        let uref = match purse.as_uref() {
            Some(uref) => uref,
            None => {
                return Err(Error::URefNotFound(PURSE_IS_NO_UREF.to_owned()));
            },
        };
        let index_key = purse_index_key(mint, uref);
        match self.read(&index_key) {
            Ok(found) => balance_key_found(found),
            Err(_) => Err(Error::Storage),
        }
    }

    /// The balance under `balance_key`. Where the store fails, nothing is changed.
    pub fn get_purse_balance(&mut self, balance_key: Key) -> (r: Result<Motes, Error>)
        ensures
            match r {
                Ok(balance) => old(self)@.get_purse_balance(balance_key) == Ok::<nat, ErrorView>(
                    balance@,
                ) && final(self)@ == old(self)@.after_read(balance_key),
                Err(e) => (e@ is Storage && final(self)@ == old(self)@) || (old(
                    self,
                )@.get_purse_balance(balance_key) == Err::<nat, ErrorView>(e@) && final(self)@
                    == old(self)@.after_read(balance_key)),
            },
            old(self).spec_held().contains(balance_key.normalize()) ==> !(r matches Err(e) && e@ is Storage),
            final(self).spec_held() == old(self).spec_held(),
            final(self).spec_reader() == old(self).spec_reader(),
    {
        match self.read(&balance_key) {
            Ok(found) => balance_found(balance_key, found),
            Err(_) => Err(Error::Storage),
        }
    }
}

impl<'a, R: StateReader> StateReader for &'a TrackingCopy<R> {
    type Error = R::Error;

    open spec fn contents(&self) -> StateView {
        StateView { values: (**self)@.state }
    }

    fn read(&self, key: &Key) -> (r: Result<Option<Value>, R::Error>) {
        (**self).get(key)
    }
}

} // verus!
