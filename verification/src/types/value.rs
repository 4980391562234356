//! The values of the global state.

use crate::types::account::{Account, AccountView};
use crate::types::contract::{copy_vec, Contract, ContractView};
use crate::types::key::Key;
use crate::types::uint::{U256, U512};
use crate::types::vec_map::Duplicate;
use vstd::prelude::*;

verus! {

/// The names of the kinds of values and of transforms, as a type mismatch reports them.
#[derive(Clone, Copy, Debug, PartialEq, Eq, Structural)]
pub enum TypeName {
    Int32,
    UInt64,
    UInt128,
    UInt256,
    UInt512,
    ByteArray,
    String,
    Key,
    ListOfKeys,
    Account,
    Contract,
    NamedKey,
    /// An account or a contract: what named keys can be added to.
    AccountOrContract,
    /// A number or a named key: what can be added to a stored value.
    NumberOrNamedKey,
    /// A key that is an unforgeable reference.
    KeyURef,
    Write,
    AddInt32,
    AddUInt64,
    AddUInt128,
    AddUInt256,
    AddUInt512,
    AddKeys,
}

/// A value was of another kind than the operation needs.
#[derive(Clone, Copy, Debug, PartialEq, Eq, Structural)]
pub struct TypeMismatch {
    pub expected: TypeName,
    pub found: TypeName,
}

impl TypeMismatch {
    pub fn new(expected: TypeName, found: TypeName) -> (r: Self)
        ensures
            r == (TypeMismatch { expected, found }),
    {
        TypeMismatch { expected, found }
    }
}

/// A value of the global state.
#[derive(Debug)]
pub enum Value {
    Int32(i32),
    UInt64(u64),
    UInt128(u128),
    UInt256(U256),
    UInt512(U512),
    ByteArray(Vec<u8>),
    String(String),
    Key(Key),
    ListOfKeys(Vec<Key>),
    Account(Account),
    Contract(Contract),
    NamedKey(String, Key),
}

/// What a value is, as plain values.
pub enum ValueView {
    Int32(i32),
    UInt64(u64),
    UInt128(u128),
    UInt256(nat),
    UInt512(nat),
    ByteArray(Seq<u8>),
    String(Seq<char>),
    Key(Key),
    ListOfKeys(Seq<Key>),
    Account(AccountView),
    Contract(ContractView),
    NamedKey(Seq<char>, Key),
}

impl ValueView {
    /// The name of the value's kind.
    pub open spec fn type_tag(self) -> TypeName {
        match self {
            ValueView::Int32(_) => TypeName::Int32,
            ValueView::UInt64(_) => TypeName::UInt64,
            ValueView::UInt128(_) => TypeName::UInt128,
            ValueView::UInt256(_) => TypeName::UInt256,
            ValueView::UInt512(_) => TypeName::UInt512,
            ValueView::ByteArray(_) => TypeName::ByteArray,
            ValueView::String(_) => TypeName::String,
            ValueView::Key(_) => TypeName::Key,
            ValueView::ListOfKeys(_) => TypeName::ListOfKeys,
            ValueView::Account(_) => TypeName::Account,
            ValueView::Contract(_) => TypeName::Contract,
            ValueView::NamedKey(_, _) => TypeName::NamedKey,
        }
    }
}

impl View for Value {
    type V = ValueView;

    open spec fn view(&self) -> ValueView {
        match self {
            Value::Int32(i) => ValueView::Int32(*i),
            Value::UInt64(i) => ValueView::UInt64(*i),
            Value::UInt128(i) => ValueView::UInt128(*i),
            Value::UInt256(i) => ValueView::UInt256(i@),
            Value::UInt512(i) => ValueView::UInt512(i@),
            Value::ByteArray(bytes) => ValueView::ByteArray(bytes@),
            Value::String(s) => ValueView::String(s@),
            Value::Key(key) => ValueView::Key(*key),
            Value::ListOfKeys(keys) => ValueView::ListOfKeys(keys@),
            Value::Account(account) => ValueView::Account(account@),
            Value::Contract(contract) => ValueView::Contract(contract@),
            Value::NamedKey(name, key) => ValueView::NamedKey(name@, *key),
        }
    }
}

impl Value {
    /// The name of the value's kind.
    pub fn type_tag(&self) -> (r: TypeName)
        ensures
            r == self@.type_tag(),
    {
        match self {
            Value::Int32(_) => TypeName::Int32,
            Value::UInt64(_) => TypeName::UInt64,
            Value::UInt128(_) => TypeName::UInt128,
            Value::UInt256(_) => TypeName::UInt256,
            Value::UInt512(_) => TypeName::UInt512,
            Value::ByteArray(_) => TypeName::ByteArray,
            Value::String(_) => TypeName::String,
            Value::Key(_) => TypeName::Key,
            Value::ListOfKeys(_) => TypeName::ListOfKeys,
            Value::Account(_) => TypeName::Account,
            Value::Contract(_) => TypeName::Contract,
            Value::NamedKey(_, _) => TypeName::NamedKey,
        }
    }
}

impl Duplicate for Value {
    fn duplicate(&self) -> (r: Self) {
        match self {
            Value::Int32(i) => Value::Int32(*i),
            Value::UInt64(i) => Value::UInt64(*i),
            Value::UInt128(i) => Value::UInt128(*i),
            Value::UInt256(i) => Value::UInt256(*i),
            Value::UInt512(i) => Value::UInt512(*i),
            Value::ByteArray(bytes) => Value::ByteArray(copy_vec(bytes)),
            Value::String(s) => Value::String(s.clone()),
            Value::Key(key) => Value::Key(*key),
            Value::ListOfKeys(keys) => Value::ListOfKeys(copy_vec(keys)),
            Value::Account(account) => Value::Account(account.duplicate()),
            Value::Contract(contract) => Value::Contract(contract.duplicate()),
            Value::NamedKey(name, key) => Value::NamedKey(name.clone(), *key),
        }
    }
}

} // verus!
