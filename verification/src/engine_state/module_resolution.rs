//! How the module of a deploy item is found: from the bytes that the item brings, or from
//! the contract that it names by hash, by name or by reference.

use crate::engine_state::error::{Error, ErrorView};
use crate::engine_state::executable_deploy_item::{DeployItemView, ExecutableDeployItem};
use crate::engine_state::installer::read_only;
use crate::tracking_copy::TrackingCopyView;
use crate::types::account::{Account, AccountView, NamedKeys};
use crate::types::key::{
    array32, bytes_eq, to_array32, AccessRights, Key, URef, HASH_SIZE, UREF_ADDR_SIZE,
};
use crate::wasm_prep::{ModuleBytes, Preprocessor};
use crate::types::names::{
    lemma_name_order_total, lemma_name_order_transitive, name_before, name_comes_before,
};
use vstd::prelude::*;

verus! {

/// The key that `keys` binds to `name`, if any.
pub fn lookup(keys: &NamedKeys, name: &str) -> (r: Option<Key>)
    ensures
        r == spec_lookup(keys@, name@),
{
    let owned = name.to_owned();
    match keys.get(&owned) {
        Some(key) => Some(*key),
        None => None,
    }
}

/// The key that `keys` binds to `name`, if any.
pub open spec fn spec_lookup(keys: Map<Seq<char>, Key>, name: Seq<char>) -> Option<Key> {
    if keys.contains_key(name) {
        Some(keys[name])
    } else {
        None
    }
}

/// Whether `key` is a reference with address `addr`.
pub open spec fn is_uref_at(key: Key, addr: [u8; 32]) -> bool {
    key matches Key::URef(known) && known.addr == addr
}

/// Whether `keys` binds `name` to a reference with address `addr`.
pub open spec fn names_uref(keys: Map<Seq<char>, Key>, name: Seq<char>, addr: [u8; 32]) -> bool {
    keys.contains_key(name) && is_uref_at(keys[name], addr)
}

/// Whether `keys` holds a reference with address `addr`.
pub open spec fn knows_uref(keys: Map<Seq<char>, Key>, addr: [u8; 32]) -> bool {
    exists|name: Seq<char>| names_uref(keys, name, addr)
}

/// Whether `name` is the first name, in the order of names, that `keys` binds to a
/// reference with address `addr`.
pub open spec fn is_first_name_of(
    keys: Map<Seq<char>, Key>,
    addr: [u8; 32],
    name: Seq<char>,
) -> bool {
    names_uref(keys, name, addr) && forall|other: Seq<char>| #[trigger]
        names_uref(keys, other, addr) ==> !name_before(other, name)
}

/// The reference with address `addr` that `keys` holds under the first name, in the order
/// of names, that is bound to such a reference; nothing where `keys` holds none.
pub open spec fn first_known_uref(keys: Map<Seq<char>, Key>, addr: [u8; 32]) -> Option<URef> {
    if knows_uref(keys, addr) {
        match keys[choose|name: Seq<char>| is_first_name_of(keys, addr, name)] {
            Key::URef(known) => Some(known),
            _ => None,
        }
    } else {
        None
    }
}

/// The reference with address `addr` that `keys` holds under the first name, in the order
/// of names, that is bound to such a reference.
pub fn find_first_known_uref(keys: &NamedKeys, addr: &[u8; 32]) -> (r: Option<URef>)
    ensures
        r == first_known_uref(keys@, *addr),
        r matches Some(known) ==> known.addr == *addr,
{
    let n = keys.len();
    let mut best: Option<usize> = None;
    let mut i: usize = 0;
    proof {
        keys.lemma_entries();
    }
    while i < n
        invariant
            i <= n,
            n == keys.ids().len(),
            n == keys.vals().len(),
            keys.wf(),
            match best {
                Some(b) => b < i && is_uref_at(keys.vals()[b as int], *addr) && forall|j: int|
                    0 <= j < i && is_uref_at(#[trigger] keys.vals()[j], *addr) ==> !name_before(
                        keys.ids()[j],
                        keys.ids()[b as int],
                    ),
                None => forall|j: int| 0 <= j < i ==> !is_uref_at(#[trigger] keys.vals()[j], *addr),
            },
        decreases n - i,
    {
        if let Key::URef(known) = *keys.value_at(i) {
            if bytes_eq(&known.addr, addr) {
                let better = match best {
                    None => true,
                    Some(b) => name_comes_before(keys.key_at(i).as_str(), keys.key_at(b).as_str()),
                };
                proof {
                    lemma_name_order_total(keys.ids()[i as int], keys.ids()[i as int]);
                    if let Some(b) = best {
                        if better {
                            assert forall|j: int|
                                0 <= j < i && is_uref_at(
                                    #[trigger] keys.vals()[j],
                                    *addr,
                                ) implies !name_before(keys.ids()[j], keys.ids()[i as int]) by {
                                if name_before(keys.ids()[j], keys.ids()[i as int]) {
                                    lemma_name_order_transitive(
                                        keys.ids()[j],
                                        keys.ids()[i as int],
                                        keys.ids()[b as int],
                                    );
                                }
                            }
                        }
                    }
                }
                if better {
                    best = Some(i);
                }
            }
        }
        i += 1;
    }
    proof {
        keys.lemma_entries();
    }
    match best {
        None => {
            proof {
                if knows_uref(keys@, *addr) {
                    let name = choose|name: Seq<char>| names_uref(keys@, name, *addr);
                    let j = keys.ids().index_of(name);
                    assert(keys@[keys.ids()[j]] == keys.vals()[j]);
                }
            }
            None
        },
        Some(b) => {
            proof {
                let first = keys.ids()[b as int];
                assert(keys@.contains_key(first) && keys@[first] == keys.vals()[b as int]);
                assert forall|other: Seq<char>| #[trigger]
                    names_uref(keys@, other, *addr) implies !name_before(other, first) by {
                    let j = keys.ids().index_of(other);
                    assert(keys@[keys.ids()[j]] == keys.vals()[j]);
                }
                assert(is_first_name_of(keys@, *addr, first));
                let chosen = choose|name: Seq<char>| is_first_name_of(keys@, *addr, name);
                lemma_name_order_total(chosen, first);
                assert(names_uref(keys@, first, *addr));
                assert(names_uref(keys@, chosen, *addr));
            }
            match *keys.value_at(b) {
                Key::URef(known) => Some(known),
                _ => None,
            }
        },
    }
}

/// Where the module of a deploy item comes from.
pub enum ModuleSource<'a> {
    /// The item brings the bytes of the module.
    Bytes(&'a Vec<u8>),
    /// The module is that of the contract stored under this key.
    Stored(Key),
}

/// Where the module of a deploy item comes from, as a plain value.
pub enum ModuleSourceView {
    Bytes(Seq<u8>),
    Stored(Key),
}

impl<'a> View for ModuleSource<'a> {
    type V = ModuleSourceView;

    open spec fn view(&self) -> ModuleSourceView {
        match self {
            ModuleSource::Bytes(bytes) => ModuleSourceView::Bytes(bytes@),
            ModuleSource::Stored(key) => ModuleSourceView::Stored(*key),
        }
    }
}

/// Where the module of a deploy item comes from: the bytes that the item brings, or the
/// key under which the contract that it names is stored.
///
/// A hash and the address of a reference are 32 bytes long. A name must be one that the
/// account knows, and where it names a reference, one that may be read. The address of a
/// reference must be that of a reference that the account knows: the first name, in the
/// order of names, that is bound to a reference with that address decides, and that
/// reference must be one that may be read.
pub open spec fn spec_module_source(item: DeployItemView, account: AccountView) -> Result<
    ModuleSourceView,
    ErrorView,
> {
    match item {
        DeployItemView::ModuleBytes { module_bytes, .. } => Ok(
            ModuleSourceView::Bytes(module_bytes),
        ),
        DeployItemView::StoredContractByHash { hash, .. } => if hash.len() != 32 {
            Err(ErrorView::InvalidHashLength { expected: HASH_SIZE, actual: hash.len() as usize })
        } else {
            Ok(ModuleSourceView::Stored(Key::Hash(array32(hash))))
        },
        DeployItemView::StoredContractByName { name, .. } => match spec_lookup(
            account.named_keys,
            name,
        ) {
            None => Err(ErrorView::ExecError(crate::execution::ErrorView::URefNotFound(name))),
            Some(Key::URef(uref)) => if uref.spec_is_readable() {
                Ok(ModuleSourceView::Stored(Key::URef(uref).spec_normalize()))
            } else {
                Err(ErrorView::ExecError(crate::execution::ErrorView::ForgedReference(uref)))
            },
            Some(key) => Ok(ModuleSourceView::Stored(key)),
        },
        DeployItemView::StoredContractByURef { uref, .. } => if uref.len() != 32 {
            Err(ErrorView::InvalidHashLength { expected: UREF_ADDR_SIZE, actual: uref.len() as usize })
        } else {
            let read_only = URef {
                addr: array32(uref),
                access_rights: Some(AccessRights { read: true, write: false, add: false }),
            };
            match first_known_uref(account.named_keys, read_only.addr) {
                None => Err(
                    ErrorView::ExecError(crate::execution::ErrorView::KeyNotFound(Key::URef(read_only))),
                ),
                Some(known) => if known.spec_is_readable() {
                    Ok(ModuleSourceView::Stored(Key::URef(read_only).spec_normalize()))
                } else {
                    Err(ErrorView::ExecError(crate::execution::ErrorView::ForgedReference(read_only)))
                },
            }
        },
    }
}

/// Where the module of a deploy item comes from.
pub fn module_source<'a>(deploy_item: &'a ExecutableDeployItem, account: &Account) -> (r: Result<
    ModuleSource<'a>,
    Error,
>)
    ensures
        match r {
            Ok(source) => spec_module_source(deploy_item@, account@) == Ok::<
                ModuleSourceView,
                ErrorView,
            >(source@),
            Err(e) => spec_module_source(deploy_item@, account@) == Err::<ModuleSourceView, ErrorView>(
                e@,
            ),
        },
{
    match deploy_item {
        ExecutableDeployItem::ModuleBytes { module_bytes, .. } => Ok(
            ModuleSource::Bytes(module_bytes),
        ),
        ExecutableDeployItem::StoredContractByHash { hash, .. } => {
            match to_array32(hash) {
                Some(hash) => Ok(ModuleSource::Stored(Key::Hash(hash))),
                None => Err(Error::InvalidHashLength { expected: HASH_SIZE, actual: hash.len() }),
            }
        },
        ExecutableDeployItem::StoredContractByName { name, .. } => {
            match account.urefs_lookup().get(name) {
                None => Err(Error::ExecError(crate::execution::Error::URefNotFound(name.clone()))),
                Some(key) => {
                    if let Key::URef(uref) = key {
                        if !uref.is_readable() {
                            return Err(
                                Error::ExecError(crate::execution::Error::ForgedReference(*uref)),
                            );
                        }
                    }
                    Ok(ModuleSource::Stored(key.normalize()))
                },
            }
        },
        ExecutableDeployItem::StoredContractByURef { uref, .. } => {
            let addr = match to_array32(uref) {
                Some(addr) => addr,
                None => {
                    return Err(
                        Error::InvalidHashLength { expected: UREF_ADDR_SIZE, actual: uref.len() },
                    );
                },
            };
            let read_only = URef::new(addr, AccessRights::read_only());
            match find_first_known_uref(account.urefs_lookup(), &read_only.addr) {
                None => Err(
                    Error::ExecError(crate::execution::Error::KeyNotFound(Key::URef(read_only))),
                ),
                Some(known) => {
                    if known.is_readable() {
                        Ok(ModuleSource::Stored(Key::URef(read_only).normalize()))
                    } else {
                        Err(Error::ExecError(crate::execution::Error::ForgedReference(read_only)))
                    }
                },
            }
        },
    }
}

/// The module of a deploy item: preprocessed from the bytes that the item brings, or read
/// from the contract that the item names.
pub open spec fn spec_get_module<A, P: Preprocessor<A>>(
    preprocessor: &P,
    tracking_copy: TrackingCopyView,
    item: DeployItemView,
    account: AccountView,
) -> Result<A, ErrorView> {
    match spec_module_source(item, account) {
        Err(e) => Err(e),
        Ok(ModuleSourceView::Bytes(bytes)) => match preprocessor.preprocess_spec(
            ModuleBytes { bytes },
        ) {
            Ok(module) => Ok(module),
            Err(e) => Err(ErrorView::WasmPreprocessingError(e)),
        },
        Ok(ModuleSourceView::Stored(key)) => match tracking_copy.get_contract(key) {
            Err(e) => Err(ErrorView::ExecError(e)),
            Ok(contract) => match preprocessor.deserialize_spec(
                ModuleBytes { bytes: contract.bytes },
            ) {
                Ok(module) => Ok(module),
                Err(e) => Err(ErrorView::WasmPreprocessingError(e)),
            },
        },
    }
}

/// The tracking copy after the module of a deploy item was fetched.
pub open spec fn after_get_module(
    tracking_copy: TrackingCopyView,
    item: DeployItemView,
    account: AccountView,
) -> TrackingCopyView {
    match spec_module_source(item, account) {
        Ok(ModuleSourceView::Stored(key)) => tracking_copy.after_read(key),
        _ => tracking_copy,
    }
}

} // verus!
