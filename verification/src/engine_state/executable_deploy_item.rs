//! The two items of a deploy that can run: the payment code and the session code.

use crate::types::contract::copy_vec;
use crate::types::vec_map::Duplicate;
use vstd::prelude::*;

verus! {

/// Code that a deploy runs, given as bytes or as a contract that the global state holds.
#[derive(Debug)]
pub enum ExecutableDeployItem {
    /// The bytes of a module.
    ModuleBytes { module_bytes: Vec<u8>, args: Vec<u8> },
    /// A contract stored under the hash `hash`.
    StoredContractByHash { hash: Vec<u8>, args: Vec<u8> },
    /// A contract that the account knows by `name`.
    StoredContractByName { name: String, args: Vec<u8> },
    /// A contract stored under the unforgeable reference with address `uref`.
    StoredContractByURef { uref: Vec<u8>, args: Vec<u8> },
}

/// What an executable deploy item is, as plain values.
pub enum DeployItemView {
    ModuleBytes { module_bytes: Seq<u8>, args: Seq<u8> },
    StoredContractByHash { hash: Seq<u8>, args: Seq<u8> },
    StoredContractByName { name: Seq<char>, args: Seq<u8> },
    StoredContractByURef { uref: Seq<u8>, args: Seq<u8> },
}

impl DeployItemView {
    /// The arguments that the code is run with.
    pub open spec fn args(self) -> Seq<u8> {
        match self {
            DeployItemView::ModuleBytes { args, .. } => args,
            DeployItemView::StoredContractByHash { args, .. } => args,
            DeployItemView::StoredContractByName { args, .. } => args,
            DeployItemView::StoredContractByURef { args, .. } => args,
        }
    }
}

impl View for ExecutableDeployItem {
    type V = DeployItemView;

    open spec fn view(&self) -> DeployItemView {
        match self {
            ExecutableDeployItem::ModuleBytes { module_bytes, args } => DeployItemView::ModuleBytes {
                module_bytes: module_bytes@,
                args: args@,
            },
            ExecutableDeployItem::StoredContractByHash {
                hash,
                args,
            } => DeployItemView::StoredContractByHash { hash: hash@, args: args@ },
            ExecutableDeployItem::StoredContractByName {
                name,
                args,
            } => DeployItemView::StoredContractByName { name: name@, args: args@ },
            ExecutableDeployItem::StoredContractByURef {
                uref,
                args,
            } => DeployItemView::StoredContractByURef { uref: uref@, args: args@ },
        }
    }
}

impl ExecutableDeployItem {
    /// The arguments that the code is run with.
    pub fn args(&self) -> (r: &Vec<u8>)
        ensures
            r@ == self@.args(),
    {
        match self {
            ExecutableDeployItem::ModuleBytes { args, .. } => args,
            ExecutableDeployItem::StoredContractByHash { args, .. } => args,
            ExecutableDeployItem::StoredContractByName { args, .. } => args,
            ExecutableDeployItem::StoredContractByURef { args, .. } => args,
        }
    }
}

impl Duplicate for ExecutableDeployItem {
    fn duplicate(&self) -> (r: Self) {
        match self {
            ExecutableDeployItem::ModuleBytes {
                module_bytes,
                args,
            } => ExecutableDeployItem::ModuleBytes {
                module_bytes: copy_vec(module_bytes),
                args: copy_vec(args),
            },
            ExecutableDeployItem::StoredContractByHash {
                hash,
                args,
            } => ExecutableDeployItem::StoredContractByHash {
                hash: copy_vec(hash),
                args: copy_vec(args),
            },
            ExecutableDeployItem::StoredContractByName {
                name,
                args,
            } => ExecutableDeployItem::StoredContractByName {
                name: name.clone(),
                args: copy_vec(args),
            },
            ExecutableDeployItem::StoredContractByURef {
                uref,
                args,
            } => ExecutableDeployItem::StoredContractByURef {
                uref: copy_vec(uref),
                args: copy_vec(args),
            },
        }
    }
}

} // verus!
