//! What the engine asks of the executor that runs a module against a tracking copy, and what
//! the executor reports back.

use crate::engine_state::execution_result::{ExecutionResult, ExecutionResultView};
use crate::shared::gas::Gas;
use crate::shared::newtypes::{blake2b256, Blake2bHash};
use crate::storage::global_state::StateReader;
use crate::tracking_copy::{TrackingCopy, TrackingCopyView};
use crate::types::account::{Account, AccountView, KeySet, NamedKeys};
use crate::types::bytesrepr::{push_bytes32, push_u64_le, u64_le};
use crate::types::key::{Key, PublicKey, URef};
use crate::types::value::{TypeMismatch, Value, ValueView};
use crate::types::vec_map::Duplicate;
use vstd::prelude::*;

verus! {

/// The name under which an account knows the mint contract.
pub const MINT_NAME: &'static str = "mint";

/// The name under which an account knows the proof of stake contract.
pub const POS_NAME: &'static str = "pos";

/// The phase of a deploy in which a module runs.
#[derive(Clone, Copy, Debug, PartialEq, Eq, Structural)]
pub enum Phase {
    System,
    Payment,
    Session,
    FinalizePayment,
}

impl Phase {
    /// The byte that stands for the phase where a hash is taken over it.
    pub open spec fn spec_tag(self) -> u8 {
        match self {
            Phase::System => 0,
            Phase::Payment => 1,
            Phase::Session => 2,
            Phase::FinalizePayment => 3,
        }
    }

    #[verifier::when_used_as_spec(spec_tag)]
    pub fn tag(self) -> (r: u8)
        ensures
            r == self.spec_tag(),
    {
        match self {
            Phase::System => 0,
            Phase::Payment => 1,
            Phase::Session => 2,
            Phase::FinalizePayment => 3,
        }
    }
}

/// Why an execution failed.
#[derive(Clone, Debug, PartialEq, Eq)]
pub enum Error {
    /// The gas limit was reached.
    OutOfGas,
    /// The module gave up with a code of its own.
    Revert(u32),
    /// The rights of the reference do not allow the access.
    InvalidAccess(URef),
    /// The reference is not among the keys that the caller knows.
    ForgedReference(URef),
    KeyNotFound(Key),
    TypeMismatch(TypeMismatch),
    /// What is named is not among the keys that the caller knows.
    URefNotFound(String),
    /// The authorizing keys do not reach the deployment threshold.
    DeploymentAuthorizationFailure,
    /// A host function failed, with this message.
    HostError(String),
    /// The interpreter failed, with this message.
    InterpreterError(String),
    /// The module could not be read, with this message.
    ParityWasmError(String),
    /// The store of the global state failed.
    Storage,
}

/// Why an execution failed, as a plain value.
pub enum ErrorView {
    OutOfGas,
    Revert(u32),
    InvalidAccess(URef),
    ForgedReference(URef),
    KeyNotFound(Key),
    TypeMismatch(TypeMismatch),
    URefNotFound(Seq<char>),
    DeploymentAuthorizationFailure,
    HostError(Seq<char>),
    InterpreterError(Seq<char>),
    ParityWasmError(Seq<char>),
    Storage,
}

impl View for Error {
    type V = ErrorView;

    open spec fn view(&self) -> ErrorView {
        match self {
            Error::OutOfGas => ErrorView::OutOfGas,
            Error::Revert(code) => ErrorView::Revert(*code),
            Error::InvalidAccess(uref) => ErrorView::InvalidAccess(*uref),
            Error::ForgedReference(uref) => ErrorView::ForgedReference(*uref),
            Error::KeyNotFound(key) => ErrorView::KeyNotFound(*key),
            Error::TypeMismatch(mismatch) => ErrorView::TypeMismatch(*mismatch),
            Error::URefNotFound(name) => ErrorView::URefNotFound(name@),
            Error::DeploymentAuthorizationFailure => ErrorView::DeploymentAuthorizationFailure,
            Error::HostError(message) => ErrorView::HostError(message@),
            Error::InterpreterError(message) => ErrorView::InterpreterError(message@),
            Error::ParityWasmError(message) => ErrorView::ParityWasmError(message@),
            Error::Storage => ErrorView::Storage,
        }
    }
}

impl Duplicate for Error {
    fn duplicate(&self) -> (r: Self) {
        match self {
            Error::OutOfGas => Error::OutOfGas,
            Error::Revert(code) => Error::Revert(*code),
            Error::InvalidAccess(uref) => Error::InvalidAccess(*uref),
            Error::ForgedReference(uref) => Error::ForgedReference(*uref),
            Error::KeyNotFound(key) => Error::KeyNotFound(*key),
            Error::TypeMismatch(mismatch) => Error::TypeMismatch(*mismatch),
            Error::URefNotFound(name) => Error::URefNotFound(name.clone()),
            Error::DeploymentAuthorizationFailure => Error::DeploymentAuthorizationFailure,
            Error::HostError(message) => Error::HostError(message.clone()),
            Error::InterpreterError(message) => Error::InterpreterError(message.clone()),
            Error::ParityWasmError(message) => Error::ParityWasmError(message.clone()),
            Error::Storage => Error::Storage,
        }
    }
}

/// The time of the block that holds the deploy.
#[derive(Clone, Copy, Debug, PartialEq, Eq, Structural)]
pub struct BlockTime(pub u64);

/// Makes the addresses of the unforgeable references that a module creates. The addresses
/// depend on the hash of the deploy, the phase, and how many were made before, and on
/// nothing else.
#[derive(Clone, Copy, Debug)]
pub struct AddressGenerator {
    seed: [u8; 32],
    made: u64,
}

impl AddressGenerator {
    /// The seed of the generator for a deploy and a phase: the hash of the hash of the
    /// deploy followed by the byte of the phase.
    pub open spec fn seed_of(deploy_hash: [u8; 32], phase: Phase) -> [u8; 32] {
        blake2b256(deploy_hash@ + seq![phase.spec_tag()])
    }

    /// The address that a generator with seed `seed` makes after `made` others: the hash of
    /// the seed followed by `made` in eight bytes, least significant first.
    pub open spec fn address_of(seed: [u8; 32], made: u64) -> [u8; 32] {
        blake2b256(seed@ + u64_le(made))
    }

    /// The seed of the generator.
    pub closed spec fn seed(&self) -> [u8; 32] {
        self.seed
    }

    /// How many addresses the generator has made, modulo `2^64`.
    pub closed spec fn made(&self) -> u64 {
        self.made
    }

    /// The generator for a deploy and a phase, which has made no address yet.
    pub closed spec fn spec_new(deploy_hash: [u8; 32], phase: Phase) -> AddressGenerator {
        AddressGenerator { seed: Self::seed_of(deploy_hash, phase), made: 0 }
    }

    /// The generator for a deploy and a phase, which has made no address yet.
    pub fn new(deploy_hash: [u8; 32], phase: Phase) -> (r: Self)
        ensures
            r == Self::spec_new(deploy_hash, phase),
            r.seed() == Self::seed_of(deploy_hash, phase),
            r.made() == 0,
    {
        let mut bytes: Vec<u8> = Vec::new();
        push_bytes32(&mut bytes, &deploy_hash);
        bytes.push(phase.tag());
        assert(bytes@ =~= deploy_hash@ + seq![phase.spec_tag()]);
        AddressGenerator { seed: Blake2bHash::new(bytes.as_slice()).value(), made: 0 }
    }

    /// The next address.
    pub fn create_address(&mut self) -> (r: [u8; 32])
        ensures
            r == Self::address_of(old(self).seed(), old(self).made()),
            final(self).seed() == old(self).seed(),
            final(self).made() == old(self).made().wrapping_add(1),
    {
        let mut bytes: Vec<u8> = Vec::new();
        push_bytes32(&mut bytes, &self.seed);
        push_u64_le(&mut bytes, self.made);
        assert(bytes@ =~= self.seed@ + u64_le(self.made));
        self.made = self.made.wrapping_add(1);
        Blake2bHash::new(bytes.as_slice()).value()
    }
}

/// What a module is run with, as plain values.
pub struct ExecInput {
    pub args: Seq<u8>,
    /// The keys that the module may use by name.
    pub known_keys: Map<Seq<char>, Key>,
    /// The key in whose context the module runs.
    pub base_key: Key,
    pub account: AccountView,
    pub authorization_keys: Set<PublicKey>,
    pub blocktime: BlockTime,
    pub deploy_hash: [u8; 32],
    pub gas_limit: nat,
    pub protocol_version: u64,
    pub phase: Phase,
}

/// What a run leaves, as plain values.
pub struct ExecOutput {
    pub result: ExecutionResultView,
    pub tracking_copy: TrackingCopyView,
}

/// What a run with keys of its own leaves, as plain values.
pub struct DirectExecOutput {
    pub result: ExecutionResultView,
    pub known_keys: Map<Seq<char>, Key>,
    pub tracking_copy: TrackingCopyView,
}

/// What the run of an installer leaves, as plain values.
pub struct InstallOutput {
    /// The value that the installer returned, or why it failed.
    pub result: Result<ValueView, ErrorView>,
    pub known_keys: Map<Seq<char>, Key>,
    pub address_generator: AddressGenerator,
    pub tracking_copy: TrackingCopyView,
}

/// Runs modules of type `A` against a tracking copy, metering gas.
///
/// What a run leaves depends on the executor, the module, what the module is run with and
/// the tracking copy alone, unless the store under the tracking copy fails during the
/// run: the spec functions of the trait name what a run leaves where the store holds, and
/// a run during which it fails reports the failure of the store. An executor promises
/// nothing else: the engine handles whatever result comes back.
pub trait Executor<A> {
    /// What `exec` leaves.
    spec fn exec_spec(&self, module: A, input: ExecInput, tracking_copy: TrackingCopyView) -> ExecOutput;

    /// What `exec_direct` leaves.
    spec fn exec_direct_spec(
        &self,
        module: A,
        input: ExecInput,
        tracking_copy: TrackingCopyView,
    ) -> DirectExecOutput;

    /// What `better_exec` leaves.
    spec fn better_exec_spec(
        &self,
        module: A,
        input: ExecInput,
        address_generator: AddressGenerator,
        tracking_copy: TrackingCopyView,
    ) -> InstallOutput;

    /// Runs `module` for `account` in the context of `base_key`. The module may use the
    /// keys that the account knows.
    fn exec<R: StateReader>(
        &self,
        module: A,
        args: &Vec<u8>,
        base_key: Key,
        account: &Account,
        authorization_keys: &KeySet,
        blocktime: BlockTime,
        deploy_hash: [u8; 32],
        gas_limit: Gas,
        protocol_version: u64,
        tracking_copy: &mut TrackingCopy<R>,
        phase: Phase,
    ) -> (r: ExecutionResult)
        ensures
            r@.is_store_failure() || self.exec_spec(
                module,
                ExecInput {
                    args: args@,
                    known_keys: account@.named_keys,
                    base_key,
                    account: account@,
                    authorization_keys: authorization_keys@,
                    blocktime,
                    deploy_hash,
                    gas_limit: gas_limit@,
                    protocol_version,
                    phase,
                },
                old(tracking_copy)@,
            ) == (ExecOutput { result: r@, tracking_copy: final(tracking_copy)@ }),
    ;

    /// Runs `module` with the keys of `keys`, whoever the account is: this is how the
    /// system account finalizes a payment.
    fn exec_direct<R: StateReader>(
        &self,
        module: A,
        args: &Vec<u8>,
        keys: &mut NamedKeys,
        base_key: Key,
        account: &Account,
        authorization_keys: &KeySet,
        blocktime: BlockTime,
        deploy_hash: [u8; 32],
        gas_limit: Gas,
        protocol_version: u64,
        tracking_copy: &mut TrackingCopy<R>,
        phase: Phase,
    ) -> (r: ExecutionResult)
        ensures
            r@.is_store_failure() || self.exec_direct_spec(
                module,
                ExecInput {
                    args: args@,
                    known_keys: old(keys)@,
                    base_key,
                    account: account@,
                    authorization_keys: authorization_keys@,
                    blocktime,
                    deploy_hash,
                    gas_limit: gas_limit@,
                    protocol_version,
                    phase,
                },
                old(tracking_copy)@,
            ) == (DirectExecOutput {
                result: r@,
                known_keys: final(keys)@,
                tracking_copy: final(tracking_copy)@,
            }),
    ;

    /// Runs an installer at genesis, with the keys of `keys` and the given address
    /// generator, and returns the value that the installer returns.
    fn better_exec<R: StateReader>(
        &self,
        module: A,
        args: &Vec<u8>,
        keys: &mut NamedKeys,
        base_key: Key,
        account: &Account,
        authorization_keys: &KeySet,
        blocktime: BlockTime,
        deploy_hash: [u8; 32],
        gas_limit: Gas,
        address_generator: &mut AddressGenerator,
        protocol_version: u64,
        tracking_copy: &mut TrackingCopy<R>,
        phase: Phase,
    ) -> (r: Result<Value, Error>)
        ensures
            (r matches Err(e) && e@ is Storage) || self.better_exec_spec(
                module,
                ExecInput {
                    args: args@,
                    known_keys: old(keys)@,
                    base_key,
                    account: account@,
                    authorization_keys: authorization_keys@,
                    blocktime,
                    deploy_hash,
                    gas_limit: gas_limit@,
                    protocol_version,
                    phase,
                },
                *old(address_generator),
                old(tracking_copy)@,
            ) == (InstallOutput {
                result: match r {
                    Ok(value) => Ok(value@),
                    Err(e) => Err(e@),
                },
                known_keys: final(keys)@,
                address_generator: *final(address_generator),
                tracking_copy: final(tracking_copy)@,
            }),
    ;
}

/// Whether the caller holds the reference `uref`: one of the keys of `known_keys`, the keys
/// that the caller knows together with those handed to the call, is a reference with the
/// same address whose rights cover those of `uref`.
pub open spec fn spec_holds_uref(known_keys: Map<Seq<char>, Key>, uref: URef) -> bool {
    exists|name: Seq<char>|
        known_keys.contains_key(name) && (#[trigger] known_keys[name] matches Key::URef(known)
            && known.addr == uref.addr && rights_cover(known, uref))
}

/// Whether the rights of `known` hold every right of `presented`.
pub open spec fn rights_cover(known: URef, presented: URef) -> bool {
    match presented.access_rights {
        None => true,
        Some(asked) => match known.access_rights {
            None => !asked.read && !asked.write && !asked.add,
            Some(held) => (asked.read ==> held.read) && (asked.write ==> held.write) && (asked.add
                ==> held.add),
        },
    }
}

/// A reference whose address is that of no known reference is not held, whatever rights
/// it claims.
pub proof fn lemma_unknown_address_is_forged(known_keys: Map<Seq<char>, Key>, uref: URef)
    requires
        forall|name: Seq<char>|
            known_keys.contains_key(name) ==> !(#[trigger] known_keys[name] matches Key::URef(known)
                && known.addr == uref.addr),
    ensures
        !spec_holds_uref(known_keys, uref),
{
}

/// Checks that the caller holds the reference that a module presents. A reference is
/// forged where no known key is a reference with its address, and also where it claims a
/// right that no known reference with its address carries. Whether the rights of a
/// reference allow an access is another matter, which `URef::is_readable`,
/// `URef::is_writeable` and `URef::is_addable` decide at each access.
pub fn validate_uref(known_keys: &NamedKeys, uref: &URef) -> (r: Result<(), Error>)
    ensures
        spec_holds_uref(known_keys@, *uref) ==> r.is_ok(),
        !spec_holds_uref(known_keys@, *uref) ==> (r matches Err(e) && e@ == ErrorView::ForgedReference(
            *uref,
        )),
{
    let n = known_keys.len();
    let mut i: usize = 0;
    proof {
        known_keys.lemma_entries();
    }
    while i < n
        invariant
            i <= n,
            n == known_keys.ids().len(),
            known_keys.wf(),
            forall|j: int|
                0 <= j < i ==> !(#[trigger] known_keys.vals()[j] matches Key::URef(known)
                    && known.addr == uref.addr && rights_cover(known, *uref)),
        decreases n - i,
    {
        if let Key::URef(known) = *known_keys.value_at(i) {
            let covered = match uref.access_rights {
                None => true,
                Some(asked) => match known.access_rights {
                    None => !asked.read && !asked.write && !asked.add,
                    Some(held) => held.covers(&asked),
                },
            };
            if crate::types::key::bytes_eq(&known.addr, &uref.addr) && covered {
                proof {
                    known_keys.lemma_entries();
                    assert(known_keys@.contains_key(known_keys.ids()[i as int]));
                }
                return Ok(());
            }
        }
        i += 1;
    }
    proof {
        known_keys.lemma_entries();
        if spec_holds_uref(known_keys@, *uref) {
            let name = choose|name: Seq<char>|
                known_keys@.contains_key(name) && (#[trigger] known_keys@[name] matches Key::URef(
                    known,
                ) && known.addr == uref.addr && rights_cover(known, *uref));
            let j = known_keys.ids().index_of(name);
            assert(known_keys@[known_keys.ids()[j]] == known_keys.vals()[j]);
        }
    }
    Err(Error::ForgedReference(*uref))
}

} // verus!
