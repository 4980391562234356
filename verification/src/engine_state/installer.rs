//! The installation of the genesis state: the system contracts are installed, then the
//! accounts are made.

use crate::engine_state::SYSTEM_ACCOUNT_ADDR;
use crate::engine_state::error::{Error, ErrorView};
use crate::engine_state::execution_effect::EffectView;
use crate::engine_state::genesis::{
    push_validators, spec_bonded_validators, validators_bytes, GenesisAccount, GenesisConfigView,
    GenesisResultView,
};
use crate::execution::{
    AddressGenerator, BlockTime, ExecInput, Executor, Phase, MINT_NAME, POS_NAME,
};
use crate::shared::gas::Gas;
use crate::shared::motes::Motes;
use crate::storage::global_state::{CommitView, StateProvider, StateReader};
use crate::storage::protocol_data::ProtocolData;
use crate::tracking_copy::{TrackingCopy, TrackingCopyView};
use crate::types::account::{Account, AccountView, ActionThresholds, KeySet, NamedKeys, PurseId};
use crate::types::bytesrepr::{
    arg_views, args_bytes, args_fit, push_prefixed, push_u512, push_uref, serialize_args, str_bytes,
    u512_bytes, uref_bytes,
};
use crate::types::key::{AccessRights, Key, PublicKey, URef, Weight};
use crate::types::uint::U512;
use crate::types::value::{TypeMismatch, TypeName, Value, ValueView};
use crate::types::vec_map::VecMap;
use crate::wasm_prep::{ModuleBytes, Preprocessor};
use vstd::prelude::*;
use vstd::string::StringSliceAdditionalSpecFns;

verus! {

/// The entry point of the mint that makes a purse with motes in it.
pub const MINT_METHOD_NAME: &'static str = "mint";

/// The account in whose name the installers run at genesis: the account with the system
/// address as it is when it is created, with no key that it knows.
pub open spec fn virtual_system_account_view() -> AccountView {
    AccountView {
        public_key: SYSTEM_ACCOUNT_ADDR,
        named_keys: Map::empty(),
        purse_id: PurseId::spec_new(
            URef {
                addr: SYSTEM_ACCOUNT_ADDR,
                access_rights: Some(AccessRights { read: true, write: true, add: true }),
            },
        ),
        associated_keys: Map::<PublicKey, Weight>::empty().insert(
            PublicKey(SYSTEM_ACCOUNT_ADDR),
            Weight(1),
        ),
        action_thresholds: ActionThresholds { deployment: Weight(1), key_management: Weight(1) },
    }
}

/// The account in whose name the installers run at genesis.
pub fn virtual_system_account() -> (r: Account)
    ensures
        r@ == virtual_system_account_view(),
{
    Account::create(
        SYSTEM_ACCOUNT_ADDR,
        VecMap::new(),
        PurseId::new(URef::new(SYSTEM_ACCOUNT_ADDR, AccessRights::read_add_write())),
    )
}

/// The reference that a value holds, where it is a key that is a reference.
pub open spec fn spec_uref_of(value: ValueView) -> Result<URef, ErrorView> {
    match value {
        ValueView::Key(Key::URef(uref)) => Ok(uref),
        other => Err(
            ErrorView::ExecError(
                crate::execution::ErrorView::TypeMismatch(
                    TypeMismatch { expected: TypeName::KeyURef, found: other.type_tag() },
                ),
            ),
        ),
    }
}

/// The reference that a value holds, where it is a key that is a reference.
pub fn uref_of(value: Value) -> (r: Result<URef, Error>)
    ensures
        match r {
            Ok(uref) => spec_uref_of(value@) == Ok::<URef, ErrorView>(uref),
            Err(e) => spec_uref_of(value@) == Err::<URef, ErrorView>(e@),
        },
{
    match value {
        Value::Key(Key::URef(uref)) => Ok(uref),
        other => Err(
            Error::ExecError(
                crate::execution::Error::TypeMismatch(
                    TypeMismatch::new(TypeName::KeyURef, other.type_tag()),
                ),
            ),
        ),
    }
}

/// The arguments with which the proof of stake installer runs: the reference of the mint,
/// and the validators that are bonded.
pub open spec fn spec_pos_args(mint: URef, validators: Seq<(PublicKey, U512)>) -> Option<Seq<u8>> {
    if validators.len() > u32::MAX {
        None
    } else {
        let args = seq![uref_bytes(mint), validators_bytes(validators)];
        if args_fit(args) {
            Some(args_bytes(args))
        } else {
            None
        }
    }
}

/// The arguments with which the proof of stake installer runs.
pub fn pos_args(mint: &URef, validators: &Vec<(PublicKey, U512)>) -> (r: Option<Vec<u8>>)
    ensures
        match r {
            Some(bytes) => spec_pos_args(*mint, validators@) == Some(bytes@),
            None => spec_pos_args(*mint, validators@).is_none(),
        },
{
    let mut reference: Vec<u8> = Vec::new();
    push_uref(&mut reference, mint);
    let mut bonded: Vec<u8> = Vec::new();
    if !push_validators(&mut bonded, validators) {
        return None;
    }
    let mut args: Vec<Vec<u8>> = Vec::new();
    args.push(reference);
    args.push(bonded);
    proof {
        assert(arg_views(args@) =~= seq![
            uref_bytes(*mint),
            validators_bytes(validators@),
        ]);
    }
    serialize_args(&args)
}

/// The arguments with which the mint makes a purse that holds `motes`: the name of the
/// entry point, and the motes.
pub open spec fn spec_mint_args(motes: U512) -> Option<Seq<u8>> {
    let name = MINT_METHOD_NAME.spec_bytes();
    if name.len() > u32::MAX {
        None
    } else {
        let args = seq![str_bytes(name), u512_bytes(motes)];
        if args_fit(args) {
            Some(args_bytes(args))
        } else {
            None
        }
    }
}

/// The arguments with which the mint makes a purse that holds `motes`.
pub fn mint_args(motes: &U512) -> (r: Option<Vec<u8>>)
    ensures
        match r {
            Some(bytes) => spec_mint_args(*motes) == Some(bytes@),
            None => spec_mint_args(*motes).is_none(),
        },
{
    let mut name: Vec<u8> = Vec::new();
    if !push_prefixed(&mut name, MINT_METHOD_NAME.as_bytes()) {
        return None;
    }
    let mut amount: Vec<u8> = Vec::new();
    push_u512(&mut amount, motes);
    let mut args: Vec<Vec<u8>> = Vec::new();
    args.push(name);
    args.push(amount);
    proof {
        assert(arg_views(args@) =~= seq![
            str_bytes(MINT_METHOD_NAME.spec_bytes()),
            u512_bytes(*motes),
        ]);
    }
    serialize_args(&args)
}

/// What an installer is run with at genesis.
pub open spec fn install_input(
    args: Seq<u8>,
    known_keys: Map<Seq<char>, Key>,
    base_key: Key,
    deploy_hash: [u8; 32],
    protocol_version: u64,
) -> ExecInput {
    ExecInput {
        args,
        known_keys,
        base_key,
        account: virtual_system_account_view(),
        authorization_keys: Set::empty(),
        blocktime: BlockTime(0),
        deploy_hash,
        gas_limit: u64::MAX as nat,
        protocol_version,
        phase: Phase::System,
    }
}

/// What the run of an installer leaves, where it returned a reference.
pub struct Installed {
    pub reference: URef,
    pub address_generator: AddressGenerator,
    pub tracking_copy: TrackingCopyView,
}

/// The run of a module at genesis that must return a reference.
pub open spec fn spec_install<A, E: Executor<A>>(
    executor: &E,
    module: A,
    input: ExecInput,
    address_generator: AddressGenerator,
    tracking_copy: TrackingCopyView,
) -> Result<Installed, ErrorView> {
    let out = executor.better_exec_spec(module, input, address_generator, tracking_copy);
    match out.result {
        Err(e) => Err(ErrorView::ExecError(e)),
        Ok(value) => match spec_uref_of(value) {
            Err(e) => Err(e),
            Ok(reference) => Ok(
                Installed {
                    reference,
                    address_generator: out.address_generator,
                    tracking_copy: out.tracking_copy,
                },
            ),
        },
    }
}

/// Runs a module at genesis that must return a reference. Where the store fails during
/// the run, that failure is reported.
pub fn install<A, E: Executor<A>, R: StateReader>(
    executor: &E,
    module: A,
    args: &Vec<u8>,
    keys: NamedKeys,
    base_key: Key,
    deploy_hash: [u8; 32],
    address_generator: &mut AddressGenerator,
    protocol_version: u64,
    tracking_copy: &mut TrackingCopy<R>,
) -> (r: Result<URef, Error>)
    ensures
        match r {
            Ok(reference) => spec_install::<A, E>(
                executor,
                module,
                install_input(args@, keys@, base_key, deploy_hash, protocol_version),
                *old(address_generator),
                old(tracking_copy)@,
            ) == Ok::<Installed, ErrorView>(
                Installed {
                    reference,
                    address_generator: *final(address_generator),
                    tracking_copy: final(tracking_copy)@,
                },
            ),
            Err(e) => e@.is_store_failure() || spec_install::<A, E>(
                executor,
                module,
                install_input(args@, keys@, base_key, deploy_hash, protocol_version),
                *old(address_generator),
                old(tracking_copy)@,
            ) == Err::<Installed, ErrorView>(e@),
        },
{
    let mut keys = keys;
    let account = virtual_system_account();
    let authorization_keys: KeySet = KeySet::new();
    let result = executor.better_exec(
        module,
        args,
        &mut keys,
        base_key,
        &account,
        &authorization_keys,
        BlockTime(0),
        deploy_hash,
        Gas::from_u64(u64::MAX),
        address_generator,
        protocol_version,
        tracking_copy,
        Phase::System,
    );
    match result {
        Err(e) => Err(Error::ExecError(e)),
        Ok(value) => uref_of(value),
    }
}

/// The keys that an account of the genesis state knows: the mint and the proof of stake
/// contract, each by a reference with the given rights.
pub open spec fn genesis_known_keys(mint: URef, pos: URef) -> Map<Seq<char>, Key> {
    Map::<Seq<char>, Key>::empty().insert(MINT_NAME@, Key::URef(mint)).insert(
        POS_NAME@,
        Key::URef(pos),
    )
}

/// The keys that an account of the genesis state knows.
pub fn make_genesis_known_keys(mint: URef, pos: URef) -> (r: NamedKeys)
    ensures
        r@ == genesis_known_keys(mint, pos),
{
    let mut keys: NamedKeys = VecMap::new();
    keys.insert(MINT_NAME.to_owned(), Key::URef(mint));
    keys.insert(POS_NAME.to_owned(), Key::URef(pos));
    keys
}

/// The tracking copy after an account of the genesis state was made: the mint makes a
/// purse that holds the balance of the account, and the account is written with that
/// purse as its main purse and with the keys of `known_keys`. The mint runs under the
/// public key of the account as the hash of the deploy, with an address generator of its
/// own.
#[verifier::opaque]
pub open spec fn spec_create_account<A, P: Preprocessor<A>, E: Executor<A>>(
    executor: &E,
    preprocessor: &P,
    tracking_copy: TrackingCopyView,
    mint_bytes: Seq<u8>,
    mint: URef,
    account: GenesisAccount,
    known_keys: Map<Seq<char>, Key>,
    protocol_version: u64,
) -> Result<TrackingCopyView, ErrorView> {
    match preprocessor.deserialize_spec(ModuleBytes { bytes: mint_bytes }) {
        Err(e) => Err(ErrorView::WasmPreprocessingError(e)),
        Ok(module) => match spec_mint_args(account.balance.0) {
            None => Err(ErrorView::SerializationError),
            Some(args) => match spec_install::<A, E>(
                executor,
                module,
                install_input(
                    args,
                    Map::empty(),
                    Key::URef(mint),
                    account.public_key.0,
                    protocol_version,
                ),
                AddressGenerator::spec_new(account.public_key.0, Phase::System),
                tracking_copy,
            ) {
                Err(e) => Err(e),
                Ok(made) => Ok(
                    made.tracking_copy.after_write(
                        Key::Account(account.public_key.0),
                        ValueView::Account(
                            AccountView {
                                public_key: account.public_key.0,
                                named_keys: known_keys,
                                purse_id: PurseId::spec_new(made.reference),
                                associated_keys: Map::<PublicKey, Weight>::empty().insert(
                                    account.public_key,
                                    Weight(1),
                                ),
                                action_thresholds: ActionThresholds {
                                    deployment: Weight(1),
                                    key_management: Weight(1),
                                },
                            },
                        ),
                    ),
                ),
            },
        },
    }
}

/// Makes an account of the genesis state. The bytes of the mint and the balance are
/// looked at first: where the bytes are refused, or the balance cannot be handed to the
/// mint, nothing is run and nothing is changed. Where the store fails while the mint
/// runs, that failure is reported.
pub fn create_account<A, P: Preprocessor<A>, E: Executor<A>, R: StateReader>(
    executor: &E,
    preprocessor: &P,
    tracking_copy: &mut TrackingCopy<R>,
    mint_bytes: &Vec<u8>,
    mint: URef,
    account: &GenesisAccount,
    known_keys: NamedKeys,
    protocol_version: u64,
) -> (r: Result<(), Error>)
    ensures
        match r {
            Ok(_) => spec_create_account::<A, P, E>(
                executor,
                preprocessor,
                old(tracking_copy)@,
                mint_bytes@,
                mint,
                *account,
                known_keys@,
                protocol_version,
            ) == Ok::<TrackingCopyView, ErrorView>(final(tracking_copy)@),
            Err(e) => e@.is_store_failure() || spec_create_account::<A, P, E>(
                executor,
                preprocessor,
                old(tracking_copy)@,
                mint_bytes@,
                mint,
                *account,
                known_keys@,
                protocol_version,
            ) == Err::<TrackingCopyView, ErrorView>(e@),
        },
        preprocessor.deserialize_spec(ModuleBytes { bytes: mint_bytes@ }) matches Err(refusal)
            ==> (r matches Err(e) && e@ == ErrorView::WasmPreprocessingError(refusal))
            && final(tracking_copy)@ == old(tracking_copy)@,
        preprocessor.deserialize_spec(ModuleBytes { bytes: mint_bytes@ }) is Ok && spec_mint_args(
            account.balance.0,
        ) is None ==> (r matches Err(e) && e@ == ErrorView::SerializationError)
            && final(tracking_copy)@ == old(tracking_copy)@,
{
    reveal(spec_create_account);
    let module = match preprocessor.deserialize(mint_bytes) {
        Ok(module) => module,
        Err(e) => {
            return Err(Error::WasmPreprocessingError(e));
        },
    };
    let motes = account.balance.value();
    let args = match mint_args(&motes) {
        Some(args) => args,
        None => {
            return Err(Error::SerializationError);
        },
    };
    let public_key = account.public_key.value();
    let mut address_generator = AddressGenerator::new(public_key, Phase::System);
    let purse = match install(
        executor,
        module,
        &args,
        VecMap::new(),
        Key::URef(mint),
        public_key,
        &mut address_generator,
        protocol_version,
        tracking_copy,
    ) {
        Ok(purse) => purse,
        Err(e) => {
            return Err(e);
        },
    };
    let created = Account::create(public_key, known_keys, PurseId::new(purse));
    tracking_copy.write(Key::Account(public_key), Value::Account(created));
    Ok(())
}

/// The tracking copy after the accounts of `accounts` from index `from` on were made, one
/// after the other.
pub open spec fn spec_create_accounts<A, P: Preprocessor<A>, E: Executor<A>>(
    executor: &E,
    preprocessor: &P,
    tracking_copy: TrackingCopyView,
    mint_bytes: Seq<u8>,
    mint: URef,
    accounts: Seq<GenesisAccount>,
    from: int,
    known_keys: Map<Seq<char>, Key>,
    protocol_version: u64,
) -> Result<TrackingCopyView, ErrorView>
    decreases accounts.len() - from,
{
    if from < 0 || from >= accounts.len() {
        Ok(tracking_copy)
    } else {
        match spec_create_account::<A, P, E>(
            executor,
            preprocessor,
            tracking_copy,
            mint_bytes,
            mint,
            accounts[from],
            known_keys,
            protocol_version,
        ) {
            Err(e) => Err(e),
            Ok(next) => spec_create_accounts::<A, P, E>(
                executor,
                preprocessor,
                next,
                mint_bytes,
                mint,
                accounts,
                from + 1,
                known_keys,
                protocol_version,
            ),
        }
    }
}

/// The system account as an account of the genesis state: it holds nothing and has bonded
/// nothing.
pub open spec fn system_genesis_account() -> GenesisAccount {
    GenesisAccount {
        public_key: PublicKey(SYSTEM_ACCOUNT_ADDR),
        balance: Motes(U512::spec_from_nat(0)),
        bonded_amount: Motes(U512::spec_from_nat(0)),
    }
}

/// The same reference with the right to read and no other.
pub open spec fn read_only(uref: URef) -> URef {
    URef {
        addr: uref.addr,
        access_rights: Some(AccessRights { read: true, write: false, add: false }),
    }
}

/// What the run of the mint installer leaves: the system account is written as it is when
/// it is created, then the installer runs with no arguments and no keys, under the install
/// hash of the configuration and with a new address generator, and returns the reference
/// of the mint.
pub open spec fn spec_install_mint<A, E: Executor<A>>(
    executor: &E,
    state: Map<Key, ValueView>,
    config: GenesisConfigView,
    mint_installer: A,
) -> Result<Installed, ErrorView> {
    let hash = config.install_deploy_hash();
    spec_install::<A, E>(
        executor,
        mint_installer,
        install_input(
            Seq::empty(),
            Map::empty(),
            Key::Account(SYSTEM_ACCOUNT_ADDR),
            hash,
            config.protocol_version,
        ),
        AddressGenerator::spec_new(hash, Phase::System),
        TrackingCopyView::new(state).after_write(
            Key::Account(SYSTEM_ACCOUNT_ADDR),
            ValueView::Account(virtual_system_account_view()),
        ),
    )
}

/// The effect of the installation of the genesis state, once the mint is installed.
///
/// The proof of stake installer runs with the reference of the mint and the bonded
/// validators as arguments, knows the mint by name, and returns the reference of the proof
/// of stake contract. It runs under the install hash of the configuration and goes on with
/// the address generator of the mint installer. Then the accounts are made.
pub open spec fn genesis_effect_after_mint<A, P: Preprocessor<A>, E: Executor<A>>(
    executor: &E,
    preprocessor: &P,
    mint: Installed,
    pos_installer: A,
    config: GenesisConfigView,
    validators: Seq<(PublicKey, U512)>,
) -> Result<EffectView, ErrorView> {
    match spec_pos_args(mint.reference, validators) {
        None => Err(ErrorView::SerializationError),
        Some(args) => match spec_install::<A, E>(
            executor,
            pos_installer,
            install_input(
                args,
                Map::<Seq<char>, Key>::empty().insert(MINT_NAME@, Key::URef(mint.reference)),
                Key::Account(SYSTEM_ACCOUNT_ADDR),
                config.install_deploy_hash(),
                config.protocol_version,
            ),
            mint.address_generator,
            mint.tracking_copy,
        ) {
            Err(e) => Err(e),
            Ok(pos) => genesis_accounts_effect::<A, P, E>(
                executor,
                preprocessor,
                pos.tracking_copy,
                config,
                mint.reference,
                pos.reference,
            ),
        },
    }
}

/// The effect of the installation of the genesis state on the state `state`, with the
/// validators of `validators` bonded.
///
/// The mint installer is preprocessed and run, then the proof of stake installer is
/// preprocessed and run, then the accounts of the configuration are made in their order,
/// each knowing the two system contracts by references that may only be read, and last the
/// system account, which holds nothing and knows them by the references that the
/// installers returned.
pub open spec fn genesis_effect<A, P: Preprocessor<A>, E: Executor<A>>(
    executor: &E,
    preprocessor: &P,
    state: Map<Key, ValueView>,
    config: GenesisConfigView,
    validators: Seq<(PublicKey, U512)>,
) -> Result<EffectView, ErrorView> {
    match preprocessor.preprocess_spec(ModuleBytes { bytes: config.mint_installer_bytes }) {
        Err(e) => Err(ErrorView::WasmPreprocessingError(e)),
        Ok(mint_installer) => match spec_install_mint::<A, E>(
            executor,
            state,
            config,
            mint_installer,
        ) {
            Err(e) => Err(e),
            Ok(mint) => match preprocessor.preprocess_spec(
                ModuleBytes { bytes: config.proof_of_stake_installer_bytes },
            ) {
                Err(e) => Err(ErrorView::WasmPreprocessingError(e)),
                Ok(pos_installer) => genesis_effect_after_mint::<A, P, E>(
                    executor,
                    preprocessor,
                    mint,
                    pos_installer,
                    config,
                    validators,
                ),
            },
        },
    }
}

/// The effect of the installation of the genesis state from two installers that are
/// preprocessed already.
pub open spec fn genesis_effect_of_modules<A, P: Preprocessor<A>, E: Executor<A>>(
    executor: &E,
    preprocessor: &P,
    state: Map<Key, ValueView>,
    config: GenesisConfigView,
    validators: Seq<(PublicKey, U512)>,
    mint_installer: A,
    pos_installer: A,
) -> Result<EffectView, ErrorView> {
    match spec_install_mint::<A, E>(executor, state, config, mint_installer) {
        Err(e) => Err(e),
        Ok(mint) => genesis_effect_after_mint::<A, P, E>(
            executor,
            preprocessor,
            mint,
            pos_installer,
            config,
            validators,
        ),
    }
}

/// The effect of the installation of the genesis state, once the system contracts are
/// installed.
pub open spec fn genesis_accounts_effect<A, P: Preprocessor<A>, E: Executor<A>>(
    executor: &E,
    preprocessor: &P,
    tracking_copy: TrackingCopyView,
    config: GenesisConfigView,
    mint: URef,
    pos: URef,
) -> Result<EffectView, ErrorView> {
    match tracking_copy.get_contract(Key::URef(mint)) {
        Err(e) => Err(ErrorView::ExecError(e)),
        Ok(contract) => match spec_create_accounts::<A, P, E>(
            executor,
            preprocessor,
            tracking_copy.after_read(Key::URef(mint)),
            contract.bytes,
            mint,
            config.accounts,
            0,
            genesis_known_keys(read_only(mint), read_only(pos)),
            config.protocol_version,
        ) {
            Err(e) => Err(e),
            Ok(with_accounts) => match spec_create_account::<A, P, E>(
                executor,
                preprocessor,
                with_accounts,
                contract.bytes,
                mint,
                system_genesis_account(),
                genesis_known_keys(mint, pos),
                config.protocol_version,
            ) {
                Err(e) => Err(e),
                Ok(with_system) => Ok(with_system.effect()),
            },
        },
    }
}

/// What the installation of the genesis state leaves, and the store after it.
pub struct GenesisOutcome<S> {
    pub result: Result<GenesisResultView, ErrorView>,
    pub store: S,
}

/// What the installation of the genesis state leaves, with the validators of `validators`
/// bonded.
///
/// The cost table is stored under the protocol version. The genesis state is built on
/// the state with the empty root, which the store must know, and its effect is committed
/// to that root. Nothing is committed where the installation fails.
pub open spec fn genesis_outcome<S: StateProvider, A, P: Preprocessor<A>, E: Executor<A>>(
    store: S,
    executor: &E,
    preprocessor: &P,
    config: GenesisConfigView,
    validators: Seq<(PublicKey, U512)>,
) -> GenesisOutcome<S> {
    let prepared = store.put_protocol_data_spec(
        config.protocol_version,
        ProtocolData { wasm_costs: config.wasm_costs },
    );
    let root = prepared.spec_empty_root();
    match prepared.state_at(root) {
        None => GenesisOutcome { result: Err(ErrorView::RootNotFound(root)), store: prepared },
        Some(state) => match genesis_effect::<A, P, E>(
            executor,
            preprocessor,
            state.values,
            config,
            validators,
        ) {
            Err(e) => GenesisOutcome { result: Err(e), store: prepared },
            Ok(effect) => {
                let committed = prepared.commit_spec(
                    root,
                    CommitView { transforms: effect.transforms },
                );
                GenesisOutcome {
                    result: Ok(GenesisResultView::from_commit_result(committed.result, effect)),
                    store: committed.store,
                }
            },
        },
    }
}

/// What the installation of a genesis state from the bytes of two installers leaves.
///
/// Both installers are preprocessed before anything else is done: where one of them is
/// refused, that is the error, and the store is as it was. Else the genesis state is built
/// on the state with the empty root, which the store must know, and its effect is
/// committed to that root. The store is changed by that commit alone: no protocol data is
/// stored, and nothing is committed where the installation fails.
pub open spec fn plain_genesis_outcome<S: StateProvider, A, P: Preprocessor<A>, E: Executor<A>>(
    store: S,
    executor: &E,
    preprocessor: &P,
    config: GenesisConfigView,
    validators: Seq<(PublicKey, U512)>,
) -> GenesisOutcome<S> {
    match preprocessor.preprocess_spec(ModuleBytes { bytes: config.mint_installer_bytes }) {
        Err(e) => GenesisOutcome { result: Err(ErrorView::WasmPreprocessingError(e)), store },
        Ok(mint_installer) => match preprocessor.preprocess_spec(
            ModuleBytes { bytes: config.proof_of_stake_installer_bytes },
        ) {
            Err(e) => GenesisOutcome { result: Err(ErrorView::WasmPreprocessingError(e)), store },
            Ok(pos_installer) => {
                let root = store.spec_empty_root();
                match store.state_at(root) {
                    None => GenesisOutcome { result: Err(ErrorView::RootNotFound(root)), store },
                    Some(state) => match genesis_effect_of_modules::<A, P, E>(
                        executor,
                        preprocessor,
                        state.values,
                        config,
                        validators,
                        mint_installer,
                        pos_installer,
                    ) {
                        Err(e) => GenesisOutcome { result: Err(e), store },
                        Ok(effect) => {
                            let committed = store.commit_spec(
                                root,
                                CommitView { transforms: effect.transforms },
                            );
                            GenesisOutcome {
                                result: Ok(
                                    GenesisResultView::from_commit_result(committed.result, effect),
                                ),
                                store: committed.store,
                            }
                        },
                    },
                }
            },
        },
    }
}

/// Whether an installation of the genesis state may end with `result` and leave the store
/// `store_after`: the store failed and that is the error, or result and store are those
/// that `genesis_outcome` states.
pub open spec fn is_genesis_result<S: StateProvider, A, P: Preprocessor<A>, E: Executor<A>>(
    store: S,
    executor: &E,
    preprocessor: &P,
    config: GenesisConfigView,
    validators: Seq<(PublicKey, U512)>,
    result: Result<GenesisResultView, ErrorView>,
    store_after: S,
) -> bool {
    (result matches Err(e) && e.is_store_failure()) || genesis_outcome::<S, A, P, E>(
        store,
        executor,
        preprocessor,
        config,
        validators,
    ) == (GenesisOutcome { result, store: store_after })
}

/// Two installations of the genesis state from the same configuration, on the same store
/// and with the same executor, neither of which ended with a failure of the store, end
/// with the same result, and with it the same root of the genesis state, and leave the
/// same store. The preprocessor is the one that meters by the costs of the configuration,
/// and the validators are those that the configuration bonds.
pub proof fn lemma_genesis_is_reproducible<S: StateProvider, A, P: Preprocessor<A>, E: Executor<A>>(
    store: S,
    executor: &E,
    config: GenesisConfigView,
    first: Result<GenesisResultView, ErrorView>,
    first_store: S,
    second: Result<GenesisResultView, ErrorView>,
    second_store: S,
)
    requires
        is_genesis_result::<S, A, P, E>(
            store,
            executor,
            &P::spec_new(config.wasm_costs),
            config,
            spec_bonded_validators(config.accounts),
            first,
            first_store,
        ),
        is_genesis_result::<S, A, P, E>(
            store,
            executor,
            &P::spec_new(config.wasm_costs),
            config,
            spec_bonded_validators(config.accounts),
            second,
            second_store,
        ),
        !(first matches Err(e) && e.is_store_failure()),
        !(second matches Err(e) && e.is_store_failure()),
    ensures
        first == second,
        first matches Ok(GenesisResultView::Success { post_state_hash, .. }) ==> second matches Ok(
            GenesisResultView::Success { post_state_hash: again, .. },
        ) && post_state_hash == again,
        first_store == second_store,
{
}

} // verus!
