//! The engine: it runs deploys against the global state and installs the genesis state.

pub mod authorization;
pub mod deploy;
pub mod engine_config;
pub mod error;
pub mod executable_deploy_item;
pub mod execution_effect;
pub mod execution_result;
pub mod genesis;
pub mod installer;
pub mod module_resolution;
pub mod op;
pub mod payment;
pub mod utils;

use crate::engine_state::authorization::authorize;
use crate::engine_state::deploy::{
    is_deploy_result, paid_deploy_outcome, refused_for_store, settled_deploy_outcome,
    spec_finalization, DeployHeader, DeployView,
};
use crate::engine_state::error::{Error, ErrorView, RootNotFound};
use crate::engine_state::executable_deploy_item::{DeployItemView, ExecutableDeployItem};
use crate::engine_state::execution_effect::{EffectView, ExecutionEffect, TransformMap};
use crate::engine_state::execution_result::{
    ExecutionResult, ExecutionResultBuilder, ExecutionResultView,
};
use crate::engine_state::genesis::{
    ordered_validators, spec_bonded_validators, spec_ordered_validators, GenesisAccount,
    GenesisConfig, GenesisConfigView, GenesisResult,
};
use crate::engine_state::installer::{
    create_account, genesis_accounts_effect, genesis_effect, genesis_effect_after_mint,
    genesis_known_keys, install, is_genesis_result, make_genesis_known_keys,
    plain_genesis_outcome, pos_args, read_only, spec_create_accounts, spec_install_mint,
    virtual_system_account, GenesisOutcome, Installed,
};
use crate::engine_state::module_resolution::{
    after_get_module, module_source, spec_get_module, spec_module_source, ModuleSource,
    ModuleSourceView,
};
use crate::engine_state::payment::{
    finalize_args, payment_context, payment_purse_balance, session_gas_limit, system_account,
    PaymentContext,
};
use crate::engine_state::utils::{collect_validators, contract_at, is_validators_of};
use crate::execution::{AddressGenerator, BlockTime, Executor, Phase, MINT_NAME};
use crate::shared::gas::Gas;
use crate::shared::motes::Motes;
use crate::shared::newtypes::Blake2bHash;
use crate::storage::global_state::{
    BondedValidators, CommitOutcome, CommitResult, CommitView, StateProvider, StateReader,
};
use crate::storage::protocol_data::ProtocolData;
use crate::tracking_copy::{TrackingCopy, TrackingCopyView};
use crate::types::account::{Account, KeySet, NamedKeys};
use crate::types::key::{AccessRights, Key, PublicKey, URef};
use crate::types::uint::U512;
use crate::types::value::Value;
use crate::types::vec_map::{Duplicate, VecMap};
use crate::wasm_prep::{ModuleBytes, PreprocessingError, Preprocessor};
use crate::wasm_prep::wasm_costs::WasmCosts;
use vstd::prelude::*;

pub use self::engine_config::EngineConfig;

verus! {


/// The largest payment for a deploy, in motes. A deploy whose payment is not good is
/// charged this much.
pub const MAX_PAYMENT: u64 = 10_000_000;

/// The price of one unit of gas, in motes.
pub const CONV_RATE: u64 = 10;

/// The address of the system account, which finalizes the payment of every deploy.
pub const SYSTEM_ACCOUNT_ADDR: [u8; 32] = [
    0, 0, 0, 0, 0, 0, 0, 0, 0, 0, 0, 0, 0, 0, 0, 0, 0, 0, 0, 0, 0, 0, 0, 0, 0, 0, 0, 0, 0, 0, 0, 0,
];

/// The motes that a session may spend where deploys do not pay.
pub const DEFAULT_SESSION_MOTES: u64 = 1_000_000_000;

/// The name under which the proof of stake contract knows the purse that payments go to.
pub const POS_PAYMENT_PURSE: &'static str = "pos_payment_purse";

/// The name under which the proof of stake contract knows the purse that rewards go to.
pub const POS_REWARDS_PURSE: &'static str = "pos_rewards_purse";

/// The entry point of the proof of stake contract that finalizes a payment.
pub const FINALIZE_PAYMENT: &'static str = "finalize_payment";

/// The engine: a store of the global state, and settings.
#[derive(Debug)]
pub struct EngineState<S> {
    config: EngineConfig,
    state: S,
}

/// Why the bonded validators could not be had.
#[derive(Clone, Copy, Debug, PartialEq, Eq)]
pub enum GetBondedValidatorsError<E> {
    /// The store failed, with this error.
    StateError(E),
    /// The store has no state with this root.
    PostStateHashNotFound(Blake2bHash),
    /// The state holds no contract under this key.
    ProofOfStakeNotFound(Key),
}

/// The error that says that the store of the global state failed.
fn store_failure() -> (r: Error)
    ensures
        r@.is_store_failure(),
{
    Error::ExecError(crate::execution::Error::Storage)
}

impl<S: StateProvider> EngineState<S> {
    /// The settings of the engine.
    pub closed spec fn spec_config(&self) -> EngineConfig {
        self.config
    }

    /// The store of the engine.
    pub closed spec fn spec_state(&self) -> S {
        self.state
    }

    /// The engine over the store `state`, with the settings `config`.
    pub fn new(state: S, config: EngineConfig) -> (r: EngineState<S>)
        ensures
            r.spec_state() == state,
            r.spec_config() == config,
    {
        EngineState { config, state }
    }

    /// The settings of the engine.
    pub fn config(&self) -> (r: &EngineConfig)
        ensures
            *r == self.spec_config(),
    {
        &self.config
    }

    /// A tracking copy over the state with root `hash`, if the store knows that root. Where
    /// the store fails, that is the error.
    pub fn tracking_copy(&self, hash: Blake2bHash) -> (r: Result<
        Option<TrackingCopy<S::Reader>>,
        Error,
    >)
        ensures
            match r {
                Ok(Some(tracking_copy)) => self.spec_state().state_at(hash) matches Some(state)
                    && tracking_copy@ == TrackingCopyView::new(state.values),
                Ok(None) => self.spec_state().state_at(hash).is_none(),
                Err(e) => e@.is_store_failure(),
            },
    {
        match self.state.checkout(hash) {
            Ok(Some(reader)) => Ok(Some(TrackingCopy::new(reader))),
            Ok(None) => Ok(None),
            Err(_) => Err(Error::ExecError(crate::execution::Error::Storage)),
        }
    }

    /// The module of a deploy item. Bytes that the item brings are preprocessed and nothing
    /// is read; an item that names no stored contract it may use is refused and nothing is
    /// read either. Only where the item names a stored contract is the store read, unless
    /// the tracking copy holds the contract itself: where the store fails then, that
    /// failure is reported and nothing is changed.
    pub fn get_module<A, P: Preprocessor<A>, R: StateReader>(
        &self,
        tracking_copy: &mut TrackingCopy<R>,
        deploy_item: &ExecutableDeployItem,
        account: &Account,
        preprocessor: &P,
    ) -> (r: Result<A, Error>)
        ensures
            match r {
                Ok(module) => spec_get_module::<A, P>(
                    preprocessor,
                    old(tracking_copy)@,
                    deploy_item@,
                    account@,
                ) == Ok::<A, ErrorView>(module) && final(tracking_copy)@ == after_get_module(
                    old(tracking_copy)@,
                    deploy_item@,
                    account@,
                ),
                Err(e) => (e@.is_store_failure() && final(tracking_copy)@ == old(tracking_copy)@
                    && spec_module_source(deploy_item@, account@) matches Ok(
                    ModuleSourceView::Stored(_),
                )) || (spec_get_module::<A, P>(
                    preprocessor,
                    old(tracking_copy)@,
                    deploy_item@,
                    account@,
                ) == Err::<A, ErrorView>(e@) && final(tracking_copy)@ == after_get_module(
                    old(tracking_copy)@,
                    deploy_item@,
                    account@,
                )),
            },
            spec_module_source(deploy_item@, account@) matches Err(e) ==> (r matches Err(err)
                && err@ == e) && final(tracking_copy)@ == old(tracking_copy)@,
            spec_module_source(deploy_item@, account@) matches Ok(ModuleSourceView::Bytes(bytes))
                ==> final(tracking_copy)@ == old(tracking_copy)@ && match r {
                Ok(module) => preprocessor.preprocess_spec(ModuleBytes { bytes }) == Ok::<
                    A,
                    PreprocessingError,
                >(module),
                Err(e) => preprocessor.preprocess_spec(ModuleBytes { bytes }) matches Err(pe) && e@
                    == ErrorView::WasmPreprocessingError(pe),
            },
            spec_module_source(deploy_item@, account@) matches Ok(ModuleSourceView::Stored(key))
                ==> (old(tracking_copy).spec_held().contains(key.normalize()) ==> !(r matches Err(e)
                && e@.is_store_failure())),
            final(tracking_copy).spec_held() == old(tracking_copy).spec_held(),
            final(tracking_copy).spec_reader() == old(tracking_copy).spec_reader(),
    {
        match module_source(deploy_item, account) {
            Err(e) => Err(e),
            Ok(ModuleSource::Bytes(bytes)) => {
                match preprocessor.preprocess(bytes) {
                    Ok(module) => Ok(module),
                    Err(e) => Err(Error::WasmPreprocessingError(e)),
                }
            },
            Ok(ModuleSource::Stored(key)) => {
                let contract = match tracking_copy.get_contract(key) {
                    Ok(contract) => contract,
                    Err(e) => {
                        return Err(Error::ExecError(e));
                    },
                };
                let (bytes, _, _) = contract.destructure();
                match preprocessor.deserialize(&bytes) {
                    Ok(module) => Ok(module),
                    Err(e) => Err(Error::WasmPreprocessingError(e)),
                }
            },
        }
    }

    /// Runs a deploy against the state with root `prestate_hash`.
    ///
    /// The missing root is returned, and nothing else, where the store does not know the
    /// root. Where the store fails, while the engine reads from it or during a run of the
    /// executor, the deploy is refused with the failure of the store: nothing is done and
    /// nothing is charged. The one exception is the read of the account: a deploy whose
    /// account cannot be read is refused as one that is not authorized. Else the result
    /// is that of the deploy against the state with that root, which `deploy_outcome`
    /// states.
    pub fn deploy<A, P: Preprocessor<A>, E: Executor<A>>(
        &self,
        session: ExecutableDeployItem,
        payment: ExecutableDeployItem,
        address: Key,
        authorization_keys: KeySet,
        blocktime: BlockTime,
        deploy_hash: [u8; 32],
        prestate_hash: Blake2bHash,
        protocol_version: u64,
        executor: &E,
        preprocessor: &P,
    ) -> (r: Result<ExecutionResult, RootNotFound>)
        ensures
            is_deploy_result::<S, A, P, E>(
                self.spec_state(),
                self.spec_config(),
                executor,
                preprocessor,
                prestate_hash,
                DeployView {
                    session: session@,
                    payment: payment@,
                    header: DeployHeader {
                        address,
                        authorization_keys: authorization_keys.ids(),
                        blocktime,
                        deploy_hash,
                        protocol_version,
                    },
                },
                match r {
                    Ok(result) => Ok(result@),
                    Err(e) => Err(e),
                },
            ),
            self.spec_state().state_at(prestate_hash) is None ==> (r matches Err(e) && e
                == RootNotFound(prestate_hash)) || (r matches Ok(result) && refused_for_store(
                result@,
            )),
    {
        let mut tracking_copy = match self.tracking_copy(prestate_hash) {
            Err(e) => {
                return Ok(ExecutionResult::precondition_failure(e));
            },
            Ok(None) => {
                return Err(RootNotFound(prestate_hash));
            },
            Ok(Some(tracking_copy)) => tracking_copy,
        };
        let account = match authorize(&mut tracking_copy, address, &authorization_keys) {
            Ok(account) => account,
            Err(e) => {
                return Ok(ExecutionResult::precondition_failure(e));
            },
        };
        let session_module = match self.get_module(
            &mut tracking_copy,
            &session,
            &account,
            preprocessor,
        ) {
            Ok(module) => module,
            Err(e) => {
                return Ok(ExecutionResult::precondition_failure(e));
            },
        };
        proof {
            authorization_keys.lemma_members();
        }
        if !self.config.use_payment_code() {
            let gas_limit = Gas::from_u64(DEFAULT_SESSION_MOTES / CONV_RATE);
            let session_result = executor.exec(
                session_module,
                session.args(),
                address,
                &account,
                &authorization_keys,
                blocktime,
                deploy_hash,
                gas_limit,
                protocol_version,
                &mut tracking_copy,
                Phase::Session,
            );
            if session_result.is_store_failure() {
                return Ok(ExecutionResult::precondition_failure(store_failure()));
            }
            return Ok(session_result);
        }
        Ok(
            self.paid_deploy(
                &mut tracking_copy,
                &session,
                &payment,
                address,
                &account,
                &authorization_keys,
                blocktime,
                deploy_hash,
                protocol_version,
                session_module,
                executor,
                preprocessor,
            ),
        )
    }

    /// Runs a deploy that pays, once it is authorized and its session module is there.
    fn paid_deploy<A, P: Preprocessor<A>, E: Executor<A>, R: StateReader>(
        &self,
        tracking_copy: &mut TrackingCopy<R>,
        session: &ExecutableDeployItem,
        payment: &ExecutableDeployItem,
        address: Key,
        account: &Account,
        authorization_keys: &KeySet,
        blocktime: BlockTime,
        deploy_hash: [u8; 32],
        protocol_version: u64,
        session_module: A,
        executor: &E,
        preprocessor: &P,
    ) -> (r: ExecutionResult)
        requires
            authorization_keys.wf(),
        ensures
            refused_for_store(r@) || r@ == paid_deploy_outcome::<A, P, E>(
                executor,
                preprocessor,
                old(tracking_copy)@,
                DeployView {
                    session: session@,
                    payment: payment@,
                    header: DeployHeader {
                        address,
                        authorization_keys: authorization_keys.ids(),
                        blocktime,
                        deploy_hash,
                        protocol_version,
                    },
                },
                account@,
                session_module,
            ),
    {
        proof {
            authorization_keys.lemma_members();
        }
        let context = match payment_context(tracking_copy, account) {
            Ok(context) => context,
            Err(e) => {
                return ExecutionResult::precondition_failure(e);
            },
        };
        let payment_module = match self.get_module(tracking_copy, payment, account, preprocessor) {
            Ok(module) => module,
            Err(e) => {
                return ExecutionResult::precondition_failure(e);
            },
        };
        let payment_result = executor.exec(
            payment_module,
            payment.args(),
            address,
            account,
            authorization_keys,
            blocktime,
            deploy_hash,
            Gas::from_u64(MAX_PAYMENT / CONV_RATE),
            protocol_version,
            tracking_copy,
            Phase::Payment,
        );
        if payment_result.is_store_failure() {
            return ExecutionResult::precondition_failure(store_failure());
        }
        let purse_balance = match payment_purse_balance(tracking_copy, &context) {
            Ok(balance) => balance,
            Err(e) => {
                return ExecutionResult::precondition_failure(e);
            },
        };
        let mut builder = ExecutionResultBuilder::new();
        builder.set_payment_execution_result(payment_result);
        if let Some(failure) = builder.check_forced_transfer(
            MAX_PAYMENT,
            context.account_balance,
            purse_balance,
            context.account_balance_key,
            context.rewards_balance_key,
        ) {
            return failure;
        }
        self.settled_deploy(
            &*tracking_copy,
            session,
            address,
            account,
            authorization_keys,
            blocktime,
            deploy_hash,
            protocol_version,
            session_module,
            executor,
            preprocessor,
            &context,
            builder,
            purse_balance,
        )
    }

    /// Runs the session of a deploy whose payment is good, and finalizes the payment.
    fn settled_deploy<A, P: Preprocessor<A>, E: Executor<A>, R: StateReader>(
        &self,
        tracking_copy: &TrackingCopy<R>,
        session: &ExecutableDeployItem,
        address: Key,
        account: &Account,
        authorization_keys: &KeySet,
        blocktime: BlockTime,
        deploy_hash: [u8; 32],
        protocol_version: u64,
        session_module: A,
        executor: &E,
        preprocessor: &P,
        context: &PaymentContext,
        builder: ExecutionResultBuilder,
        purse_balance: Motes,
    ) -> (r: ExecutionResult)
        requires
            authorization_keys.wf(),
            builder@.payment.is_some(),
            !builder@.payment.unwrap().is_failure(),
            builder@.session.is_none(),
            builder@.finalize.is_none(),
        ensures
            refused_for_store(r@) || r@ == settled_deploy_outcome::<A, P, E>(
                executor,
                preprocessor,
                tracking_copy@,
                DeployHeader {
                    address,
                    authorization_keys: authorization_keys.ids(),
                    blocktime,
                    deploy_hash,
                    protocol_version,
                },
                session@.args(),
                account@,
                session_module,
                context@,
                builder@.payment.unwrap(),
                purse_balance@,
            ),
    {
        proof {
            authorization_keys.lemma_members();
        }
        let mut builder = builder;
        let payment_cost = builder.payment_cost();
        let mut session_tc = tracking_copy.fork();
        let session_result = executor.exec(
            session_module,
            session.args(),
            address,
            account,
            authorization_keys,
            blocktime,
            deploy_hash,
            session_gas_limit(purse_balance, payment_cost),
            protocol_version,
            &mut session_tc,
            Phase::Session,
        );
        if session_result.is_store_failure() {
            return ExecutionResult::precondition_failure(store_failure());
        }
        let post_session_tc = if session_result.is_failure() {
            tracking_copy.fork()
        } else {
            session_tc
        };
        builder.set_session_execution_result(session_result);
        let finalize_result = match self.finalize_payment(
            &post_session_tc,
            account,
            authorization_keys,
            blocktime,
            deploy_hash,
            protocol_version,
            executor,
            preprocessor,
            context,
            builder.total_cost(),
        ) {
            Ok(result) => result,
            Err(e) => {
                return ExecutionResult::precondition_failure(e);
            },
        };
        builder.set_finalize_execution_result(finalize_result);
        match builder.build() {
            Ok(result) => result,
            Err(_) => ExecutionResult::precondition_failure(Error::DeployError),
        }
    }

    /// Finalizes the payment of a deploy after its session.
    fn finalize_payment<A, P: Preprocessor<A>, E: Executor<A>, R: StateReader>(
        &self,
        post_session: &TrackingCopy<R>,
        account: &Account,
        authorization_keys: &KeySet,
        blocktime: BlockTime,
        deploy_hash: [u8; 32],
        protocol_version: u64,
        executor: &E,
        preprocessor: &P,
        context: &PaymentContext,
        total_cost: Gas,
    ) -> (r: Result<ExecutionResult, Error>)
        requires
            authorization_keys.wf(),
        ensures
            match r {
                Ok(result) => spec_finalization::<A, P, E>(
                    executor,
                    preprocessor,
                    post_session@,
                    authorization_keys.ids(),
                    blocktime,
                    deploy_hash,
                    protocol_version,
                    account@,
                    context@,
                    total_cost@,
                ) == Ok::<ExecutionResultView, ErrorView>(result@),
                Err(e) => e@.is_store_failure() || spec_finalization::<A, P, E>(
                    executor,
                    preprocessor,
                    post_session@,
                    authorization_keys.ids(),
                    blocktime,
                    deploy_hash,
                    protocol_version,
                    account@,
                    context@,
                    total_cost@,
                ) == Err::<ExecutionResultView, ErrorView>(e@),
            },
    {
        proof {
            authorization_keys.lemma_members();
        }
        let mut finalization_tc = post_session.fork();
        let pos_module = match preprocessor.deserialize(context.pos.module_bytes()) {
            Ok(module) => module,
            Err(e) => {
                return Err(Error::WasmPreprocessingError(e));
            },
        };
        let args = match finalize_args(total_cost, account.pub_key()) {
            Some(args) => args,
            None => {
                return Err(Error::SerializationError);
            },
        };
        let mut pos_keys = match finalization_tc.get_system_contract_info(context.pos_public_key) {
            Ok(info) => {
                let (_, keys, _) = info.into_contract().destructure();
                keys
            },
            Err(crate::execution::Error::Storage) => {
                return Err(store_failure());
            },
            Err(_) => {
                return Err(Error::FinalizationError);
            },
        };
        let finalizer = system_account();
        let result = executor.exec_direct(
            pos_module,
            &args,
            &mut pos_keys,
            context.pos.inner_key(),
            &finalizer,
            authorization_keys,
            blocktime,
            deploy_hash,
            Gas::from_u64(u64::MAX),
            protocol_version,
            &mut finalization_tc,
            Phase::FinalizePayment,
        );
        if result.is_store_failure() {
            return Err(store_failure());
        }
        Ok(result)
    }

    /// Runs a deploy against the state with root `prestate_hash`.
    ///
    /// The missing root is returned, and nothing else, where the store does not know the
    /// root. Where the store fails, while the engine reads from it or during a run of the
    /// executor, the deploy is refused with the failure of the store: nothing is done and
    /// nothing is charged. The one exception is the read of the account: a deploy whose
    /// account cannot be read is refused as one that is not authorized. Else the result
    /// is that of the deploy against the state with that root, which `deploy_outcome`
    /// states.
    pub fn run_deploy_item<A, P: Preprocessor<A>, E: Executor<A>>(
        &self,
        session: ExecutableDeployItem,
        payment: ExecutableDeployItem,
        address: Key,
        authorization_keys: KeySet,
        blocktime: BlockTime,
        deploy_hash: [u8; 32],
        prestate_hash: Blake2bHash,
        protocol_version: u64,
        executor: &E,
        preprocessor: &P,
    ) -> (r: Result<ExecutionResult, RootNotFound>)
        ensures
            is_deploy_result::<S, A, P, E>(
                self.spec_state(),
                self.spec_config(),
                executor,
                preprocessor,
                prestate_hash,
                DeployView {
                    session: session@,
                    payment: payment@,
                    header: DeployHeader {
                        address,
                        authorization_keys: authorization_keys.ids(),
                        blocktime,
                        deploy_hash,
                        protocol_version,
                    },
                },
                match r {
                    Ok(result) => Ok(result@),
                    Err(e) => Err(e),
                },
            ),
            self.spec_state().state_at(prestate_hash) is None ==> (r matches Err(e) && e
                == RootNotFound(prestate_hash)) || (r matches Ok(result) && refused_for_store(
                result@,
            )),
    {
        self.deploy(
            session,
            payment,
            address,
            authorization_keys,
            blocktime,
            deploy_hash,
            prestate_hash,
            protocol_version,
            executor,
            preprocessor,
        )
    }

    /// Runs a deploy whose session and payment are given as the bytes of their modules.
    pub fn run_deploy<A, P: Preprocessor<A>, E: Executor<A>>(
        &self,
        session_module_bytes: &[u8],
        session_args: &[u8],
        payment_module_bytes: &[u8],
        payment_args: &[u8],
        address: Key,
        authorization_keys: KeySet,
        blocktime: BlockTime,
        deploy_hash: [u8; 32],
        prestate_hash: Blake2bHash,
        protocol_version: u64,
        executor: &E,
        preprocessor: &P,
    ) -> (r: Result<ExecutionResult, RootNotFound>)
        ensures
            is_deploy_result::<S, A, P, E>(
                self.spec_state(),
                self.spec_config(),
                executor,
                preprocessor,
                prestate_hash,
                DeployView {
                    session: DeployItemView::ModuleBytes {
                        module_bytes: session_module_bytes@,
                        args: session_args@,
                    },
                    payment: DeployItemView::ModuleBytes {
                        module_bytes: payment_module_bytes@,
                        args: payment_args@,
                    },
                    header: DeployHeader {
                        address,
                        authorization_keys: authorization_keys.ids(),
                        blocktime,
                        deploy_hash,
                        protocol_version,
                    },
                },
                match r {
                    Ok(result) => Ok(result@),
                    Err(e) => Err(e),
                },
            ),
            self.spec_state().state_at(prestate_hash) is None ==> (r matches Err(e) && e
                == RootNotFound(prestate_hash)) || (r matches Ok(result) && refused_for_store(
                result@,
            )),
    {
        let session = ExecutableDeployItem::ModuleBytes {
            module_bytes: vstd::slice::slice_to_vec(session_module_bytes),
            args: vstd::slice::slice_to_vec(session_args),
        };
        let payment = ExecutableDeployItem::ModuleBytes {
            module_bytes: vstd::slice::slice_to_vec(payment_module_bytes),
            args: vstd::slice::slice_to_vec(payment_args),
        };
        self.deploy(
            session,
            payment,
            address,
            authorization_keys,
            blocktime,
            deploy_hash,
            prestate_hash,
            protocol_version,
            executor,
            preprocessor,
        )
    }

    /// Installs the genesis state that `genesis_config` describes and commits it to the
    /// empty root. The modules are preprocessed by the preprocessor that meters by the
    /// costs of the configuration. The validators that are bonded are the accounts of the
    /// configuration that have bonded more than nothing. Where the store fails, that is
    /// the error, and nothing is said of the store.
    pub fn commit_genesis_with_chainspec<A, P: Preprocessor<A>, E: Executor<A>>(
        &mut self,
        genesis_config: GenesisConfig,
        executor: &E,
    ) -> (r: Result<GenesisResult, Error>)
        ensures
            final(self).spec_config() == old(self).spec_config(),
            is_genesis_result::<S, A, P, E>(
                old(self).spec_state(),
                executor,
                &P::spec_new(genesis_config@.wasm_costs),
                genesis_config@,
                spec_bonded_validators(genesis_config@.accounts),
                match r {
                    Ok(result) => Ok(result@),
                    Err(e) => Err(e@),
                },
                final(self).spec_state(),
            ),
    {
        let preprocessor = P::new(genesis_config.wasm_costs());
        let validators = genesis_config.get_bonded_validators();
        self.install_genesis(&genesis_config, &validators, executor, &preprocessor)
    }

    /// Installs a genesis state with one account, which holds `initial_motes`, and with the
    /// given validators bonded, and commits it to the empty root. The installers are the
    /// modules of the given bytes, preprocessed by the preprocessor under which nothing
    /// costs anything. The installation has no name and the time stamp zero.
    ///
    /// Both codes are checked before the store is used: where the preprocessor refuses one
    /// of them, that is the error and the store is as it was. No protocol data is stored:
    /// the store is changed by the commit of the genesis state alone. Where the store
    /// fails, that is the error, and nothing is said of the store.
    pub fn commit_genesis<A, P: Preprocessor<A>, E: Executor<A>>(
        &mut self,
        genesis_account_addr: [u8; 32],
        initial_motes: U512,
        mint_code_bytes: &[u8],
        proof_of_stake_code_bytes: &[u8],
        genesis_validators: Vec<(PublicKey, U512)>,
        protocol_version: u64,
        executor: &E,
    ) -> (r: Result<GenesisResult, Error>)
        ensures
            final(self).spec_config() == old(self).spec_config(),
            (r matches Err(e) && e@.is_store_failure()) || plain_genesis_outcome::<S, A, P, E>(
                old(self).spec_state(),
                executor,
                &P::spec_new(WasmCosts::spec_free()),
                GenesisConfigView {
                    name: Seq::empty(),
                    timestamp: 0,
                    protocol_version,
                    mint_installer_bytes: mint_code_bytes@,
                    proof_of_stake_installer_bytes: proof_of_stake_code_bytes@,
                    accounts: seq![
                        GenesisAccount {
                            public_key: PublicKey(genesis_account_addr),
                            balance: Motes(initial_motes),
                            bonded_amount: Motes(U512::spec_from_nat(0)),
                        },
                    ],
                    wasm_costs: WasmCosts::spec_free(),
                },
                spec_ordered_validators(genesis_validators@),
            ) == (GenesisOutcome {
                result: match r {
                    Ok(result) => Ok(result@),
                    Err(e) => Err(e@),
                },
                store: final(self).spec_state(),
            }),
            P::spec_new(WasmCosts::spec_free()).preprocess_spec(
                ModuleBytes { bytes: mint_code_bytes@ },
            ) matches Err(refusal) ==> (r matches Err(e) && e@
                == ErrorView::WasmPreprocessingError(refusal)) && final(self).spec_state() == old(
                self,
            ).spec_state(),
            P::spec_new(WasmCosts::spec_free()).preprocess_spec(
                ModuleBytes { bytes: mint_code_bytes@ },
            ) is Ok ==> (P::spec_new(WasmCosts::spec_free()).preprocess_spec(
                ModuleBytes { bytes: proof_of_stake_code_bytes@ },
            ) matches Err(refusal) ==> (r matches Err(e) && e@
                == ErrorView::WasmPreprocessingError(refusal)) && final(self).spec_state() == old(
                self,
            ).spec_state()),
    {
        let free_preprocessor = P::new(WasmCosts::free());
        let preprocessor = &free_preprocessor;
        let mint_code = vstd::slice::slice_to_vec(mint_code_bytes);
        let mint_installer = match preprocessor.preprocess(&mint_code) {
            Ok(module) => module,
            Err(e) => {
                return Err(Error::WasmPreprocessingError(e));
            },
        };
        let pos_code = vstd::slice::slice_to_vec(proof_of_stake_code_bytes);
        let pos_installer = match preprocessor.preprocess(&pos_code) {
            Ok(module) => module,
            Err(e) => {
                return Err(Error::WasmPreprocessingError(e));
            },
        };
        let zero = Motes::zero();
        proof {
            zero.0.lemma_view_decides(&zero.0);
        }
        let mut accounts: Vec<GenesisAccount> = Vec::new();
        accounts.push(
            GenesisAccount::new(PublicKey::new(genesis_account_addr), Motes::new(initial_motes), zero),
        );
        assert(accounts@ =~= seq![
            GenesisAccount {
                public_key: PublicKey(genesis_account_addr),
                balance: Motes(initial_motes),
                bonded_amount: Motes(U512::spec_from_nat(0)),
            },
        ]);
        let genesis_config = GenesisConfig::new(
            String::new(),
            0,
            protocol_version,
            mint_code,
            pos_code,
            accounts,
            WasmCosts::free(),
        );
        let validators = ordered_validators(&genesis_validators);
        let initial_root_hash = self.state.empty_root();
        let mut tracking_copy = match self.tracking_copy(initial_root_hash) {
            Ok(Some(tracking_copy)) => tracking_copy,
            Ok(None) => {
                return Err(Error::RootNotFound(initial_root_hash));
            },
            Err(e) => {
                return Err(e);
            },
        };
        let (mint, address_generator) = match Self::install_mint(
            &mut tracking_copy,
            &genesis_config,
            executor,
            mint_installer,
        ) {
            Ok(installed) => installed,
            Err(e) => {
                return Err(e);
            },
        };
        let effect = match Self::finish_genesis(
            &mut tracking_copy,
            &genesis_config,
            &validators,
            executor,
            preprocessor,
            mint,
            address_generator,
            pos_installer,
        ) {
            Ok(effect) => effect,
            Err(e) => {
                return Err(e);
            },
        };
        match self.state.commit(initial_root_hash, &effect.transforms) {
            Ok(commit_result) => Ok(GenesisResult::from_commit_result(commit_result, effect)),
            Err(_) => Err(Error::ExecError(crate::execution::Error::Storage)),
        }
    }

    /// Installs the genesis state that `genesis_config` describes, with the validators of
    /// `validators` bonded, and commits it to the empty root.
    fn install_genesis<A, P: Preprocessor<A>, E: Executor<A>>(
        &mut self,
        genesis_config: &GenesisConfig,
        validators: &Vec<(PublicKey, U512)>,
        executor: &E,
        preprocessor: &P,
    ) -> (r: Result<GenesisResult, Error>)
        ensures
            final(self).spec_config() == old(self).spec_config(),
            is_genesis_result::<S, A, P, E>(
                old(self).spec_state(),
                executor,
                preprocessor,
                genesis_config@,
                validators@,
                match r {
                    Ok(result) => Ok(result@),
                    Err(e) => Err(e@),
                },
                final(self).spec_state(),
            ),
    {
        let protocol_version = genesis_config.protocol_version();
        let protocol_data = ProtocolData::new(genesis_config.wasm_costs());
        match self.state.put_protocol_data(protocol_version, &protocol_data) {
            Ok(_) => {},
            Err(_) => {
                return Err(Error::ExecError(crate::execution::Error::Storage));
            },
        }
        let initial_root_hash = self.state.empty_root();
        let mut tracking_copy = match self.tracking_copy(initial_root_hash) {
            Ok(Some(tracking_copy)) => tracking_copy,
            Ok(None) => {
                return Err(Error::RootNotFound(initial_root_hash));
            },
            Err(e) => {
                return Err(e);
            },
        };
        let effect = match Self::build_genesis(
            &mut tracking_copy,
            genesis_config,
            validators,
            executor,
            preprocessor,
        ) {
            Ok(effect) => effect,
            Err(e) => {
                return Err(e);
            },
        };
        match self.state.commit(initial_root_hash, &effect.transforms) {
            Ok(commit_result) => Ok(GenesisResult::from_commit_result(commit_result, effect)),
            Err(_) => Err(Error::ExecError(crate::execution::Error::Storage)),
        }
    }

    /// Builds the genesis state in a tracking copy and returns its effect.
    fn build_genesis<A, P: Preprocessor<A>, E: Executor<A>, R: StateReader>(
        tracking_copy: &mut TrackingCopy<R>,
        genesis_config: &GenesisConfig,
        validators: &Vec<(PublicKey, U512)>,
        executor: &E,
        preprocessor: &P,
    ) -> (r: Result<ExecutionEffect, Error>)
        requires
            old(tracking_copy)@ == TrackingCopyView::new(old(tracking_copy)@.state),
        ensures
            match r {
                Ok(effect) => genesis_effect::<A, P, E>(
                    executor,
                    preprocessor,
                    old(tracking_copy)@.state,
                    genesis_config@,
                    validators@,
                ) == Ok::<EffectView, ErrorView>(effect@),
                Err(e) => e@.is_store_failure() || genesis_effect::<A, P, E>(
                    executor,
                    preprocessor,
                    old(tracking_copy)@.state,
                    genesis_config@,
                    validators@,
                ) == Err::<EffectView, ErrorView>(e@),
            },
    {
        let mint_installer = match preprocessor.preprocess(genesis_config.mint_installer_bytes()) {
            Ok(module) => module,
            Err(e) => {
                return Err(Error::WasmPreprocessingError(e));
            },
        };
        let (mint, address_generator) = match Self::install_mint(
            tracking_copy,
            genesis_config,
            executor,
            mint_installer,
        ) {
            Ok(installed) => installed,
            Err(e) => {
                return Err(e);
            },
        };
        let pos_installer = match preprocessor.preprocess(
            genesis_config.proof_of_stake_installer_bytes(),
        ) {
            Ok(module) => module,
            Err(e) => {
                return Err(Error::WasmPreprocessingError(e));
            },
        };
        Self::finish_genesis(
            tracking_copy,
            genesis_config,
            validators,
            executor,
            preprocessor,
            mint,
            address_generator,
            pos_installer,
        )
    }

    /// Writes the system account and runs the mint installer.
    fn install_mint<A, E: Executor<A>, R: StateReader>(
        tracking_copy: &mut TrackingCopy<R>,
        genesis_config: &GenesisConfig,
        executor: &E,
        mint_installer: A,
    ) -> (r: Result<(URef, AddressGenerator), Error>)
        requires
            old(tracking_copy)@ == TrackingCopyView::new(old(tracking_copy)@.state),
        ensures
            match r {
                Ok((reference, address_generator)) => spec_install_mint::<A, E>(
                    executor,
                    old(tracking_copy)@.state,
                    genesis_config@,
                    mint_installer,
                ) == Ok::<Installed, ErrorView>(
                    Installed { reference, address_generator, tracking_copy: final(tracking_copy)@ },
                ),
                Err(e) => e@.is_store_failure() || spec_install_mint::<A, E>(
                    executor,
                    old(tracking_copy)@.state,
                    genesis_config@,
                    mint_installer,
                ) == Err::<Installed, ErrorView>(e@),
            },
    {
        let system = Key::Account(SYSTEM_ACCOUNT_ADDR);
        tracking_copy.write(system, Value::Account(virtual_system_account()));
        let install_deploy_hash = genesis_config.install_deploy_hash();
        let mut address_generator = AddressGenerator::new(install_deploy_hash, Phase::System);
        let no_args: Vec<u8> = Vec::new();
        match install(
            executor,
            mint_installer,
            &no_args,
            VecMap::new(),
            system,
            install_deploy_hash,
            &mut address_generator,
            genesis_config.protocol_version(),
            tracking_copy,
        ) {
            Ok(reference) => Ok((reference, address_generator)),
            Err(e) => Err(e),
        }
    }

    /// Runs the proof of stake installer and makes the accounts of the genesis state.
    fn finish_genesis<A, P: Preprocessor<A>, E: Executor<A>, R: StateReader>(
        tracking_copy: &mut TrackingCopy<R>,
        genesis_config: &GenesisConfig,
        validators: &Vec<(PublicKey, U512)>,
        executor: &E,
        preprocessor: &P,
        mint: URef,
        address_generator: AddressGenerator,
        pos_installer: A,
    ) -> (r: Result<ExecutionEffect, Error>)
        ensures
            match r {
                Ok(effect) => genesis_effect_after_mint::<A, P, E>(
                    executor,
                    preprocessor,
                    Installed {
                        reference: mint,
                        address_generator,
                        tracking_copy: old(tracking_copy)@,
                    },
                    pos_installer,
                    genesis_config@,
                    validators@,
                ) == Ok::<EffectView, ErrorView>(effect@),
                Err(e) => e@.is_store_failure() || genesis_effect_after_mint::<A, P, E>(
                    executor,
                    preprocessor,
                    Installed {
                        reference: mint,
                        address_generator,
                        tracking_copy: old(tracking_copy)@,
                    },
                    pos_installer,
                    genesis_config@,
                    validators@,
                ) == Err::<EffectView, ErrorView>(e@),
            },
    {
        let mut address_generator = address_generator;
        let args = match pos_args(&mint, validators) {
            Some(args) => args,
            None => {
                return Err(Error::SerializationError);
            },
        };
        let mut pos_keys: NamedKeys = VecMap::new();
        pos_keys.insert(MINT_NAME.to_owned(), Key::URef(mint));
        let pos = match install(
            executor,
            pos_installer,
            &args,
            pos_keys,
            Key::Account(SYSTEM_ACCOUNT_ADDR),
            genesis_config.install_deploy_hash(),
            &mut address_generator,
            genesis_config.protocol_version(),
            tracking_copy,
        ) {
            Ok(reference) => reference,
            Err(e) => {
                return Err(e);
            },
        };
        Self::create_genesis_accounts(
            tracking_copy,
            genesis_config,
            executor,
            preprocessor,
            mint,
            pos,
        )
    }

    /// Makes the accounts of the genesis state and returns the effect of the installation.
    fn create_genesis_accounts<A, P: Preprocessor<A>, E: Executor<A>, R: StateReader>(
        tracking_copy: &mut TrackingCopy<R>,
        genesis_config: &GenesisConfig,
        executor: &E,
        preprocessor: &P,
        mint: URef,
        pos: URef,
    ) -> (r: Result<ExecutionEffect, Error>)
        ensures
            match r {
                Ok(effect) => genesis_accounts_effect::<A, P, E>(
                    executor,
                    preprocessor,
                    old(tracking_copy)@,
                    genesis_config@,
                    mint,
                    pos,
                ) == Ok::<EffectView, ErrorView>(effect@),
                Err(e) => e@.is_store_failure() || genesis_accounts_effect::<A, P, E>(
                    executor,
                    preprocessor,
                    old(tracking_copy)@,
                    genesis_config@,
                    mint,
                    pos,
                ) == Err::<EffectView, ErrorView>(e@),
            },
    {
        let protocol_version = genesis_config.protocol_version();
        let mint_bytes = match tracking_copy.get_contract(Key::URef(mint)) {
            Ok(contract) => {
                let (bytes, _, _) = contract.destructure();
                bytes
            },
            Err(e) => {
                return Err(Error::ExecError(e));
            },
        };
        let account_keys = make_genesis_known_keys(
            URef::new(mint.addr(), AccessRights::read_only()),
            URef::new(pos.addr(), AccessRights::read_only()),
        );
        let accounts = genesis_config.accounts();
        let ghost start = tracking_copy@;
        let mut i: usize = 0;
        while i < accounts.len()
            invariant
                i <= accounts.len(),
                accounts@ == genesis_config@.accounts,
                old(tracking_copy)@.get_contract(Key::URef(mint)) matches Ok(contract)
                    && contract.bytes == mint_bytes@,
                start == old(tracking_copy)@.after_read(Key::URef(mint)),
                account_keys@ == genesis_known_keys(read_only(mint), read_only(pos)),
                protocol_version == genesis_config@.protocol_version,
                spec_create_accounts::<A, P, E>(
                    executor,
                    preprocessor,
                    start,
                    mint_bytes@,
                    mint,
                    accounts@,
                    0,
                    account_keys@,
                    protocol_version,
                ) == spec_create_accounts::<A, P, E>(
                    executor,
                    preprocessor,
                    tracking_copy@,
                    mint_bytes@,
                    mint,
                    accounts@,
                    i as int,
                    account_keys@,
                    protocol_version,
                ),
            decreases accounts.len() - i,
        {
            match create_account(
                executor,
                preprocessor,
                tracking_copy,
                &mint_bytes,
                mint,
                &accounts[i],
                account_keys.duplicate(),
                protocol_version,
            ) {
                Ok(_) => {},
                Err(e) => {
                    return Err(e);
                },
            }
            i += 1;
        }
        let zero = Motes::zero();
        proof {
            zero.0.lemma_view_decides(&zero.0);
        }
        let system_account = GenesisAccount::new(PublicKey::new(SYSTEM_ACCOUNT_ADDR), zero, zero);
        match create_account(
            executor,
            preprocessor,
            tracking_copy,
            &mint_bytes,
            mint,
            &system_account,
            make_genesis_known_keys(mint, pos),
            protocol_version,
        ) {
            Ok(_) => {},
            Err(e) => {
                return Err(e);
            },
        }
        Ok(tracking_copy.effect())
    }

    /// The validators that are bonded in the state with root `root_hash`, with their
    /// stakes: those that the proof of stake contract under `pos_key` knows by name.
    ///
    /// Every name of the contract that stands for a validator gives its key a stake, and
    /// no other key has one. Where several names stand for one key, the stake is that of
    /// the last of them in the order of names.
    pub fn get_bonded_validators(&self, root_hash: Blake2bHash, pos_key: &Key) -> (r: Result<
        BondedValidators,
        GetBondedValidatorsError<S::Error>,
    >)
        ensures
            match r {
                Ok(validators) => match self.spec_state().state_at(root_hash) {
                    Some(state) => match contract_at(state.values, *pos_key) {
                        Some(contract) => is_validators_of(validators@, contract.named_keys),
                        None => false,
                    },
                    None => false,
                },
                Err(GetBondedValidatorsError::StateError(_)) => true,
                Err(GetBondedValidatorsError::PostStateHashNotFound(hash)) => hash == root_hash
                    && self.spec_state().state_at(root_hash).is_none(),
                Err(GetBondedValidatorsError::ProofOfStakeNotFound(key)) => key == *pos_key
                    && match self.spec_state().state_at(root_hash) {
                    Some(state) => contract_at(state.values, *pos_key).is_none(),
                    None => false,
                },
            },
    {
        let reader = match self.state.checkout(root_hash) {
            Ok(Some(reader)) => reader,
            Ok(None) => {
                return Err(GetBondedValidatorsError::PostStateHashNotFound(root_hash));
            },
            Err(error) => {
                return Err(GetBondedValidatorsError::StateError(error));
            },
        };
        match reader.read(&pos_key.normalize()) {
            Ok(Some(Value::Contract(contract))) => Ok(collect_validators(contract.urefs_lookup())),
            Ok(_) => Err(GetBondedValidatorsError::ProofOfStakeNotFound(*pos_key)),
            Err(error) => Err(GetBondedValidatorsError::StateError(error)),
        }
    }

    /// Applies the effects of a deploy to the state with root `prestate_hash`. Where the
    /// store fails, that is the error, and nothing is said of the store.
    pub fn apply_effect(&mut self, prestate_hash: Blake2bHash, effects: &TransformMap) -> (r:
        Result<CommitResult, S::Error>)
        ensures
            old(self).spec_config() == final(self).spec_config(),
            r matches Ok(result) ==> old(self).spec_state().commit_spec(
                prestate_hash,
                CommitView { transforms: effects@ },
            ) == (CommitOutcome { result: result@, store: final(self).spec_state() }),
    {
        self.state.commit(prestate_hash, effects)
    }
}

} // verus!
