//! What a deploy leaves: the result of the three phases of a deploy, as a function of the
//! state, the deploy, the executor and the preprocessor.

use crate::engine_state::authorization::{after_authorize, spec_authorize};
use crate::engine_state::engine_config::EngineConfig;
use crate::engine_state::error::{ErrorView, RootNotFound};
use crate::engine_state::executable_deploy_item::DeployItemView;
use crate::engine_state::execution_effect::{commits, committed, lemma_commit_of_nothing};
use crate::engine_state::execution_result::{
    combined_result, forced_transfer_result, lemma_forced_transfer_conserves, payment_is_short,
    ExecutionResultView,
};
use crate::engine_state::module_resolution::{after_get_module, spec_get_module};
use crate::engine_state::payment::{
    spec_finalize_args, spec_payment_context, spec_payment_purse_balance, spec_session_gas_limit,
    system_account_view, PaymentContextView,
};
use crate::engine_state::{CONV_RATE, DEFAULT_SESSION_MOTES, MAX_PAYMENT};
use crate::execution::{BlockTime, ExecInput, Executor, Phase};
use crate::shared::newtypes::Blake2bHash;
use crate::storage::global_state::StateProvider;
use crate::tracking_copy::TrackingCopyView;
use crate::types::account::{keys_weight, lemma_keys_weight_ignores_order, AccountView};
use crate::types::key::{Key, PublicKey};
use crate::types::uint::radix_pow;
use crate::types::value::{TypeMismatch, ValueView};
use crate::wasm_prep::{ModuleBytes, Preprocessor};
use vstd::prelude::*;

verus! {

/// What a deploy says of itself, besides its payment and its session, as plain values.
pub struct DeployHeader {
    /// The key of the account in whose name the deploy runs.
    pub address: Key,
    /// The keys that authorize the deploy, no key twice.
    pub authorization_keys: Seq<PublicKey>,
    pub blocktime: BlockTime,
    pub deploy_hash: [u8; 32],
    pub protocol_version: u64,
}

impl DeployHeader {
    /// What a module of the deploy is run with.
    pub open spec fn exec_input(
        self,
        account: AccountView,
        args: Seq<u8>,
        gas_limit: nat,
        phase: Phase,
    ) -> ExecInput {
        ExecInput {
            args,
            known_keys: account.named_keys,
            base_key: self.address,
            account,
            authorization_keys: self.authorization_keys.to_set(),
            blocktime: self.blocktime,
            deploy_hash: self.deploy_hash,
            gas_limit,
            protocol_version: self.protocol_version,
            phase,
        }
    }
}

/// A deploy, as plain values.
pub struct DeployView {
    pub session: DeployItemView,
    pub payment: DeployItemView,
    pub header: DeployHeader,
}

/// The result of a deploy against the state `state`.
///
/// The deploy is refused, with no effect and no cost, where it is not authorized or where
/// the module of its session cannot be had. Where deploys do not pay, the result is that
/// of the session, run with the gas that `DEFAULT_SESSION_MOTES` buy. Else the result is
/// that of the paid deploy.
pub open spec fn deploy_outcome<A, P: Preprocessor<A>, E: Executor<A>>(
    config: EngineConfig,
    executor: &E,
    preprocessor: &P,
    state: Map<Key, ValueView>,
    deploy: DeployView,
) -> ExecutionResultView {
    let tc0 = TrackingCopyView::new(state);
    match spec_authorize(tc0, deploy.header.address, deploy.header.authorization_keys) {
        Err(e) => ExecutionResultView::precondition_failure(e),
        Ok(account) => {
            let tc1 = after_authorize(tc0, deploy.header.address);
            match spec_get_module::<A, P>(preprocessor, tc1, deploy.session, account) {
                Err(e) => ExecutionResultView::precondition_failure(e),
                Ok(session_module) => {
                    let tc2 = after_get_module(tc1, deploy.session, account);
                    if !config.spec_use_payment_code() {
                        executor.exec_spec(
                            session_module,
                            deploy.header.exec_input(
                                account,
                                deploy.session.args(),
                                (DEFAULT_SESSION_MOTES / CONV_RATE) as nat,
                                Phase::Session,
                            ),
                            tc2,
                        ).result
                    } else {
                        paid_deploy_outcome(
                            executor,
                            preprocessor,
                            tc2,
                            deploy,
                            account,
                            session_module,
                        )
                    }
                },
            }
        },
    }
}

/// The result of a deploy that pays, once it is authorized and its session module is
/// there.
///
/// The deploy is refused where the payment context cannot be gathered, where the module
/// of its payment cannot be had, or where the balance of the payment purse cannot be read
/// after the payment code ran. The payment code runs with the gas that `MAX_PAYMENT` buys.
/// Where the payment is not good, the result is the forced transfer. Else the result is
/// that of the settled deploy.
pub open spec fn paid_deploy_outcome<A, P: Preprocessor<A>, E: Executor<A>>(
    executor: &E,
    preprocessor: &P,
    tracking_copy: TrackingCopyView,
    deploy: DeployView,
    account: AccountView,
    session_module: A,
) -> ExecutionResultView {
    match spec_payment_context(tracking_copy, account) {
        Err(e) => ExecutionResultView::precondition_failure(e),
        Ok(found) => match spec_get_module::<A, P>(
            preprocessor,
            found.tracking_copy,
            deploy.payment,
            account,
        ) {
            Err(e) => ExecutionResultView::precondition_failure(e),
            Ok(payment_module) => {
                let paid = executor.exec_spec(
                    payment_module,
                    deploy.header.exec_input(
                        account,
                        deploy.payment.args(),
                        (MAX_PAYMENT / CONV_RATE) as nat,
                        Phase::Payment,
                    ),
                    after_get_module(found.tracking_copy, deploy.payment, account),
                );
                match spec_payment_purse_balance(paid.tracking_copy, found.context) {
                    Err(e) => ExecutionResultView::precondition_failure(e),
                    Ok(purse) => if payment_is_short(paid.result, purse.balance, MAX_PAYMENT) {
                        forced_transfer_result(
                            paid.result,
                            MAX_PAYMENT,
                            found.context.account_balance_key,
                            found.context.rewards_balance_key,
                        )
                    } else {
                        settled_deploy_outcome(
                            executor,
                            preprocessor,
                            purse.tracking_copy,
                            deploy.header,
                            deploy.session.args(),
                            account,
                            session_module,
                            found.context,
                            paid.result,
                            purse.balance,
                        )
                    },
                }
            },
        },
    }
}

/// The result of the finalization of a payment, or why it could not be set up.
///
/// The payment is finalized in a fork of `post_session`, by the proof of stake contract,
/// in the name of the system account, with the keys that the contract knows then, and with
/// all the gas there is.
pub open spec fn spec_finalization<A, P: Preprocessor<A>, E: Executor<A>>(
    executor: &E,
    preprocessor: &P,
    post_session: TrackingCopyView,
    authorization_keys: Seq<PublicKey>,
    blocktime: BlockTime,
    deploy_hash: [u8; 32],
    protocol_version: u64,
    account: AccountView,
    context: PaymentContextView,
    total_cost: nat,
) -> Result<ExecutionResultView, ErrorView> {
    let finalization = post_session.fork();
    match preprocessor.deserialize_spec(ModuleBytes { bytes: context.pos.contract.bytes }) {
        Err(e) => Err(ErrorView::WasmPreprocessingError(e)),
        Ok(pos_module) => match spec_finalize_args(total_cost, account.public_key) {
            None => Err(ErrorView::SerializationError),
            Some(args) => match finalization.get_system_contract_info(context.pos_public_key) {
                Err(_) => Err(ErrorView::FinalizationError),
                Ok(pos_now) => Ok(
                    executor.exec_direct_spec(
                        pos_module,
                        ExecInput {
                            args,
                            known_keys: pos_now.contract.named_keys,
                            base_key: context.pos.inner_key,
                            account: system_account_view(),
                            authorization_keys: authorization_keys.to_set(),
                            blocktime,
                            deploy_hash,
                            gas_limit: u64::MAX as nat,
                            protocol_version,
                            phase: Phase::FinalizePayment,
                        },
                        finalization.after_get_system_contract_info(context.pos_public_key),
                    ).result,
                ),
            },
        },
    }
}

/// The result of a deploy whose payment is good.
///
/// The session runs in a fork of the tracking copy, with the gas that the payment purse
/// buys less what the payment code spent. The payment is finalized after the session where
/// the session succeeded, else after the payment: what a failed session did is dropped.
/// The deploy is refused where the finalization cannot be set up. Else the result is the
/// three results combined.
pub open spec fn settled_deploy_outcome<A, P: Preprocessor<A>, E: Executor<A>>(
    executor: &E,
    preprocessor: &P,
    tracking_copy: TrackingCopyView,
    header: DeployHeader,
    session_args: Seq<u8>,
    account: AccountView,
    session_module: A,
    context: PaymentContextView,
    payment: ExecutionResultView,
    payment_purse_balance: nat,
) -> ExecutionResultView {
    let ran = executor.exec_spec(
        session_module,
        header.exec_input(
            account,
            session_args,
            spec_session_gas_limit(payment_purse_balance, payment.cost),
            Phase::Session,
        ),
        tracking_copy.fork(),
    );
    let post_session = if ran.result.is_failure() {
        tracking_copy.fork()
    } else {
        ran.tracking_copy
    };
    match spec_finalization::<A, P, E>(
        executor,
        preprocessor,
        post_session,
        header.authorization_keys,
        header.blocktime,
        header.deploy_hash,
        header.protocol_version,
        account,
        context,
        payment.cost as nat + ran.result.cost as nat,
    ) {
        Err(e) => ExecutionResultView::precondition_failure(e),
        Ok(finalized) => combined_result(payment, ran.result, finalized),
    }
}

/// A forced transfer never takes more than the main purse of the account holds: a deploy
/// gets as far as its payment only where that purse holds the largest payment, so that the
/// transfer, committed to the state that the deploy started from, leaves what the purse
/// held less the largest payment. The balance is one of 512 bits, as every balance that a
/// value of the state holds.
pub proof fn lemma_forced_transfer_is_covered(
    tracking_copy: TrackingCopyView,
    account: AccountView,
    payment: ExecutionResultView,
)
    requires
        spec_payment_context(tracking_copy, account) is Ok,
        spec_payment_context(tracking_copy, account)->Ok_0.context.account_balance < radix_pow(8),
        spec_payment_context(tracking_copy, account)->Ok_0.context.account_balance_key.spec_normalize()
            != spec_payment_context(
            tracking_copy,
            account,
        )->Ok_0.context.rewards_balance_key.spec_normalize(),
    ensures
        ({
            let context = spec_payment_context(tracking_copy, account)->Ok_0.context;
            let forced = forced_transfer_result(
                payment,
                MAX_PAYMENT,
                context.account_balance_key,
                context.rewards_balance_key,
            );
            &&& context.account_balance >= MAX_PAYMENT
            &&& forced.effect.transforms[context.account_balance_key.spec_normalize()].apply(
                ValueView::UInt512(context.account_balance),
            ) == Ok::<ValueView, TypeMismatch>(
                ValueView::UInt512((context.account_balance - MAX_PAYMENT) as nat),
            )
        }),
{
    let context = spec_payment_context(tracking_copy, account)->Ok_0.context;
    lemma_forced_transfer_conserves(
        MAX_PAYMENT,
        context.account_balance_key,
        context.rewards_balance_key,
        context.account_balance,
        0,
    );
}

/// Whether `result` is the refusal of a deploy that the engine gives where the store of
/// the global state fails: nothing was done, nothing is charged, and the error is the
/// failure of the store.
pub open spec fn refused_for_store(result: ExecutionResultView) -> bool {
    result == ExecutionResultView::precondition_failure(
        ErrorView::ExecError(crate::execution::ErrorView::Storage),
    )
}

/// The same header with the authorizing keys held in another order.
pub open spec fn with_keys(header: DeployHeader, keys: Seq<PublicKey>) -> DeployHeader {
    DeployHeader { authorization_keys: keys, ..header }
}

/// Whether a deploy is authorized does not depend on the order in which its authorizing
/// keys are held.
pub proof fn lemma_authorization_ignores_key_order(
    tracking_copy: TrackingCopyView,
    address: Key,
    first: Seq<PublicKey>,
    second: Seq<PublicKey>,
)
    requires
        first.no_duplicates(),
        second.no_duplicates(),
        first.to_set() == second.to_set(),
    ensures
        spec_authorize(tracking_copy, address, first) == spec_authorize(
            tracking_copy,
            address,
            second,
        ),
{
    match address {
        Key::Account(addr) => match tracking_copy.get_account(addr) {
            Ok(account) => {
                lemma_keys_weight_ignores_order(account.associated_keys, first, second);
            },
            Err(_) => {},
        },
        _ => {},
    }
}

/// What a deploy leaves does not depend on the order in which its authorizing keys are
/// held: two deploys that differ only in that order leave the same result.
pub proof fn lemma_deploy_ignores_key_order<A, P: Preprocessor<A>, E: Executor<A>>(
    config: EngineConfig,
    executor: &E,
    preprocessor: &P,
    state: Map<Key, ValueView>,
    deploy: DeployView,
    keys: Seq<PublicKey>,
)
    requires
        deploy.header.authorization_keys.no_duplicates(),
        keys.no_duplicates(),
        deploy.header.authorization_keys.to_set() == keys.to_set(),
    ensures
        deploy_outcome::<A, P, E>(config, executor, preprocessor, state, deploy)
            == deploy_outcome::<A, P, E>(
            config,
            executor,
            preprocessor,
            state,
            DeployView { header: with_keys(deploy.header, keys), ..deploy },
        ),
{
    let other = DeployView { header: with_keys(deploy.header, keys), ..deploy };
    let tc0 = TrackingCopyView::new(state);
    lemma_authorization_ignores_key_order(
        tc0,
        deploy.header.address,
        deploy.header.authorization_keys,
        keys,
    );
    match spec_authorize(tc0, deploy.header.address, deploy.header.authorization_keys) {
        Err(_) => {},
        Ok(account) => {
            let tc1 = after_authorize(tc0, deploy.header.address);
            match spec_get_module::<A, P>(preprocessor, tc1, deploy.session, account) {
                Err(_) => {},
                Ok(session_module) => {
                    let tc2 = after_get_module(tc1, deploy.session, account);
                    assert forall|args: Seq<u8>, gas: nat, phase: Phase|
                        deploy.header.exec_input(account, args, gas, phase)
                            == #[trigger] other.header.exec_input(account, args, gas, phase) by {}
                    if config.spec_use_payment_code() {
                        lemma_paid_deploy_ignores_key_order(
                            executor,
                            preprocessor,
                            tc2,
                            deploy,
                            keys,
                            account,
                            session_module,
                        );
                    }
                },
            }
        },
    }
}

/// What a deploy that pays leaves does not depend on the order in which its authorizing
/// keys are held.
pub proof fn lemma_paid_deploy_ignores_key_order<A, P: Preprocessor<A>, E: Executor<A>>(
    executor: &E,
    preprocessor: &P,
    tracking_copy: TrackingCopyView,
    deploy: DeployView,
    keys: Seq<PublicKey>,
    account: AccountView,
    session_module: A,
)
    requires
        deploy.header.authorization_keys.to_set() == keys.to_set(),
    ensures
        paid_deploy_outcome::<A, P, E>(
            executor,
            preprocessor,
            tracking_copy,
            deploy,
            account,
            session_module,
        ) == paid_deploy_outcome::<A, P, E>(
            executor,
            preprocessor,
            tracking_copy,
            DeployView { header: with_keys(deploy.header, keys), ..deploy },
            account,
            session_module,
        ),
{
    let other = DeployView { header: with_keys(deploy.header, keys), ..deploy };
    assert forall|args: Seq<u8>, gas: nat, phase: Phase|
        deploy.header.exec_input(account, args, gas, phase) == #[trigger] other.header.exec_input(
            account,
            args,
            gas,
            phase,
        ) by {}
}

/// Whether `result` is the refusal of a deploy whose account could not be read because
/// the store failed: such a deploy is refused as one that is not authorized. It is given
/// only where the address of the deploy is that of an account.
pub open spec fn refused_for_unread_account(address: Key, result: ExecutionResultView) -> bool {
    address is Account && result == ExecutionResultView::precondition_failure(
        ErrorView::AuthorizationError,
    )
}

/// Whether the run of a deploy against the root `prestate_hash` of `store` may return
/// `result`: the missing root where the store does not know the root; the refusal for a
/// failure of the store; and where the store knows the root, the refusal of a deploy whose
/// account could not be read, or what `deploy_outcome` states of the state with that root.
pub open spec fn is_deploy_result<S: StateProvider, A, P: Preprocessor<A>, E: Executor<A>>(
    store: S,
    config: EngineConfig,
    executor: &E,
    preprocessor: &P,
    prestate_hash: Blake2bHash,
    deploy: DeployView,
    result: Result<ExecutionResultView, RootNotFound>,
) -> bool {
    match result {
        Err(e) => e == RootNotFound(prestate_hash) && store.state_at(prestate_hash).is_none(),
        Ok(result) => refused_for_store(result) || (store.state_at(prestate_hash) matches Some(
            state,
        ) && (refused_for_unread_account(deploy.header.address, result) || result
            == deploy_outcome::<A, P, E>(config, executor, preprocessor, state.values, deploy))),
    }
}

/// Two runs of the same deploy against the same root of the same store, with the same
/// settings, executor and preprocessor, neither of which was refused for a failure of the
/// store or for an account that could not be read, return the same: both the missing
/// root, or results with the same effects, the same cost and the same error.
pub proof fn lemma_deploy_is_deterministic<S: StateProvider, A, P: Preprocessor<A>, E: Executor<A>>(
    store: S,
    config: EngineConfig,
    executor: &E,
    preprocessor: &P,
    prestate_hash: Blake2bHash,
    deploy: DeployView,
    first: Result<ExecutionResultView, RootNotFound>,
    second: Result<ExecutionResultView, RootNotFound>,
)
    requires
        is_deploy_result::<S, A, P, E>(
            store,
            config,
            executor,
            preprocessor,
            prestate_hash,
            deploy,
            first,
        ),
        is_deploy_result::<S, A, P, E>(
            store,
            config,
            executor,
            preprocessor,
            prestate_hash,
            deploy,
            second,
        ),
        !(first matches Ok(result) && (refused_for_store(result) || refused_for_unread_account(
            deploy.header.address,
            result,
        ))),
        !(second matches Ok(result) && (refused_for_store(result) || refused_for_unread_account(
            deploy.header.address,
            result,
        ))),
    ensures
        first == second,
{
}

/// A deploy that is refused leaves the state as it is: the commit of its effects changes
/// nothing.
pub proof fn lemma_refused_deploy_changes_nothing(
    result: ExecutionResultView,
    state: Map<Key, ValueView>,
)
    requires
        result.is_precondition_failure(),
    ensures
        commits(state, result.effect.transforms),
        committed(state, result.effect.transforms) == state,
{
    lemma_commit_of_nothing(state);
}

/// A deploy that is not authorized is refused: where the address names no account of the
/// state, where there is no authorizing key, where one of the keys is not associated with
/// the account, or where the keys do not reach the deployment threshold together.
pub proof fn lemma_unauthorized_deploy_is_refused<A, P: Preprocessor<A>, E: Executor<A>>(
    config: EngineConfig,
    executor: &E,
    preprocessor: &P,
    state: Map<Key, ValueView>,
    deploy: DeployView,
)
    requires
        spec_authorize(
            TrackingCopyView::new(state),
            deploy.header.address,
            deploy.header.authorization_keys,
        ) is Err,
    ensures
        deploy_outcome::<A, P, E>(
            config,
            executor,
            preprocessor,
            state,
            deploy,
        ).is_precondition_failure(),
{
}

/// A deploy whose authorizing keys weigh less together than the deployment threshold of
/// its account never changes the state: it is refused, with no effect.
pub proof fn lemma_underweight_deploy_changes_nothing<A, P: Preprocessor<A>, E: Executor<A>>(
    config: EngineConfig,
    executor: &E,
    preprocessor: &P,
    state: Map<Key, ValueView>,
    deploy: DeployView,
    account: AccountView,
)
    requires
        deploy.header.address matches Key::Account(addr) && state.contains_key(
            Key::Account(addr),
        ) && state[Key::Account(addr)] == ValueView::Account(account),
        keys_weight(
            account.associated_keys,
            deploy.header.authorization_keys,
        ) < account.action_thresholds.deployment.0,
    ensures
        deploy_outcome::<A, P, E>(
            config,
            executor,
            preprocessor,
            state,
            deploy,
        ).is_precondition_failure(),
        committed(
            state,
            deploy_outcome::<A, P, E>(
                config,
                executor,
                preprocessor,
                state,
                deploy,
            ).effect.transforms,
        ) == state,
{
    let outcome = deploy_outcome::<A, P, E>(config, executor, preprocessor, state, deploy);
    lemma_refused_deploy_changes_nothing(outcome, state);
}

/// Where the session of a paying deploy fails, the deploy has no effect at a key that only
/// the session touched, whatever the session did there.
pub proof fn lemma_failed_session_is_isolated<A, P: Preprocessor<A>, E: Executor<A>>(
    executor: &E,
    preprocessor: &P,
    tracking_copy: TrackingCopyView,
    header: DeployHeader,
    session_args: Seq<u8>,
    account: AccountView,
    session_module: A,
    context: PaymentContextView,
    payment: ExecutionResultView,
    payment_purse_balance: nat,
    key: Key,
)
    requires
        !payment.is_failure(),
        executor.exec_spec(
            session_module,
            header.exec_input(
                account,
                session_args,
                spec_session_gas_limit(payment_purse_balance, payment.cost),
                Phase::Session,
            ),
            tracking_copy.fork(),
        ).result.is_failure(),
        !payment.effect.transforms.contains_key(key),
        !payment.effect.ops.contains_key(key),
        spec_finalization::<A, P, E>(
            executor,
            preprocessor,
            tracking_copy.fork(),
            header.authorization_keys,
            header.blocktime,
            header.deploy_hash,
            header.protocol_version,
            account,
            context,
            payment.cost as nat + executor.exec_spec(
                session_module,
                header.exec_input(
                    account,
                    session_args,
                    spec_session_gas_limit(payment_purse_balance, payment.cost),
                    Phase::Session,
                ),
                tracking_copy.fork(),
            ).result.cost as nat,
        ) matches Ok(finalized) ==> !finalized.effect.transforms.contains_key(key)
            && !finalized.effect.ops.contains_key(key),
    ensures
        !settled_deploy_outcome::<A, P, E>(
            executor,
            preprocessor,
            tracking_copy,
            header,
            session_args,
            account,
            session_module,
            context,
            payment,
            payment_purse_balance,
        ).effect.transforms.contains_key(key),
        !settled_deploy_outcome::<A, P, E>(
            executor,
            preprocessor,
            tracking_copy,
            header,
            session_args,
            account,
            session_module,
            context,
            payment,
            payment_purse_balance,
        ).effect.ops.contains_key(key),
{
}

} // verus!
