//! The result of an execution, and how the results of the three phases of a deploy become
//! the result of the deploy.

use crate::engine_state::error::{Error, ErrorView};
use crate::engine_state::execution_effect::{
    add_op,
    add_transform,
    record_op,
    record_transform,
    EffectView,
    ExecutionEffect,
    OpMap,
    TransformMap,
};
use crate::engine_state::op::Op;
use crate::engine_state::CONV_RATE;
use crate::shared::gas::Gas;
use crate::shared::motes::Motes;
use crate::shared::transform::{Transform, TransformView};
use crate::types::key::Key;
use crate::types::uint::{radix_pow, U512};
use crate::types::vec_map::{Duplicate, VecMap};
use vstd::prelude::*;

verus! {

/// What an execution leaves: its effects on the global state, its cost in gas, and its
/// error, if it failed.
#[derive(Debug)]
pub struct ExecutionResult {
    pub effect: ExecutionEffect,
    pub cost: u64,
    pub error: Option<Error>,
}

/// What an execution result is, as plain values.
pub struct ExecutionResultView {
    pub effect: EffectView,
    pub cost: u64,
    pub error: Option<ErrorView>,
}

impl ExecutionResultView {
    /// The result of a deploy that was refused before anything ran: no effect, no cost.
    pub open spec fn precondition_failure(error: ErrorView) -> ExecutionResultView {
        ExecutionResultView { effect: EffectView::empty(), cost: 0, error: Some(error) }
    }

    /// Whether the deploy was refused before anything ran.
    pub open spec fn is_precondition_failure(self) -> bool {
        self.error.is_some() && self.effect == EffectView::empty() && self.cost == 0
    }

    pub open spec fn is_failure(self) -> bool {
        self.error.is_some()
    }

    /// Whether the result says that the store of the global state failed.
    pub open spec fn is_store_failure(self) -> bool {
        self.error == Some(ErrorView::ExecError(crate::execution::ErrorView::Storage))
    }
}

impl View for ExecutionResult {
    type V = ExecutionResultView;

    open spec fn view(&self) -> ExecutionResultView {
        ExecutionResultView {
            effect: self.effect@,
            cost: self.cost,
            error: match self.error {
                Some(e) => Some(e@),
                None => None,
            },
        }
    }
}

impl ExecutionResult {
    /// The result of an execution that succeeded.
    pub fn success(effect: ExecutionEffect, cost: u64) -> (r: Self)
        ensures
            r@ == (ExecutionResultView { effect: effect@, cost, error: None }),
    {
        ExecutionResult { effect, cost, error: None }
    }

    /// The result of an execution that failed.
    pub fn failure(error: Error, effect: ExecutionEffect, cost: u64) -> (r: Self)
        ensures
            r@ == (ExecutionResultView { effect: effect@, cost, error: Some(error@) }),
    {
        ExecutionResult { effect, cost, error: Some(error) }
    }

    /// The result of a deploy that was refused before anything ran: no effect, no cost.
    pub fn precondition_failure(error: Error) -> (r: Self)
        ensures
            r@ == ExecutionResultView::precondition_failure(error@),
            r@.is_precondition_failure(),
    {
        ExecutionResult { effect: ExecutionEffect::empty(), cost: 0, error: Some(error) }
    }

    pub fn is_success(&self) -> (r: bool)
        ensures
            r == !self@.is_failure(),
    {
        self.error.is_none()
    }

    pub fn is_failure(&self) -> (r: bool)
        ensures
            r == self@.is_failure(),
    {
        self.error.is_some()
    }

    /// Whether the result says that the store of the global state failed.
    pub fn is_store_failure(&self) -> (r: bool)
        ensures
            r == self@.is_store_failure(),
    {
        match &self.error {
            Some(Error::ExecError(crate::execution::Error::Storage)) => true,
            _ => false,
        }
    }

    pub fn effect(&self) -> (r: &ExecutionEffect)
        ensures
            r@ == self@.effect,
    {
        &self.effect
    }

    pub fn cost(&self) -> (r: u64)
        ensures
            r == self@.cost,
    {
        self.cost
    }

    pub fn error(&self) -> (r: Option<Error>)
        ensures
            match r {
                Some(e) => self@.error == Some(e@),
                None => self@.error.is_none(),
            },
    {
        match &self.error {
            Some(e) => Some(e.duplicate()),
            None => None,
        }
    }

    /// The same result at another cost.
    pub fn with_cost(self, cost: u64) -> (r: Self)
        ensures
            r@ == (ExecutionResultView { cost, ..self@ }),
    {
        ExecutionResult { effect: self.effect, cost, error: self.error }
    }

    /// The same result with another effect.
    pub fn with_effect(self, effect: ExecutionEffect) -> (r: Self)
        ensures
            r@ == (ExecutionResultView { effect: effect@, ..self@ }),
    {
        ExecutionResult { effect, cost: self.cost, error: self.error }
    }
}

impl Duplicate for ExecutionResult {
    fn duplicate(&self) -> (r: Self) {
        ExecutionResult { effect: self.effect.duplicate(), cost: self.cost, error: self.error() }
    }
}

/// A result that the builder needs was not set.
#[derive(Clone, Copy, Debug, PartialEq, Eq, Structural)]
pub enum ExecutionResultBuilderError {
    MissingPaymentExecutionResult,
    MissingSessionExecutionResult,
    MissingFinalizeExecutionResult,
}

/// The sum of two costs, or the largest cost where the sum is larger.
pub open spec fn saturating_cost(a: u64, b: u64) -> u64 {
    if a + b > u64::MAX {
        u64::MAX
    } else {
        (a + b) as u64
    }
}

/// The effect of a forced transfer of `max_payment` motes: that much is taken from the
/// balance under `account_balance_key` and added to the balance under
/// `rewards_balance_key`. To take is to add the two's complement.
pub open spec fn forced_transfer_effect(
    max_payment: u64,
    account_balance_key: Key,
    rewards_balance_key: Key,
) -> EffectView {
    let source = account_balance_key.normalize();
    let target = rewards_balance_key.normalize();
    let taken = TransformView::AddUInt512(((0 - max_payment) % (radix_pow(8) as int)) as nat);
    let given = TransformView::AddUInt512(max_payment as nat);
    EffectView {
        ops: record_op(record_op(Map::empty(), source, Op::Add), target, Op::Add),
        transforms: record_transform(
            record_transform(Map::empty(), source, taken, false),
            target,
            given,
            false,
        ),
    }
}

/// Whether the payment of a deploy was not good: the payment code failed, or the payment
/// purse holds less than the payment code cost, in motes, or less than `max_payment`.
pub open spec fn payment_is_short(
    payment: ExecutionResultView,
    payment_purse_balance: nat,
    max_payment: u64,
) -> bool {
    payment.is_failure() || payment_purse_balance < payment.cost * CONV_RATE
        || payment_purse_balance < max_payment
}

/// The result of a deploy whose payment was not good: the forced transfer is its only
/// effect, its cost is `max_payment`, and its error is that of the payment code or, where
/// the payment code succeeded, that the payment did not suffice.
pub open spec fn forced_transfer_result(
    payment: ExecutionResultView,
    max_payment: u64,
    account_balance_key: Key,
    rewards_balance_key: Key,
) -> ExecutionResultView {
    ExecutionResultView {
        effect: forced_transfer_effect(max_payment, account_balance_key, rewards_balance_key),
        cost: max_payment,
        error: Some(
            match payment.error {
                Some(e) => e,
                None => ErrorView::InsufficientPaymentError,
            },
        ),
    }
}

/// The result of a deploy, from the results of its three phases. A payment that failed is
/// the result. Else the effects are those of the payment, of the session where it
/// succeeded, and of the finalization, merged in this order. Where the session failed, the
/// error is the session's and the cost that of the payment; else the cost is that of both.
/// A finalization that failed refuses the deploy.
pub open spec fn combined_result(
    payment: ExecutionResultView,
    session: ExecutionResultView,
    finalize: ExecutionResultView,
) -> ExecutionResultView {
    if payment.is_failure() {
        payment
    } else if finalize.is_failure() {
        ExecutionResultView::precondition_failure(ErrorView::FinalizationError)
    } else if session.is_failure() {
        ExecutionResultView {
            effect: payment.effect.merge(finalize.effect),
            cost: payment.cost,
            error: session.error,
        }
    } else {
        ExecutionResultView {
            effect: payment.effect.merge(session.effect).merge(finalize.effect),
            cost: saturating_cost(payment.cost, session.cost),
            error: None,
        }
    }
}

/// Gathers the results of the three phases of a deploy.
#[derive(Debug)]
pub struct ExecutionResultBuilder {
    payment_execution_result: Option<ExecutionResult>,
    session_execution_result: Option<ExecutionResult>,
    finalize_execution_result: Option<ExecutionResult>,
}

/// What the builder holds, as plain values.
pub struct BuilderView {
    pub payment: Option<ExecutionResultView>,
    pub session: Option<ExecutionResultView>,
    pub finalize: Option<ExecutionResultView>,
}

impl BuilderView {
    /// The first result that is missing, of those that the result of the deploy needs: the
    /// payment's, and where the payment succeeded, the session's and the finalization's.
    pub open spec fn missing(self) -> Option<ExecutionResultBuilderError> {
        match self.payment {
            None => Some(ExecutionResultBuilderError::MissingPaymentExecutionResult),
            Some(payment) => if payment.is_failure() {
                None
            } else if self.session.is_none() {
                Some(ExecutionResultBuilderError::MissingSessionExecutionResult)
            } else if self.finalize.is_none() {
                Some(ExecutionResultBuilderError::MissingFinalizeExecutionResult)
            } else {
                None
            },
        }
    }

    /// The cost of the payment code and of the session code together, in gas.
    pub open spec fn total_cost(self) -> nat {
        (match self.payment {
            Some(r) => r.cost as nat,
            None => 0,
        }) + (match self.session {
            Some(r) => r.cost as nat,
            None => 0,
        })
    }
}

impl View for ExecutionResultBuilder {
    type V = BuilderView;

    closed spec fn view(&self) -> BuilderView {
        BuilderView {
            payment: match self.payment_execution_result {
                Some(r) => Some(r@),
                None => None,
            },
            session: match self.session_execution_result {
                Some(r) => Some(r@),
                None => None,
            },
            finalize: match self.finalize_execution_result {
                Some(r) => Some(r@),
                None => None,
            },
        }
    }
}

impl ExecutionResultBuilder {
    pub fn new() -> (r: Self)
        ensures
            r@ == (BuilderView { payment: None, session: None, finalize: None }),
    {
        ExecutionResultBuilder {
            payment_execution_result: None,
            session_execution_result: None,
            finalize_execution_result: None,
        }
    }

    pub fn set_payment_execution_result(&mut self, payment_result: ExecutionResult)
        ensures
            final(self)@ == (BuilderView { payment: Some(payment_result@), ..old(self)@ }),
    {
        self.payment_execution_result = Some(payment_result);
    }

    pub fn set_session_execution_result(&mut self, session_result: ExecutionResult)
        ensures
            final(self)@ == (BuilderView { session: Some(session_result@), ..old(self)@ }),
    {
        self.session_execution_result = Some(session_result);
    }

    pub fn set_finalize_execution_result(&mut self, finalize_result: ExecutionResult)
        ensures
            final(self)@ == (BuilderView { finalize: Some(finalize_result@), ..old(self)@ }),
    {
        self.finalize_execution_result = Some(finalize_result);
    }

    /// The cost of the payment code, or nothing where no payment result is set.
    pub fn payment_cost(&self) -> (r: u64)
        ensures
            r == (match self@.payment {
                Some(payment) => payment.cost,
                None => 0,
            }),
    {
        match &self.payment_execution_result {
            Some(payment) => payment.cost,
            None => 0,
        }
    }

    /// The cost of the payment code and of the session code together.
    pub fn total_cost(&self) -> (r: Gas)
        ensures
            r@ == self@.total_cost(),
    {
        let payment: u64 = match &self.payment_execution_result {
            Some(r) => r.cost,
            None => 0,
        };
        let session: u64 = match &self.session_execution_result {
            Some(r) => r.cost,
            None => 0,
        };
        Gas::new(U512::from_u128(payment as u128 + session as u128))
    }

    /// The result of the deploy where the payment was not good, and nothing where it was
    /// good or where no payment result is set.
    ///
    /// The transfer is stated as adds, which need no balance. Of the balance of the
    /// account's main purse the contract says what the transfer leaves of it: where it
    /// holds the largest payment and the two purses are not one, it loses exactly that.
    pub fn check_forced_transfer(
        &self,
        max_payment_cost: u64,
        account_main_purse_balance: Motes,
        payment_purse_balance: Motes,
        account_main_purse_balance_key: Key,
        rewards_purse_balance_key: Key,
    ) -> (r: Option<ExecutionResult>)
        ensures
            match self@.payment {
                None => r.is_none(),
                Some(payment) => if payment_is_short(
                    payment,
                    payment_purse_balance@,
                    max_payment_cost,
                ) {
                    r.is_some() && r.unwrap()@ == forced_transfer_result(
                        payment,
                        max_payment_cost,
                        account_main_purse_balance_key,
                        rewards_purse_balance_key,
                    )
                } else {
                    r.is_none()
                },
            },
            r matches Some(forced) ==> account_main_purse_balance@ >= max_payment_cost
                && account_main_purse_balance_key.spec_normalize()
                != rewards_purse_balance_key.spec_normalize()
                ==> forced@.effect.transforms[account_main_purse_balance_key.spec_normalize()].apply(
                crate::types::value::ValueView::UInt512(account_main_purse_balance@),
            ) == Ok::<crate::types::value::ValueView, crate::types::value::TypeMismatch>(
                crate::types::value::ValueView::UInt512(
                    (account_main_purse_balance@ - max_payment_cost) as nat,
                ),
            ),
    {
        proof {
            account_main_purse_balance.0.lemma_bound();
            if account_main_purse_balance_key.spec_normalize()
                != rewards_purse_balance_key.spec_normalize() {
                lemma_forced_transfer_conserves(
                    max_payment_cost,
                    account_main_purse_balance_key,
                    rewards_purse_balance_key,
                    account_main_purse_balance@,
                    0,
                );
            }
        }
        let payment = match &self.payment_execution_result {
            Some(payment) => payment,
            None => {
                return None;
            },
        };
        let cost_motes = U512::from_u128((payment.cost as u128) * (CONV_RATE as u128));
        let max_payment = U512::from_u64(max_payment_cost);
        let short = payment.is_failure() || payment_purse_balance.value().lt(&cost_motes)
            || payment_purse_balance.value().lt(&max_payment);
        if !short {
            return None;
        }
        let source = account_main_purse_balance_key.normalize();
        let target = rewards_purse_balance_key.normalize();
        let taken = U512::zero().wrapping_sub(&max_payment);
        let mut ops: OpMap = VecMap::new();
        let mut transforms: TransformMap = VecMap::new();
        add_op(&mut ops, source, Op::Add);
        add_transform(&mut transforms, source, Transform::AddUInt512(taken), false);
        add_op(&mut ops, target, Op::Add);
        add_transform(&mut transforms, target, Transform::AddUInt512(max_payment), false);
        let error = match payment.error() {
            Some(e) => e,
            None => Error::InsufficientPaymentError,
        };
        Some(ExecutionResult::failure(error, ExecutionEffect::new(ops, transforms), max_payment_cost))
    }

    /// The result of the deploy, where the results that it needs are set: the payment's,
    /// and where the payment succeeded, the session's and the finalization's.
    pub fn build(self) -> (r: Result<ExecutionResult, ExecutionResultBuilderError>)
        ensures
            match self@.missing() {
                Some(e) => r == Err::<ExecutionResult, ExecutionResultBuilderError>(e),
                None => r matches Ok(result) && result@ == combined_result(
                    self@.payment.unwrap(),
                    self@.session.unwrap(),
                    self@.finalize.unwrap(),
                ),
            },
    {
        let payment = match self.payment_execution_result {
            Some(payment) => payment,
            None => {
                return Err(ExecutionResultBuilderError::MissingPaymentExecutionResult);
            },
        };
        if payment.is_failure() {
            return Ok(payment);
        }
        let session = match self.session_execution_result {
            Some(session) => session,
            None => {
                return Err(ExecutionResultBuilderError::MissingSessionExecutionResult);
            },
        };
        let finalize = match self.finalize_execution_result {
            Some(finalize) => finalize,
            None => {
                return Err(ExecutionResultBuilderError::MissingFinalizeExecutionResult);
            },
        };
        if finalize.is_failure() {
            return Ok(ExecutionResult::precondition_failure(Error::FinalizationError));
        }
        let mut effect = payment.effect;
        let cost: u64;
        let error: Option<Error>;
        if session.is_failure() {
            cost = payment.cost;
            error = session.error;
        } else {
            effect.merge(&session.effect);
            cost = payment.cost.saturating_add(session.cost);
            error = None;
        }
        effect.merge(&finalize.effect);
        Ok(ExecutionResult { effect, cost, error })
    }
}

/// Where the session failed, the deploy has no effect at a key that only the session
/// touched.
pub proof fn lemma_failed_session_leaves_no_effect(
    payment: ExecutionResultView,
    session: ExecutionResultView,
    finalize: ExecutionResultView,
    key: Key,
)
    requires
        session.is_failure(),
        !payment.effect.transforms.contains_key(key),
        !payment.effect.ops.contains_key(key),
        !finalize.effect.transforms.contains_key(key),
        !finalize.effect.ops.contains_key(key),
    ensures
        !combined_result(payment, session, finalize).effect.transforms.contains_key(key),
        !combined_result(payment, session, finalize).effect.ops.contains_key(key),
{
}

/// A forced transfer is no refusal: it touches the balance of the main purse of the account
/// and the balance of the rewards purse, and nothing else.
pub proof fn lemma_forced_transfer_is_charged(
    payment: ExecutionResultView,
    max_payment: u64,
    account_balance_key: Key,
    rewards_balance_key: Key,
)
    ensures
        ({
            let forced = forced_transfer_result(
                payment,
                max_payment,
                account_balance_key,
                rewards_balance_key,
            );
            &&& forced.effect.transforms.dom() =~= set![
                account_balance_key.spec_normalize(),
                rewards_balance_key.spec_normalize(),
            ]
            &&& forced.effect.ops.dom() =~= forced.effect.transforms.dom()
            &&& forced.is_failure()
            &&& !forced.is_precondition_failure()
        }),
{
    let forced = forced_transfer_result(
        payment,
        max_payment,
        account_balance_key,
        rewards_balance_key,
    );
    assert(forced.effect.transforms.contains_key(account_balance_key.spec_normalize()));
    assert(!EffectView::empty().transforms.contains_key(account_balance_key.spec_normalize()));
}

/// A forced transfer takes from the account what it gives to the rewards purse: applied to
/// two balances under two keys, the two adds leave their sum as it was, modulo `2^512`.
/// A balance that holds `max_payment` loses exactly that, and one that has room gains it.
pub proof fn lemma_forced_transfer_conserves(
    max_payment: u64,
    account_balance_key: Key,
    rewards_balance_key: Key,
    account_balance: nat,
    rewards_balance: nat,
)
    requires
        account_balance_key.normalize() != rewards_balance_key.normalize(),
        account_balance < radix_pow(8),
        rewards_balance < radix_pow(8),
    ensures
        ({
            let effect = forced_transfer_effect(
                max_payment,
                account_balance_key,
                rewards_balance_key,
            );
            let taken = effect.transforms[account_balance_key.normalize()].apply(
                crate::types::value::ValueView::UInt512(account_balance),
            );
            let given = effect.transforms[rewards_balance_key.normalize()].apply(
                crate::types::value::ValueView::UInt512(rewards_balance),
            );
            &&& effect.transforms.dom() =~= set![
                account_balance_key.normalize(),
                rewards_balance_key.normalize(),
            ]
            &&& taken matches Ok(crate::types::value::ValueView::UInt512(a))
            &&& given matches Ok(crate::types::value::ValueView::UInt512(b))
            &&& (a + b) % radix_pow(8) == (account_balance + rewards_balance) % radix_pow(8)
            &&& account_balance >= max_payment ==> a == account_balance - max_payment
            &&& rewards_balance + max_payment < radix_pow(8) ==> b == rewards_balance
                + max_payment
        }),
{
    let m = radix_pow(8) as int;
    crate::types::uint::lemma_radix_pow_positive(8);
    let neg = ((0 - max_payment) % m) as nat;
    let a = (account_balance + neg) % (m as nat);
    let b = (rewards_balance + max_payment as nat) % (m as nat);
    reveal_with_fuel(radix_pow, 9);
    assert(m > 0xffff_ffff_ffff_ffff) by (nonlinear_arith)
        requires
            m == radix_pow(8),
            radix_pow(8) == 0x1_0000_0000_0000_0000 * radix_pow(7),
            radix_pow(7) > 0,
    {
    }
    if max_payment == 0 {
        vstd::arithmetic::div_mod::lemma_small_mod(0, m as nat);
        vstd::arithmetic::div_mod::lemma_small_mod(account_balance, m as nat);
        vstd::arithmetic::div_mod::lemma_small_mod(rewards_balance, m as nat);
        assert(neg == 0);
    } else {
        vstd::arithmetic::div_mod::lemma_fundamental_div_mod_converse(
            0 - max_payment,
            m,
            -1,
            m - max_payment,
        );
        assert(neg == m - max_payment);
        if account_balance >= max_payment {
            vstd::arithmetic::div_mod::lemma_fundamental_div_mod_converse(
                (account_balance + neg) as int,
                m,
                1,
                account_balance - max_payment,
            );
        }
    }
    if rewards_balance + max_payment < m {
        vstd::arithmetic::div_mod::lemma_small_mod(rewards_balance + max_payment as nat, m as nat);
    }
    vstd::arithmetic::div_mod::lemma_add_mod_noop(
        (account_balance + neg) as int,
        (rewards_balance + max_payment) as int,
        m,
    );
    vstd::arithmetic::div_mod::lemma_mod_multiples_vanish(
        if max_payment == 0 { 0 } else { 1 },
        (account_balance + rewards_balance) as int,
        m,
    );
    vstd::arithmetic::div_mod::lemma_mod_bound((account_balance + neg) as int, m);
    vstd::arithmetic::div_mod::lemma_mod_bound((rewards_balance + max_payment) as int, m);
    vstd::arithmetic::div_mod::lemma_small_mod(a, m as nat);
    vstd::arithmetic::div_mod::lemma_small_mod(b, m as nat);
}

} // verus!
