//! What the engine needs to take the payment of a deploy: the system contracts, the purses
//! and their balances, and the gas and the arguments that follow from them.

use crate::engine_state::error::{Error, ErrorView};
use crate::engine_state::module_resolution::{lookup, spec_lookup};
use crate::engine_state::{
    CONV_RATE, FINALIZE_PAYMENT, MAX_PAYMENT, POS_PAYMENT_PURSE, POS_REWARDS_PURSE,
    SYSTEM_ACCOUNT_ADDR,
};
use crate::execution::{MINT_NAME, POS_NAME};
use crate::shared::gas::Gas;
use crate::shared::motes::Motes;
use crate::storage::global_state::StateReader;
use crate::tracking_copy::{
    SystemContractInfo, SystemContractInfoView, TrackingCopy, TrackingCopyView,
};
use crate::types::account::{Account, AccountView, ActionThresholds, PurseId};
use crate::types::bytesrepr::{
    arg_views, args_bytes, args_fit, push_bytes32, push_prefixed, push_u512, serialize_args,
    str_bytes, u512_bytes,
};
use crate::types::key::{AccessRights, Key, URef, Weight};
use crate::types::uint::{radix_pow, U512};
use crate::types::vec_map::VecMap;
use vstd::prelude::*;
use vstd::string::StringSliceAdditionalSpecFns;

verus! {

/// What the engine needs of the system contracts to take a payment.
#[derive(Debug)]
pub struct PaymentContext {
    /// The reference under which the mint is stored.
    pub mint: URef,
    /// The key under which the account knows the proof of stake contract.
    pub pos_public_key: Key,
    /// The proof of stake contract.
    pub pos: SystemContractInfo,
    /// The key of the balance of the rewards purse.
    pub rewards_balance_key: Key,
    /// The key of the balance of the main purse of the account.
    pub account_balance_key: Key,
    /// The balance of the main purse of the account.
    pub account_balance: Motes,
}

/// What the engine needs of the system contracts to take a payment, as plain values.
pub struct PaymentContextView {
    pub mint: URef,
    pub pos_public_key: Key,
    pub pos: SystemContractInfoView,
    pub rewards_balance_key: Key,
    pub account_balance_key: Key,
    pub account_balance: nat,
}

impl View for PaymentContext {
    type V = PaymentContextView;

    open spec fn view(&self) -> PaymentContextView {
        PaymentContextView {
            mint: self.mint,
            pos_public_key: self.pos_public_key,
            pos: self.pos@,
            rewards_balance_key: self.rewards_balance_key,
            account_balance_key: self.account_balance_key,
            account_balance: self.account_balance@,
        }
    }
}

/// A payment context together with the tracking copy after it was gathered.
pub struct PaymentContextFound {
    pub context: PaymentContextView,
    pub tracking_copy: TrackingCopyView,
}

/// The reference of an inner key of a system contract.
pub open spec fn inner_uref(info: SystemContractInfoView) -> URef {
    match info.inner_key {
        Key::URef(uref) => uref,
        _ => URef { addr: SYSTEM_ACCOUNT_ADDR, access_rights: None },
    }
}

/// Whether a main purse with this balance can pay for a deploy: it holds at least the
/// largest payment.
pub open spec fn spec_check_minimum_balance(balance: nat) -> Result<(), ErrorView> {
    if balance < MAX_PAYMENT {
        Err(ErrorView::InsufficientPaymentError)
    } else {
        Ok(())
    }
}

/// Whether a main purse with this balance can pay for a deploy.
pub fn check_minimum_balance(balance: Motes) -> (r: Result<(), Error>)
    ensures
        match r {
            Ok(_) => spec_check_minimum_balance(balance@) is Ok,
            Err(e) => spec_check_minimum_balance(balance@) == Err::<(), ErrorView>(e@),
        },
{
    if balance.lt(&Motes::from_u64(MAX_PAYMENT)) {
        Err(Error::InsufficientPaymentError)
    } else {
        Ok(())
    }
}

/// The payment context of an account: the account must know the mint and the proof of
/// stake contract, both must be stored as system contracts are, the proof of stake
/// contract must know its rewards purse, the mint must know the balances of that purse and
/// of the main purse of the account, and the main purse must hold at least the largest
/// payment.
pub open spec fn spec_payment_context(
    tracking_copy: TrackingCopyView,
    account: AccountView,
) -> Result<PaymentContextFound, ErrorView> {
    match spec_lookup(account.named_keys, MINT_NAME@) {
        None => Err(ErrorView::MissingSystemContractError(MINT_NAME@)),
        Some(mint_key) => {
            let mint_public = mint_key.spec_normalize();
            match tracking_copy.get_system_contract_info(mint_public) {
                Err(e) => Err(ErrorView::ExecError(e)),
                Ok(mint_info) => spec_payment_context_with_mint(
                    tracking_copy.after_get_system_contract_info(mint_public),
                    account,
                    inner_uref(mint_info),
                ),
            }
        },
    }
}

/// The payment context of an account, once the mint was found.
pub open spec fn spec_payment_context_with_mint(
    tracking_copy: TrackingCopyView,
    account: AccountView,
    mint: URef,
) -> Result<PaymentContextFound, ErrorView> {
    match spec_lookup(account.named_keys, POS_NAME@) {
        None => Err(ErrorView::MissingSystemContractError(POS_NAME@)),
        Some(pos_key) => {
            let pos_public_key = pos_key.spec_normalize();
            match tracking_copy.get_system_contract_info(pos_public_key) {
                Err(e) => Err(ErrorView::ExecError(e)),
                Ok(pos) => {
                    let tc2 = tracking_copy.after_get_system_contract_info(pos_public_key);
                    match spec_lookup(pos.contract.named_keys, POS_REWARDS_PURSE@) {
                        None => Err(ErrorView::DeployError),
                        Some(rewards_purse) => match tc2.get_purse_balance_key(
                            mint,
                            rewards_purse,
                        ) {
                            Err(e) => Err(ErrorView::ExecError(e)),
                            Ok(rewards_balance_key) => {
                                let tc3 = tc2.after_get_purse_balance_key(mint, rewards_purse);
                                let purse = Key::URef(account.purse_id.spec_value());
                                match tc3.get_purse_balance_key(mint, purse) {
                                    Err(e) => Err(ErrorView::ExecError(e)),
                                    Ok(account_balance_key) => {
                                        let tc4 = tc3.after_get_purse_balance_key(mint, purse);
                                        match tc4.get_purse_balance(account_balance_key) {
                                            Err(e) => Err(ErrorView::ExecError(e)),
                                            Ok(account_balance) => if spec_check_minimum_balance(
                                                account_balance,
                                            ) is Err {
                                                Err(ErrorView::InsufficientPaymentError)
                                            } else {
                                                Ok(
                                                    PaymentContextFound {
                                                        context: PaymentContextView {
                                                            mint,
                                                            pos_public_key,
                                                            pos,
                                                            rewards_balance_key,
                                                            account_balance_key,
                                                            account_balance,
                                                        },
                                                        tracking_copy: tc4.after_read(
                                                            account_balance_key,
                                                        ),
                                                    },
                                                )
                                            },
                                        }
                                    },
                                }
                            },
                        },
                    }
                },
            }
        },
    }
}

/// Gathers the payment context of an account. An account that does not know the mint is
/// refused before anything is read. Where the store fails at one of the reads, that
/// failure is reported.
pub fn payment_context<R: StateReader>(
    tracking_copy: &mut TrackingCopy<R>,
    account: &Account,
) -> (r: Result<PaymentContext, Error>)
    ensures
        match r {
            Ok(context) => spec_payment_context(old(tracking_copy)@, account@) == Ok::<
                PaymentContextFound,
                ErrorView,
            >(PaymentContextFound { context: context@, tracking_copy: final(tracking_copy)@ }),
            Err(e) => (e@.is_store_failure() && spec_lookup(account@.named_keys, MINT_NAME@)
                is Some) || spec_payment_context(old(tracking_copy)@, account@) == Err::<
                PaymentContextFound,
                ErrorView,
            >(e@),
        },
        spec_lookup(account@.named_keys, MINT_NAME@) is None ==> (r matches Err(e) && e@
            == ErrorView::MissingSystemContractError(MINT_NAME@)) && final(tracking_copy)@
            == old(tracking_copy)@,
        final(tracking_copy).spec_reader() == old(tracking_copy).spec_reader(),
{
    let mint_public = match lookup(account.urefs_lookup(), MINT_NAME) {
        Some(key) => key.normalize(),
        None => {
            return Err(Error::MissingSystemContractError(MINT_NAME.to_owned()));
        },
    };
    let mint_info = match tracking_copy.get_system_contract_info(mint_public) {
        Ok(info) => info,
        Err(e) => {
            return Err(Error::ExecError(e));
        },
    };
    let mint = match mint_info.inner_key() {
        Key::URef(uref) => uref,
        _ => URef { addr: SYSTEM_ACCOUNT_ADDR, access_rights: None },
    };
    let pos_public_key = match lookup(account.urefs_lookup(), POS_NAME) {
        Some(key) => key.normalize(),
        None => {
            return Err(Error::MissingSystemContractError(POS_NAME.to_owned()));
        },
    };
    let pos = match tracking_copy.get_system_contract_info(pos_public_key) {
        Ok(info) => info,
        Err(e) => {
            return Err(Error::ExecError(e));
        },
    };
    let rewards_purse = match lookup(pos.contract().urefs_lookup(), POS_REWARDS_PURSE) {
        Some(key) => key,
        None => {
            return Err(Error::DeployError);
        },
    };
    let rewards_balance_key = match tracking_copy.get_purse_balance_key(mint, rewards_purse) {
        Ok(key) => key,
        Err(e) => {
            return Err(Error::ExecError(e));
        },
    };
    let purse = Key::URef(account.purse_id().value());
    let account_balance_key = match tracking_copy.get_purse_balance_key(mint, purse) {
        Ok(key) => key,
        Err(e) => {
            return Err(Error::ExecError(e));
        },
    };
    let account_balance = match tracking_copy.get_purse_balance(account_balance_key) {
        Ok(balance) => balance,
        Err(e) => {
            return Err(Error::ExecError(e));
        },
    };
    match check_minimum_balance(account_balance) {
        Ok(_) => {},
        Err(e) => {
            return Err(e);
        },
    }
    Ok(
        PaymentContext {
            mint,
            pos_public_key,
            pos,
            rewards_balance_key,
            account_balance_key,
            account_balance,
        },
    )
}

/// A balance together with the tracking copy after it was read.
pub struct BalanceFound {
    pub balance: nat,
    pub tracking_copy: TrackingCopyView,
}

/// The balance of the payment purse of the proof of stake contract.
pub open spec fn spec_payment_purse_balance(
    tracking_copy: TrackingCopyView,
    context: PaymentContextView,
) -> Result<BalanceFound, ErrorView> {
    match spec_lookup(context.pos.contract.named_keys, POS_PAYMENT_PURSE@) {
        None => Err(ErrorView::DeployError),
        Some(payment_purse) => match tracking_copy.get_purse_balance_key(
            context.mint,
            payment_purse,
        ) {
            Err(e) => Err(ErrorView::ExecError(e)),
            Ok(balance_key) => {
                let tc1 = tracking_copy.after_get_purse_balance_key(context.mint, payment_purse);
                match tc1.get_purse_balance(balance_key) {
                    Err(e) => Err(ErrorView::ExecError(e)),
                    Ok(balance) => Ok(
                        BalanceFound { balance, tracking_copy: tc1.after_read(balance_key) },
                    ),
                }
            },
        },
    }
}

/// The balance of the payment purse of the proof of stake contract. A contract that knows
/// no payment purse is refused before anything is read. Where the store fails at one of
/// the reads, that failure is reported.
pub fn payment_purse_balance<R: StateReader>(
    tracking_copy: &mut TrackingCopy<R>,
    context: &PaymentContext,
) -> (r: Result<Motes, Error>)
    ensures
        match r {
            Ok(balance) => spec_payment_purse_balance(old(tracking_copy)@, context@) == Ok::<
                BalanceFound,
                ErrorView,
            >(BalanceFound { balance: balance@, tracking_copy: final(tracking_copy)@ }),
            Err(e) => (e@.is_store_failure() && spec_lookup(
                context@.pos.contract.named_keys,
                POS_PAYMENT_PURSE@,
            ) matches Some(Key::URef(_))) || spec_payment_purse_balance(
                old(tracking_copy)@,
                context@,
            ) == Err::<BalanceFound, ErrorView>(e@),
        },
        spec_lookup(context@.pos.contract.named_keys, POS_PAYMENT_PURSE@) is None ==> (r matches Err(
            e,
        ) && e@ == ErrorView::DeployError) && final(tracking_copy)@ == old(tracking_copy)@,
        final(tracking_copy).spec_reader() == old(tracking_copy).spec_reader(),
{
    let payment_purse = match lookup(context.pos.contract().urefs_lookup(), POS_PAYMENT_PURSE) {
        Some(key) => key,
        None => {
            return Err(Error::DeployError);
        },
    };
    let balance_key = match tracking_copy.get_purse_balance_key(context.mint, payment_purse) {
        Ok(key) => key,
        Err(e) => {
            return Err(Error::ExecError(e));
        },
    };
    match tracking_copy.get_purse_balance(balance_key) {
        Ok(balance) => Ok(balance),
        Err(e) => Err(Error::ExecError(e)),
    }
}

/// The gas that the session may spend: what the balance of the payment purse buys, less
/// what the payment code spent; nothing where that is more than the balance buys.
pub open spec fn spec_session_gas_limit(payment_purse_balance: nat, payment_cost: u64) -> nat {
    if payment_purse_balance / (CONV_RATE as nat) >= payment_cost {
        (payment_purse_balance / (CONV_RATE as nat) - payment_cost) as nat
    } else {
        0
    }
}

/// The gas that the session may spend.
pub fn session_gas_limit(payment_purse_balance: Motes, payment_cost: u64) -> (r: Gas)
    ensures
        r@ == spec_session_gas_limit(payment_purse_balance@, payment_cost),
{
    let bought = match Gas::from_motes(payment_purse_balance, CONV_RATE) {
        Some(gas) => gas,
        None => Gas::from_u64(0),
    };
    match bought.checked_sub(&Gas::from_u64(payment_cost)) {
        Some(left) => left,
        None => Gas::from_u64(0),
    }
}

/// The arguments with which the payment is finalized: the name of the entry point, the
/// cost of the deploy in motes, and the public key of the account that pays.
pub open spec fn spec_finalize_args(total_cost: nat, account_addr: [u8; 32]) -> Option<Seq<u8>> {
    let name = FINALIZE_PAYMENT.spec_bytes();
    if total_cost * (CONV_RATE as nat) >= radix_pow(8) || name.len() > u32::MAX {
        None
    } else {
        let args = seq![
            str_bytes(name),
            u512_bytes(U512::spec_from_nat(total_cost * (CONV_RATE as nat))),
            account_addr@,
        ];
        if args_fit(args) {
            Some(args_bytes(args))
        } else {
            None
        }
    }
}

/// The arguments with which the payment is finalized, where they can be written: the cost
/// in motes fits in 512 bits, and the lengths fit in four bytes.
pub fn finalize_args(total_cost: Gas, account_addr: [u8; 32]) -> (r: Option<Vec<u8>>)
    ensures
        match r {
            Some(bytes) => spec_finalize_args(total_cost@, account_addr) == Some(bytes@),
            None => spec_finalize_args(total_cost@, account_addr).is_none(),
        },
{
    let motes = match Motes::from_gas(total_cost, CONV_RATE) {
        Some(motes) => motes.value(),
        None => {
            return None;
        },
    };
    proof {
        motes.lemma_view_decides(&motes);
    }
    let mut name: Vec<u8> = Vec::new();
    if !push_prefixed(&mut name, FINALIZE_PAYMENT.as_bytes()) {
        return None;
    }
    let mut amount: Vec<u8> = Vec::new();
    push_u512(&mut amount, &motes);
    let mut payer: Vec<u8> = Vec::new();
    push_bytes32(&mut payer, &account_addr);
    let mut args: Vec<Vec<u8>> = Vec::new();
    args.push(name);
    args.push(amount);
    args.push(payer);
    proof {
        let views = arg_views(args@);
        let expected = seq![
            str_bytes(FINALIZE_PAYMENT.spec_bytes()),
            u512_bytes(U512::spec_from_nat(total_cost@ * (CONV_RATE as nat))),
            account_addr@,
        ];
        assert(views =~= expected);
    }
    serialize_args(&args)
}

/// The account in whose name the payment is finalized: the account with the system
/// address, which knows no key and has no key associated.
pub open spec fn system_account_view() -> AccountView {
    AccountView {
        public_key: SYSTEM_ACCOUNT_ADDR,
        named_keys: Map::empty(),
        purse_id: PurseId::spec_new(
            URef {
                addr: SYSTEM_ACCOUNT_ADDR,
                access_rights: Some(AccessRights { read: true, write: true, add: true }),
            },
        ),
        associated_keys: Map::empty(),
        action_thresholds: ActionThresholds { deployment: Weight(1), key_management: Weight(1) },
    }
}

/// The account in whose name the payment is finalized.
pub fn system_account() -> (r: Account)
    ensures
        r@ == system_account_view(),
{
    Account::new(
        SYSTEM_ACCOUNT_ADDR,
        VecMap::new(),
        PurseId::new(URef::new(SYSTEM_ACCOUNT_ADDR, AccessRights::read_add_write())),
        VecMap::new(),
        ActionThresholds::default(),
    )
}

} // verus!
