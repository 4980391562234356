//! Who may deploy in the name of an account.

use crate::engine_state::error::{Error, ErrorView};
use crate::storage::global_state::StateReader;
use crate::tracking_copy::{TrackingCopy, TrackingCopyView};
use crate::types::account::{Account, AccountView, KeySet};
use crate::types::key::{Key, PublicKey};
use vstd::prelude::*;

verus! {

/// Whether the keys `authorization_keys` may deploy in the name of `account`: there is at
/// least one of them, all of them are associated with the account, and together they
/// reach its deployment threshold.
pub open spec fn spec_check_authorization(
    account: AccountView,
    authorization_keys: Seq<PublicKey>,
) -> Result<(), ErrorView> {
    if authorization_keys.len() == 0 || !account.can_authorize(authorization_keys.to_set()) {
        Err(ErrorView::AuthorizationError)
    } else if !account.can_deploy_with(authorization_keys) {
        Err(ErrorView::ExecError(crate::execution::ErrorView::DeploymentAuthorizationFailure))
    } else {
        Ok(())
    }
}

/// The account of a deploy, where the deploy is authorized: the address names an account
/// of the state, and the keys may deploy in its name.
pub open spec fn spec_authorize(
    tracking_copy: TrackingCopyView,
    address: Key,
    authorization_keys: Seq<PublicKey>,
) -> Result<AccountView, ErrorView> {
    match address {
        Key::Account(addr) => match tracking_copy.get_account(addr) {
            Err(_) => Err(ErrorView::AuthorizationError),
            Ok(account) => match spec_check_authorization(account, authorization_keys) {
                Err(e) => Err(e),
                Ok(_) => Ok(account),
            },
        },
        _ => Err(ErrorView::AuthorizationError),
    }
}

/// The tracking copy after the account of a deploy was looked up.
pub open spec fn after_authorize(tracking_copy: TrackingCopyView, address: Key) -> TrackingCopyView {
    match address {
        Key::Account(_) => tracking_copy.after_read(address),
        _ => tracking_copy,
    }
}

/// Whether the keys `authorization_keys` may deploy in the name of `account`.
pub fn check_authorization(account: &Account, authorization_keys: &KeySet) -> (r: Result<
    (),
    Error,
>)
    ensures
        match r {
            Ok(_) => spec_check_authorization(account@, authorization_keys.ids()) is Ok,
            Err(e) => spec_check_authorization(account@, authorization_keys.ids()) == Err::<
                (),
                ErrorView,
            >(e@),
        },
        authorization_keys.wf(),
{
    let empty = authorization_keys.is_empty();
    proof {
        authorization_keys.lemma_members();
    }
    if empty || !account.can_authorize(authorization_keys) {
        return Err(Error::AuthorizationError);
    }
    if !account.can_deploy_with(authorization_keys) {
        return Err(Error::ExecError(crate::execution::Error::DeploymentAuthorizationFailure));
    }
    Ok(())
}

/// The account of a deploy, where the deploy is authorized. An address that names no
/// account is refused before anything is read. A deploy whose account cannot be read
/// because the store fails is not authorized either, and nothing is changed then; the
/// store is not asked for an account that the tracking copy holds itself.
pub fn authorize<R: StateReader>(
    tracking_copy: &mut TrackingCopy<R>,
    address: Key,
    authorization_keys: &KeySet,
) -> (r: Result<Account, Error>)
    ensures
        match r {
            Ok(account) => spec_authorize(old(tracking_copy)@, address, authorization_keys.ids())
                == Ok::<AccountView, ErrorView>(account@) && final(tracking_copy)@
                == after_authorize(old(tracking_copy)@, address),
            Err(e) => (e@ == ErrorView::AuthorizationError && address is Account
                && final(tracking_copy)@ == old(tracking_copy)@) || (spec_authorize(
                old(tracking_copy)@,
                address,
                authorization_keys.ids(),
            ) == Err::<AccountView, ErrorView>(e@) && final(tracking_copy)@ == after_authorize(
                old(tracking_copy)@,
                address,
            )),
        },
        !(address is Account) ==> final(tracking_copy)@ == old(tracking_copy)@ && (r matches Err(e)
            && e@ == ErrorView::AuthorizationError),
        old(tracking_copy).spec_held().contains(address) ==> (r matches Err(e) ==> spec_authorize(
            old(tracking_copy)@,
            address,
            authorization_keys.ids(),
        ) == Err::<AccountView, ErrorView>(e@)),
        authorization_keys.wf(),
        final(tracking_copy).spec_held() == old(tracking_copy).spec_held(),
        final(tracking_copy).spec_reader() == old(tracking_copy).spec_reader(),
{
    let unsigned = authorization_keys.is_empty();
    let account_addr = match address.as_account() {
        Some(addr) => addr,
        None => {
            return Err(Error::AuthorizationError);
        },
    };
    let account = match tracking_copy.get_account(account_addr) {
        Ok(account) => account,
        Err(_) => {
            return Err(Error::AuthorizationError);
        },
    };
    if unsigned {
        return Err(Error::AuthorizationError);
    }
    match check_authorization(&account, authorization_keys) {
        Ok(_) => Ok(account),
        Err(e) => Err(e),
    }
}

} // verus!
