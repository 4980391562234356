//! Accounts: who may act for them, and what they hold.

use crate::types::key::{AccessRights, Key, PublicKey, URef, Weight};
use crate::types::vec_map::{Duplicate, VecMap, VecSet};
use vstd::prelude::*;

verus! {

/// The names under which an account or a contract knows keys. A name is bound once:
/// binding it again replaces the key.
pub type NamedKeys = VecMap<String, Key>;

/// The keys that may act for an account, each with its weight.
pub type AssociatedKeys = VecMap<PublicKey, Weight>;

/// A set of public keys, such as those that authorize a deploy.
pub type KeySet = VecSet<PublicKey>;

/// The reference to a purse, which always carries all three rights.
#[derive(Clone, Copy, Debug, PartialEq, Eq)]
pub struct PurseId(URef);

impl PurseId {
    #[verifier::type_invariant]
    spec fn has_all_rights(self) -> bool {
        self.0.access_rights == Some(AccessRights { read: true, write: true, add: true })
    }

    /// The purse with the address of `uref`.
    pub closed spec fn spec_new(uref: URef) -> PurseId {
        PurseId(
            URef {
                addr: uref.addr,
                access_rights: Some(AccessRights { read: true, write: true, add: true }),
            },
        )
    }

    /// The reference to the purse.
    pub closed spec fn spec_value(self) -> URef {
        self.0
    }

    /// The reference of a purse that was made from a reference has the address of that
    /// reference and all three rights.
    pub proof fn lemma_value_of_new(uref: URef)
        ensures
            Self::spec_new(uref).spec_value() == (URef {
                addr: uref.addr,
                access_rights: Some(AccessRights { read: true, write: true, add: true }),
            }),
    {
    }

    /// The purse with the address of `uref`, whatever the rights of `uref`.
    pub fn new(uref: URef) -> (r: Self)
        ensures
            r == Self::spec_new(uref),
            r.spec_value() == (URef {
                addr: uref.addr,
                access_rights: Some(AccessRights { read: true, write: true, add: true }),
            }),
    {
        PurseId(URef::new(uref.addr(), AccessRights::read_add_write()))
    }

    /// The reference to the purse, with all three rights.
    pub fn value(&self) -> (r: URef)
        ensures
            r == self.spec_value(),
            r.access_rights == Some(AccessRights { read: true, write: true, add: true }),
    {
        proof {
            use_type_invariant(self);
        }
        self.0
    }
}

/// The actions that an account guards with a threshold.
#[derive(Clone, Copy, Debug, PartialEq, Eq, Structural)]
pub enum ActionType {
    Deployment,
    KeyManagement,
}

/// The weight that the authorizing keys must reach together, for each action.
#[derive(Clone, Copy, Debug, PartialEq, Eq, Structural)]
pub struct ActionThresholds {
    pub deployment: Weight,
    pub key_management: Weight,
}

impl ActionThresholds {
    pub fn new(deployment: Weight, key_management: Weight) -> (r: Self)
        ensures
            r == (ActionThresholds { deployment, key_management }),
    {
        ActionThresholds { deployment, key_management }
    }
}

impl Default for ActionThresholds {
    fn default() -> (r: Self)
        ensures
            r == (ActionThresholds { deployment: Weight(1), key_management: Weight(1) }),
    {
        ActionThresholds { deployment: Weight(1), key_management: Weight(1) }
    }
}

/// The sum of the weights that `associated` gives to the keys of `keys`; a key that is not
/// associated counts nothing.
pub open spec fn keys_weight(associated: Map<PublicKey, Weight>, keys: Seq<PublicKey>) -> nat
    decreases keys.len(),
{
    if keys.len() == 0 {
        0
    } else {
        keys_weight(associated, keys.drop_last()) + (if associated.contains_key(keys.last()) {
            associated[keys.last()].0 as nat
        } else {
            0
        })
    }
}

/// The weight that `associated` gives to `key`: nothing where the key is not associated.
pub open spec fn weight_of(associated: Map<PublicKey, Weight>, key: PublicKey) -> nat {
    if associated.contains_key(key) {
        associated[key].0 as nat
    } else {
        0
    }
}

/// The weight of a list of keys is that of the list without one key, and the weight of
/// that key.
pub proof fn lemma_keys_weight_remove(
    associated: Map<PublicKey, Weight>,
    keys: Seq<PublicKey>,
    i: int,
)
    requires
        0 <= i < keys.len(),
    ensures
        keys_weight(associated, keys) == keys_weight(associated, keys.remove(i)) + weight_of(
            associated,
            keys[i],
        ),
    decreases keys.len(),
{
    if i == keys.len() - 1 {
        assert(keys.remove(i) =~= keys.drop_last());
    } else {
        lemma_keys_weight_remove(associated, keys.drop_last(), i);
        assert(keys.remove(i).drop_last() =~= keys.drop_last().remove(i));
        assert(keys.remove(i).last() == keys.last());
    }
}

/// The weight of a set of keys does not depend on the order in which the keys are held:
/// two lists without duplicates that hold the same keys weigh the same.
pub proof fn lemma_keys_weight_ignores_order(
    associated: Map<PublicKey, Weight>,
    first: Seq<PublicKey>,
    second: Seq<PublicKey>,
)
    requires
        first.no_duplicates(),
        second.no_duplicates(),
        first.to_set() == second.to_set(),
    ensures
        first.len() == second.len(),
        keys_weight(associated, first) == keys_weight(associated, second),
    decreases first.len(),
{
    if first.len() == 0 {
        if second.len() > 0 {
            assert(second.to_set().contains(second[0]));
            assert(first.to_set().contains(second[0]));
            assert(first.contains(second[0]));
        }
    } else {
        let x = first.last();
        assert(first.to_set().contains(x));
        assert(second.to_set().contains(x));
        assert(second.contains(x));
        let i = second.index_of(x);
        let first_rest = first.drop_last();
        let second_rest = second.remove(i);
        assert forall|k: PublicKey| first_rest.contains(k) <==> second_rest.contains(k) by {
            if first_rest.contains(k) {
                let j = first_rest.index_of(k);
                assert(first[j] == k);
                assert(k != x);
                assert(first.to_set().contains(k));
                assert(second.to_set().contains(k));
                assert(second.contains(k));
                let m = second.index_of(k);
                if m < i {
                    assert(second_rest[m] == k);
                } else {
                    assert(second_rest[m - 1] == k);
                }
            }
            if second_rest.contains(k) {
                let m = second_rest.index_of(k);
                let at = if m < i {
                    m
                } else {
                    m + 1
                };
                assert(second[at] == k);
                assert(k != x);
                assert(second.to_set().contains(k));
                assert(first.to_set().contains(k));
                assert(first.contains(k));
                let j = first.index_of(k);
                assert(first_rest[j] == k);
            }
        }
        assert(first_rest.to_set() =~= second_rest.to_set());
        assert(second_rest.no_duplicates()) by {
            assert forall|a: int, b: int|
                0 <= a < second_rest.len() && 0 <= b < second_rest.len() && a != b implies second_rest[a]
                != second_rest[b] by {
                let aa = if a < i {
                    a
                } else {
                    a + 1
                };
                let bb = if b < i {
                    b
                } else {
                    b + 1
                };
                assert(second[aa] != second[bb]);
            }
        }
        lemma_keys_weight_ignores_order(associated, first_rest, second_rest);
        lemma_keys_weight_remove(associated, second, i);
    }
}

/// What an account is, as plain values.
pub struct AccountView {
    pub public_key: [u8; 32],
    pub named_keys: Map<Seq<char>, Key>,
    pub purse_id: PurseId,
    pub associated_keys: Map<PublicKey, Weight>,
    pub action_thresholds: ActionThresholds,
}

impl AccountView {
    /// Whether every key of `keys` is associated with the account.
    pub open spec fn can_authorize(self, keys: Set<PublicKey>) -> bool {
        keys.subset_of(self.associated_keys.dom())
    }

    /// Whether the keys of `keys` reach the deployment threshold together.
    pub open spec fn can_deploy_with(self, keys: Seq<PublicKey>) -> bool {
        keys_weight(self.associated_keys, keys) >= self.action_thresholds.deployment.0
    }

    /// Whether the keys of `keys` reach the key management threshold together.
    pub open spec fn can_manage_keys_with(self, keys: Seq<PublicKey>) -> bool {
        keys_weight(self.associated_keys, keys) >= self.action_thresholds.key_management.0
    }
}

/// An account of the global state.
#[derive(Debug)]
pub struct Account {
    public_key: [u8; 32],
    named_keys: NamedKeys,
    purse_id: PurseId,
    associated_keys: AssociatedKeys,
    action_thresholds: ActionThresholds,
}

impl View for Account {
    type V = AccountView;

    closed spec fn view(&self) -> AccountView {
        AccountView {
            public_key: self.public_key,
            named_keys: self.named_keys@,
            purse_id: self.purse_id,
            associated_keys: self.associated_keys@,
            action_thresholds: self.action_thresholds,
        }
    }
}

impl Account {
    pub fn new(
        public_key: [u8; 32],
        named_keys: NamedKeys,
        purse_id: PurseId,
        associated_keys: AssociatedKeys,
        action_thresholds: ActionThresholds,
    ) -> (r: Self)
        ensures
            r@ == (AccountView {
                public_key,
                named_keys: named_keys@,
                purse_id,
                associated_keys: associated_keys@,
                action_thresholds,
            }),
    {
        Account { public_key, named_keys, purse_id, associated_keys, action_thresholds }
    }

    /// A new account: its own public key is its one associated key, with weight 1, and both
    /// thresholds are 1.
    pub fn create(account_addr: [u8; 32], named_keys: NamedKeys, purse_id: PurseId) -> (r: Self)
        ensures
            r@ == (AccountView {
                public_key: account_addr,
                named_keys: named_keys@,
                purse_id,
                associated_keys: Map::<PublicKey, Weight>::empty().insert(
                    PublicKey(account_addr),
                    Weight(1),
                ),
                action_thresholds: ActionThresholds {
                    deployment: Weight(1),
                    key_management: Weight(1),
                },
            }),
    {
        let mut associated_keys: AssociatedKeys = VecMap::new();
        associated_keys.insert(PublicKey::new(account_addr), Weight::new(1));
        Account {
            public_key: account_addr,
            named_keys,
            purse_id,
            associated_keys,
            action_thresholds: ActionThresholds::default(),
        }
    }

    pub fn pub_key(&self) -> (r: [u8; 32])
        ensures
            r == self@.public_key,
    {
        self.public_key
    }

    /// The keys that the account knows by name.
    pub fn urefs_lookup(&self) -> (r: &NamedKeys)
        ensures
            r@ == self@.named_keys,
    {
        &self.named_keys
    }

    pub fn purse_id(&self) -> (r: PurseId)
        ensures
            r == self@.purse_id,
    {
        self.purse_id
    }

    pub fn associated_keys(&self) -> (r: &AssociatedKeys)
        ensures
            r@ == self@.associated_keys,
    {
        &self.associated_keys
    }

    pub fn action_thresholds(&self) -> (r: ActionThresholds)
        ensures
            r == self@.action_thresholds,
    {
        self.action_thresholds
    }

    /// Adds the names of `keys` to those that the account knows.
    pub fn insert_urefs(&mut self, keys: &NamedKeys)
        ensures
            final(self)@ == (AccountView {
                named_keys: old(self)@.named_keys.union_prefer_right(keys@),
                ..old(self)@
            }),
    {
        self.named_keys.extend_from(keys);
    }

    /// Whether every key of `authorization_keys` is associated with the account.
    pub fn can_authorize(&self, authorization_keys: &KeySet) -> (r: bool)
        ensures
            r == self@.can_authorize(authorization_keys@),
    {
        let n = authorization_keys.len();
        let mut i: usize = 0;
        proof {
            authorization_keys.lemma_members();
        }
        while i < n
            invariant
                i <= n,
                n == authorization_keys.ids().len(),
                authorization_keys@ == authorization_keys.ids().to_set(),
                forall|j: int|
                    0 <= j < i ==> self@.associated_keys.contains_key(
                        #[trigger] authorization_keys.ids()[j],
                    ),
            decreases n - i,
        {
            if !self.associated_keys.contains_key(authorization_keys.member_at(i)) {
                assert(authorization_keys@.contains(authorization_keys.ids()[i as int]));
                return false;
            }
            i += 1;
        }
        true
    }

    /// The sum of the weights of the keys of `keys`, or 256 where it is larger than 255.
    fn capped_weight(&self, keys: &KeySet) -> (r: u16)
        ensures
            r <= 256,
            r == 256 <==> keys_weight(self@.associated_keys, keys.ids()) > 255,
            r < 256 ==> r == keys_weight(self@.associated_keys, keys.ids()),
    {
        let n = keys.len();
        let mut i: usize = 0;
        let mut total: u16 = 0;
        while i < n
            invariant
                i <= n,
                n == keys.ids().len(),
                total <= 256,
                total == 256 <==> keys_weight(self@.associated_keys, keys.ids().take(i as int))
                    > 255,
                total < 256 ==> total == keys_weight(
                    self@.associated_keys,
                    keys.ids().take(i as int),
                ),
            decreases n - i,
        {
            let weight: u16 = match self.associated_keys.get(keys.member_at(i)) {
                Some(weight) => weight.value() as u16,
                None => 0,
            };
            proof {
                assert(keys.ids().take(i + 1).drop_last() =~= keys.ids().take(i as int));
            }
            total = if total + weight > 255 {
                256
            } else {
                total + weight
            };
            i += 1;
        }
        proof {
            assert(keys.ids().take(n as int) =~= keys.ids());
        }
        total
    }

    /// Whether the keys of `authorization_keys` reach the deployment threshold together.
    pub fn can_deploy_with(&self, authorization_keys: &KeySet) -> (r: bool)
        ensures
            r == self@.can_deploy_with(authorization_keys.ids()),
    {
        self.capped_weight(authorization_keys) >= self.action_thresholds.deployment.value() as u16
    }

    /// Whether the keys of `authorization_keys` reach the key management threshold together.
    pub fn can_manage_keys_with(&self, authorization_keys: &KeySet) -> (r: bool)
        ensures
            r == self@.can_manage_keys_with(authorization_keys.ids()),
    {
        self.capped_weight(authorization_keys) >= self.action_thresholds.key_management.value() as u16
    }
}

impl Duplicate for Account {
    fn duplicate(&self) -> (r: Self) {
        Account {
            public_key: self.public_key,
            named_keys: self.named_keys.duplicate(),
            purse_id: self.purse_id,
            associated_keys: self.associated_keys.duplicate(),
            action_thresholds: self.action_thresholds,
        }
    }
}

} // verus!
