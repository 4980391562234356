//! What the genesis state is made from, and what its installation leaves.

use crate::engine_state::execution_effect::{EffectView, ExecutionEffect};
use crate::shared::motes::Motes;
use crate::shared::newtypes::{blake2b256, Blake2bHash};
use crate::storage::global_state::{CommitResult, CommitResultView};
use crate::types::bytesrepr::{
    push_bytes32,
    push_u32_le,
    push_u512,
    push_u64_le,
    u32_le,
    u512_bytes,
    u64_le,
};
use crate::types::key::{Key, PublicKey};
use crate::types::uint::U512;
use crate::types::value::TypeName;
use crate::wasm_prep::wasm_costs::WasmCosts;
use vstd::prelude::*;

verus! {

/// An account of the genesis state: its public key, what its main purse holds, and what it
/// has bonded as a validator.
#[derive(Clone, Copy, Debug, PartialEq, Eq)]
pub struct GenesisAccount {
    pub public_key: PublicKey,
    pub balance: Motes,
    pub bonded_amount: Motes,
}

impl GenesisAccount {
    pub fn new(public_key: PublicKey, balance: Motes, bonded_amount: Motes) -> (r: Self)
        ensures
            r == (GenesisAccount { public_key, balance, bonded_amount }),
    {
        GenesisAccount { public_key, balance, bonded_amount }
    }

    pub fn public_key(&self) -> (r: PublicKey)
        ensures
            r == self.public_key,
    {
        self.public_key
    }

    pub fn balance(&self) -> (r: Motes)
        ensures
            r == self.balance,
    {
        self.balance
    }

    pub fn bonded_amount(&self) -> (r: Motes)
        ensures
            r == self.bonded_amount,
    {
        self.bonded_amount
    }
}

/// Whether `a` comes before `b` in the order of their bytes, first byte first.
pub open spec fn spec_key_below(a: PublicKey, b: PublicKey) -> bool {
    exists|i: int|
        0 <= i < 32 && #[trigger] a.0@[i] < b.0@[i] && forall|j: int|
            0 <= j < i ==> a.0@[j] == b.0@[j]
}

/// Whether `a` comes before `b` in the order of their bytes, first byte first.
pub fn key_below(a: &PublicKey, b: &PublicKey) -> (r: bool)
    ensures
        r == spec_key_below(*a, *b),
{
    let mut i: usize = 0;
    while i < 32
        invariant
            i <= 32,
            forall|j: int| 0 <= j < i ==> a.0@[j] == b.0@[j],
        decreases 32 - i,
    {
        if a.0[i] < b.0[i] {
            return true;
        }
        if a.0[i] > b.0[i] {
            return false;
        }
        i += 1;
    }
    false
}

/// How many entries at the head of `list` have a key that comes before `key`.
pub open spec fn keys_below(list: Seq<(PublicKey, U512)>, key: PublicKey) -> nat
    decreases list.len(),
{
    if list.len() > 0 && spec_key_below(list[0].0, key) {
        1 + keys_below(list.drop_first(), key)
    } else {
        0
    }
}

/// `list` with the stake of `key`: the entry goes behind the entries at the head whose
/// keys come before `key`, and replaces the entry there if that one has the same key.
pub open spec fn with_validator(
    list: Seq<(PublicKey, U512)>,
    key: PublicKey,
    stake: U512,
) -> Seq<(PublicKey, U512)> {
    let at = keys_below(list, key) as int;
    if at < list.len() && list[at].0 == key {
        list.update(at, (key, stake))
    } else {
        list.insert(at, (key, stake))
    }
}

/// The validators that are bonded at genesis, with their stakes, in the order of their
/// keys: the accounts that have bonded more than nothing, put into the list one by one.
pub open spec fn spec_bonded_validators(accounts: Seq<GenesisAccount>) -> Seq<(PublicKey, U512)>
    decreases accounts.len(),
{
    if accounts.len() == 0 {
        Seq::empty()
    } else {
        let rest = spec_bonded_validators(accounts.drop_last());
        let account = accounts.last();
        if account.bonded_amount@ == 0 {
            rest
        } else {
            with_validator(rest, account.public_key, account.bonded_amount.0)
        }
    }
}

/// The validators of `list` with their stakes, in the order of their keys: put into the
/// list one by one, so that of two entries with one key the later stands.
pub open spec fn spec_ordered_validators(list: Seq<(PublicKey, U512)>) -> Seq<(PublicKey, U512)>
    decreases list.len(),
{
    if list.len() == 0 {
        Seq::empty()
    } else {
        with_validator(spec_ordered_validators(list.drop_last()), list.last().0, list.last().1)
    }
}

/// Whether the keys of `list` ascend: each key comes before those behind it.
pub open spec fn keys_ascend(list: Seq<(PublicKey, U512)>) -> bool {
    forall|i: int, j: int|
        0 <= i < j < list.len() ==> spec_key_below((#[trigger] list[i]).0, (#[trigger] list[j]).0)
}

/// The order of the keys is transitive.
pub proof fn lemma_key_order_transitive(a: PublicKey, b: PublicKey, c: PublicKey)
    requires
        spec_key_below(a, b),
        spec_key_below(b, c),
    ensures
        spec_key_below(a, c),
{
    let i = choose|i: int|
        0 <= i < 32 && #[trigger] a.0@[i] < b.0@[i] && forall|j: int|
            0 <= j < i ==> a.0@[j] == b.0@[j];
    let k = choose|k: int|
        0 <= k < 32 && #[trigger] b.0@[k] < c.0@[k] && forall|j: int|
            0 <= j < k ==> b.0@[j] == c.0@[j];
    let m = if i < k {
        i
    } else {
        k
    };
    assert(0 <= m < 32 && a.0@[m] < c.0@[m] && forall|j: int| 0 <= j < m ==> a.0@[j] == c.0@[j]);
}

/// Of two keys that differ, one comes before the other.
pub proof fn lemma_key_order_total(a: PublicKey, b: PublicKey, n: int)
    requires
        0 <= n <= 32,
        forall|j: int| 0 <= j < n ==> a.0@[j] == b.0@[j],
    ensures
        a == b || spec_key_below(a, b) || spec_key_below(b, a),
    decreases 32 - n,
{
    if n == 32 {
        assert(a.0@ =~= b.0@);
        assert(a.0 =~= b.0);
    } else if a.0@[n] < b.0@[n] {
        assert(0 <= n < 32 && a.0@[n] < b.0@[n]);
    } else if b.0@[n] < a.0@[n] {
        assert(0 <= n < 32 && b.0@[n] < a.0@[n]);
    } else {
        lemma_key_order_total(a, b, n + 1);
    }
}

/// The entries that `keys_below` counts have keys that come before `key`, and the entry
/// behind them has not.
pub proof fn lemma_keys_below_splits(list: Seq<(PublicKey, U512)>, key: PublicKey)
    ensures
        keys_below(list, key) <= list.len(),
        forall|i: int| 0 <= i < keys_below(list, key) ==> spec_key_below((#[trigger] list[i]).0, key),
        keys_below(list, key) < list.len() ==> !spec_key_below(
            list[keys_below(list, key) as int].0,
            key,
        ),
    decreases list.len(),
{
    if list.len() > 0 && spec_key_below(list[0].0, key) {
        let rest = list.drop_first();
        lemma_keys_below_splits(rest, key);
        assert forall|i: int| 0 <= i < keys_below(list, key) implies spec_key_below(
            (#[trigger] list[i]).0,
            key,
        ) by {
            if i > 0 {
                assert(list[i] == rest[i - 1]);
            }
        }
        if keys_below(list, key) < list.len() {
            assert(list[keys_below(list, key) as int] == rest[keys_below(rest, key) as int]);
        }
    }
}

/// A list whose keys ascend keeps that order when a validator is put into it.
pub proof fn lemma_with_validator_ascends(list: Seq<(PublicKey, U512)>, key: PublicKey, stake: U512)
    requires
        keys_ascend(list),
    ensures
        keys_ascend(with_validator(list, key, stake)),
{
    lemma_keys_below_splits(list, key);
    let at = keys_below(list, key) as int;
    let after = with_validator(list, key, stake);
    if at < list.len() && list[at].0 == key {
        assert forall|i: int, j: int| 0 <= i < j < after.len() implies spec_key_below(
            (#[trigger] after[i]).0,
            (#[trigger] after[j]).0,
        ) by {
            assert(after[i].0 == list[i].0);
            assert(after[j].0 == list[j].0);
        }
    } else {
        assert forall|j: int| at <= j < list.len() implies spec_key_below(
            key,
            (#[trigger] list[j]).0,
        ) by {
            lemma_key_order_total(key, list[at].0, 0);
            if j > at {
                lemma_key_order_transitive(key, list[at].0, list[j].0);
            }
        }
        assert forall|i: int, j: int| 0 <= i < j < after.len() implies spec_key_below(
            (#[trigger] after[i]).0,
            (#[trigger] after[j]).0,
        ) by {
            if j < at {
                assert(after[i] == list[i] && after[j] == list[j]);
            } else if j == at {
                assert(after[i] == list[i]);
            } else if i < at {
                assert(after[i] == list[i] && after[j] == list[j - 1]);
                lemma_key_order_transitive(list[i].0, key, list[j - 1].0);
            } else if i == at {
                assert(after[j] == list[j - 1]);
            } else {
                assert(after[i] == list[i - 1] && after[j] == list[j - 1]);
            }
        }
    }
}

/// The keys of the validators that are bonded at genesis ascend.
pub proof fn lemma_bonded_validators_ascend(accounts: Seq<GenesisAccount>)
    ensures
        keys_ascend(spec_bonded_validators(accounts)),
    decreases accounts.len(),
{
    if accounts.len() > 0 {
        lemma_bonded_validators_ascend(accounts.drop_last());
        let account = accounts.last();
        lemma_with_validator_ascends(
            spec_bonded_validators(accounts.drop_last()),
            account.public_key,
            account.bonded_amount.0,
        );
    }
}

/// The keys of an ordered list of validators ascend.
pub proof fn lemma_ordered_validators_ascend(list: Seq<(PublicKey, U512)>)
    ensures
        keys_ascend(spec_ordered_validators(list)),
    decreases list.len(),
{
    if list.len() > 0 {
        lemma_ordered_validators_ascend(list.drop_last());
        lemma_with_validator_ascends(
            spec_ordered_validators(list.drop_last()),
            list.last().0,
            list.last().1,
        );
    }
}

/// Puts the stake of `key` into `list`.
pub fn insert_validator(list: &mut Vec<(PublicKey, U512)>, key: PublicKey, stake: U512)
    ensures
        final(list)@ == with_validator(old(list)@, key, stake),
{
    let mut at: usize = 0;
    assert(list@.skip(0) =~= list@);
    while at < list.len() && key_below(&list[at].0, &key)
        invariant
            at <= list.len(),
            list@ == old(list)@,
            keys_below(list@, key) == at + keys_below(list@.skip(at as int), key),
        decreases list.len() - at,
    {
        assert(list@.skip(at as int).drop_first() =~= list@.skip(at + 1));
        at += 1;
    }
    proof {
        if at < list.len() {
            assert(list@.skip(at as int)[0] == list@[at as int]);
        }
    }
    if at < list.len() && list[at].0 == key {
        list.set(at, (key, stake));
    } else {
        list.insert(at, (key, stake));
    }
}

/// The validators that are bonded at genesis, with their stakes, in the order of their
/// keys.
pub fn bonded_validators(accounts: &Vec<GenesisAccount>) -> (r: Vec<(PublicKey, U512)>)
    ensures
        r@ == spec_bonded_validators(accounts@),
        keys_ascend(r@),
{
    proof {
        lemma_bonded_validators_ascend(accounts@);
    }
    let mut list: Vec<(PublicKey, U512)> = Vec::new();
    let mut i: usize = 0;
    assert(accounts@.take(0) =~= Seq::<GenesisAccount>::empty());
    while i < accounts.len()
        invariant
            i <= accounts.len(),
            list@ == spec_bonded_validators(accounts@.take(i as int)),
        decreases accounts.len() - i,
    {
        let account = accounts[i];
        proof {
            assert(accounts@.take(i + 1).drop_last() =~= accounts@.take(i as int));
        }
        if !account.bonded_amount.value().is_zero() {
            insert_validator(&mut list, account.public_key, account.bonded_amount.value());
        }
        i += 1;
    }
    assert(accounts@.take(accounts.len() as int) =~= accounts@);
    list
}

/// The validators of `list` with their stakes, in the order of their keys.
pub fn ordered_validators(list: &Vec<(PublicKey, U512)>) -> (r: Vec<(PublicKey, U512)>)
    ensures
        r@ == spec_ordered_validators(list@),
        keys_ascend(r@),
{
    proof {
        lemma_ordered_validators_ascend(list@);
    }
    let mut ordered: Vec<(PublicKey, U512)> = Vec::new();
    let mut i: usize = 0;
    assert(list@.take(0) =~= Seq::<(PublicKey, U512)>::empty());
    while i < list.len()
        invariant
            i <= list.len(),
            ordered@ == spec_ordered_validators(list@.take(i as int)),
        decreases list.len() - i,
    {
        proof {
            assert(list@.take(i + 1).drop_last() =~= list@.take(i as int));
        }
        insert_validator(&mut ordered, list[i].0, list[i].1);
        i += 1;
    }
    assert(list@.take(list.len() as int) =~= list@);
    ordered
}

/// The entries of a list of validators as bytes, one after the other: the key, then the
/// stake.
pub open spec fn validators_payload(list: Seq<(PublicKey, U512)>) -> Seq<u8>
    decreases list.len(),
{
    if list.len() == 0 {
        Seq::empty()
    } else {
        validators_payload(list.drop_last()) + list.last().0.0@ + u512_bytes(list.last().1)
    }
}

/// A list of validators as bytes: the count of the entries, then the entries.
pub open spec fn validators_bytes(list: Seq<(PublicKey, U512)>) -> Seq<u8> {
    u32_le(list.len() as u32) + validators_payload(list)
}

/// Appends a list of validators. Fails, and appends nothing, where the count of the
/// entries does not fit in four bytes.
pub fn push_validators(out: &mut Vec<u8>, list: &Vec<(PublicKey, U512)>) -> (r: bool)
    ensures
        r == (list@.len() <= u32::MAX),
        r ==> final(out)@ == old(out)@ + validators_bytes(list@),
        !r ==> final(out)@ == old(out)@,
{
    if list.len() > u32::MAX as usize {
        return false;
    }
    push_u32_le(out, list.len() as u32);
    let mut i: usize = 0;
    assert(list@.take(0) =~= Seq::<(PublicKey, U512)>::empty());
    assert(out@ =~= old(out)@ + u32_le(list@.len() as u32) + validators_payload(list@.take(0)));
    while i < list.len()
        invariant
            i <= list.len(),
            out@ == old(out)@ + u32_le(list@.len() as u32) + validators_payload(
                list@.take(i as int),
            ),
        decreases list.len() - i,
    {
        let ghost before = out@;
        push_bytes32(out, &list[i].0.0);
        push_u512(out, &list[i].1);
        proof {
            assert(list@.take(i + 1).drop_last() =~= list@.take(i as int));
            assert(out@ =~= old(out)@ + u32_le(list@.len() as u32) + validators_payload(
                list@.take(i + 1),
            ));
        }
        i += 1;
    }
    assert(list@.take(list.len() as int) =~= list@);
    assert(out@ =~= old(out)@ + validators_bytes(list@));
    true
}

/// What the genesis state is made from.
#[derive(Debug)]
pub struct GenesisConfig {
    name: String,
    timestamp: u64,
    protocol_version: u64,
    mint_installer_bytes: Vec<u8>,
    proof_of_stake_installer_bytes: Vec<u8>,
    accounts: Vec<GenesisAccount>,
    wasm_costs: WasmCosts,
}

/// What the genesis state is made from, as plain values.
pub struct GenesisConfigView {
    pub name: Seq<char>,
    pub timestamp: u64,
    pub protocol_version: u64,
    pub mint_installer_bytes: Seq<u8>,
    pub proof_of_stake_installer_bytes: Seq<u8>,
    pub accounts: Seq<GenesisAccount>,
    pub wasm_costs: WasmCosts,
}

impl GenesisConfigView {
    /// The hash that stands for the installation as the hash of a deploy does for a
    /// deploy: that of the name in UTF-8, the time stamp in eight bytes, least
    /// significant first, and the cost table as bytes.
    pub open spec fn install_deploy_hash(self) -> [u8; 32] {
        blake2b256(
            vstd::utf8::encode_utf8(self.name) + u64_le(self.timestamp)
                + self.wasm_costs.spec_to_bytes(),
        )
    }
}

impl View for GenesisConfig {
    type V = GenesisConfigView;

    closed spec fn view(&self) -> GenesisConfigView {
        GenesisConfigView {
            name: self.name@,
            timestamp: self.timestamp,
            protocol_version: self.protocol_version,
            mint_installer_bytes: self.mint_installer_bytes@,
            proof_of_stake_installer_bytes: self.proof_of_stake_installer_bytes@,
            accounts: self.accounts@,
            wasm_costs: self.wasm_costs,
        }
    }
}

impl GenesisConfig {
    pub fn new(
        name: String,
        timestamp: u64,
        protocol_version: u64,
        mint_installer_bytes: Vec<u8>,
        proof_of_stake_installer_bytes: Vec<u8>,
        accounts: Vec<GenesisAccount>,
        wasm_costs: WasmCosts,
    ) -> (r: Self)
        ensures
            r@ == (GenesisConfigView {
                name: name@,
                timestamp,
                protocol_version,
                mint_installer_bytes: mint_installer_bytes@,
                proof_of_stake_installer_bytes: proof_of_stake_installer_bytes@,
                accounts: accounts@,
                wasm_costs,
            }),
    {
        GenesisConfig {
            name,
            timestamp,
            protocol_version,
            mint_installer_bytes,
            proof_of_stake_installer_bytes,
            accounts,
            wasm_costs,
        }
    }

    pub fn name(&self) -> (r: &str)
        ensures
            r@ == self@.name,
    {
        self.name.as_str()
    }

    pub fn timestamp(&self) -> (r: u64)
        ensures
            r == self@.timestamp,
    {
        self.timestamp
    }

    pub fn protocol_version(&self) -> (r: u64)
        ensures
            r == self@.protocol_version,
    {
        self.protocol_version
    }

    pub fn mint_installer_bytes(&self) -> (r: &Vec<u8>)
        ensures
            r@ == self@.mint_installer_bytes,
    {
        &self.mint_installer_bytes
    }

    pub fn proof_of_stake_installer_bytes(&self) -> (r: &Vec<u8>)
        ensures
            r@ == self@.proof_of_stake_installer_bytes,
    {
        &self.proof_of_stake_installer_bytes
    }

    pub fn wasm_costs(&self) -> (r: WasmCosts)
        ensures
            r == self@.wasm_costs,
    {
        self.wasm_costs
    }

    pub fn accounts(&self) -> (r: &Vec<GenesisAccount>)
        ensures
            r@ == self@.accounts,
    {
        &self.accounts
    }

    /// The validators that are bonded at genesis, with their stakes, in the order of their
    /// keys.
    pub fn get_bonded_validators(&self) -> (r: Vec<(PublicKey, U512)>)
        ensures
            r@ == spec_bonded_validators(self@.accounts),
            keys_ascend(r@),
    {
        bonded_validators(&self.accounts)
    }

    /// The hash that stands for the installation as the hash of a deploy does for a deploy.
    pub fn install_deploy_hash(&self) -> (r: [u8; 32])
        ensures
            r == self@.install_deploy_hash(),
    {
        let mut bytes: Vec<u8> = vstd::slice::slice_to_vec(self.name.as_str().as_bytes());
        push_u64_le(&mut bytes, self.timestamp);
        let costs = self.wasm_costs.to_bytes();
        let mut i: usize = 0;
        let ghost head = bytes@;
        while i < costs.len()
            invariant
                i <= costs.len(),
                bytes@ == head + costs@.take(i as int),
            decreases costs.len() - i,
        {
            bytes.push(costs[i]);
            assert((head + costs@.take(i as int)).push(costs@[i as int]) =~= head + costs@.take(
                i + 1,
            ));
            i += 1;
        }
        assert(costs@.take(costs.len() as int) =~= costs@);
        Blake2bHash::new(bytes.as_slice()).value()
    }
}

/// What the installation of the genesis state leaves.
#[derive(Debug)]
pub enum GenesisResult {
    RootNotFound,
    KeyNotFound(Key),
    TypeMismatch { key: Key, expected: TypeName, found: TypeName },
    Success { post_state_hash: Blake2bHash, effect: ExecutionEffect },
}

/// What the installation of the genesis state leaves, as plain values.
pub enum GenesisResultView {
    RootNotFound,
    KeyNotFound(Key),
    TypeMismatch { key: Key, expected: TypeName, found: TypeName },
    Success { post_state_hash: Blake2bHash, effect: EffectView },
}

impl GenesisResultView {
    /// The result of an installation whose effect `effect` was committed with the result
    /// `commit_result`.
    pub open spec fn from_commit_result(
        commit_result: CommitResultView,
        effect: EffectView,
    ) -> GenesisResultView {
        match commit_result {
            CommitResultView::RootNotFound => GenesisResultView::RootNotFound,
            CommitResultView::KeyNotFound(key) => GenesisResultView::KeyNotFound(key),
            CommitResultView::TypeMismatch { key, expected, found } => GenesisResultView::TypeMismatch {
                key,
                expected,
                found,
            },
            CommitResultView::Success { state_root, .. } => GenesisResultView::Success {
                post_state_hash: state_root,
                effect,
            },
        }
    }
}

impl View for GenesisResult {
    type V = GenesisResultView;

    open spec fn view(&self) -> GenesisResultView {
        match self {
            GenesisResult::RootNotFound => GenesisResultView::RootNotFound,
            GenesisResult::KeyNotFound(key) => GenesisResultView::KeyNotFound(*key),
            GenesisResult::TypeMismatch { key, expected, found } => GenesisResultView::TypeMismatch {
                key: *key,
                expected: *expected,
                found: *found,
            },
            GenesisResult::Success { post_state_hash, effect } => GenesisResultView::Success {
                post_state_hash: *post_state_hash,
                effect: effect@,
            },
        }
    }
}

impl GenesisResult {
    /// The result of an installation whose effect `effect` was committed with the result
    /// `commit_result`.
    pub fn from_commit_result(commit_result: CommitResult, effect: ExecutionEffect) -> (r: Self)
        ensures
            r@ == GenesisResultView::from_commit_result(commit_result@, effect@),
    {
        match commit_result {
            CommitResult::RootNotFound => GenesisResult::RootNotFound,
            CommitResult::KeyNotFound(key) => GenesisResult::KeyNotFound(key),
            CommitResult::TypeMismatch { key, expected, found } => GenesisResult::TypeMismatch {
                key,
                expected,
                found,
            },
            CommitResult::Success { state_root, .. } => GenesisResult::Success {
                post_state_hash: state_root,
                effect,
            },
        }
    }
}

} // verus!
