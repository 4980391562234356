use engine_core::engine_state::engine_config::EngineConfig;
use engine_core::engine_state::execution_effect::TransformMap;
use engine_core::engine_state::utils::collect_validators;
use engine_core::engine_state::{EngineState, GetBondedValidatorsError};
use engine_core::shared::newtypes::Blake2bHash;
use engine_core::storage::global_state::{
    CommitOutcome, CommitResult, CommitView, StateProvider, StateReader, StateView,
};
use engine_core::storage::protocol_data::ProtocolData;
use engine_core::types::account::NamedKeys;
use engine_core::types::contract::Contract;
use engine_core::types::key::{AccessRights, Key, PublicKey, URef};
use engine_core::types::uint::U512;
use engine_core::types::value::Value;
use engine_core::types::vec_map::{Duplicate, VecMap};

/// The error of a store that is down.
#[derive(Clone, Copy, Debug, PartialEq, Eq)]
struct StoreDown;

struct FixedReader {
    values: Vec<(Key, Value)>,
    down: bool,
}

impl StateReader for FixedReader {
    type Error = StoreDown;

    fn contents(&self) -> StateView {
        unreachable!()
    }

    fn read(&self, key: &Key) -> Result<Option<Value>, StoreDown> {
        if self.down {
            return Err(StoreDown);
        }
        Ok(self.values.iter().find(|(k, _)| k == key).map(|(_, v)| v.duplicate()))
    }
}

struct FixedState {
    root: Blake2bHash,
    values: Vec<(Key, Value)>,
    checkout_fails: bool,
    reads_fail: bool,
}

impl StateProvider for FixedState {
    type Error = StoreDown;
    type Reader = FixedReader;

    fn state_at(&self, _root: Blake2bHash) -> Option<StateView> {
        unreachable!()
    }

    fn spec_empty_root(&self) -> Blake2bHash {
        unreachable!()
    }

    fn commit_spec(self, _prestate_hash: Blake2bHash, _effects: CommitView) -> CommitOutcome<Self> {
        unreachable!()
    }

    fn put_protocol_data_spec(self, _version: u64, _data: ProtocolData) -> Self {
        unreachable!()
    }

    fn checkout(&self, root: Blake2bHash) -> Result<Option<FixedReader>, StoreDown> {
        if self.checkout_fails {
            return Err(StoreDown);
        }
        if root == self.root {
            Ok(Some(FixedReader {
                values: self.values.iter().map(|(k, v)| (*k, v.duplicate())).collect(),
                down: self.reads_fail,
            }))
        } else {
            Ok(None)
        }
    }

    fn commit(
        &mut self,
        _prestate_hash: Blake2bHash,
        _effects: &TransformMap,
    ) -> Result<CommitResult, StoreDown> {
        Ok(CommitResult::RootNotFound)
    }

    fn empty_root(&self) -> Blake2bHash {
        Blake2bHash::from_bytes([0u8; 32])
    }

    fn put_protocol_data(&mut self, _version: u64, _data: &ProtocolData) -> Result<(), StoreDown> {
        Ok(())
    }
}

fn pos_names() -> NamedKeys {
    let mut names: NamedKeys = VecMap::new();
    names.insert("pos_payment_purse".to_string(), Key::Hash([1u8; 32]));
    names.insert(format!("v_{}_{}", "01".repeat(32), 100), Key::Hash([0u8; 32]));
    names.insert(format!("v_{}_{}", "ff".repeat(32), 7), Key::Hash([0u8; 32]));
    names.insert(format!("v_{}_x", "02".repeat(32)), Key::Hash([0u8; 32]));
    names
}

fn root() -> Blake2bHash {
    Blake2bHash::from_bytes([5u8; 32])
}

fn pos_uref() -> URef {
    URef::new([31u8; 32], AccessRights::read_add_write())
}

fn engine() -> EngineState<FixedState> {
    let values = vec![
        (Key::URef(pos_uref()).normalize(), Value::Contract(Contract::new(vec![1], pos_names(), 1))),
        (Key::Hash([3u8; 32]), Value::Int32(1)),
    ];
    let store = FixedState { root: root(), values, checkout_fails: false, reads_fail: false };
    EngineState::new(store, EngineConfig::new())
}

#[test]
fn a_store_that_fails_hands_on_its_error() {
    let store = FixedState { root: root(), values: vec![], checkout_fails: true, reads_fail: false };
    let engine = EngineState::new(store, EngineConfig::new());
    assert_eq!(
        engine.get_bonded_validators(root(), &Key::URef(pos_uref())).err(),
        Some(GetBondedValidatorsError::StateError(StoreDown))
    );
    let store = FixedState { root: root(), values: vec![], checkout_fails: false, reads_fail: true };
    let engine = EngineState::new(store, EngineConfig::new());
    assert_eq!(
        engine.get_bonded_validators(root(), &Key::URef(pos_uref())).err(),
        Some(GetBondedValidatorsError::StateError(StoreDown))
    );
}

#[test]
fn validators_are_collected_from_the_names_that_stand_for_one() {
    let validators = collect_validators(&pos_names());
    assert_eq!(validators.len(), 2);
    assert_eq!(validators.get(&PublicKey::new([1u8; 32])), Some(&U512::from_u64(100)));
    assert_eq!(validators.get(&PublicKey::new([0xff; 32])), Some(&U512::from_u64(7)));
    assert!(validators.get(&PublicKey::new([2u8; 32])).is_none());
    let none: NamedKeys = VecMap::new();
    assert!(collect_validators(&none).is_empty());
}

#[test]
fn of_two_names_for_one_key_the_last_in_the_order_of_names_gives_the_stake() {
    let key = "0a".repeat(32);
    let stakes = ["1", "2", "10", "9"];
    let orders: [[usize; 4]; 3] = [[0, 1, 2, 3], [3, 2, 1, 0], [2, 3, 0, 1]];
    for order in orders.iter() {
        let mut names: NamedKeys = VecMap::new();
        for i in order.iter() {
            names.insert(format!("v_{}_{}", key, stakes[*i]), Key::Hash([0u8; 32]));
        }
        let validators = collect_validators(&names);
        assert_eq!(validators.len(), 1);
        assert_eq!(validators.get(&PublicKey::new([0x0a; 32])), Some(&U512::from_u64(9)));
    }
    let mut names: NamedKeys = VecMap::new();
    names.insert(format!("v_{}_7", "0A".repeat(32)), Key::Hash([0u8; 32]));
    names.insert(format!("v_{}_8", "0a".repeat(32)), Key::Hash([0u8; 32]));
    names.insert(format!("v_{}_5", "0a".repeat(32)), Key::Hash([0u8; 32]));
    let validators = collect_validators(&names);
    assert_eq!(validators.get(&PublicKey::new([0x0a; 32])), Some(&U512::from_u64(8)));
}

#[test]
fn the_bonded_validators_are_those_of_the_proof_of_stake_contract() {
    let engine = engine();
    let validators = engine.get_bonded_validators(root(), &Key::URef(pos_uref())).unwrap();
    assert_eq!(validators.len(), 2);
    assert_eq!(validators.get(&PublicKey::new([1u8; 32])), Some(&U512::from_u64(100)));
    let read_only = Key::URef(URef::new([31u8; 32], AccessRights::read_only()));
    assert_eq!(engine.get_bonded_validators(root(), &read_only).unwrap().len(), 2);
}

#[test]
fn the_bonded_validators_need_a_root_and_a_contract() {
    let engine = engine();
    let missing = Blake2bHash::from_bytes([6u8; 32]);
    assert_eq!(
        engine.get_bonded_validators(missing, &Key::URef(pos_uref())).err(),
        Some(GetBondedValidatorsError::PostStateHashNotFound(missing))
    );
    assert_eq!(
        engine.get_bonded_validators(root(), &Key::Hash([3u8; 32])).err(),
        Some(GetBondedValidatorsError::ProofOfStakeNotFound(Key::Hash([3u8; 32])))
    );
    assert_eq!(
        engine.get_bonded_validators(root(), &Key::Hash([4u8; 32])).err(),
        Some(GetBondedValidatorsError::ProofOfStakeNotFound(Key::Hash([4u8; 32])))
    );
}
