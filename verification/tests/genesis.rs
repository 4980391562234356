use std::cell::{Cell, RefCell};
use std::rc::Rc;

use engine_core::engine_state::engine_config::EngineConfig;
use engine_core::engine_state::error::Error;
use engine_core::engine_state::execution_effect::TransformMap;
use engine_core::engine_state::execution_result::ExecutionResult;
use engine_core::engine_state::genesis::{
    bonded_validators, insert_validator, key_below, ordered_validators, push_validators,
    GenesisAccount, GenesisConfig, GenesisResult,
};
use engine_core::engine_state::installer::{mint_args, pos_args, uref_of, virtual_system_account};
use engine_core::engine_state::{EngineState, SYSTEM_ACCOUNT_ADDR};
use engine_core::execution::{
    self, AddressGenerator, BlockTime, DirectExecOutput, ExecInput, ExecOutput, Executor,
    InstallOutput, Phase,
};
use engine_core::shared::gas::Gas;
use engine_core::shared::motes::Motes;
use engine_core::shared::newtypes::Blake2bHash;
use engine_core::shared::transform::Transform;
use engine_core::storage::global_state::{
    CommitOutcome, CommitResult, CommitView, StateProvider, StateReader, StateView,
};
use engine_core::storage::protocol_data::ProtocolData;
use engine_core::tracking_copy::{TrackingCopy, TrackingCopyView};
use engine_core::types::account::{Account, KeySet, NamedKeys};
use engine_core::types::contract::Contract;
use engine_core::types::key::{AccessRights, Key, PublicKey, URef};
use engine_core::types::uint::U512;
use engine_core::types::value::{TypeMismatch, TypeName, Value};
use engine_core::types::vec_map::{Duplicate, VecMap};
use engine_core::wasm_prep::wasm_costs::WasmCosts;
use engine_core::wasm_prep::{ModuleBytes, PreprocessingError, Preprocessor};

/// The error of a store that is down.
#[derive(Clone, Copy, Debug, PartialEq, Eq)]
struct StoreDown;

struct MemReader {
    values: Vec<(Key, Value)>,
    reads_left: Cell<Option<usize>>,
}

impl StateReader for MemReader {
    type Error = StoreDown;

    fn contents(&self) -> StateView {
        unreachable!()
    }

    fn read(&self, key: &Key) -> Result<Option<Value>, StoreDown> {
        match self.reads_left.get() {
            Some(0) => return Err(StoreDown),
            Some(n) => self.reads_left.set(Some(n - 1)),
            None => {}
        }
        Ok(self.values.iter().find(|(k, _)| k == key).map(|(_, v)| v.duplicate()))
    }
}

struct MemState {
    roots: Vec<(Blake2bHash, Vec<(Key, Value)>)>,
    protocol_data: Rc<RefCell<Vec<(u64, ProtocolData)>>>,
    reads_allowed: Option<usize>,
    checkout_fails: bool,
    commit_fails: bool,
    put_fails: bool,
}

impl MemState {
    fn new() -> MemState {
        MemState {
            roots: vec![(Blake2bHash::from_bytes([0u8; 32]), vec![])],
            protocol_data: Rc::new(RefCell::new(Vec::new())),
            reads_allowed: None,
            checkout_fails: false,
            commit_fails: false,
            put_fails: false,
        }
    }
}

impl StateProvider for MemState {
    type Error = StoreDown;
    type Reader = MemReader;

    fn state_at(&self, _root: Blake2bHash) -> Option<StateView> {
        unreachable!()
    }

    fn spec_empty_root(&self) -> Blake2bHash {
        unreachable!()
    }

    fn commit_spec(self, _prestate_hash: Blake2bHash, _effects: CommitView) -> CommitOutcome<Self> {
        unreachable!()
    }

    fn put_protocol_data_spec(self, _version: u64, _data: ProtocolData) -> Self {
        unreachable!()
    }

    fn checkout(&self, root: Blake2bHash) -> Result<Option<MemReader>, StoreDown> {
        if self.checkout_fails {
            return Err(StoreDown);
        }
        Ok(self.roots.iter().find(|(r, _)| *r == root).map(|(_, values)| MemReader {
            values: values.iter().map(|(k, v)| (*k, v.duplicate())).collect(),
            reads_left: Cell::new(self.reads_allowed),
        }))
    }

    fn commit(
        &mut self,
        prestate_hash: Blake2bHash,
        effects: &TransformMap,
    ) -> Result<CommitResult, StoreDown> {
        if self.commit_fails {
            return Err(StoreDown);
        }
        let mut values: Vec<(Key, Value)> = match self.checkout(prestate_hash)? {
            Some(reader) => reader.values,
            None => return Ok(CommitResult::RootNotFound),
        };
        for i in 0..effects.len() {
            let key = *effects.key_at(i);
            let transform = effects.value_at(i).duplicate();
            let at = values.iter().position(|(k, _)| *k == key);
            match (transform, at) {
                (Transform::Write(v), Some(at)) => values[at].1 = v,
                (Transform::Write(v), None) => values.push((key, v)),
                (_, None) => return Ok(CommitResult::KeyNotFound(key)),
                (t, Some(at)) => match t.apply(values[at].1.duplicate()) {
                    Ok(v) => values[at].1 = v,
                    Err(e) => {
                        return Ok(CommitResult::TypeMismatch {
                            key,
                            expected: e.expected,
                            found: e.found,
                        })
                    }
                },
            }
        }
        let mut lines: Vec<String> = values.iter().map(|e| format!("{:?}", e)).collect();
        lines.sort();
        let state_root = Blake2bHash::new(lines.join("\n").as_bytes());
        self.roots.push((state_root, values));
        Ok(CommitResult::Success { state_root, bonded_validators: VecMap::new() })
    }

    fn empty_root(&self) -> Blake2bHash {
        Blake2bHash::from_bytes([0u8; 32])
    }

    fn put_protocol_data(&mut self, version: u64, data: &ProtocolData) -> Result<(), StoreDown> {
        if self.put_fails {
            return Err(StoreDown);
        }
        self.protocol_data.borrow_mut().push((version, *data));
        Ok(())
    }
}

struct Bytes {
    costs: WasmCosts,
}

impl Preprocessor<Vec<u8>> for Bytes {
    fn spec_new(_wasm_costs: WasmCosts) -> Self {
        unreachable!()
    }

    fn new(wasm_costs: WasmCosts) -> Self {
        Bytes { costs: wasm_costs }
    }

    fn preprocess_spec(&self, _module: ModuleBytes) -> Result<Vec<u8>, PreprocessingError> {
        unreachable!()
    }

    fn deserialize_spec(&self, _module: ModuleBytes) -> Result<Vec<u8>, PreprocessingError> {
        unreachable!()
    }

    fn preprocess(&self, module_bytes: &Vec<u8>) -> Result<Vec<u8>, PreprocessingError> {
        if self.costs.max_stack_height == 0 {
            Err(PreprocessingError::StackLimiterError)
        } else if module_bytes.is_empty() {
            Err(PreprocessingError::NoExportSection)
        } else {
            Ok(module_bytes.clone())
        }
    }

    fn deserialize(&self, module_bytes: &Vec<u8>) -> Result<Vec<u8>, PreprocessingError> {
        if module_bytes.is_empty() {
            Err(PreprocessingError::DeserializeError)
        } else {
            Ok(module_bytes.clone())
        }
    }
}

const MINT_INSTALLER: u8 = 1;
const POS_INSTALLER: u8 = 2;
const MINT_CODE: u8 = 0xaa;
const POS_CODE: u8 = 0xbb;
const RETURNS_A_NUMBER: u8 = 3;
const FAILS: u8 = 4;

struct Call {
    module: Vec<u8>,
    args: Vec<u8>,
    known: Vec<(String, Key)>,
    base_key: Key,
    deploy_hash: [u8; 32],
    gas_limit: U512,
    phase: Phase,
    account: [u8; 32],
    made: [u8; 32],
}

struct Installers {
    calls: RefCell<Vec<Call>>,
}

impl Installers {
    fn new() -> Installers {
        Installers { calls: RefCell::new(Vec::new()) }
    }
}

impl Executor<Vec<u8>> for Installers {
    fn exec_spec(&self, _m: Vec<u8>, _i: ExecInput, _t: TrackingCopyView) -> ExecOutput {
        unreachable!()
    }

    fn exec_direct_spec(&self, _m: Vec<u8>, _i: ExecInput, _t: TrackingCopyView) -> DirectExecOutput {
        unreachable!()
    }

    fn better_exec_spec(
        &self,
        _m: Vec<u8>,
        _i: ExecInput,
        _a: AddressGenerator,
        _t: TrackingCopyView,
    ) -> InstallOutput {
        unreachable!()
    }

    fn exec<R: StateReader>(
        &self,
        _module: Vec<u8>,
        _args: &Vec<u8>,
        _base_key: Key,
        _account: &Account,
        _authorization_keys: &KeySet,
        _blocktime: BlockTime,
        _deploy_hash: [u8; 32],
        _gas_limit: Gas,
        _protocol_version: u64,
        _tracking_copy: &mut TrackingCopy<R>,
        _phase: Phase,
    ) -> ExecutionResult {
        ExecutionResult::precondition_failure(Error::DeployError)
    }

    fn exec_direct<R: StateReader>(
        &self,
        _module: Vec<u8>,
        _args: &Vec<u8>,
        _keys: &mut NamedKeys,
        _base_key: Key,
        _account: &Account,
        _authorization_keys: &KeySet,
        _blocktime: BlockTime,
        _deploy_hash: [u8; 32],
        _gas_limit: Gas,
        _protocol_version: u64,
        _tracking_copy: &mut TrackingCopy<R>,
        _phase: Phase,
    ) -> ExecutionResult {
        ExecutionResult::precondition_failure(Error::DeployError)
    }

    fn better_exec<R: StateReader>(
        &self,
        module: Vec<u8>,
        args: &Vec<u8>,
        keys: &mut NamedKeys,
        base_key: Key,
        account: &Account,
        authorization_keys: &KeySet,
        blocktime: BlockTime,
        deploy_hash: [u8; 32],
        gas_limit: Gas,
        address_generator: &mut AddressGenerator,
        _protocol_version: u64,
        tracking_copy: &mut TrackingCopy<R>,
        phase: Phase,
    ) -> Result<Value, execution::Error> {
        assert!(authorization_keys.is_empty());
        assert_eq!(blocktime, BlockTime(0));
        let made = address_generator.create_address();
        let mut known = Vec::new();
        for i in 0..keys.len() {
            known.push((keys.key_at(i).clone(), *keys.value_at(i)));
        }
        self.calls.borrow_mut().push(Call {
            module: module.clone(),
            args: args.clone(),
            known,
            base_key,
            deploy_hash,
            gas_limit: gas_limit.value(),
            phase,
            account: account.pub_key(),
            made,
        });
        let reference = URef::new(made, AccessRights::read_add_write());
        let stored = Key::URef(reference).normalize();
        match module[0] {
            MINT_INSTALLER => {
                tracking_copy.write(stored, Value::Contract(Contract::new(vec![MINT_CODE], VecMap::new(), 1)));
                Ok(Value::Key(Key::URef(reference)))
            }
            POS_INSTALLER => {
                tracking_copy.write(stored, Value::Contract(Contract::new(vec![POS_CODE], VecMap::new(), 1)));
                Ok(Value::Key(Key::URef(reference)))
            }
            MINT_CODE => {
                tracking_copy.write(stored, Value::UInt512(U512::zero()));
                Ok(Value::Key(Key::URef(reference)))
            }
            RETURNS_A_NUMBER => Ok(Value::Int32(1)),
            FAILS => Err(execution::Error::Revert(7)),
            _ => Err(execution::Error::InterpreterError("unknown module".to_string())),
        }
    }
}

fn account(key: u8, balance: u64, bonded: u64) -> GenesisAccount {
    GenesisAccount::new(PublicKey::new([key; 32]), Motes::from_u64(balance), Motes::from_u64(bonded))
}

fn config_with(mint: Vec<u8>, pos: Vec<u8>, accounts: Vec<GenesisAccount>) -> GenesisConfig {
    GenesisConfig::new("net".to_string(), 0x0102, 1, mint, pos, accounts, WasmCosts::free())
}

fn config() -> GenesisConfig {
    config_with(
        vec![MINT_INSTALLER],
        vec![POS_INSTALLER],
        vec![account(9, 1_000, 50), account(3, 2_000, 0), account(5, 0, 70)],
    )
}

fn engine() -> EngineState<MemState> {
    EngineState::new(MemState::new(), EngineConfig::new())
}

fn install_hash() -> [u8; 32] {
    let mut bytes = b"net".to_vec();
    bytes.extend_from_slice(&[2, 1, 0, 0, 0, 0, 0, 0]);
    bytes.extend_from_slice(&WasmCosts::free().to_bytes());
    Blake2bHash::new(&bytes).value()
}

#[test]
fn the_configuration_says_what_it_was_given() {
    let config = config();
    assert_eq!(config.name(), "net");
    assert_eq!(config.timestamp(), 0x0102);
    assert_eq!(config.protocol_version(), 1);
    assert_eq!(config.mint_installer_bytes(), &vec![MINT_INSTALLER]);
    assert_eq!(config.proof_of_stake_installer_bytes(), &vec![POS_INSTALLER]);
    assert_eq!(config.wasm_costs(), WasmCosts::free());
    assert_eq!(config.accounts().len(), 3);
    assert_eq!(config.accounts()[0].public_key(), PublicKey::new([9u8; 32]));
    assert_eq!(config.accounts()[0].balance(), Motes::from_u64(1_000));
    assert_eq!(config.accounts()[0].bonded_amount(), Motes::from_u64(50));
    assert_eq!(config.install_deploy_hash(), install_hash());
}

#[test]
fn keys_are_ordered_by_their_bytes() {
    let low = PublicKey::new([1u8; 32]);
    let mut mid = [1u8; 32];
    mid[31] = 2;
    let mid = PublicKey::new(mid);
    let high = PublicKey::new([2u8; 32]);
    assert!(key_below(&low, &mid));
    assert!(key_below(&mid, &high));
    assert!(key_below(&low, &high));
    assert!(!key_below(&high, &low));
    assert!(!key_below(&low, &low));
}

#[test]
fn bonded_validators_are_those_with_a_stake_in_the_order_of_their_keys() {
    let list = config().get_bonded_validators();
    assert_eq!(
        list,
        vec![
            (PublicKey::new([5u8; 32]), U512::from_u64(70)),
            (PublicKey::new([9u8; 32]), U512::from_u64(50)),
        ]
    );
    assert_eq!(bonded_validators(&vec![]), vec![]);
    assert_eq!(bonded_validators(&vec![account(1, 5, 0)]), vec![]);
    let twice = bonded_validators(&vec![account(4, 0, 1), account(2, 0, 2), account(4, 0, 3)]);
    assert_eq!(
        twice,
        vec![
            (PublicKey::new([2u8; 32]), U512::from_u64(2)),
            (PublicKey::new([4u8; 32]), U512::from_u64(3)),
        ]
    );
}

#[test]
fn a_validator_goes_to_its_place_in_the_list() {
    let mut list = Vec::new();
    for key in [5u8, 1, 9, 3, 7] {
        insert_validator(&mut list, PublicKey::new([key; 32]), U512::from_u64(key as u64));
    }
    let keys: Vec<[u8; 32]> = list.iter().map(|(k, _)| k.value()).collect();
    assert_eq!(keys, vec![[1u8; 32], [3u8; 32], [5u8; 32], [7u8; 32], [9u8; 32]]);
    insert_validator(&mut list, PublicKey::new([3u8; 32]), U512::from_u64(33));
    assert_eq!(list.len(), 5);
    assert_eq!(list[1], (PublicKey::new([3u8; 32]), U512::from_u64(33)));
    let given = vec![
        (PublicKey::new([8u8; 32]), U512::zero()),
        (PublicKey::new([2u8; 32]), U512::from_u64(1)),
    ];
    assert_eq!(
        ordered_validators(&given),
        vec![
            (PublicKey::new([2u8; 32]), U512::from_u64(1)),
            (PublicKey::new([8u8; 32]), U512::zero()),
        ]
    );
}

#[test]
fn validators_are_written_key_then_stake() {
    let list = vec![
        (PublicKey::new([5u8; 32]), U512::from_u64(70)),
        (PublicKey::new([9u8; 32]), U512::from_u64(256)),
    ];
    let mut out = Vec::new();
    assert!(push_validators(&mut out, &list));
    let mut expected = vec![2, 0, 0, 0];
    expected.extend_from_slice(&[5u8; 32]);
    expected.extend_from_slice(&[1, 70]);
    expected.extend_from_slice(&[9u8; 32]);
    expected.extend_from_slice(&[2, 0, 1]);
    assert_eq!(out, expected);
}

#[test]
fn the_arguments_of_the_installers_are_written_in_the_canonical_form() {
    let mint = URef::new([6u8; 32], AccessRights::read_add_write());
    let list = vec![(PublicKey::new([5u8; 32]), U512::from_u64(70))];
    let mut expected = vec![2, 0, 0, 0, 34, 0, 0, 0];
    expected.extend_from_slice(&[6u8; 32]);
    expected.extend_from_slice(&[1, 7]);
    expected.extend_from_slice(&[38, 0, 0, 0, 1, 0, 0, 0]);
    expected.extend_from_slice(&[5u8; 32]);
    expected.extend_from_slice(&[1, 70]);
    assert_eq!(pos_args(&mint, &list), Some(expected));
    let mut expected = vec![2, 0, 0, 0, 8, 0, 0, 0, 4, 0, 0, 0];
    expected.extend_from_slice(b"mint");
    expected.extend_from_slice(&[3, 0, 0, 0, 2, 0xe8, 0x03]);
    assert_eq!(mint_args(&U512::from_u64(1_000)), Some(expected));
}

#[test]
fn only_a_reference_is_taken_for_one() {
    let reference = URef::new([6u8; 32], AccessRights::read_only());
    assert_eq!(uref_of(Value::Key(Key::URef(reference))), Ok(reference));
    assert_eq!(
        uref_of(Value::Key(Key::Hash([6u8; 32]))),
        Err(Error::ExecError(execution::Error::TypeMismatch(TypeMismatch::new(
            TypeName::KeyURef,
            TypeName::Key
        ))))
    );
    assert_eq!(
        uref_of(Value::UInt64(6)),
        Err(Error::ExecError(execution::Error::TypeMismatch(TypeMismatch::new(
            TypeName::KeyURef,
            TypeName::UInt64
        ))))
    );
}

#[test]
fn the_system_account_of_genesis_is_a_fresh_account() {
    let account = virtual_system_account();
    assert_eq!(account.pub_key(), SYSTEM_ACCOUNT_ADDR);
    assert!(account.urefs_lookup().is_empty());
    assert_eq!(account.associated_keys().len(), 1);
    assert_eq!(
        account.purse_id().value(),
        URef::new(SYSTEM_ACCOUNT_ADDR, AccessRights::read_add_write())
    );
}

fn success(result: Result<GenesisResult, Error>) -> (Blake2bHash, Vec<(Key, String)>) {
    match result {
        Ok(GenesisResult::Success { post_state_hash, effect }) => {
            let mut transforms = Vec::new();
            for i in 0..effect.transforms.len() {
                transforms.push((
                    *effect.transforms.key_at(i),
                    format!("{:?}", effect.transforms.value_at(i)),
                ));
            }
            (post_state_hash, transforms)
        }
        other => panic!("unexpected {:?}", other),
    }
}

#[test]
fn genesis_installs_the_system_contracts_and_the_accounts() {
    let mut engine = engine();
    let installers = Installers::new();
    let result = engine.commit_genesis_with_chainspec::<_, Bytes, _>(config(), &installers);
    let (root, _) = success(result);
    assert_ne!(root, Blake2bHash::from_bytes([0u8; 32]));

    let calls = installers.calls.borrow();
    assert_eq!(calls.len(), 6);
    let mut shared = AddressGenerator::new(install_hash(), Phase::System);
    let mint = URef::new(shared.create_address(), AccessRights::read_add_write());
    let pos = URef::new(shared.create_address(), AccessRights::read_add_write());
    assert_ne!(mint, pos);

    assert_eq!(calls[0].module, vec![MINT_INSTALLER]);
    assert!(calls[0].args.is_empty());
    assert!(calls[0].known.is_empty());
    assert_eq!(calls[0].base_key, Key::Account(SYSTEM_ACCOUNT_ADDR));
    assert_eq!(calls[0].deploy_hash, install_hash());
    assert_eq!(calls[0].gas_limit, U512::from_u64(u64::MAX));
    assert_eq!(calls[0].phase, Phase::System);
    assert_eq!(calls[0].account, SYSTEM_ACCOUNT_ADDR);
    assert_eq!(calls[0].made, mint.addr());

    assert_eq!(calls[1].module, vec![POS_INSTALLER]);
    assert_eq!(calls[1].known, vec![("mint".to_string(), Key::URef(mint))]);
    assert_eq!(calls[1].deploy_hash, install_hash());
    assert_eq!(calls[1].made, pos.addr());
    let bonded = vec![
        (PublicKey::new([5u8; 32]), U512::from_u64(70)),
        (PublicKey::new([9u8; 32]), U512::from_u64(50)),
    ];
    assert_eq!(Some(calls[1].args.clone()), pos_args(&mint, &bonded));

    let expected = [([9u8; 32], 1_000u64), ([3u8; 32], 2_000), ([5u8; 32], 0), (SYSTEM_ACCOUNT_ADDR, 0)];
    for (i, (key, balance)) in expected.iter().enumerate() {
        let call = &calls[2 + i];
        assert_eq!(call.module, vec![MINT_CODE]);
        assert_eq!(Some(call.args.clone()), mint_args(&U512::from_u64(*balance)));
        assert!(call.known.is_empty());
        assert_eq!(call.base_key, Key::URef(mint));
        assert_eq!(call.deploy_hash, *key);
        assert_eq!(call.made, AddressGenerator::new(*key, Phase::System).create_address());
    }

    let mut state = engine.tracking_copy(root).unwrap().unwrap();
    for (i, (key, _)) in expected.iter().enumerate() {
        let account = state.get_account(*key).unwrap();
        assert_eq!(account.pub_key(), *key);
        assert_eq!(
            account.purse_id().value(),
            URef::new(calls[2 + i].made, AccessRights::read_add_write())
        );
        assert_eq!(account.urefs_lookup().len(), 2);
        let rights = if *key == SYSTEM_ACCOUNT_ADDR {
            AccessRights::read_add_write()
        } else {
            AccessRights::read_only()
        };
        assert_eq!(
            account.urefs_lookup().get(&"mint".to_string()),
            Some(&Key::URef(URef::new(mint.addr(), rights)))
        );
        assert_eq!(
            account.urefs_lookup().get(&"pos".to_string()),
            Some(&Key::URef(URef::new(pos.addr(), rights)))
        );
    }
    assert_eq!(state.get_contract(Key::URef(mint)).unwrap().bytes(), &vec![MINT_CODE]);
    assert_eq!(state.get_contract(Key::URef(pos)).unwrap().bytes(), &vec![POS_CODE]);
}

#[test]
fn two_installations_from_one_configuration_give_one_root() {
    let mut first = engine();
    let mut second = engine();
    let a = success(first.commit_genesis_with_chainspec::<_, Bytes, _>(config(), &Installers::new()));
    let b = success(second.commit_genesis_with_chainspec::<_, Bytes, _>(config(), &Installers::new()));
    assert_eq!(a.0, b.0);
    assert_eq!(a.1, b.1);
    let other = config_with(vec![MINT_INSTALLER], vec![POS_INSTALLER], vec![account(9, 1_001, 50)]);
    let c = success(engine().commit_genesis_with_chainspec::<_, Bytes, _>(other, &Installers::new()));
    assert_ne!(a.0, c.0);
}

#[test]
fn an_installer_that_is_refused_fails_the_installation() {
    let accounts = vec![account(9, 1_000, 50)];
    let none = config_with(vec![], vec![POS_INSTALLER], accounts.clone());
    assert_eq!(
        engine().commit_genesis_with_chainspec::<_, Bytes, _>(none, &Installers::new()).err(),
        Some(Error::WasmPreprocessingError(PreprocessingError::NoExportSection))
    );
    let none = config_with(vec![MINT_INSTALLER], vec![], accounts.clone());
    assert_eq!(
        engine().commit_genesis_with_chainspec::<_, Bytes, _>(none, &Installers::new()).err(),
        Some(Error::WasmPreprocessingError(PreprocessingError::NoExportSection))
    );
    let fails = config_with(vec![FAILS], vec![POS_INSTALLER], accounts.clone());
    assert_eq!(
        engine().commit_genesis_with_chainspec::<_, Bytes, _>(fails, &Installers::new()).err(),
        Some(Error::ExecError(execution::Error::Revert(7)))
    );
    let number = config_with(vec![MINT_INSTALLER], vec![RETURNS_A_NUMBER], accounts);
    assert_eq!(
        engine().commit_genesis_with_chainspec::<_, Bytes, _>(number, &Installers::new()).err(),
        Some(Error::ExecError(execution::Error::TypeMismatch(TypeMismatch::new(
            TypeName::KeyURef,
            TypeName::Int32
        ))))
    );
}

#[test]
fn the_message_of_a_failed_installer_is_handed_on() {
    let unknown = config_with(vec![9], vec![POS_INSTALLER], vec![account(9, 1_000, 50)]);
    assert_eq!(
        engine().commit_genesis_with_chainspec::<_, Bytes, _>(unknown, &Installers::new()).err(),
        Some(Error::ExecError(execution::Error::InterpreterError("unknown module".to_string())))
    );
}

#[test]
fn a_failed_installation_commits_nothing() {
    let mut engine = engine();
    let fails = config_with(vec![MINT_INSTALLER], vec![FAILS], vec![account(9, 1_000, 50)]);
    assert!(engine.commit_genesis_with_chainspec::<_, Bytes, _>(fails, &Installers::new()).is_err());
    let empty = engine.tracking_copy(Blake2bHash::from_bytes([0u8; 32])).unwrap().unwrap();
    assert!(empty.get(&Key::Account(SYSTEM_ACCOUNT_ADDR)).unwrap().is_none());
}

#[test]
fn the_result_of_genesis_follows_the_commit() {
    use_all_commit_results();
}

fn use_all_commit_results() {
    let effect = || engine_core::engine_state::execution_effect::ExecutionEffect::empty();
    let root = Blake2bHash::from_bytes([4u8; 32]);
    let committed = CommitResult::Success { state_root: root, bonded_validators: VecMap::new() };
    assert!(matches!(
        GenesisResult::from_commit_result(committed, effect()),
        GenesisResult::Success { post_state_hash, .. } if post_state_hash == root
    ));
    assert!(matches!(
        GenesisResult::from_commit_result(CommitResult::RootNotFound, effect()),
        GenesisResult::RootNotFound
    ));
    let key = Key::Hash([1u8; 32]);
    assert!(matches!(
        GenesisResult::from_commit_result(CommitResult::KeyNotFound(key), effect()),
        GenesisResult::KeyNotFound(k) if k == key
    ));
    let mismatch =
        CommitResult::TypeMismatch { key, expected: TypeName::UInt64, found: TypeName::Int32 };
    assert!(matches!(
        GenesisResult::from_commit_result(mismatch, effect()),
        GenesisResult::TypeMismatch { key: k, expected: TypeName::UInt64, found: TypeName::Int32 }
            if k == key
    ));
}

#[test]
fn genesis_needs_the_empty_root() {
    let mut store = MemState::new();
    store.roots.clear();
    let mut engine = EngineState::new(store, EngineConfig::new());
    assert_eq!(
        engine.commit_genesis_with_chainspec::<_, Bytes, _>(config(), &Installers::new()).err(),
        Some(Error::RootNotFound(Blake2bHash::from_bytes([0u8; 32])))
    );
}

#[test]
fn genesis_from_plain_values_checks_both_codes_before_it_uses_the_store() {
    for (mint, pos) in [(vec![], vec![POS_INSTALLER]), (vec![MINT_INSTALLER], vec![])] {
        let mut engine = engine();
        let installers = Installers::new();
        let result = engine.commit_genesis::<_, Bytes, _>(
            [7u8; 32],
            U512::from_u64(5_000),
            &mint,
            &pos,
            vec![],
            3,
            &installers,
        );
        assert_eq!(
            result.err(),
            Some(Error::WasmPreprocessingError(PreprocessingError::NoExportSection))
        );
        assert!(installers.calls.borrow().is_empty());
        let empty = engine.tracking_copy(Blake2bHash::from_bytes([0u8; 32])).unwrap().unwrap();
        assert!(empty.get(&Key::Account(SYSTEM_ACCOUNT_ADDR)).unwrap().is_none());
    }
}

#[test]
fn genesis_from_plain_values_makes_one_account_and_bonds_the_validators() {
    let mut engine = engine();
    let installers = Installers::new();
    let validators = vec![
        (PublicKey::new([8u8; 32]), U512::from_u64(80)),
        (PublicKey::new([2u8; 32]), U512::from_u64(20)),
    ];
    let result = engine.commit_genesis::<_, Bytes, _>(
        [7u8; 32],
        U512::from_u64(5_000),
        &[MINT_INSTALLER],
        &[POS_INSTALLER],
        validators,
        3,
        &installers,
    );
    let (root, _) = success(result);
    let calls = installers.calls.borrow();
    assert_eq!(calls.len(), 4);
    let mut bytes = vec![0u8; 8];
    bytes.extend_from_slice(&WasmCosts::free().to_bytes());
    assert_eq!(calls[0].deploy_hash, Blake2bHash::new(&bytes).value());
    let mint = URef::new(calls[0].made, AccessRights::read_add_write());
    let ordered = vec![
        (PublicKey::new([2u8; 32]), U512::from_u64(20)),
        (PublicKey::new([8u8; 32]), U512::from_u64(80)),
    ];
    assert_eq!(Some(calls[1].args.clone()), pos_args(&mint, &ordered));
    assert_eq!(Some(calls[2].args.clone()), mint_args(&U512::from_u64(5_000)));
    assert_eq!(calls[2].deploy_hash, [7u8; 32]);
    assert_eq!(calls[3].deploy_hash, SYSTEM_ACCOUNT_ADDR);
    let mut state = engine.tracking_copy(root).unwrap().unwrap();
    assert!(state.get_account([7u8; 32]).is_ok());
    assert!(state.get_account([8u8; 32]).is_err());
}


#[test]
fn a_store_that_fails_fails_the_installation() {
    let storage = Some(Error::ExecError(execution::Error::Storage));
    let mut store = MemState::new();
    store.put_fails = true;
    let mut engine = EngineState::new(store, EngineConfig::new());
    let installers = Installers::new();
    assert_eq!(engine.commit_genesis_with_chainspec::<_, Bytes, _>(config(), &installers).err(), storage);
    assert!(installers.calls.borrow().is_empty());

    let mut store = MemState::new();
    store.checkout_fails = true;
    let mut engine = EngineState::new(store, EngineConfig::new());
    assert_eq!(
        engine.commit_genesis_with_chainspec::<_, Bytes, _>(config(), &Installers::new()).err(),
        storage
    );

    let mut store = MemState::new();
    store.commit_fails = true;
    let mut engine = EngineState::new(store, EngineConfig::new());
    let installers = Installers::new();
    assert_eq!(engine.commit_genesis_with_chainspec::<_, Bytes, _>(config(), &installers).err(), storage);
    assert_eq!(installers.calls.borrow().len(), 6);

    let mut store = MemState::new();
    store.commit_fails = true;
    let mut engine = EngineState::new(store, EngineConfig::new());
    let result = engine.commit_genesis::<_, Bytes, _>(
        [7u8; 32],
        U512::from_u64(5_000),
        &[MINT_INSTALLER],
        &[POS_INSTALLER],
        vec![],
        3,
        &Installers::new(),
    );
    assert_eq!(result.err(), storage);
}

#[test]
fn genesis_with_chainspec_stores_the_cost_table_and_genesis_from_plain_values_does_not() {
    let store = MemState::new();
    let stored = store.protocol_data.clone();
    let mut engine = EngineState::new(store, EngineConfig::new());
    success(engine.commit_genesis_with_chainspec::<_, Bytes, _>(config(), &Installers::new()));
    assert_eq!(*stored.borrow(), vec![(1, ProtocolData::new(WasmCosts::free()))]);
    let store = MemState::new();
    let stored = store.protocol_data.clone();
    let mut engine = EngineState::new(store, EngineConfig::new());
    let result = engine.commit_genesis::<_, Bytes, _>(
        [7u8; 32],
        U512::from_u64(5_000),
        &[MINT_INSTALLER],
        &[POS_INSTALLER],
        vec![],
        3,
        &Installers::new(),
    );
    success(result);
    assert!(stored.borrow().is_empty());
}

#[test]
fn the_installers_are_preprocessed_under_the_costs_of_the_configuration() {
    let costs = WasmCosts { max_stack_height: 0, ..WasmCosts::free() };
    let refused = GenesisConfig::new(
        "net".to_string(),
        0x0102,
        1,
        vec![MINT_INSTALLER],
        vec![POS_INSTALLER],
        vec![account(9, 1_000, 50)],
        costs,
    );
    let installers = Installers::new();
    assert_eq!(
        engine().commit_genesis_with_chainspec::<_, Bytes, _>(refused, &installers).err(),
        Some(Error::WasmPreprocessingError(PreprocessingError::StackLimiterError))
    );
    assert!(installers.calls.borrow().is_empty());
    success(engine().commit_genesis_with_chainspec::<_, Bytes, _>(config(), &Installers::new()));
}
