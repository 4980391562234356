use engine_core::shared::transform::Transform;
use engine_core::types::account::{Account, NamedKeys, PurseId};
use engine_core::types::contract::Contract;
use engine_core::types::key::{AccessRights, Key, URef};
use engine_core::types::uint::{U256, U512};
use engine_core::types::value::{TypeMismatch, TypeName, Value};
use engine_core::types::vec_map::{Duplicate, VecMap};

fn named(entries: &[(&str, u8)]) -> NamedKeys {
    let mut map: NamedKeys = VecMap::new();
    for (name, byte) in entries {
        map.insert(name.to_string(), Key::Hash([*byte; 32]));
    }
    map
}

#[test]
fn identity_and_write_apply_to_anything() {
    assert!(matches!(Transform::Identity.apply(Value::Int32(5)), Ok(Value::Int32(5))));
    assert!(matches!(
        Transform::Write(Value::UInt64(9)).apply(Value::Int32(5)),
        Ok(Value::UInt64(9))
    ));
}

#[test]
fn numbers_add_modulo_their_width() {
    assert!(matches!(Transform::AddInt32(3).apply(Value::Int32(4)), Ok(Value::Int32(7))));
    assert!(matches!(
        Transform::AddInt32(1).apply(Value::Int32(i32::MAX)),
        Ok(Value::Int32(i32::MIN))
    ));
    assert!(matches!(Transform::AddInt32(-5).apply(Value::Int32(3)), Ok(Value::Int32(-2))));
    assert!(matches!(
        Transform::AddUInt64(2).apply(Value::UInt64(u64::MAX)),
        Ok(Value::UInt64(1))
    ));
    assert!(matches!(
        Transform::AddUInt128(2).apply(Value::UInt128(u128::MAX)),
        Ok(Value::UInt128(1))
    ));
    let max256 = U256::from_limbs([u64::MAX; 4]);
    match Transform::AddUInt256(U256::from_u64(3)).apply(Value::UInt256(max256)) {
        Ok(Value::UInt256(v)) => assert_eq!(v, U256::from_u64(2)),
        other => panic!("unexpected {:?}", other),
    }
    match Transform::AddUInt512(U512::from_u64(3)).apply(Value::UInt512(U512::from_u64(4))) {
        Ok(Value::UInt512(v)) => assert_eq!(v, U512::from_u64(7)),
        other => panic!("unexpected {:?}", other),
    }
}

#[test]
fn adding_the_complement_subtracts() {
    let minus_five = U512::zero().wrapping_sub(&U512::from_u64(5));
    match Transform::AddUInt512(minus_five).apply(Value::UInt512(U512::from_u64(12))) {
        Ok(Value::UInt512(v)) => assert_eq!(v, U512::from_u64(7)),
        other => panic!("unexpected {:?}", other),
    }
}

#[test]
fn a_number_is_added_only_to_its_own_kind() {
    assert_eq!(
        Transform::AddInt32(3).apply(Value::UInt64(4)).err(),
        Some(TypeMismatch::new(TypeName::Int32, TypeName::UInt64))
    );
    assert_eq!(
        Transform::AddUInt64(3).apply(Value::String("x".to_string())).err(),
        Some(TypeMismatch::new(TypeName::UInt64, TypeName::String))
    );
    assert_eq!(
        Transform::AddUInt512(U512::from_u64(1)).apply(Value::UInt256(U256::zero())).err(),
        Some(TypeMismatch::new(TypeName::UInt512, TypeName::UInt256))
    );
    assert_eq!(
        Transform::AddUInt128(3).apply(Value::Key(Key::Hash([0u8; 32]))).err(),
        Some(TypeMismatch::new(TypeName::UInt128, TypeName::Key))
    );
}

#[test]
fn names_are_added_to_accounts_and_contracts() {
    let purse = PurseId::new(URef::new([9u8; 32], AccessRights::read_add_write()));
    let account = Account::create([1u8; 32], named(&[("a", 1)]), purse);
    match Transform::AddKeys(named(&[("a", 2), ("b", 3)])).apply(Value::Account(account)) {
        Ok(Value::Account(a)) => {
            assert_eq!(a.urefs_lookup().len(), 2);
            assert_eq!(a.urefs_lookup().get(&"a".to_string()), Some(&Key::Hash([2u8; 32])));
            assert_eq!(a.urefs_lookup().get(&"b".to_string()), Some(&Key::Hash([3u8; 32])));
            assert_eq!(a.pub_key(), [1u8; 32]);
        }
        other => panic!("unexpected {:?}", other),
    }
    let contract = Contract::new(vec![1, 2, 3], named(&[]), 1);
    match Transform::AddKeys(named(&[("k", 7)])).apply(Value::Contract(contract)) {
        Ok(Value::Contract(c)) => {
            assert_eq!(c.urefs_lookup().get(&"k".to_string()), Some(&Key::Hash([7u8; 32])));
            assert_eq!(c.bytes(), &vec![1, 2, 3]);
            assert_eq!(c.protocol_version(), 1);
        }
        other => panic!("unexpected {:?}", other),
    }
    assert_eq!(
        Transform::AddKeys(named(&[("k", 7)])).apply(Value::Int32(1)).err(),
        Some(TypeMismatch::new(TypeName::AccountOrContract, TypeName::Int32))
    );
}

#[test]
fn a_failure_applies_to_nothing() {
    let e = TypeMismatch::new(TypeName::Write, TypeName::AddInt32);
    assert_eq!(Transform::Failure(e).apply(Value::Int32(1)).err(), Some(e));
}

#[test]
fn reads_change_nothing_when_combined() {
    assert!(matches!(Transform::Identity.combine(Transform::AddInt32(2)), Transform::AddInt32(2)));
    assert!(matches!(Transform::AddInt32(2).combine(Transform::Identity), Transform::AddInt32(2)));
    assert!(matches!(Transform::Identity.combine(Transform::Identity), Transform::Identity));
    assert!(matches!(
        Transform::Identity.merge(Transform::Write(Value::Int32(1))),
        Transform::Write(Value::Int32(1))
    ));
}

#[test]
fn adds_of_one_kind_add_up() {
    assert!(matches!(Transform::AddInt32(2).combine(Transform::AddInt32(3)), Transform::AddInt32(5)));
    assert!(matches!(
        Transform::AddUInt64(u64::MAX).combine(Transform::AddUInt64(2)),
        Transform::AddUInt64(1)
    ));
    match Transform::AddUInt512(U512::from_u64(20)).merge(Transform::AddUInt512(U512::from_u64(22))) {
        Transform::AddUInt512(v) => assert_eq!(v, U512::from_u64(42)),
        other => panic!("unexpected {:?}", other),
    }
    match Transform::AddKeys(named(&[("a", 1)])).combine(Transform::AddKeys(named(&[("a", 2), ("b", 3)]))) {
        Transform::AddKeys(keys) => {
            assert_eq!(keys.len(), 2);
            assert_eq!(keys.get(&"a".to_string()), Some(&Key::Hash([2u8; 32])));
        }
        other => panic!("unexpected {:?}", other),
    }
}

#[test]
fn adds_of_different_kinds_fail() {
    match Transform::AddInt32(2).combine(Transform::AddUInt64(3)) {
        Transform::Failure(e) => {
            assert_eq!(e, TypeMismatch::new(TypeName::AddInt32, TypeName::AddUInt64))
        }
        other => panic!("unexpected {:?}", other),
    }
    match Transform::AddUInt64(2).merge(Transform::AddKeys(named(&[]))) {
        Transform::Failure(e) => {
            assert_eq!(e, TypeMismatch::new(TypeName::AddUInt64, TypeName::AddKeys))
        }
        other => panic!("unexpected {:?}", other),
    }
}

#[test]
fn a_later_write_replaces_an_earlier_write() {
    assert!(matches!(
        Transform::Write(Value::Int32(1)).combine(Transform::Write(Value::Int32(2))),
        Transform::Write(Value::Int32(2))
    ));
    assert!(matches!(
        Transform::Write(Value::Int32(1)).merge(Transform::Write(Value::UInt64(2))),
        Transform::Write(Value::UInt64(2))
    ));
}

#[test]
fn write_and_add_do_not_mix_within_one_tracking_copy() {
    match Transform::AddInt32(2).combine(Transform::Write(Value::Int32(1))) {
        Transform::Failure(e) => assert_eq!(e, TypeMismatch::new(TypeName::AddInt32, TypeName::Write)),
        other => panic!("unexpected {:?}", other),
    }
    match Transform::Write(Value::Int32(1)).combine(Transform::AddInt32(2)) {
        Transform::Failure(e) => assert_eq!(e, TypeMismatch::new(TypeName::Write, TypeName::AddInt32)),
        other => panic!("unexpected {:?}", other),
    }
}

#[test]
fn across_phases_a_write_takes_over_and_an_add_is_applied() {
    assert!(matches!(
        Transform::AddInt32(2).merge(Transform::Write(Value::Int32(1))),
        Transform::Write(Value::Int32(1))
    ));
    assert!(matches!(
        Transform::Write(Value::Int32(1)).merge(Transform::AddInt32(2)),
        Transform::Write(Value::Int32(3))
    ));
    match Transform::Write(Value::Int32(1)).merge(Transform::AddUInt64(2)) {
        Transform::Failure(e) => assert_eq!(e, TypeMismatch::new(TypeName::UInt64, TypeName::Int32)),
        other => panic!("unexpected {:?}", other),
    }
}

#[test]
fn a_failure_stays() {
    let e = TypeMismatch::new(TypeName::Write, TypeName::AddInt32);
    assert!(matches!(Transform::Failure(e).combine(Transform::Write(Value::Int32(1))), Transform::Failure(f) if f == e));
    assert!(matches!(Transform::AddInt32(1).merge(Transform::Failure(e)), Transform::Failure(f) if f == e));
}

#[test]
fn adds_give_the_same_value_in_any_order() {
    let adds = [5u64, u64::MAX, 17, 1 << 63];
    let orders: [[usize; 4]; 4] = [[0, 1, 2, 3], [3, 2, 1, 0], [1, 3, 0, 2], [2, 0, 3, 1]];
    let mut results = Vec::new();
    for order in orders.iter() {
        let mut value = Value::UInt64(100);
        for i in order.iter() {
            value = Transform::AddUInt64(adds[*i]).apply(value).unwrap();
        }
        match value {
            Value::UInt64(v) => results.push(v),
            other => panic!("unexpected {:?}", other),
        }
    }
    let expected = 100u64
        .wrapping_add(5)
        .wrapping_add(u64::MAX)
        .wrapping_add(17)
        .wrapping_add(1 << 63);
    assert_eq!(results, vec![expected; 4]);
}

#[test]
fn a_merged_transform_does_what_its_parts_do_in_turn() {
    let first = Transform::AddUInt512(U512::from_u64(30));
    let second = Transform::AddUInt512(U512::zero().wrapping_sub(&U512::from_u64(10)));
    let in_turn = second
        .duplicate()
        .apply(first.duplicate().apply(Value::UInt512(U512::from_u64(5))).unwrap())
        .unwrap();
    let merged = first.merge(second).apply(Value::UInt512(U512::from_u64(5))).unwrap();
    match (in_turn, merged) {
        (Value::UInt512(a), Value::UInt512(b)) => {
            assert_eq!(a, U512::from_u64(25));
            assert_eq!(b, U512::from_u64(25));
        }
        other => panic!("unexpected {:?}", other),
    }
}

#[test]
fn the_kind_of_a_transform_names_it() {
    assert_eq!(Transform::Write(Value::Int32(1)).kind(), TypeName::Write);
    assert_eq!(Transform::AddUInt256(U256::zero()).kind(), TypeName::AddUInt256);
    assert_eq!(Transform::AddKeys(named(&[])).kind(), TypeName::AddKeys);
    assert_eq!(Value::ByteArray(vec![1]).type_tag(), TypeName::ByteArray);
    assert_eq!(Value::ListOfKeys(vec![]).type_tag(), TypeName::ListOfKeys);
    assert_eq!(
        Value::NamedKey("n".to_string(), Key::Hash([0u8; 32])).type_tag(),
        TypeName::NamedKey
    );
}
