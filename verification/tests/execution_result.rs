use engine_core::engine_state::error::Error;
use engine_core::engine_state::execution_effect::{add_op, add_transform, ExecutionEffect};
use engine_core::engine_state::execution_result::{
    ExecutionResult, ExecutionResultBuilder, ExecutionResultBuilderError,
};
use engine_core::engine_state::op::Op;
use engine_core::execution;
use engine_core::shared::motes::Motes;
use engine_core::shared::transform::Transform;
use engine_core::types::key::{AccessRights, Key, URef};
use engine_core::types::uint::U512;
use engine_core::types::value::{TypeMismatch, TypeName, Value};
use engine_core::types::vec_map::Duplicate;

fn hash(byte: u8) -> Key {
    Key::Hash([byte; 32])
}

fn effect(entries: Vec<(Key, Op, Transform)>) -> ExecutionEffect {
    let mut effect = ExecutionEffect::empty();
    for (key, op, transform) in entries {
        add_op(&mut effect.ops, key, op);
        add_transform(&mut effect.transforms, key, transform, false);
    }
    effect
}

fn ok(entries: Vec<(Key, Op, Transform)>, cost: u64) -> ExecutionResult {
    ExecutionResult::success(effect(entries), cost)
}

fn failed(entries: Vec<(Key, Op, Transform)>, cost: u64) -> ExecutionResult {
    ExecutionResult::failure(Error::ExecError(execution::Error::OutOfGas), effect(entries), cost)
}

#[test]
fn ops_join_to_the_stronger_access() {
    assert_eq!(Op::Read.join(Op::Read), Op::Read);
    assert_eq!(Op::Add.join(Op::Add), Op::Add);
    assert_eq!(Op::Read.join(Op::Add), Op::Write);
    assert_eq!(Op::Add.join(Op::Read), Op::Write);
    assert_eq!(Op::Write.join(Op::Read), Op::Write);
    assert_eq!(Op::NoOp.join(Op::Read), Op::Read);
    assert_eq!(Op::Add.join(Op::NoOp), Op::Add);
    assert_eq!(Op::NoOp.join(Op::NoOp), Op::NoOp);
}

#[test]
fn a_refusal_has_no_effect_and_no_cost() {
    let result = ExecutionResult::precondition_failure(Error::AuthorizationError);
    assert!(result.is_failure());
    assert!(!result.is_success());
    assert_eq!(result.cost(), 0);
    assert_eq!(result.error(), Some(Error::AuthorizationError));
    assert!(result.effect().ops.is_empty());
    assert!(result.effect().transforms.is_empty());
}

#[test]
fn a_result_keeps_what_it_is_not_given_anew() {
    let result = ok(vec![(hash(1), Op::Write, Transform::Write(Value::Int32(1)))], 5);
    let dearer = result.duplicate().with_cost(9);
    assert_eq!(dearer.cost(), 9);
    assert_eq!(dearer.effect().transforms.len(), 1);
    assert_eq!(dearer.error(), None);
    let emptied = failed(vec![(hash(1), Op::Read, Transform::Identity)], 5)
        .with_effect(ExecutionEffect::empty());
    assert!(emptied.effect().transforms.is_empty());
    assert_eq!(emptied.cost(), 5);
    assert_eq!(emptied.error(), Some(Error::ExecError(execution::Error::OutOfGas)));
}

#[test]
fn effects_merge_key_by_key() {
    let mut first = effect(vec![
        (hash(1), Op::Read, Transform::Identity),
        (hash(2), Op::Add, Transform::AddInt32(2)),
        (hash(3), Op::Add, Transform::AddUInt64(1)),
        (hash(4), Op::Write, Transform::Write(Value::Int32(10))),
    ]);
    let second = effect(vec![
        (hash(2), Op::Add, Transform::AddInt32(3)),
        (hash(3), Op::Write, Transform::Write(Value::UInt64(9))),
        (hash(4), Op::Add, Transform::AddInt32(5)),
        (hash(5), Op::Write, Transform::Write(Value::Int32(0))),
    ]);
    first.merge(&second);
    assert_eq!(first.transforms.len(), 5);
    assert!(matches!(first.transforms.get(&hash(1)), Some(Transform::Identity)));
    assert!(matches!(first.transforms.get(&hash(2)), Some(Transform::AddInt32(5))));
    assert!(matches!(first.transforms.get(&hash(3)), Some(Transform::Write(Value::UInt64(9)))));
    assert!(matches!(first.transforms.get(&hash(4)), Some(Transform::Write(Value::Int32(15)))));
    assert!(matches!(first.transforms.get(&hash(5)), Some(Transform::Write(Value::Int32(0)))));
    assert_eq!(first.ops.get(&hash(1)), Some(&Op::Read));
    assert_eq!(first.ops.get(&hash(2)), Some(&Op::Add));
    assert_eq!(first.ops.get(&hash(3)), Some(&Op::Write));
    assert_eq!(first.ops.get(&hash(5)), Some(&Op::Write));
}

#[test]
fn the_builder_needs_the_results_of_the_phases() {
    assert_eq!(
        ExecutionResultBuilder::new().build().err(),
        Some(ExecutionResultBuilderError::MissingPaymentExecutionResult)
    );
    let mut builder = ExecutionResultBuilder::new();
    builder.set_payment_execution_result(ok(vec![], 1));
    assert_eq!(builder.build().err(), Some(ExecutionResultBuilderError::MissingSessionExecutionResult));
    let mut builder = ExecutionResultBuilder::new();
    builder.set_payment_execution_result(ok(vec![], 1));
    builder.set_session_execution_result(ok(vec![], 1));
    assert_eq!(builder.build().err(), Some(ExecutionResultBuilderError::MissingFinalizeExecutionResult));
    let mut builder = ExecutionResultBuilder::new();
    builder.set_session_execution_result(ok(vec![], 1));
    builder.set_finalize_execution_result(ok(vec![], 1));
    assert_eq!(builder.build().err(), Some(ExecutionResultBuilderError::MissingPaymentExecutionResult));
}

#[test]
fn the_costs_of_payment_and_session_add_up() {
    let mut builder = ExecutionResultBuilder::new();
    assert_eq!(builder.total_cost().value(), U512::zero());
    assert_eq!(builder.payment_cost(), 0);
    builder.set_payment_execution_result(ok(vec![], 100));
    assert_eq!(builder.total_cost().value(), U512::from_u64(100));
    assert_eq!(builder.payment_cost(), 100);
    builder.set_session_execution_result(failed(vec![], 40));
    assert_eq!(builder.total_cost().value(), U512::from_u64(140));
    builder.set_finalize_execution_result(ok(vec![], 7));
    assert_eq!(builder.total_cost().value(), U512::from_u64(140));
    let mut builder = ExecutionResultBuilder::new();
    builder.set_payment_execution_result(ok(vec![], u64::MAX));
    builder.set_session_execution_result(ok(vec![], u64::MAX));
    assert_eq!(
        builder.total_cost().value(),
        U512::from_limbs([u64::MAX - 1, 1, 0, 0, 0, 0, 0, 0])
    );
}

#[test]
fn three_successes_are_merged_in_their_order() {
    let mut builder = ExecutionResultBuilder::new();
    builder.set_payment_execution_result(ok(
        vec![(hash(1), Op::Add, Transform::AddInt32(1)), (hash(2), Op::Write, Transform::Write(Value::Int32(1)))],
        100,
    ));
    builder.set_session_execution_result(ok(
        vec![(hash(1), Op::Add, Transform::AddInt32(2)), (hash(3), Op::Write, Transform::Write(Value::Int32(3)))],
        40,
    ));
    builder.set_finalize_execution_result(ok(
        vec![(hash(1), Op::Add, Transform::AddInt32(4)), (hash(2), Op::Write, Transform::Write(Value::Int32(9)))],
        5,
    ));
    let result = builder.build().unwrap();
    assert_eq!(result.error(), None);
    assert_eq!(result.cost(), 140);
    assert!(matches!(result.effect().transforms.get(&hash(1)), Some(Transform::AddInt32(7))));
    assert!(matches!(result.effect().transforms.get(&hash(2)), Some(Transform::Write(Value::Int32(9)))));
    assert!(matches!(result.effect().transforms.get(&hash(3)), Some(Transform::Write(Value::Int32(3)))));
    assert_eq!(result.effect().transforms.len(), 3);
}

#[test]
fn the_cost_of_a_deploy_does_not_wrap() {
    let mut builder = ExecutionResultBuilder::new();
    builder.set_payment_execution_result(ok(vec![], u64::MAX - 1));
    builder.set_session_execution_result(ok(vec![], 5));
    builder.set_finalize_execution_result(ok(vec![], 0));
    assert_eq!(builder.build().unwrap().cost(), u64::MAX);
}

#[test]
fn a_failed_session_is_left_out() {
    let mut builder = ExecutionResultBuilder::new();
    builder.set_payment_execution_result(ok(vec![(hash(1), Op::Add, Transform::AddInt32(1))], 100));
    builder.set_session_execution_result(failed(
        vec![(hash(1), Op::Add, Transform::AddInt32(2)), (hash(3), Op::Write, Transform::Write(Value::Int32(3)))],
        40,
    ));
    builder.set_finalize_execution_result(ok(vec![(hash(1), Op::Add, Transform::AddInt32(4))], 5));
    let result = builder.build().unwrap();
    assert_eq!(result.error(), Some(Error::ExecError(execution::Error::OutOfGas)));
    assert_eq!(result.cost(), 100);
    assert!(matches!(result.effect().transforms.get(&hash(1)), Some(Transform::AddInt32(5))));
    assert!(result.effect().transforms.get(&hash(3)).is_none());
    assert!(result.effect().ops.get(&hash(3)).is_none());
    assert_eq!(result.effect().transforms.len(), 1);
}

#[test]
fn a_failed_payment_is_the_result() {
    let mut builder = ExecutionResultBuilder::new();
    builder.set_payment_execution_result(failed(vec![(hash(1), Op::Add, Transform::AddInt32(1))], 100));
    let result = builder.build().unwrap();
    assert_eq!(result.error(), Some(Error::ExecError(execution::Error::OutOfGas)));
    assert_eq!(result.cost(), 100);
    assert_eq!(result.effect().transforms.len(), 1);
}

#[test]
fn a_failed_finalization_refuses_the_deploy() {
    let mut builder = ExecutionResultBuilder::new();
    builder.set_payment_execution_result(ok(vec![(hash(1), Op::Add, Transform::AddInt32(1))], 100));
    builder.set_session_execution_result(ok(vec![], 40));
    builder.set_finalize_execution_result(failed(vec![], 5));
    let result = builder.build().unwrap();
    assert_eq!(result.error(), Some(Error::FinalizationError));
    assert_eq!(result.cost(), 0);
    assert!(result.effect().transforms.is_empty());
}

#[test]
fn a_write_in_a_later_phase_takes_over_and_mixed_adds_fail() {
    let mut builder = ExecutionResultBuilder::new();
    builder.set_payment_execution_result(ok(
        vec![(hash(1), Op::Add, Transform::AddInt32(1)), (hash(2), Op::Add, Transform::AddInt32(1))],
        1,
    ));
    builder.set_session_execution_result(ok(
        vec![(hash(1), Op::Write, Transform::Write(Value::Int32(8))), (hash(2), Op::Add, Transform::AddUInt64(1))],
        1,
    ));
    builder.set_finalize_execution_result(ok(vec![], 0));
    let result = builder.build().unwrap();
    assert!(matches!(result.effect().transforms.get(&hash(1)), Some(Transform::Write(Value::Int32(8)))));
    match result.effect().transforms.get(&hash(2)) {
        Some(Transform::Failure(e)) => {
            assert_eq!(*e, TypeMismatch::new(TypeName::AddInt32, TypeName::AddUInt64))
        }
        other => panic!("unexpected {:?}", other),
    }
}

fn check(payment: Option<ExecutionResult>, purse: u64, max: u64) -> Option<ExecutionResult> {
    let mut builder = ExecutionResultBuilder::new();
    if let Some(payment) = payment {
        builder.set_payment_execution_result(payment);
    }
    builder.check_forced_transfer(
        max,
        Motes::from_u64(1_000),
        Motes::from_u64(purse),
        Key::URef(URef::new([1u8; 32], AccessRights::read_add_write())),
        hash(2),
    )
}

#[test]
fn a_good_payment_is_not_forced() {
    assert!(check(Some(ok(vec![], 10)), 100, 100).is_none());
    assert!(check(Some(ok(vec![], 10)), 1_000, 100).is_none());
    assert!(check(Some(ok(vec![], 0)), 0, 0).is_none());
    assert!(check(None, 0, 100).is_none());
}

#[test]
fn a_payment_that_is_not_good_is_forced() {
    let source = Key::URef(URef::new([1u8; 32], AccessRights::read_add_write())).normalize();
    for (payment, purse, error) in [
        (failed(vec![(hash(7), Op::Write, Transform::Write(Value::Int32(1)))], 10), 1_000, Error::ExecError(execution::Error::OutOfGas)),
        (ok(vec![(hash(7), Op::Write, Transform::Write(Value::Int32(1)))], 10), 99, Error::InsufficientPaymentError),
        (ok(vec![], 11), 109, Error::InsufficientPaymentError),
    ] {
        let forced = check(Some(payment), purse, 100).unwrap();
        assert_eq!(forced.error(), Some(error));
        assert_eq!(forced.cost(), 100);
        assert_eq!(forced.effect().transforms.len(), 2);
        assert!(forced.effect().transforms.get(&hash(7)).is_none());
        assert!(matches!(
            forced.effect().transforms.get(&hash(2)),
            Some(Transform::AddUInt512(v)) if *v == U512::from_u64(100)
        ));
        assert!(matches!(
            forced.effect().transforms.get(&source),
            Some(Transform::AddUInt512(v)) if v.wrapping_add(&U512::from_u64(100)).is_zero()
        ));
        assert_eq!(forced.effect().ops.get(&source), Some(&Op::Add));
        assert_eq!(forced.effect().ops.get(&hash(2)), Some(&Op::Add));
    }
}

#[test]
fn a_forced_transfer_between_one_purse_and_itself_adds_nothing() {
    let mut builder = ExecutionResultBuilder::new();
    builder.set_payment_execution_result(failed(vec![], 1));
    let forced = builder
        .check_forced_transfer(100, Motes::from_u64(1_000), Motes::zero(), hash(2), hash(2))
        .unwrap();
    assert_eq!(forced.effect().transforms.len(), 1);
    assert!(matches!(
        forced.effect().transforms.get(&hash(2)),
        Some(Transform::AddUInt512(v)) if v.is_zero()
    ));
}

#[test]
fn a_result_says_whether_the_store_failed() {
    let down = ExecutionResult::failure(
        Error::ExecError(execution::Error::Storage),
        ExecutionEffect::empty(),
        3,
    );
    assert!(down.is_store_failure());
    assert!(ExecutionResult::precondition_failure(Error::ExecError(execution::Error::Storage))
        .is_store_failure());
    let other = ExecutionResult::failure(
        Error::ExecError(execution::Error::OutOfGas),
        ExecutionEffect::empty(),
        3,
    );
    assert!(!other.is_store_failure());
    assert!(!ExecutionResult::precondition_failure(Error::AuthorizationError).is_store_failure());
    assert!(!ExecutionResult::success(ExecutionEffect::empty(), 3)
        .is_store_failure());
}
