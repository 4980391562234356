//! Transforms: what a deploy does to the value under a key, in a form that can be merged
//! with what other deploys do to it.

use crate::types::account::NamedKeys;
use crate::types::key::Key;
use crate::types::uint::{radix_pow, lemma_radix_pow_positive, U256, U512};
use crate::types::value::{TypeMismatch, TypeName, Value, ValueView};
use crate::types::vec_map::Duplicate;
use vstd::arithmetic::div_mod::lemma_add_mod_noop_right;
use vstd::prelude::*;

verus! {

/// What is done to the value under a key.
#[derive(Debug)]
pub enum Transform {
    /// The value was read.
    Identity,
    /// The value is replaced.
    Write(Value),
    AddInt32(i32),
    AddUInt64(u64),
    AddUInt128(u128),
    AddUInt256(U256),
    AddUInt512(U512),
    /// Names are added to those that an account or a contract knows.
    AddKeys(NamedKeys),
    /// Transforms were put together that do not go together.
    Failure(TypeMismatch),
}

/// What a transform is, as plain values.
pub enum TransformView {
    Identity,
    Write(ValueView),
    AddInt32(i32),
    AddUInt64(u64),
    AddUInt128(u128),
    AddUInt256(nat),
    AddUInt512(nat),
    AddKeys(Map<Seq<char>, Key>),
    Failure(TypeMismatch),
}

impl View for Transform {
    type V = TransformView;

    open spec fn view(&self) -> TransformView {
        match self {
            Transform::Identity => TransformView::Identity,
            Transform::Write(v) => TransformView::Write(v@),
            Transform::AddInt32(i) => TransformView::AddInt32(*i),
            Transform::AddUInt64(i) => TransformView::AddUInt64(*i),
            Transform::AddUInt128(i) => TransformView::AddUInt128(*i),
            Transform::AddUInt256(i) => TransformView::AddUInt256(i@),
            Transform::AddUInt512(i) => TransformView::AddUInt512(i@),
            Transform::AddKeys(keys) => TransformView::AddKeys(keys@),
            Transform::Failure(e) => TransformView::Failure(*e),
        }
    }
}

impl TransformView {
    /// The name of the transform's kind, as a type mismatch reports it.
    pub open spec fn kind(self) -> TypeName {
        match self {
            TransformView::Identity => TypeName::Write,
            TransformView::Write(_) => TypeName::Write,
            TransformView::AddInt32(_) => TypeName::AddInt32,
            TransformView::AddUInt64(_) => TypeName::AddUInt64,
            TransformView::AddUInt128(_) => TypeName::AddUInt128,
            TransformView::AddUInt256(_) => TypeName::AddUInt256,
            TransformView::AddUInt512(_) => TypeName::AddUInt512,
            TransformView::AddKeys(_) => TypeName::AddKeys,
            TransformView::Failure(e) => e.found,
        }
    }

    /// Whether the transform adds a number.
    pub open spec fn is_numeric_add(self) -> bool {
        self is AddInt32 || self is AddUInt64 || self is AddUInt128 || self is AddUInt256
            || self is AddUInt512
    }

    /// The value that the transform makes of `v`. Numbers are added modulo the width of
    /// their kind; a number is added only to a number of its own kind, and names only to an
    /// account or a contract.
    pub open spec fn apply(self, v: ValueView) -> Result<ValueView, TypeMismatch> {
        match self {
            TransformView::Identity => Ok(v),
            TransformView::Write(w) => Ok(w),
            TransformView::AddInt32(i) => match v {
                ValueView::Int32(j) => Ok(ValueView::Int32(j.wrapping_add(i))),
                _ => Err(TypeMismatch { expected: TypeName::Int32, found: v.type_tag() }),
            },
            TransformView::AddUInt64(i) => match v {
                ValueView::UInt64(j) => Ok(ValueView::UInt64(j.wrapping_add(i))),
                _ => Err(TypeMismatch { expected: TypeName::UInt64, found: v.type_tag() }),
            },
            TransformView::AddUInt128(i) => match v {
                ValueView::UInt128(j) => Ok(ValueView::UInt128(j.wrapping_add(i))),
                _ => Err(TypeMismatch { expected: TypeName::UInt128, found: v.type_tag() }),
            },
            TransformView::AddUInt256(i) => match v {
                ValueView::UInt256(j) => Ok(ValueView::UInt256((j + i) % radix_pow(4))),
                _ => Err(TypeMismatch { expected: TypeName::UInt256, found: v.type_tag() }),
            },
            TransformView::AddUInt512(i) => match v {
                ValueView::UInt512(j) => Ok(ValueView::UInt512((j + i) % radix_pow(8))),
                _ => Err(TypeMismatch { expected: TypeName::UInt512, found: v.type_tag() }),
            },
            TransformView::AddKeys(keys) => match v {
                ValueView::Account(account) => Ok(
                    ValueView::Account(
                        crate::types::account::AccountView {
                            named_keys: account.named_keys.union_prefer_right(keys),
                            ..account
                        },
                    ),
                ),
                ValueView::Contract(contract) => Ok(
                    ValueView::Contract(
                        crate::types::contract::ContractView {
                            named_keys: contract.named_keys.union_prefer_right(keys),
                            ..contract
                        },
                    ),
                ),
                _ => Err(
                    TypeMismatch { expected: TypeName::AccountOrContract, found: v.type_tag() },
                ),
            },
            TransformView::Failure(e) => Err(e),
        }
    }

    /// The one transform that stands for `self` followed by `later` at the same key.
    ///
    /// A read changes nothing, and a failure stays. A later write replaces an earlier one.
    /// Adds of one kind add up; named keys are merged, the later binding standing. Two adds
    /// of different kinds fail.
    ///
    /// A write and an add at one key do not go together within one tracking copy
    /// (`across_phases` false): they fail. Across the phases of a deploy (`across_phases`
    /// true) a later write replaces earlier adds, and a later add is applied to the value
    /// written earlier.
    pub open spec fn join(self, later: TransformView, across_phases: bool) -> TransformView {
        match (self, later) {
            (a, TransformView::Identity) => a,
            (TransformView::Identity, b) => b,
            (TransformView::Failure(e), _) => TransformView::Failure(e),
            (_, TransformView::Failure(e)) => TransformView::Failure(e),
            (TransformView::Write(_), TransformView::Write(w)) => TransformView::Write(w),
            (TransformView::Write(v), b) => if across_phases {
                match b.apply(v) {
                    Ok(x) => TransformView::Write(x),
                    Err(e) => TransformView::Failure(e),
                }
            } else {
                TransformView::Failure(TypeMismatch { expected: TypeName::Write, found: b.kind() })
            },
            (a, TransformView::Write(w)) => if across_phases {
                TransformView::Write(w)
            } else {
                TransformView::Failure(TypeMismatch { expected: a.kind(), found: TypeName::Write })
            },
            (TransformView::AddInt32(i), TransformView::AddInt32(j)) => TransformView::AddInt32(
                i.wrapping_add(j),
            ),
            (TransformView::AddUInt64(i), TransformView::AddUInt64(j)) => TransformView::AddUInt64(
                i.wrapping_add(j),
            ),
            (
                TransformView::AddUInt128(i),
                TransformView::AddUInt128(j),
            ) => TransformView::AddUInt128(i.wrapping_add(j)),
            (
                TransformView::AddUInt256(i),
                TransformView::AddUInt256(j),
            ) => TransformView::AddUInt256((i + j) % radix_pow(4)),
            (
                TransformView::AddUInt512(i),
                TransformView::AddUInt512(j),
            ) => TransformView::AddUInt512((i + j) % radix_pow(8)),
            (TransformView::AddKeys(a), TransformView::AddKeys(b)) => TransformView::AddKeys(
                a.union_prefer_right(b),
            ),
            (a, b) => TransformView::Failure(TypeMismatch { expected: a.kind(), found: b.kind() }),
        }
    }
}

impl Transform {
    /// The name of the transform's kind.
    pub fn kind(&self) -> (r: TypeName)
        ensures
            r == self@.kind(),
    {
        match self {
            Transform::Identity => TypeName::Write,
            Transform::Write(_) => TypeName::Write,
            Transform::AddInt32(_) => TypeName::AddInt32,
            Transform::AddUInt64(_) => TypeName::AddUInt64,
            Transform::AddUInt128(_) => TypeName::AddUInt128,
            Transform::AddUInt256(_) => TypeName::AddUInt256,
            Transform::AddUInt512(_) => TypeName::AddUInt512,
            Transform::AddKeys(_) => TypeName::AddKeys,
            Transform::Failure(e) => e.found,
        }
    }

    /// The value that the transform makes of `value`.
    pub fn apply(self, value: Value) -> (r: Result<Value, TypeMismatch>)
        ensures
            match r {
                Ok(v) => self@.apply(value@) == Ok::<ValueView, TypeMismatch>(v@),
                Err(e) => self@.apply(value@) == Err::<ValueView, TypeMismatch>(e),
            },
    {
        match self {
            Transform::Identity => Ok(value),
            Transform::Write(w) => Ok(w),
            Transform::AddInt32(i) => match value {
                Value::Int32(j) => Ok(Value::Int32(j.wrapping_add(i))),
                other => Err(TypeMismatch::new(TypeName::Int32, other.type_tag())),
            },
            Transform::AddUInt64(i) => match value {
                Value::UInt64(j) => Ok(Value::UInt64(j.wrapping_add(i))),
                other => Err(TypeMismatch::new(TypeName::UInt64, other.type_tag())),
            },
            Transform::AddUInt128(i) => match value {
                Value::UInt128(j) => Ok(Value::UInt128(j.wrapping_add(i))),
                other => Err(TypeMismatch::new(TypeName::UInt128, other.type_tag())),
            },
            Transform::AddUInt256(i) => match value {
                Value::UInt256(j) => Ok(Value::UInt256(j.wrapping_add(&i))),
                other => Err(TypeMismatch::new(TypeName::UInt256, other.type_tag())),
            },
            Transform::AddUInt512(i) => match value {
                Value::UInt512(j) => Ok(Value::UInt512(j.wrapping_add(&i))),
                other => Err(TypeMismatch::new(TypeName::UInt512, other.type_tag())),
            },
            Transform::AddKeys(keys) => match value {
                Value::Account(mut account) => {
                    account.insert_urefs(&keys);
                    Ok(Value::Account(account))
                },
                Value::Contract(mut contract) => {
                    contract.insert_urefs(&keys);
                    Ok(Value::Contract(contract))
                },
                other => Err(TypeMismatch::new(TypeName::AccountOrContract, other.type_tag())),
            },
            Transform::Failure(e) => Err(e),
        }
    }

    /// The one transform that stands for `self` followed by `later` at the same key.
    fn join(self, later: Transform, across_phases: bool) -> (r: Transform)
        ensures
            r@ == self@.join(later@, across_phases),
    {
        match (self, later) {
            (a, Transform::Identity) => a,
            (Transform::Identity, b) => b,
            (Transform::Failure(e), _) => Transform::Failure(e),
            (_, Transform::Failure(e)) => Transform::Failure(e),
            (Transform::Write(_), Transform::Write(w)) => Transform::Write(w),
            (Transform::Write(v), b) => {
                if across_phases {
                    match b.apply(v) {
                        Ok(x) => Transform::Write(x),
                        Err(e) => Transform::Failure(e),
                    }
                } else {
                    Transform::Failure(TypeMismatch::new(TypeName::Write, b.kind()))
                }
            },
            (a, Transform::Write(w)) => {
                if across_phases {
                    Transform::Write(w)
                } else {
                    Transform::Failure(TypeMismatch::new(a.kind(), TypeName::Write))
                }
            },
            (Transform::AddInt32(i), Transform::AddInt32(j)) => Transform::AddInt32(
                i.wrapping_add(j),
            ),
            (Transform::AddUInt64(i), Transform::AddUInt64(j)) => Transform::AddUInt64(
                i.wrapping_add(j),
            ),
            (Transform::AddUInt128(i), Transform::AddUInt128(j)) => Transform::AddUInt128(
                i.wrapping_add(j),
            ),
            (Transform::AddUInt256(i), Transform::AddUInt256(j)) => Transform::AddUInt256(
                i.wrapping_add(&j),
            ),
            (Transform::AddUInt512(i), Transform::AddUInt512(j)) => Transform::AddUInt512(
                i.wrapping_add(&j),
            ),
            (Transform::AddKeys(mut a), Transform::AddKeys(b)) => {
                a.extend_from(&b);
                Transform::AddKeys(a)
            },
            (a, b) => Transform::Failure(TypeMismatch::new(a.kind(), b.kind())),
        }
    }

    /// `self` followed by `later` within one tracking copy, where a write and an add at one
    /// key fail.
    pub fn combine(self, later: Transform) -> (r: Transform)
        ensures
            r@ == self@.join(later@, false),
    {
        self.join(later, false)
    }

    /// `self` followed by `later`, a transform of a later phase of the deploy.
    pub fn merge(self, later: Transform) -> (r: Transform)
        ensures
            r@ == self@.join(later@, true),
    {
        self.join(later, true)
    }
}

impl Duplicate for Transform {
    fn duplicate(&self) -> (r: Self) {
        match self {
            Transform::Identity => Transform::Identity,
            Transform::Write(v) => Transform::Write(v.duplicate()),
            Transform::AddInt32(i) => Transform::AddInt32(*i),
            Transform::AddUInt64(i) => Transform::AddUInt64(*i),
            Transform::AddUInt128(i) => Transform::AddUInt128(*i),
            Transform::AddUInt256(i) => Transform::AddUInt256(*i),
            Transform::AddUInt512(i) => Transform::AddUInt512(*i),
            Transform::AddKeys(keys) => Transform::AddKeys(keys.duplicate()),
            Transform::Failure(e) => Transform::Failure(*e),
        }
    }
}

/// Adding in two steps modulo `m` is adding the sum modulo `m`.
pub proof fn lemma_mod_add_chain(v: nat, i: nat, j: nat, m: nat)
    requires
        m > 0,
    ensures
        (((v + i) % m) + j) % m == (v + i + j) % m,
        (v + ((i + j) % m)) % m == (v + i + j) % m,
{
    lemma_add_mod_noop_right(j as int, (v + i) as int, m as int);
    lemma_add_mod_noop_right(v as int, (i + j) as int, m as int);
}

/// The value that the numeric add `t` makes of `value`; `None` where there is no value,
/// where `t` does not apply to it, or where `t` is no numeric add.
pub open spec fn add_step(value: Option<ValueView>, t: TransformView) -> Option<ValueView> {
    match value {
        Some(v) => if t.is_numeric_add() {
            match t.apply(v) {
                Ok(x) => Some(x),
                Err(_) => None,
            }
        } else {
            None
        },
        None => None,
    }
}

/// The value that the numeric adds of `adds`, applied to `value` from first to last, leave;
/// `None` where one of them does not apply or is no numeric add.
pub open spec fn apply_adds(value: ValueView, adds: Seq<TransformView>) -> Option<ValueView> {
    adds.fold_left(Some(value), |acc: Option<ValueView>, t: TransformView| add_step(acc, t))
}

/// Two numeric adds can change places.
pub proof fn lemma_add_steps_commute(value: Option<ValueView>, x: TransformView, y: TransformView)
    ensures
        add_step(add_step(value, x), y) == add_step(add_step(value, y), x),
{
    lemma_radix_pow_positive(4);
    lemma_radix_pow_positive(8);
    match (value, x, y) {
        (
            Some(ValueView::UInt256(v)),
            TransformView::AddUInt256(i),
            TransformView::AddUInt256(j),
        ) => {
            lemma_mod_add_chain(v, i, j, radix_pow(4));
            lemma_mod_add_chain(v, j, i, radix_pow(4));
        },
        (
            Some(ValueView::UInt512(v)),
            TransformView::AddUInt512(i),
            TransformView::AddUInt512(j),
        ) => {
            lemma_mod_add_chain(v, i, j, radix_pow(8));
            lemma_mod_add_chain(v, j, i, radix_pow(8));
        },
        _ => {},
    }
}

/// Numeric adds at one key commute: applied to a value in any order, they leave the same
/// value, and where they fail in one order they fail in every order.
pub proof fn lemma_adds_commute(
    value: ValueView,
    adds: Seq<TransformView>,
    permuted: Seq<TransformView>,
)
    requires
        adds.to_multiset() == permuted.to_multiset(),
    ensures
        apply_adds(value, adds) == apply_adds(value, permuted),
{
    let f = |acc: Option<ValueView>, t: TransformView| add_step(acc, t);
    assert(vstd::seq_lib::commutative_foldl(f)) by {
        assert forall|x: TransformView, y: TransformView, v: Option<ValueView>| #[trigger]
            f(f(v, x), y) == f(f(v, y), x) by {
            lemma_add_steps_commute(v, x, y);
        }
    }
    vstd::seq_lib::lemma_fold_left_permutation(adds, permuted, f, Some(value));
}

/// Within one tracking copy a key never has both a write and an add: whichever comes
/// second, the two together are a failure.
pub proof fn lemma_write_and_add_do_not_mix(value: ValueView, add: TransformView)
    requires
        add.is_numeric_add() || add is AddKeys,
    ensures
        TransformView::Write(value).join(add, false) is Failure,
        add.join(TransformView::Write(value), false) is Failure,
{
}

/// A merged transform does what its two parts do in turn: where the first applies to a
/// value, the merged one gives what the second makes of the first's result, and fails
/// where the second fails on it.
pub proof fn lemma_merge_is_sequence(first: TransformView, second: TransformView, value: ValueView)
    requires
        first.apply(value) is Ok,
    ensures
        first.join(second, true).apply(value) is Ok <==> second.apply(
            first.apply(value)->Ok_0,
        ) is Ok,
        first.join(second, true).apply(value) is Ok ==> first.join(second, true).apply(value)
            == second.apply(first.apply(value)->Ok_0),
{
    lemma_radix_pow_positive(4);
    lemma_radix_pow_positive(8);
    match (first, second, value) {
        (
            TransformView::AddUInt256(i),
            TransformView::AddUInt256(j),
            ValueView::UInt256(v),
        ) => {
            lemma_mod_add_chain(v, i, j, radix_pow(4));
        },
        (
            TransformView::AddUInt512(i),
            TransformView::AddUInt512(j),
            ValueView::UInt512(v),
        ) => {
            lemma_mod_add_chain(v, i, j, radix_pow(8));
        },
        (TransformView::AddKeys(a), TransformView::AddKeys(b), ValueView::Account(account)) => {
            assert(account.named_keys.union_prefer_right(a).union_prefer_right(b)
                =~= account.named_keys.union_prefer_right(a.union_prefer_right(b)));
        },
        (TransformView::AddKeys(a), TransformView::AddKeys(b), ValueView::Contract(contract)) => {
            assert(contract.named_keys.union_prefer_right(a).union_prefer_right(b)
                =~= contract.named_keys.union_prefer_right(a.union_prefer_right(b)));
        },
        _ => {},
    }
}

/// What a tracking copy accepts at one key is what its parts do in turn: where the combined
/// transform applies to a value, so do the two in turn, with the same result.
pub proof fn lemma_combine_is_sequence(
    first: TransformView,
    second: TransformView,
    value: ValueView,
)
    requires
        first.join(second, false).apply(value) is Ok,
    ensures
        first.apply(value) is Ok,
        second.apply(first.apply(value)->Ok_0) == first.join(second, false).apply(value),
{
    lemma_radix_pow_positive(4);
    lemma_radix_pow_positive(8);
    match (first, second, value) {
        (
            TransformView::AddUInt256(i),
            TransformView::AddUInt256(j),
            ValueView::UInt256(v),
        ) => {
            lemma_mod_add_chain(v, i, j, radix_pow(4));
        },
        (
            TransformView::AddUInt512(i),
            TransformView::AddUInt512(j),
            ValueView::UInt512(v),
        ) => {
            lemma_mod_add_chain(v, i, j, radix_pow(8));
        },
        (TransformView::AddKeys(a), TransformView::AddKeys(b), ValueView::Account(account)) => {
            assert(account.named_keys.union_prefer_right(a).union_prefer_right(b)
                =~= account.named_keys.union_prefer_right(a.union_prefer_right(b)));
        },
        (TransformView::AddKeys(a), TransformView::AddKeys(b), ValueView::Contract(contract)) => {
            assert(contract.named_keys.union_prefer_right(a).union_prefer_right(b)
                =~= contract.named_keys.union_prefer_right(a.union_prefer_right(b)));
        },
        _ => {},
    }
}

} // verus!
