//! The effects of an execution on the global state: for each key that was touched, the kind
//! of access and the transform.

use crate::engine_state::op::Op;
use crate::shared::transform::{Transform, TransformView};
use crate::types::key::Key;
use crate::types::value::ValueView;
use crate::types::vec_map::{entries_map, lemma_entries_push, Duplicate, VecMap};
use vstd::prelude::*;

verus! {

/// The kinds of access, by key.
pub type OpMap = VecMap<Key, Op>;

/// The transforms, by key.
pub type TransformMap = VecMap<Key, Transform>;

/// `ops` with one more access to `key`.
pub open spec fn record_op(ops: Map<Key, Op>, key: Key, op: Op) -> Map<Key, Op> {
    ops.insert(
        key,
        if ops.contains_key(key) {
            ops[key].join(op)
        } else {
            op
        },
    )
}

/// `fns` with one more transform at `key`, joined to the one that is there.
pub open spec fn record_transform(
    fns: Map<Key, TransformView>,
    key: Key,
    t: TransformView,
    across_phases: bool,
) -> Map<Key, TransformView> {
    fns.insert(
        key,
        if fns.contains_key(key) {
            fns[key].join(t, across_phases)
        } else {
            t
        },
    )
}

/// The accesses of `a` followed by those of `b`.
pub open spec fn merge_ops(a: Map<Key, Op>, b: Map<Key, Op>) -> Map<Key, Op> {
    Map::new(
        |k: Key| a.contains_key(k) || b.contains_key(k),
        |k: Key|
            if a.contains_key(k) && b.contains_key(k) {
                a[k].join(b[k])
            } else if a.contains_key(k) {
                a[k]
            } else {
                b[k]
            },
    )
}

/// The transforms of `a` followed by those of `b`, a later phase of the deploy: where both
/// hold a key, its transforms are joined across phases.
pub open spec fn merge_transforms(
    a: Map<Key, TransformView>,
    b: Map<Key, TransformView>,
) -> Map<Key, TransformView> {
    Map::new(
        |k: Key| a.contains_key(k) || b.contains_key(k),
        |k: Key|
            if a.contains_key(k) && b.contains_key(k) {
                a[k].join(b[k], true)
            } else if a.contains_key(k) {
                a[k]
            } else {
                b[k]
            },
    )
}

/// Whether the transform `t` can be committed at `key` of `state`: a write always can, a
/// failure never, and anything else where the key holds a value that the transform applies
/// to.
pub open spec fn transform_commits(state: Map<Key, ValueView>, key: Key, t: TransformView) -> bool {
    match t {
        TransformView::Write(_) => true,
        TransformView::Failure(_) => false,
        _ => state.contains_key(key) && t.apply(state[key]) is Ok,
    }
}

/// Whether the transforms can be committed to `state`: each of them can.
pub open spec fn commits(state: Map<Key, ValueView>, transforms: Map<Key, TransformView>) -> bool {
    forall|key: Key| #[trigger]
        transforms.contains_key(key) ==> transform_commits(state, key, transforms[key])
}

/// The state that the commit of the transforms to `state` leaves, where they can be
/// committed: under each key of the transforms lies what its transform makes of the value
/// that was there, and every other key is as it was.
pub open spec fn committed(
    state: Map<Key, ValueView>,
    transforms: Map<Key, TransformView>,
) -> Map<Key, ValueView> {
    Map::new(
        |key: Key| state.contains_key(key) || transforms.contains_key(key),
        |key: Key|
            if transforms.contains_key(key) {
                match transforms[key] {
                    TransformView::Write(value) => value,
                    t => t.apply(state[key])->Ok_0,
                }
            } else {
                state[key]
            },
    )
}

/// The commit of no transform leaves the state as it is.
pub proof fn lemma_commit_of_nothing(state: Map<Key, ValueView>)
    ensures
        commits(state, Map::empty()),
        committed(state, Map::empty()) == state,
{
    assert(committed(state, Map::empty()) =~= state);
}

/// The commit of reads leaves the state as it is, too: that a deploy left the state as it
/// was does not show that the deploy was refused.
pub proof fn lemma_commit_of_reads(state: Map<Key, ValueView>, transforms: Map<Key, TransformView>)
    requires
        forall|key: Key| #[trigger]
            transforms.contains_key(key) ==> transforms[key] is Identity && state.contains_key(key),
    ensures
        commits(state, transforms),
        committed(state, transforms) == state,
{
    assert(committed(state, transforms) =~= state);
}

/// Records one more access to `key`.
pub fn add_op(ops: &mut OpMap, key: Key, op: Op)
    ensures
        final(ops)@ == record_op(old(ops)@, key, op),
{
    let joined = match ops.get(&key) {
        Some(earlier) => earlier.join(op),
        None => op,
    };
    ops.insert(key, joined);
}

/// Records one more transform at `key`.
pub fn add_transform(fns: &mut TransformMap, key: Key, t: Transform, across_phases: bool)
    ensures
        final(fns)@ == record_transform(old(fns)@, key, t@, across_phases),
{
    let joined = match fns.get(&key) {
        Some(earlier) => {
            let earlier = earlier.duplicate();
            if across_phases {
                earlier.merge(t)
            } else {
                earlier.combine(t)
            }
        },
        None => t,
    };
    fns.insert(key, joined);
}

/// What an execution effect is, as plain values.
pub struct EffectView {
    pub ops: Map<Key, Op>,
    pub transforms: Map<Key, TransformView>,
}

impl EffectView {
    /// The effect that touches no key.
    pub open spec fn empty() -> EffectView {
        EffectView { ops: Map::empty(), transforms: Map::empty() }
    }

    /// This effect followed by `later`, the effect of a later phase of the deploy.
    pub open spec fn merge(self, later: EffectView) -> EffectView {
        EffectView {
            ops: merge_ops(self.ops, later.ops),
            transforms: merge_transforms(self.transforms, later.transforms),
        }
    }
}

/// The effects of an execution on the global state.
#[derive(Debug)]
pub struct ExecutionEffect {
    pub ops: OpMap,
    pub transforms: TransformMap,
}

impl View for ExecutionEffect {
    type V = EffectView;

    open spec fn view(&self) -> EffectView {
        EffectView { ops: self.ops@, transforms: self.transforms@ }
    }
}

impl ExecutionEffect {
    pub fn new(ops: OpMap, transforms: TransformMap) -> (r: Self)
        ensures
            r@ == (EffectView { ops: ops@, transforms: transforms@ }),
    {
        ExecutionEffect { ops, transforms }
    }

    /// The effect that touches no key.
    pub fn empty() -> (r: Self)
        ensures
            r@ == EffectView::empty(),
    {
        ExecutionEffect { ops: VecMap::new(), transforms: VecMap::new() }
    }

    /// Puts the effect of a later phase of the deploy behind this one.
    pub fn merge(&mut self, later: &ExecutionEffect)
        ensures
            final(self)@ == old(self)@.merge(later@),
    {
        let n_ops = later.ops.len();
        let mut i: usize = 0;
        proof {
            assert(self.ops@ =~= merge_ops(
                old(self).ops@,
                entries_map(later.ops.ids().take(0), later.ops.vals().take(0)),
            ));
        }
        while i < n_ops
            invariant
                i <= n_ops,
                n_ops == later.ops.ids().len(),
                later.ops.wf(),
                self.transforms == old(self).transforms,
                self.ops@ == merge_ops(
                    old(self).ops@,
                    entries_map(later.ops.ids().take(i as int), later.ops.vals().take(i as int)),
                ),
            decreases n_ops - i,
        {
            let key = *later.ops.key_at(i);
            let op = *later.ops.value_at(i);
            proof {
                later.ops.lemma_entries();
                let ids = later.ops.ids().take(i as int);
                let vals = later.ops.vals().take(i as int);
                assert(!ids.contains(key)) by {
                    if ids.contains(key) {
                        let j = ids.index_of(key);
                        assert(later.ops.ids()[j] == later.ops.ids()[i as int]);
                    }
                }
                lemma_entries_push(ids, vals, key, op);
                assert(ids.push(key) =~= later.ops.ids().take(i + 1));
                assert(vals.push(op) =~= later.ops.vals().take(i + 1));
                assert(record_op(merge_ops(old(self).ops@, entries_map(ids, vals)), key, op)
                    =~= merge_ops(old(self).ops@, entries_map(ids, vals).insert(key, op)));
            }
            add_op(&mut self.ops, key, op);
            i += 1;
        }
        proof {
            later.ops.lemma_entries();
            assert(later.ops.ids().take(n_ops as int) =~= later.ops.ids());
            assert(later.ops.vals().take(n_ops as int) =~= later.ops.vals());
        }
        let n = later.transforms.len();
        let mut i: usize = 0;
        proof {
            assert(self.transforms@ =~= merge_transforms(
                old(self).transforms@,
                entries_map(later.transforms.ids().take(0), later.transforms.vals().take(0)),
            ));
        }
        while i < n
            invariant
                i <= n,
                n == later.transforms.ids().len(),
                later.transforms.wf(),
                self.ops@ == merge_ops(old(self).ops@, later.ops@),
                self.transforms@ == merge_transforms(
                    old(self).transforms@,
                    entries_map(
                        later.transforms.ids().take(i as int),
                        later.transforms.vals().take(i as int),
                    ),
                ),
            decreases n - i,
        {
            let key = *later.transforms.key_at(i);
            let t = later.transforms.value_at(i).duplicate();
            proof {
                later.transforms.lemma_entries();
                let ids = later.transforms.ids().take(i as int);
                let vals = later.transforms.vals().take(i as int);
                assert(!ids.contains(key)) by {
                    if ids.contains(key) {
                        let j = ids.index_of(key);
                        assert(later.transforms.ids()[j] == later.transforms.ids()[i as int]);
                    }
                }
                lemma_entries_push(ids, vals, key, t@);
                assert(ids.push(key) =~= later.transforms.ids().take(i + 1));
                assert(vals.push(t@) =~= later.transforms.vals().take(i + 1));
                assert(record_transform(
                    merge_transforms(old(self).transforms@, entries_map(ids, vals)),
                    key,
                    t@,
                    true,
                ) =~= merge_transforms(
                    old(self).transforms@,
                    entries_map(ids, vals).insert(key, t@),
                ));
            }
            add_transform(&mut self.transforms, key, t, true);
            i += 1;
        }
        proof {
            later.transforms.lemma_entries();
            assert(later.transforms.ids().take(n as int) =~= later.transforms.ids());
            assert(later.transforms.vals().take(n as int) =~= later.transforms.vals());
        }
    }
}

impl Duplicate for ExecutionEffect {
    fn duplicate(&self) -> (r: Self) {
        ExecutionEffect { ops: self.ops.duplicate(), transforms: self.transforms.duplicate() }
    }
}

} // verus!
