//! A map held as a list of entries, no key twice, in the order in which the keys came.

use vstd::prelude::*;

verus! {

/// A value that can be copied so that the copy stands for the same thing.
pub trait Duplicate: View + Sized {
    fn duplicate(&self) -> (r: Self)
        ensures
            r@ == self@,
    ;
}

/// A value that can serve as a key: two keys are the same when they stand for the same thing.
pub trait KeyEq: Duplicate {
    fn key_eq(&self, other: &Self) -> (r: bool)
        ensures
            r == (self@ == other@),
    ;
}

/// The views of the items of `s`.
pub open spec fn views<T: View>(s: Seq<T>) -> Seq<T::V> {
    Seq::new(s.len(), |i: int| s[i]@)
}

/// The map that the two lists of equal length stand for: `ids[i]` is bound to `vals[i]`.
pub open spec fn entries_map<A, B>(ids: Seq<A>, vals: Seq<B>) -> Map<A, B> {
    Map::new(|id: A| ids.contains(id), |id: A| vals[ids.index_of(id)])
}

/// In a list without duplicates, each item is found at its own index.
pub proof fn lemma_index_of<A>(ids: Seq<A>, i: int)
    requires
        ids.no_duplicates(),
        0 <= i < ids.len(),
    ensures
        ids.contains(ids[i]),
        ids.index_of(ids[i]) == i,
{
    let j = ids.index_of(ids[i]);
    assert(ids[i] == ids[i]);
    assert(0 <= j < ids.len() && ids[j] == ids[i]);
}

/// Appending an entry with a new key binds that key and leaves the others.
pub proof fn lemma_entries_push<A, B>(ids: Seq<A>, vals: Seq<B>, id: A, val: B)
    requires
        ids.no_duplicates(),
        ids.len() == vals.len(),
        !ids.contains(id),
    ensures
        ids.push(id).no_duplicates(),
        entries_map(ids.push(id), vals.push(val)) == entries_map(ids, vals).insert(id, val),
{
    let ids2 = ids.push(id);
    let vals2 = vals.push(val);
    assert forall|i: int, j: int| 0 <= i < ids2.len() && 0 <= j < ids2.len() && i != j implies ids2[i]
        != ids2[j] by {
        if i < ids.len() {
            assert(ids.contains(ids[i]));
        }
        if j < ids.len() {
            assert(ids.contains(ids[j]));
        }
    }
    assert forall|k: A| #[trigger] ids2.contains(k) <==> (ids.contains(k) || k == id) by {
        if ids.contains(k) {
            let i = ids.index_of(k);
            assert(ids2[i] == k);
        }
        if k == id {
            assert(ids2[ids.len() as int] == k);
        }
    }
    assert forall|k: A| ids2.contains(k) implies #[trigger] entries_map(ids2, vals2)[k]
        == entries_map(ids, vals).insert(id, val)[k] by {
        let i = ids2.index_of(k);
        lemma_index_of(ids2, i);
        if k != id {
            let j = ids.index_of(k);
            assert(ids2[j] == k);
            lemma_index_of(ids2, j);
        } else {
            lemma_index_of(ids2, ids.len() as int);
        }
    }
    assert(entries_map(ids2, vals2) =~= entries_map(ids, vals).insert(id, val));
}

/// Replacing the value at index `i` rebinds the key at `i` and leaves the others.
pub proof fn lemma_entries_update<A, B>(ids: Seq<A>, vals: Seq<B>, i: int, val: B)
    requires
        ids.no_duplicates(),
        ids.len() == vals.len(),
        0 <= i < ids.len(),
    ensures
        entries_map(ids, vals.update(i, val)) == entries_map(ids, vals).insert(ids[i], val),
{
    lemma_index_of(ids, i);
    assert forall|k: A| ids.contains(k) implies #[trigger] entries_map(ids, vals.update(i, val))[k]
        == entries_map(ids, vals).insert(ids[i], val)[k] by {
        let j = ids.index_of(k);
        lemma_index_of(ids, j);
    }
    assert(entries_map(ids, vals.update(i, val)) =~= entries_map(ids, vals).insert(ids[i], val));
}

/// A finite map from keys to values.
#[derive(Debug)]
pub struct VecMap<K: View, V: View> {
    keys: Vec<K>,
    values: Vec<V>,
}

impl<K: View, V: View> View for VecMap<K, V> {
    type V = Map<K::V, V::V>;

    open spec fn view(&self) -> Map<K::V, V::V> {
        entries_map(self.ids(), self.vals())
    }
}

impl<K: View, V: View> VecMap<K, V> {
    #[verifier::type_invariant]
    spec fn inv(self) -> bool {
        &&& self.keys.len() == self.values.len()
        &&& views(self.keys@).no_duplicates()
    }

    /// The keys, in the order of the entries.
    pub closed spec fn ids(&self) -> Seq<K::V> {
        views(self.keys@)
    }

    /// The values, in the order of the entries.
    pub closed spec fn vals(&self) -> Seq<V::V> {
        views(self.values@)
    }

    /// What every map of this type meets: no key occurs twice, and each key has its value.
    pub closed spec fn wf(&self) -> bool {
        self.inv()
    }

    /// What holds of the entries of every map.
    pub proof fn lemma_entries(&self)
        requires
            self.wf(),
        ensures
            self.ids().no_duplicates(),
            self.ids().len() == self.vals().len(),
            self@.dom().finite(),
            self@.dom() == self.ids().to_set(),
            self@.len() == self.ids().len(),
            forall|i: int|
                0 <= i < self.ids().len() ==> self@.contains_key(#[trigger] self.ids()[i])
                    && self@[self.ids()[i]] == self.vals()[i],
            forall|k: K::V| #[trigger]
                self@.contains_key(k) ==> 0 <= self.ids().index_of(k) < self.ids().len()
                    && self.ids()[self.ids().index_of(k)] == k,
    {
        let ids = self.ids();
        assert forall|i: int| 0 <= i < ids.len() implies self@.contains_key(#[trigger] ids[i])
            && self@[ids[i]] == self.vals()[i] by {
            lemma_index_of(ids, i);
        }
        assert(self@.dom() =~= ids.to_set());
        vstd::seq_lib::seq_to_set_is_finite(ids);
        ids.unique_seq_to_set();
    }

    pub fn new() -> (r: Self)
        ensures
            r.wf(),
            r@ == Map::<K::V, V::V>::empty(),
            r.ids() == Seq::<K::V>::empty(),
    {
        let r = VecMap { keys: Vec::new(), values: Vec::new() };
        assert(r.ids() =~= Seq::<K::V>::empty());
        assert(r@ =~= Map::<K::V, V::V>::empty());
        r
    }

    /// The number of entries.
    pub fn len(&self) -> (r: usize)
        ensures
            self.wf(),
            r == self.ids().len(),
            r == self@.len(),
    {
        proof {
            use_type_invariant(self);
            self.lemma_entries();
        }
        self.keys.len()
    }

    pub fn is_empty(&self) -> (r: bool)
        ensures
            r == (self@ == Map::<K::V, V::V>::empty()),
            self.wf(),
    {
        proof {
            use_type_invariant(self);
            self.lemma_entries();
            if self.ids().len() == 0 {
                assert(self@ =~= Map::<K::V, V::V>::empty());
            } else {
                assert(self@.contains_key(self.ids()[0]));
            }
        }
        self.keys.len() == 0
    }

    /// The key of entry `i`.
    pub fn key_at(&self, i: usize) -> (r: &K)
        requires
            i < self.ids().len(),
        ensures
            r@ == self.ids()[i as int],
    {
        &self.keys[i]
    }

    /// The value of entry `i`.
    pub fn value_at(&self, i: usize) -> (r: &V)
        requires
            i < self.ids().len(),
        ensures
            r@ == self.vals()[i as int],
    {
        proof {
            use_type_invariant(self);
        }
        &self.values[i]
    }
}

impl<K: KeyEq, V: View> VecMap<K, V> {
    /// The index of the entry with key `key`.
    pub fn position(&self, key: &K) -> (r: Option<usize>)
        ensures
            match r {
                Some(i) => i < self.ids().len() && self.ids()[i as int] == key@,
                None => !self.ids().contains(key@),
            },
            r.is_some() == self@.contains_key(key@),
            self.wf(),
    {
        proof {
            use_type_invariant(self);
        }
        let mut i: usize = 0;
        while i < self.keys.len()
            invariant
                self.wf(),
                i <= self.keys.len(),
                forall|j: int| 0 <= j < i ==> self.ids()[j] != key@,
            decreases self.keys.len() - i,
        {
            if self.keys[i].key_eq(key) {
                assert(self.ids()[i as int] == key@);
                return Some(i);
            }
            i += 1;
        }
        None
    }

    pub fn contains_key(&self, key: &K) -> (r: bool)
        ensures
            r == self@.contains_key(key@),
    {
        self.position(key).is_some()
    }

    /// The value bound to `key`.
    pub fn get(&self, key: &K) -> (r: Option<&V>)
        ensures
            match r {
                Some(v) => self@.contains_key(key@) && v@ == self@[key@],
                None => !self@.contains_key(key@),
            },
            self.wf(),
    {
        match self.position(key) {
            Some(i) => {
                proof {
                    self.lemma_entries();
                }
                Some(self.value_at(i))
            },
            None => None,
        }
    }

    /// Binds `key` to `value`. A key that is bound already keeps its place in the order.
    pub fn insert(&mut self, key: K, value: V)
        ensures
            final(self)@ == old(self)@.insert(key@, value@),
            old(self)@.contains_key(key@) ==> final(self).ids() == old(self).ids(),
            !old(self)@.contains_key(key@) ==> final(self).ids() == old(self).ids().push(key@),
            final(self).wf(),
    {
        let found = self.position(&key);
        let mut taken = VecMap { keys: Vec::new(), values: Vec::new() };
        assert(views(taken.keys@) =~= Seq::<K::V>::empty());
        core::mem::swap(self, &mut taken);
        proof {
            use_type_invariant(&taken);
        }
        let ghost ids = taken.ids();
        let ghost vals = taken.vals();
        let VecMap { mut keys, mut values } = taken;
        match found {
            Some(i) => {
                proof {
                    lemma_entries_update(ids, vals, i as int, value@);
                }
                values.set(i, value);
                assert(views(values@) =~= vals.update(i as int, value@));
            },
            None => {
                proof {
                    lemma_entries_push(ids, vals, key@, value@);
                }
                keys.push(key);
                values.push(value);
                assert(views(keys@) =~= ids.push(key@));
                assert(views(values@) =~= vals.push(value@));
            },
        }
        *self = VecMap { keys, values };
    }
}

impl<K: KeyEq, V: Duplicate> VecMap<K, V> {
    /// Adds the entries of `other`. Where both bind a key, the value of `other` stands.
    pub fn extend_from(&mut self, other: &VecMap<K, V>)
        ensures
            final(self)@ == old(self)@.union_prefer_right(other@),
            final(self).wf(),
    {
        let n = other.len();
        let mut i: usize = 0;
        proof {
            use_type_invariant(&*self);
            other.lemma_entries();
            assert(entries_map(other.ids().take(0), other.vals().take(0)) =~= Map::<
                K::V,
                V::V,
            >::empty());
            assert(self@ =~= self@.union_prefer_right(Map::<K::V, V::V>::empty()));
        }
        while i < n
            invariant
                i <= n,
                n == other.ids().len(),
                other.wf(),
                self.wf(),
                self@ == old(self)@.union_prefer_right(
                    entries_map(other.ids().take(i as int), other.vals().take(i as int)),
                ),
            decreases n - i,
        {
            let key = other.key_at(i).duplicate();
            let value = other.value_at(i).duplicate();
            proof {
                other.lemma_entries();
                let ids = other.ids().take(i as int);
                let vals = other.vals().take(i as int);
                assert(ids.no_duplicates());
                assert(!ids.contains(key@)) by {
                    if ids.contains(key@) {
                        let j = ids.index_of(key@);
                        assert(other.ids()[j] == other.ids()[i as int]);
                    }
                }
                lemma_entries_push(ids, vals, key@, value@);
                assert(ids.push(key@) =~= other.ids().take(i + 1));
                assert(vals.push(value@) =~= other.vals().take(i + 1));
                assert(old(self)@.union_prefer_right(entries_map(ids, vals)).insert(key@, value@)
                    =~= old(self)@.union_prefer_right(entries_map(ids, vals).insert(key@, value@)));
            }
            self.insert(key, value);
            i += 1;
        }
        proof {
            assert(other.ids().take(n as int) =~= other.ids());
            assert(other.vals().take(n as int) =~= other.vals());
        }
    }
}

impl<K: KeyEq, V: Duplicate> Duplicate for VecMap<K, V> {
    fn duplicate(&self) -> (r: Self)
        ensures
            r.ids() == self.ids(),
            r.wf(),
    {
        proof {
            use_type_invariant(self);
        }
        let mut keys: Vec<K> = Vec::new();
        let mut values: Vec<V> = Vec::new();
        let mut i: usize = 0;
        while i < self.keys.len()
            invariant
                i <= self.keys.len(),
                self.keys.len() == self.values.len(),
                keys.len() == i,
                values.len() == i,
                forall|j: int| 0 <= j < i ==> keys@[j]@ == self.keys@[j]@,
                forall|j: int| 0 <= j < i ==> values@[j]@ == self.values@[j]@,
            decreases self.keys.len() - i,
        {
            keys.push(self.keys[i].duplicate());
            values.push(self.values[i].duplicate());
            i += 1;
        }
        assert(views(keys@) =~= views(self.keys@));
        assert(views(values@) =~= views(self.values@));
        VecMap { keys, values }
    }
}

impl Duplicate for () {
    fn duplicate(&self) -> (r: Self) {
        ()
    }
}

/// A finite set, held as a list of its members in the order in which they came.
#[derive(Debug)]
pub struct VecSet<K: View> {
    members: VecMap<K, ()>,
}

impl<K: View> View for VecSet<K> {
    type V = Set<K::V>;

    closed spec fn view(&self) -> Set<K::V> {
        self.members@.dom()
    }
}

impl<K: View> VecSet<K> {
    /// The members, in the order in which they came.
    pub closed spec fn ids(&self) -> Seq<K::V> {
        self.members.ids()
    }

    /// What every set of this type meets: no member occurs twice.
    pub closed spec fn wf(&self) -> bool {
        self.members.wf()
    }

    /// What holds of the members of every set.
    pub proof fn lemma_members(&self)
        requires
            self.wf(),
        ensures
            self.ids().no_duplicates(),
            self@.finite(),
            self@ == self.ids().to_set(),
            self@.len() == self.ids().len(),
    {
        self.members.lemma_entries();
    }

    pub fn new() -> (r: Self)
        ensures
            r@ == Set::<K::V>::empty(),
            r.ids() == Seq::<K::V>::empty(),
            r.wf(),
    {
        let r = VecSet { members: VecMap::new() };
        assert(r@ =~= Set::<K::V>::empty());
        r
    }

    /// The number of members.
    pub fn len(&self) -> (r: usize)
        ensures
            r == self.ids().len(),
            r == self@.len(),
            self.wf(),
    {
        self.members.len()
    }

    pub fn is_empty(&self) -> (r: bool)
        ensures
            r == (self@ == Set::<K::V>::empty()),
            r == (self.ids().len() == 0),
            self.wf(),
    {
        let n = self.members.len();
        proof {
            self.members.lemma_entries();
            if n == 0 {
                assert(self@ =~= Set::<K::V>::empty());
            } else {
                assert(self@.contains(self.ids()[0]));
            }
        }
        n == 0
    }

    /// Member `i`.
    pub fn member_at(&self, i: usize) -> (r: &K)
        requires
            i < self.ids().len(),
        ensures
            r@ == self.ids()[i as int],
    {
        self.members.key_at(i)
    }
}

impl<K: KeyEq> VecSet<K> {
    pub fn contains(&self, key: &K) -> (r: bool)
        ensures
            r == self@.contains(key@),
    {
        self.members.contains_key(key)
    }

    pub fn insert(&mut self, key: K)
        ensures
            final(self)@ == old(self)@.insert(key@),
            old(self)@.contains(key@) ==> final(self).ids() == old(self).ids(),
            !old(self)@.contains(key@) ==> final(self).ids() == old(self).ids().push(key@),
            final(self).wf(),
    {
        let ghost k = key@;
        self.members.insert(key, ());
        assert(self@ =~= old(self)@.insert(k));
    }
}

impl<K: KeyEq> Duplicate for VecSet<K> {
    fn duplicate(&self) -> (r: Self)
        ensures
            r.ids() == self.ids(),
            r.wf(),
    {
        VecSet { members: self.members.duplicate() }
    }
}

} // verus!
