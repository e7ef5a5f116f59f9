use vstd::prelude::*;
use std::any::Any;
use std::any::TypeId;
use crate::error::Error;
use crate::error::Res;

verus! {

/// std's `TypeId`, the key of a type; opaque to Verus.
#[verifier::external_type_specification]
#[verifier::external_body]
pub struct ExTypeId(TypeId);

/// A value whose type has been erased. Verus does not take `dyn` of several traits, so the
/// box is hidden from it; only the methods below reach inside.
#[verifier::external_body]
pub struct Erased {
    inner: Box<dyn Any + Send + Sync>,
}

impl Erased {
    /// `Box::new` of std, turned into a box of `dyn Any`; nothing is stated of the result.
    #[verifier::external_body]
    pub(crate) fn new<T: Send + Sync + 'static>(t: T) -> Erased {
        Erased { inner: Box::new(t) }
    }

    /// `<dyn Any>::downcast_ref` of std: the value when it is of type `T`; nothing is stated
    /// of the result.
    #[verifier::external_body]
    pub(crate) fn downcast_ref<T: 'static>(&self) -> Option<&T> {
        self.inner.downcast_ref::<T>()
    }

    /// `Box::<dyn Any>::downcast` of std: the value when it is of type `T`; nothing is stated
    /// of the result.
    #[verifier::external_body]
    pub(crate) fn downcast<T: 'static>(self) -> Option<T> {
        self.inner.downcast::<T>().ok().map(|b| *b)
    }

    /// `<dyn Any>::downcast_mut` of std: the value, for change in place, when it is of type
    /// `T`; nothing is stated of the result.
    #[verifier::external_body]
    pub(crate) fn downcast_mut<T: 'static>(&mut self) -> Option<&mut T> {
        self.inner.downcast_mut::<T>()
    }
}

/// What can be kept in the state container: any owned value that can be shared between
/// threads.
pub trait SharedData: Send + Sync + 'static {}

impl<T: Send + Sync + 'static> SharedData for T {}

/// Every key of `before` still has a slot in `after`.
pub open spec fn keeps_keys(before: Map<TypeId, Erased>, after: Map<TypeId, Erased>) -> bool {
    before.dom().subset_of(after.dom())
}

/// `after` is `before` with the slot of one key set, and every other slot kept.
pub open spec fn sets_one(before: Map<TypeId, Erased>, after: Map<TypeId, Erased>) -> bool {
    exists|k: TypeId|
        #![trigger before.insert(k, after[k])]
        after == before.insert(k, after[k])
}

/// `after` is `before`, or `before` with one slot added; no slot of `before` changes.
pub open spec fn adds_at_most_one(before: Map<TypeId, Erased>, after: Map<TypeId, Erased>) -> bool {
    exists|k: TypeId|
        #![trigger before.insert(k, after[k])]
        after == before.insert(k, after[k]) && (before.contains_key(k) ==> after == before)
}

/// `after` is `before` with at most one slot removed.
pub open spec fn removes_at_most_one(before: Map<TypeId, Erased>, after: Map<TypeId, Erased>) -> bool {
    exists|k: TypeId| #[trigger] before.remove(k) == after
}

proof fn lemma_sets_one(before: Map<TypeId, Erased>, after: Map<TypeId, Erased>, k: TypeId)
    requires after.contains_key(k), after == before.insert(k, after[k]),
    ensures sets_one(before, after),
{
}

proof fn lemma_adds_one(before: Map<TypeId, Erased>, after: Map<TypeId, Erased>, k: TypeId)
    requires
        after.contains_key(k),
        before.contains_key(k) ==> after == before,
        !before.contains_key(k) ==> after == before.insert(k, after[k]),
    ensures adds_at_most_one(before, after),
{
    if before.contains_key(k) {
        assert(before.insert(k, after[k]) =~= before);
    }
}

proof fn lemma_adds_len(before: Map<TypeId, Erased>, after: Map<TypeId, Erased>)
    requires adds_at_most_one(before, after), before.dom().finite(),
    ensures
        after.dom().len() <= before.dom().len() + 1,
        before.dom().subset_of(after.dom()),
{
    let k = choose|k: TypeId| #![trigger before.insert(k, after[k])]
        after == before.insert(k, after[k]) && (before.contains_key(k) ==> after == before);
    if !before.contains_key(k) {
        assert(after.dom() =~= before.dom().insert(k));
    }
}

proof fn lemma_nonempty(m: Map<TypeId, Erased>, k: TypeId)
    requires m.dom().finite(),
    ensures m.contains_key(k) ==> m.len() > 0,
{
    if m.contains_key(k) {
        vstd::set_lib::lemma_set_empty_equivalency_len(m.dom());
    }
}

/// `TypeId::of` of std: the key of the type `T`. Nothing is stated of it: a name for it would
/// be generic in `T`, and none can be written.
#[verifier::external_body]
pub(crate) fn type_key<T: ?Sized + 'static>() -> TypeId {
    TypeId::of::<T>()
}

/// The `==` of std's `TypeId`: whether the two keys are the same.
#[verifier::external_body]
pub(crate) fn same_key(a: &TypeId, b: &TypeId) -> (r: bool)
    ensures r == (*a == *b),
{
    *a == *b
}

pub open spec fn distinct(s: Seq<TypeId>) -> bool {
    forall|i: int, j: int| 0 <= i < s.len() && 0 <= j < s.len() && s[i] == s[j] ==> i == j
}

pub open spec fn key_map(ks: Seq<TypeId>, vs: Seq<Erased>) -> Map<TypeId, Erased> {
    Map::new(|k: TypeId| ks.contains(k), |k: TypeId| vs[ks.index_of(k)])
}

struct Table {
    keys: Vec<TypeId>,
    values: Vec<Erased>,
}

pub struct State {
    table: Table,
}

impl View for State {
    type V = Map<TypeId, Erased>;

    closed spec fn view(&self) -> Map<TypeId, Erased> {
        key_map(self.table.keys@, self.table.values@)
    }
}

proof fn lemma_at(ks: Seq<TypeId>, vs: Seq<Erased>, i: int)
    requires
        distinct(ks),
        0 <= i < ks.len(),
    ensures
        key_map(ks, vs).contains_key(ks[i]),
        key_map(ks, vs)[ks[i]] == vs[i],
{
    assert(ks.contains(ks[i]));
    let j = ks.index_of(ks[i]);
    assert(ks[j] == ks[i]);
}

proof fn lemma_finite(ks: Seq<TypeId>, vs: Seq<Erased>)
    ensures key_map(ks, vs).dom().finite(),
{
    assert(key_map(ks, vs).dom() =~= ks.to_set());
    vstd::seq_lib::seq_to_set_is_finite(ks);
}

impl State {
    /// The keys of a state container are finitely many.
    pub proof fn lemma_view_finite(&self)
        ensures self@.dom().finite(),
    {
        lemma_finite(self.table.keys@, self.table.values@);
    }

    #[verifier::type_invariant]
    closed spec fn inv(self) -> bool {
        &&& distinct(self.table.keys@)
        &&& self.table.keys.len() == self.table.values.len()
    }

    pub fn new() -> (s: State)
        ensures s@ == Map::<TypeId, Erased>::empty(),
    {
        let s = State { table: Table { keys: Vec::new(), values: Vec::new() } };
        assert(s@ =~= Map::<TypeId, Erased>::empty());
        s
    }

    fn find(&self, key: &TypeId) -> (r: Option<usize>)
        ensures
            match r {
                Some(i) => i < self.table.keys.len() && self.table.keys[i as int] == *key
                    && self@.contains_key(*key) && self@[*key] == self.table.values[i as int],
                None => !self@.contains_key(*key),
            },
            self.table.keys.len() == self.table.values.len(),
            distinct(self.table.keys@),
    {
        proof { use_type_invariant(self); }
        let mut i: usize = 0;
        while i < self.table.keys.len()
            invariant
                i <= self.table.keys.len(),
                self.table.keys.len() == self.table.values.len(),
                distinct(self.table.keys@),
                forall|j: int| 0 <= j < i ==> self.table.keys[j] != *key,
            decreases self.table.keys.len() - i,
        {
            if same_key(&self.table.keys[i], key) {
                proof { lemma_at(self.table.keys@, self.table.values@, i as int); }
                return Some(i);
            }
            i += 1;
        }
        None
    }

    pub fn contains_key(&self, key: &TypeId) -> (r: bool)
        ensures r == self@.contains_key(*key),
    {
        self.find(key).is_some()
    }

    pub(crate) fn insert_slot(&mut self, key: TypeId, value: Erased)
        ensures final(self)@ == old(self)@.insert(key, value),
    {
        let ghost old_k = self.table.keys@;
        let ghost old_v = self.table.values@;
        let found = self.find(&key);
        let mut t = Table { keys: Vec::new(), values: Vec::new() };
        std::mem::swap(&mut t, &mut self.table);
        match found {
            Some(i) => {
                t.values.set(i, value);
                proof {
                    let ks = t.keys@;
                    let vs = t.values@;
                    assert forall|k: TypeId| key_map(ks, vs).contains_key(k) implies key_map(ks, vs)[k] == old(self)@.insert(key, value)[k] by {
                        let j = ks.index_of(k);
                        lemma_at(ks, vs, j);
                        if k != key {
                            lemma_at(old_k, old_v, j);
                        }
                    }
                    assert(key_map(ks, vs) =~= old(self)@.insert(key, value));
                }
            }
            None => {
                t.keys.push(key);
                t.values.push(value);
                proof {
                    let ks = t.keys@;
                    let vs = t.values@;
                    assert(!old_k.contains(key));
                    assert forall|a: int, b: int| 0 <= a < ks.len() && 0 <= b < ks.len() && ks[a] == ks[b] implies a == b by {
                        if a < old_k.len() && b == old_k.len() {
                            assert(old_k.contains(old_k[a]));
                        }
                        if b < old_k.len() && a == old_k.len() {
                            assert(old_k.contains(old_k[b]));
                        }
                    }
                    assert forall|k: TypeId| #[trigger] ks.contains(k) == old(self)@.insert(key, value).contains_key(k) by {
                        if old_k.contains(k) {
                            let j = old_k.index_of(k);
                            assert(ks[j] == k);
                        }
                        if k == key {
                            assert(ks[old_k.len() as int] == k);
                        }
                        if ks.contains(k) {
                            let j = ks.index_of(k);
                            if j < old_k.len() {
                                assert(old_k[j] == k);
                            }
                        }
                    }
                    assert forall|k: TypeId| key_map(ks, vs).contains_key(k) implies key_map(ks, vs)[k] == old(self)@.insert(key, value)[k] by {
                        let j = ks.index_of(k);
                        lemma_at(ks, vs, j);
                        if k != key {
                            lemma_at(old_k, old_v, j);
                        }
                    }
                    assert(key_map(ks, vs) =~= old(self)@.insert(key, value));
                }
            }
        }
        self.table = t;
    }

    /// The value stored under `key`, if any.
    pub(crate) fn slot(&self, key: &TypeId) -> (r: Option<&Erased>)
        ensures
            match r {
                Some(v) => self@.contains_key(*key) && *v == self@[*key],
                None => !self@.contains_key(*key),
            },
    {
        match self.find(key) {
            Some(i) => Some(&self.table.values[i]),
            None => None,
        }
    }

    /// Removes the value stored under `key` and hands it back, if there is one.
    pub(crate) fn remove_slot(&mut self, key: &TypeId) -> (r: Option<Erased>)
        ensures
            final(self)@ == old(self)@.remove(*key),
            match r {
                Some(v) => old(self)@.contains_key(*key) && v == old(self)@[*key],
                None => !old(self)@.contains_key(*key),
            },
    {
        let ghost old_k = self.table.keys@;
        let ghost old_v = self.table.values@;
        match self.find(key) {
            Some(i) => {
                let mut t = Table { keys: Vec::new(), values: Vec::new() };
                std::mem::swap(&mut t, &mut self.table);
                t.keys.remove(i);
                let v = t.values.remove(i);
                proof {
                    let ks = t.keys@;
                    let vs = t.values@;
                    assert forall|a: int, b: int| 0 <= a < ks.len() && 0 <= b < ks.len() && ks[a] == ks[b] implies a == b by {
                        let a2 = if a < i { a } else { a + 1 };
                        let b2 = if b < i { b } else { b + 1 };
                        assert(ks[a] == old_k[a2]);
                        assert(ks[b] == old_k[b2]);
                    }
                    assert forall|k: TypeId| #[trigger] ks.contains(k) == old(self)@.remove(*key).contains_key(k) by {
                        if ks.contains(k) {
                            let j = ks.index_of(k);
                            let j2 = if j < i { j } else { j + 1 };
                            assert(old_k[j2] == k);
                            assert(old_k.contains(k));
                            if k == *key {
                                assert(old_k[i as int] == k);
                            }
                        }
                        if old_k.contains(k) && k != *key {
                            let j = old_k.index_of(k);
                            if j < i {
                                assert(ks[j] == k);
                            } else {
                                assert(j != i);
                                assert(ks[j - 1] == k);
                            }
                        }
                    }
                    assert forall|k: TypeId| key_map(ks, vs).contains_key(k) implies key_map(ks, vs)[k] == old(self)@.remove(*key)[k] by {
                        let j = ks.index_of(k);
                        lemma_at(ks, vs, j);
                        let j2 = if j < i { j } else { j + 1 };
                        lemma_at(old_k, old_v, j2);
                    }
                    assert(key_map(ks, vs) =~= old(self)@.remove(*key));
                }
                self.table = t;
                Some(v)
            },
            None => {
                assert(self@ =~= old(self)@.remove(*key));
                None
            },
        }
    }

    /// Stores `t`, in place of any value of its type stored before.
    pub fn put<T: SharedData>(&mut self, t: T)
        ensures
            sets_one(old(self)@, final(self)@),
            keeps_keys(old(self)@, final(self)@),
            final(self)@.len() > 0,
    {
        let k = type_key::<T>();
        self.insert_slot(k, Erased::new(t));
        proof {
            lemma_sets_one(old(self)@, final(self)@, k);
            final(self).lemma_view_finite();
            lemma_nonempty(final(self)@, k);
        }
    }

    /// Whether a value of type `T` is stored.
    pub fn has<T: SharedData>(&self) -> (r: bool)
        ensures
            r ==> self@.len() > 0,
    {
        let k = type_key::<T>();
        let r = self.contains_key(&k);
        proof { self.lemma_view_finite(); lemma_nonempty(self@, k); }
        r
    }

    /// The stored value of type `T`, if any.
    pub fn try_borrow<T: SharedData>(&self) -> (r: Option<&T>)
        ensures
            r is Some ==> self@.len() > 0,
    {
        let k = type_key::<T>();
        match self.find(&k) {
            Some(i) => {
                proof { self.lemma_view_finite(); lemma_nonempty(self@, k); }
                self.table.values[i].downcast_ref::<T>()
            },
            None => None,
        }
    }

    /// The stored value of type `T`, or an error when there is none.
    pub fn borrow<T: SharedData>(&self) -> (r: Res<&T>)
        ensures
            r is Ok ==> self@.len() > 0,
            r is Err ==> r == Err::<&T, Error>(Error::NotPresent),
    {
        match self.try_borrow::<T>() {
            Some(v) => Ok(v),
            None => Err(Error::NotPresent),
        }
    }

    /// The stored value of type `T`, after storing `T::default()` when there was none.
    pub fn borrow_or_default<T: SharedData + Default>(&mut self) -> (r: Res<&T>)
        ensures
            adds_at_most_one(old(self)@, final(self)@),
            keeps_keys(old(self)@, final(self)@),
            final(self)@.len() > 0,
            r is Err ==> r == Err::<&T, Error>(Error::NotPresent),
    {
        self.fill_default::<T>();
        self.borrow::<T>()
    }

    /// Stores `T::default()` when no value of type `T` is stored.
    pub(crate) fn fill_default<T: SharedData + Default>(&mut self)
        ensures
            adds_at_most_one(old(self)@, final(self)@),
            keeps_keys(old(self)@, final(self)@),
            final(self)@.len() > 0,
    {
        let k = type_key::<T>();
        if !self.contains_key(&k) {
            self.insert_slot(k, Erased::new(T::default()));
            proof { lemma_adds_one(old(self)@, final(self)@, k); }
        } else {
            proof { lemma_adds_one(old(self)@, final(self)@, k); }
        }
        proof { final(self).lemma_view_finite(); lemma_nonempty(final(self)@, k); }
    }

    /// The stored value of type `T`, for change in place, if any.
    pub fn try_borrow_mut<T: SharedData>(&mut self) -> (r: Option<&mut T>)
        ensures
            final(self)@.dom() == old(self)@.dom(),
            r is Some ==> old(self)@.len() > 0,
    {
        let k = type_key::<T>();
        proof { old(self).lemma_view_finite(); lemma_nonempty(old(self)@, k); }
        match self.find(&k) {
            Some(i) => self.table.values[i].downcast_mut::<T>(),
            None => None,
        }
    }

    /// The stored value of type `T`, for change in place, or an error when there is none.
    pub fn borrow_mut<T: SharedData>(&mut self) -> (r: Res<&mut T>)
        ensures
            final(self)@.dom() == old(self)@.dom(),
            r is Ok ==> old(self)@.len() > 0,
            r is Err ==> r == Err::<&mut T, Error>(Error::NotPresent),
    {
        match self.try_borrow_mut::<T>() {
            Some(v) => Ok(v),
            None => Err(Error::NotPresent),
        }
    }

    /// The stored value of type `T`, for change in place, after storing `T::default()` when
    /// there was none.
    pub fn get_mut_or_default<T: SharedData + Default>(&mut self) -> (r: Res<&mut T>)
        ensures
            final(self)@.dom().len() <= old(self)@.dom().len() + 1,
            old(self)@.dom().subset_of(final(self)@.dom()),
            final(self)@.len() > 0,
            r is Err ==> r == Err::<&mut T, Error>(Error::NotPresent),
    {
        self.fill_default::<T>();
        proof { old(self).lemma_view_finite(); lemma_adds_len(old(self)@, self@); }
        self.borrow_mut::<T>()
    }

    /// Removes the stored value of type `T` and hands it back, if there is one.
    pub fn try_take<T: SharedData>(&mut self) -> (r: Option<T>)
        ensures
            removes_at_most_one(old(self)@, final(self)@),
            r is Some ==> old(self)@.len() > 0 && final(self)@.len() + 1 == old(self)@.len(),
    {
        let k = type_key::<T>();
        let e = self.remove_slot(&k);
        proof {
            old(self).lemma_view_finite();
            lemma_nonempty(old(self)@, k);
            assert(exists|j: TypeId| final(self)@ == old(self)@.remove(j)) by {
                assert(final(self)@ == old(self)@.remove(k));
            }
        }
        match e {
            Some(v) => v.downcast::<T>(),
            None => None,
        }
    }

    /// Removes the stored value of type `T` and hands it back, or an error when there is none.
    pub fn take<T: SharedData>(&mut self) -> (r: Res<T>)
        ensures
            removes_at_most_one(old(self)@, final(self)@),
            r is Ok ==> old(self)@.len() > 0 && final(self)@.len() + 1 == old(self)@.len(),
            r is Err ==> r == Err::<T, Error>(Error::NotPresentToTake),
    {
        match self.try_take::<T>() {
            Some(v) => Ok(v),
            None => Err(Error::NotPresentToTake),
        }
    }

    /// Same as [`State::try_borrow`].
    pub fn try_get<T: SharedData>(&self) -> (r: Option<&T>)
        ensures
            r is Some ==> self@.len() > 0,
    {
        self.try_borrow::<T>()
    }

    /// Same as [`State::borrow`].
    pub fn get<T: SharedData>(&self) -> (r: Res<&T>)
        ensures
            r is Ok ==> self@.len() > 0,
            r is Err ==> r == Err::<&T, Error>(Error::NotPresent),
    {
        self.borrow::<T>()
    }

    /// Same as [`State::borrow_or_default`].
    pub fn get_or_default<T: SharedData + Default>(&mut self) -> (r: Res<&T>)
        ensures
            adds_at_most_one(old(self)@, final(self)@),
            keeps_keys(old(self)@, final(self)@),
            final(self)@.len() > 0,
            r is Err ==> r == Err::<&T, Error>(Error::NotPresent),
    {
        self.borrow_or_default::<T>()
    }

    /// Same as [`State::try_borrow_mut`].
    pub fn try_get_mut<T: SharedData>(&mut self) -> (r: Option<&mut T>)
        ensures
            final(self)@.dom() == old(self)@.dom(),
            r is Some ==> old(self)@.len() > 0,
    {
        self.try_borrow_mut::<T>()
    }

    /// Same as [`State::borrow_mut`].
    pub fn get_mut<T: SharedData>(&mut self) -> (r: Res<&mut T>)
        ensures
            final(self)@.dom() == old(self)@.dom(),
            r is Ok ==> old(self)@.len() > 0,
            r is Err ==> r == Err::<&mut T, Error>(Error::NotPresent),
    {
        self.borrow_mut::<T>()
    }
}

} // verus!
