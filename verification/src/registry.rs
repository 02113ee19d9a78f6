//! Type-keyed resource registry.
//!
//! The registry stores at most one value per runtime type: the type is the
//! lookup key, never an instance identifier. Internally it is an association
//! list from a type identifier to a type-erased owned value, with the
//! invariant that no identifier occurs twice. The structural behaviour
//! (last-write-wins insertion, lookup, removal, clearing) is verified over a
//! map model; only the type-erasure itself — obtaining a type's identifier,
//! boxing a value, and narrowing a box back to a concrete type — is taken on
//! trust from std.

use vstd::prelude::*;
use vstd::pervasive::VecAdditionalExecFns;
use vstd::set::{axiom_set_insert_len, axiom_set_remove_len};

verus! {

#[verifier::external_type_specification]
#[verifier::external_body]
pub struct ExTypeId(core::any::TypeId);

/// A type-erased owned resource value.
///
/// Relies on std's `Box<dyn Any>`: the box owns a value of some concrete
/// type, and only a downcast to exactly that type can reach it again. The
/// struct is opaque to the verifier; its values are tracked by identity.
#[verifier::external_body]
pub struct ErasedValue {
    inner: Box<dyn core::any::Any + Send + Sync>,
}

/// Relies on `TypeId::of`: returns the identifier of the type `T`.
#[verifier::external_body]
fn type_id_of<T: 'static>() -> core::any::TypeId {
    core::any::TypeId::of::<T>()
}

/// Relies on `TypeId`'s `PartialEq`: two identifiers are equal exactly when
/// they are the identifier of one and the same type.
#[verifier::external_body]
fn type_id_eq(a: &core::any::TypeId, b: &core::any::TypeId) -> (r: bool)
    ensures
        r == (a == b),
{
    a == b
}

/// Relies on `Box::new`: the box takes ownership of the value.
#[verifier::external_body]
fn erase<T: 'static + Send + Sync>(value: T) -> ErasedValue {
    ErasedValue { inner: Box::new(value) }
}

/// Relies on `Box<dyn Any>::downcast_ref`: yields a reference to the boxed
/// value if it has type `T`, and `None` otherwise.
#[verifier::external_body]
fn downcast_ref<T: 'static + Send + Sync>(e: &ErasedValue) -> Option<&T> {
    e.inner.downcast_ref::<T>()
}

/// Relies on `Box<dyn Any>::downcast_mut`: yields a mutable reference to the
/// boxed value if it has type `T`, and `None` otherwise; on `None` the box is
/// untouched.
#[verifier::external_body]
fn downcast_mut<T: 'static + Send + Sync>(e: &mut ErasedValue) -> (r: Option<&mut T>)
    ensures
        r is None ==> *final(e) == *old(e),
{
    e.inner.downcast_mut::<T>()
}

/// Relies on `Box<dyn Any>::downcast`: takes the value out of the box if it
/// has type `T`, and `None` otherwise.
#[verifier::external_body]
fn downcast_owned<T: 'static + Send + Sync>(e: ErasedValue) -> Option<T> {
    e.inner.downcast::<T>().ok().map(|b| *b)
}

/// One binding of the registry: a type identifier and the value stored under
/// it.
struct Entry {
    key: core::any::TypeId,
    value: ErasedValue,
}

/// The map a sequence of bindings denotes, later bindings winning.
spec fn entries_map(s: Seq<Entry>) -> Map<core::any::TypeId, ErasedValue>
    decreases s.len(),
{
    if s.len() == 0 {
        Map::empty()
    } else {
        entries_map(s.drop_last()).insert(s.last().key, s.last().value)
    }
}

/// No type identifier occurs twice among the bindings.
spec fn keys_unique(s: Seq<Entry>) -> bool {
    forall|i: int, j: int| 0 <= i < j < s.len() ==> s[i].key != s[j].key
}

proof fn lemma_entries_map_contains(s: Seq<Entry>, k: core::any::TypeId)
    ensures
        entries_map(s).contains_key(k) <==> exists|i: int| 0 <= i < s.len() && s[i].key == k,
    decreases s.len(),
{
    if s.len() > 0 {
        lemma_entries_map_contains(s.drop_last(), k);
        if s.last().key != k && entries_map(s).contains_key(k) {
            let i = choose|i: int| 0 <= i < s.drop_last().len() && s.drop_last()[i].key == k;
            assert(s[i].key == k);
        }
        if exists|i: int| 0 <= i < s.len() && s[i].key == k {
            let i = choose|i: int| 0 <= i < s.len() && s[i].key == k;
            if i < s.len() - 1 {
                assert(s.drop_last()[i].key == k);
            }
        }
    }
}

proof fn lemma_entries_map_index(s: Seq<Entry>, i: int)
    requires
        keys_unique(s),
        0 <= i < s.len(),
    ensures
        entries_map(s).contains_key(s[i].key),
        entries_map(s)[s[i].key] == s[i].value,
    decreases s.len(),
{
    lemma_entries_map_contains(s, s[i].key);
    if i < s.len() - 1 {
        assert(s.drop_last()[i] == s[i]);
        lemma_entries_map_index(s.drop_last(), i);
        assert(s[s.len() - 1].key != s[i].key);
    }
}

proof fn lemma_entries_map_update(s: Seq<Entry>, i: int, e: Entry)
    requires
        keys_unique(s),
        0 <= i < s.len(),
        e.key == s[i].key,
    ensures
        entries_map(s.update(i, e)) =~= entries_map(s).insert(e.key, e.value),
        keys_unique(s.update(i, e)),
    decreases s.len(),
{
    let t = s.update(i, e);
    if i == s.len() - 1 {
        assert(t.drop_last() =~= s.drop_last());
    } else {
        assert(t.drop_last() =~= s.drop_last().update(i, e));
        lemma_entries_map_update(s.drop_last(), i, e);
        assert(s.last().key != s[i].key);
        assert(t.last() == s.last());
    }
}

proof fn lemma_entries_map_remove(s: Seq<Entry>, i: int)
    requires
        keys_unique(s),
        0 <= i < s.len(),
    ensures
        entries_map(s.remove(i)) =~= entries_map(s).remove(s[i].key),
        keys_unique(s.remove(i)),
    decreases s.len(),
{
    let t = s.remove(i);
    if i == s.len() - 1 {
        assert(t =~= s.drop_last());
        lemma_entries_map_contains(s.drop_last(), s[i].key);
        assert(!entries_map(s.drop_last()).contains_key(s[i].key));
        assert(entries_map(s.drop_last()).remove(s[i].key) =~= entries_map(s.drop_last()));
    } else {
        assert(t.drop_last() =~= s.drop_last().remove(i));
        lemma_entries_map_remove(s.drop_last(), i);
        assert(t.last() == s.last());
        assert(s.last().key != s[i].key);
    }
}

proof fn lemma_entries_map_push(s: Seq<Entry>, e: Entry)
    requires
        keys_unique(s),
        !entries_map(s).contains_key(e.key),
    ensures
        entries_map(s.push(e)) =~= entries_map(s).insert(e.key, e.value),
        keys_unique(s.push(e)),
{
    lemma_entries_map_contains(s, e.key);
    assert(s.push(e).drop_last() =~= s);
}

proof fn lemma_entries_map_len(s: Seq<Entry>)
    requires
        keys_unique(s),
    ensures
        entries_map(s).dom().len() == s.len(),
        entries_map(s).dom().finite(),
    decreases s.len(),
{
    if s.len() > 0 {
        lemma_entries_map_len(s.drop_last());
        lemma_entries_map_contains(s.drop_last(), s.last().key);
    }
}

/// Type-keyed heterogeneous singleton store: a mapping from a runtime type
/// identifier to exactly one owned value of that type.
pub struct DiContainer {
    entries: Vec<Entry>,
}

impl View for DiContainer {
    type V = Map<core::any::TypeId, ErasedValue>;

    closed spec fn view(&self) -> Map<core::any::TypeId, ErasedValue> {
        entries_map(self.entries@)
    }
}

impl DiContainer {
    /// The registry's internal invariant: no type identifier bound twice.
    /// Every constructor establishes it and every method preserves it.
    pub closed spec fn wf(&self) -> bool {
        keys_unique(self.entries@)
    }

    /// Creates an empty registry.
    pub fn new() -> (c: DiContainer)
        ensures
            c@ =~= Map::<core::any::TypeId, ErasedValue>::empty(),
            c.wf(),
    {
        DiContainer { entries: Vec::new() }
    }

    /// Index of the binding for `key`, if there is one.
    fn find_index(&self, key: &core::any::TypeId) -> (r: Option<usize>)
        ensures
            match r {
                Some(i) => i < self.entries@.len() && self.entries@[i as int].key == *key,
                None => !self@.contains_key(*key),
            },
    {
        proof {
            lemma_entries_map_contains(self.entries@, *key);
        }
        let n = self.entries.len();
        let mut i: usize = 0;
        while i < n
            invariant
                n == self.entries@.len(),
                i <= n,
                forall|j: int| 0 <= j < i ==> self.entries@[j].key != *key,
            decreases n - i,
        {
            if type_id_eq(&self.entries[i].key, key) {
                return Some(i);
            }
            i = i + 1;
        }
        None
    }

    /// Stores `value` under `key`, replacing any value stored under `key`
    /// before: the registry keeps at most one binding per key.
    pub fn insert_erased(&mut self, key: core::any::TypeId, value: ErasedValue)
        requires
            old(self).wf(),
        ensures
            final(self).wf(),
            final(self)@ =~= old(self)@.insert(key, value),
    {
        let found = self.find_index(&key);
        match found {
            Some(i) => {
                proof {
                    lemma_entries_map_update(self.entries@, i as int, Entry { key, value });
                }
                self.entries.set(i, Entry { key, value });
            },
            None => {
                proof {
                    lemma_entries_map_push(self.entries@, Entry { key, value });
                }
                self.entries.push(Entry { key, value });
            },
        }
    }

    /// The value stored under `key`, if any.
    pub fn get_erased(&self, key: &core::any::TypeId) -> (r: Option<&ErasedValue>)
        requires
            self.wf(),
        ensures
            match r {
                Some(v) => self@.contains_key(*key) && *v == self@[*key],
                None => !self@.contains_key(*key),
            },
    {
        match self.find_index(key) {
            Some(i) => {
                proof {
                    lemma_entries_map_index(self.entries@, i as int);
                }
                Some(&self.entries[i].value)
            },
            None => None,
        }
    }

    /// A mutable handle on the value stored under `key`, if any; whatever the
    /// caller writes through it becomes the value bound to `key`.
    pub fn get_erased_mut(&mut self, key: &core::any::TypeId) -> (r: Option<&mut ErasedValue>)
        requires
            old(self).wf(),
        ensures
            final(self).wf(),
            match r {
                Some(v) => old(self)@.contains_key(*key) && *v == old(self)@[*key]
                    && final(self)@ =~= old(self)@.insert(*key, *final(v)),
                None => !old(self)@.contains_key(*key) && *final(self) == *old(self),
            },
    {
        let found = self.find_index(key);
        match found {
            Some(i) => {
                proof {
                    lemma_entries_map_index(self.entries@, i as int);
                }
                let ghost s0 = self.entries@;
                let slot = &mut self.entries[i];
                let value_ref = &mut slot.value;
                proof {
                    lemma_entries_map_update(
                        s0,
                        i as int,
                        (Entry { key: s0[i as int].key, value: *final(value_ref) }),
                    );
                }
                Some(value_ref)
            },
            None => None,
        }
    }

    /// Removes and returns the value stored under `key`, if any.
    pub fn remove_erased(&mut self, key: &core::any::TypeId) -> (r: Option<ErasedValue>)
        requires
            old(self).wf(),
        ensures
            final(self).wf(),
            match r {
                Some(v) => old(self)@.contains_key(*key) && v == old(self)@[*key]
                    && final(self)@ =~= old(self)@.remove(*key),
                None => !old(self)@.contains_key(*key) && *final(self) == *old(self),
            },
    {
        let found = self.find_index(key);
        match found {
            Some(i) => {
                proof {
                    lemma_entries_map_index(self.entries@, i as int);
                    lemma_entries_map_remove(self.entries@, i as int);
                }
                let e = self.entries.remove(i);
                Some(e.value)
            },
            None => None,
        }
    }

    /// Drops every stored value.
    pub fn clear(&mut self)
        ensures
            final(self).wf(),
            final(self)@ =~= Map::<core::any::TypeId, ErasedValue>::empty(),
    {
        self.entries.clear();
    }

    /// How many values the registry holds: one per bound type identifier.
    pub fn len(&self) -> (n: usize)
        requires
            self.wf(),
        ensures
            n == self@.dom().len(),
    {
        proof {
            lemma_entries_map_len(self.entries@);
        }
        self.entries.len()
    }

    /// Stores `value`, replacing any existing value of type `T`: only one
    /// value per type ever exists. Which binding is written is decided by
    /// `T`'s runtime type identifier, so at this level the key appears as a
    /// witness.
    pub fn insert<T: 'static + Send + Sync>(&mut self, value: T)
        requires
            old(self).wf(),
        ensures
            final(self).wf(),
            exists|k: core::any::TypeId, e: ErasedValue| final(self)@ =~= old(self)@.insert(k, e),
            old(self)@.dom().len() <= final(self)@.dom().len() <= old(self)@.dom().len() + 1,
    {
        proof {
            lemma_entries_map_len(self.entries@);
        }
        let key = type_id_of::<T>();
        let erased = erase(value);
        self.insert_erased(key, erased);
        proof {
            assert(self@ =~= old(self)@.insert(key, erased));
            axiom_set_insert_len(old(self)@.dom(), key);
            assert(self@.dom() =~= old(self)@.dom().insert(key));
        }
    }

    /// A reference to the stored value of type `T`, or `None` if no value of
    /// type `T` is present — absence is a normal state, not an error.
    pub fn get<T: 'static + Send + Sync>(&self) -> (r: Option<&T>)
        requires
            self.wf(),
        ensures
            self@.dom().len() == 0 ==> r is None,
            r is Some ==> self@.dom().len() > 0,
    {
        let key = type_id_of::<T>();
        proof {
            if self@.dom().len() == 0 {
                lemma_entries_map_len(self.entries@);
                assert(self@.dom() =~= Set::<core::any::TypeId>::empty());
            }
        }
        match self.get_erased(&key) {
            Some(e) => downcast_ref::<T>(e),
            None => None,
        }
    }

    /// A mutable reference to the stored value of type `T`, or `None` if no
    /// value of type `T` is present. The set of bound types is unchanged;
    /// only the value the handle points at can be rewritten.
    pub fn get_mut<T: 'static + Send + Sync>(&mut self) -> (r: Option<&mut T>)
        requires
            old(self).wf(),
        ensures
            final(self).wf(),
            final(self)@.dom() =~= old(self)@.dom(),
    {
        let key = type_id_of::<T>();
        match self.get_erased_mut(&key) {
            Some(e) => downcast_mut::<T>(e),
            None => None,
        }
    }

    /// Removes the stored value of type `T` and hands back ownership, or
    /// `None` if no value of type `T` is present. At most the binding for one
    /// key goes away.
    pub fn remove<T: 'static + Send + Sync>(&mut self) -> (r: Option<T>)
        requires
            old(self).wf(),
        ensures
            final(self).wf(),
            exists|k: core::any::TypeId| final(self)@ =~= old(self)@.remove(k),
            final(self)@.dom().subset_of(old(self)@.dom()),
            old(self)@.dom().len() - 1 <= final(self)@.dom().len() <= old(self)@.dom().len(),
    {
        proof {
            lemma_entries_map_len(self.entries@);
        }
        let key = type_id_of::<T>();
        proof {
            if !old(self)@.contains_key(key) {
                assert(old(self)@ =~= old(self)@.remove(key));
            }
        }
        let taken = self.remove_erased(&key);
        proof {
            assert(self@ =~= old(self)@.remove(key));
            axiom_set_remove_len(old(self)@.dom(), key);
            assert(self@.dom() =~= old(self)@.dom().remove(key));
        }
        match taken {
            Some(e) => downcast_owned::<T>(e),
            None => None,
        }
    }
}

/// Law: the registry is a singleton store per key. Inserting `v1` and then
/// `v2` under one key `k` leaves the registry exactly as if only `v2` had
/// been inserted: `k` is bound, it is bound to `v2`, and no other binding has
/// changed. `insert_erased` states `c1@ == c0@.insert(k, v1)` as its
/// contract, so the hypotheses below name two successive insertions.
pub proof fn lemma_singleton_per_key(
    c0: DiContainer,
    c1: DiContainer,
    c2: DiContainer,
    k: core::any::TypeId,
    v1: ErasedValue,
    v2: ErasedValue,
)
    requires
        c1@ == c0@.insert(k, v1),
        c2@ == c1@.insert(k, v2),
    ensures
        c2@ =~= c0@.insert(k, v2),
        c2@[k] == v2,
        c2@.dom() =~= c0@.dom().insert(k),
{
}

} // verus!
