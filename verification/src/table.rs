//! A mapping from names to values that remembers the order in which the
//! names arrived.
//!
//! Its model is the sequence of its pairs. No name occurs twice in it, and an
//! update leaves every pair at its place.

use vstd::prelude::*;
use vstd::pervasive::VecAdditionalExecFns;
use crate::text::{copy_range, same};

verus! {

/// The place of the first pair whose name is `key`.
pub open spec fn position<T>(pairs: Seq<(Seq<u8>, T)>, key: Seq<u8>) -> Option<int>
    decreases pairs.len(),
{
    if pairs.len() == 0 {
        None
    } else if pairs[0].0 == key {
        Some(0)
    } else {
        match position(pairs.drop_first(), key) {
            Some(i) => Some(i + 1),
            None => None,
        }
    }
}

/// The value that stands under `key`.
pub open spec fn lookup<T>(pairs: Seq<(Seq<u8>, T)>, key: Seq<u8>) -> Option<T> {
    match position(pairs, key) {
        Some(i) => Some(pairs[i].1),
        None => None,
    }
}

/// The pairs after `value` is stored under `key`: in the place of the old
/// value where the name is known, at the end where it is new.
pub open spec fn upsert<T>(pairs: Seq<(Seq<u8>, T)>, key: Seq<u8>, value: T) -> Seq<
    (Seq<u8>, T),
> {
    match position(pairs, key) {
        Some(i) => pairs.update(i, (key, value)),
        None => pairs.push((key, value)),
    }
}

/// That no name occurs twice.
pub open spec fn distinct<T>(pairs: Seq<(Seq<u8>, T)>) -> bool {
    forall|i: int, j: int| 0 <= i < j < pairs.len() ==> pairs[i].0 != pairs[j].0
}

/// `position` finds a pair of that name which no other precedes, and finds
/// none only where there is none.
pub proof fn lemma_position<T>(pairs: Seq<(Seq<u8>, T)>, key: Seq<u8>)
    ensures
        match position(pairs, key) {
            Some(i) => 0 <= i < pairs.len() && pairs[i].0 == key && forall|j: int|
                0 <= j < i ==> pairs[j].0 != key,
            None => forall|j: int| 0 <= j < pairs.len() ==> pairs[j].0 != key,
        },
    decreases pairs.len(),
{
    if pairs.len() > 0 && pairs[0].0 != key {
        let tail = pairs.drop_first();
        lemma_position(tail, key);
        match position(tail, key) {
            Some(i) => {
                assert forall|j: int| 0 <= j < i + 1 implies pairs[j].0 != key by {
                    if j > 0 {
                        assert(tail[j - 1] == pairs[j]);
                    }
                }
            },
            None => {
                assert forall|j: int| 0 <= j < pairs.len() implies pairs[j].0 != key by {
                    if j > 0 {
                        assert(tail[j - 1] == pairs[j]);
                    }
                }
            },
        }
    }
}

/// Among distinct names, any pair of that name is the one `position` finds.
pub proof fn lemma_position_is<T>(pairs: Seq<(Seq<u8>, T)>, key: Seq<u8>, k: int)
    requires
        0 <= k < pairs.len(),
        pairs[k].0 == key,
        forall|j: int| 0 <= j < k ==> pairs[j].0 != key,
    ensures
        position(pairs, key) == Some(k),
{
    lemma_position(pairs, key);
}

/// Storing keeps the names distinct.
pub proof fn lemma_upsert_distinct<T>(pairs: Seq<(Seq<u8>, T)>, key: Seq<u8>, value: T)
    requires
        distinct(pairs),
    ensures
        distinct(upsert(pairs, key, value)),
{
    lemma_position(pairs, key);
}

/// What was stored is found, and every other name keeps what it had: the
/// pairs behave as a mapping.
pub proof fn lemma_lookup_upsert<T>(
    pairs: Seq<(Seq<u8>, T)>,
    key: Seq<u8>,
    value: T,
    other: Seq<u8>,
)
    ensures
        lookup(upsert(pairs, key, value), other) == if other == key {
            Some(value)
        } else {
            lookup(pairs, other)
        },
{
    let after = upsert(pairs, key, value);
    lemma_position(pairs, key);
    lemma_position(pairs, other);
    lemma_position(after, other);
    match position(pairs, key) {
        Some(i) => {
            if other == key {
                lemma_position_is(after, other, i);
            } else {
                match position(pairs, other) {
                    Some(k) => {
                        lemma_position_is(after, other, k);
                    },
                    None => {},
                }
            }
        },
        None => {
            if other == key {
                lemma_position_is(after, other, pairs.len() as int);
            } else {
                match position(pairs, other) {
                    Some(k) => {
                        lemma_position_is(after, other, k);
                    },
                    None => {},
                }
            }
        },
    }
}

/// A mapping from names to values, in the order in which the names arrived.
pub struct Table<V> {
    keys: Vec<Vec<u8>>,
    values: Vec<V>,
}

impl<V: View> View for Table<V> {
    type V = Seq<(Seq<u8>, V::V)>;

    closed spec fn view(&self) -> Seq<(Seq<u8>, V::V)> {
        Seq::new(self.keys@.len(), |i: int| (self.keys@[i]@, self.values@[i]@))
    }
}

impl<V> Table<V> {
    #[verifier::type_invariant]
    spec fn well_formed(&self) -> bool {
        &&& self.keys@.len() == self.values@.len()
        &&& forall|i: int, j: int|
            0 <= i < j < self.keys@.len() ==> self.keys@[i]@ != self.keys@[j]@
    }
}

impl<V: View> Table<V> {
    /// The empty table.
    pub fn new() -> (r: Table<V>)
        ensures
            r@ == Seq::<(Seq<u8>, V::V)>::empty(),
    {
        let r = Table { keys: Vec::new(), values: Vec::new() };
        proof {
            assert(r@ =~= Seq::<(Seq<u8>, V::V)>::empty());
        }
        r
    }

    /// The number of names.
    pub fn len(&self) -> (r: usize)
        ensures
            r == self@.len(),
            distinct(self@),
    {
        proof {
            use_type_invariant(self);
        }
        self.keys.len()
    }

    /// The name at place `i`.
    pub fn key(&self, i: usize) -> (r: &Vec<u8>)
        requires
            i < self@.len(),
        ensures
            r@ == self@[i as int].0,
    {
        &self.keys[i]
    }

    /// The value at place `i`.
    pub fn value(&self, i: usize) -> (r: &V)
        requires
            i < self@.len(),
        ensures
            r@ == self@[i as int].1,
    {
        proof {
            use_type_invariant(self);
        }
        &self.values[i]
    }

    /// The place of `key`, if the table knows the name.
    pub fn find(&self, key: &[u8]) -> (r: Option<usize>)
        ensures
            match r {
                Some(i) => position(self@, key@) == Some(i as int),
                None => position(self@, key@) is None,
            },
    {
        let mut i: usize = 0;
        while i < self.keys.len()
            invariant
                0 <= i <= self.keys@.len(),
                self@.len() == self.keys@.len(),
                forall|j: int| 0 <= j < i ==> self@[j].0 != key@,
            decreases self.keys@.len() - i,
        {
            if same(self.keys[i].as_slice(), key) {
                proof {
                    lemma_position_is(self@, key@, i as int);
                }
                return Some(i);
            }
            i += 1;
        }
        proof {
            lemma_position(self@, key@);
        }
        None
    }

    /// The value under `key`, if the table knows the name.
    pub fn get(&self, key: &[u8]) -> (r: Option<&V>)
        ensures
            match r {
                Some(v) => lookup(self@, key@) == Some(v@),
                None => lookup(self@, key@) is None,
            },
    {
        proof {
            use_type_invariant(self);
            lemma_position(self@, key@);
        }
        match self.find(key) {
            Some(i) => Some(&self.values[i]),
            None => None,
        }
    }

    /// Stores `value` under `key`. A known name keeps its place; a new one
    /// goes to the end.
    pub fn put(&mut self, key: &[u8], value: V)
        ensures
            final(self)@ == upsert(old(self)@, key@, value@),
            distinct(final(self)@),
    {
        proof {
            use_type_invariant(&*self);
            lemma_position(self@, key@);
        }
        let found = self.find(key);
        let mut taken: Table<V> = Table { keys: Vec::new(), values: Vec::new() };
        core::mem::swap(&mut taken, self);
        let Table { mut keys, mut values } = taken;
        match found {
            Some(i) => {
                values.set(i, value);
            },
            None => {
                keys.push(copy_range(key, 0, key.len()));
                values.push(value);
                proof {
                    assert(key@.subrange(0, key@.len() as int) =~= key@);
                    assert forall|j: int| 0 <= j < old(self).keys@.len() implies old(
                        self,
                    ).keys@[j]@ != key@ by {
                        assert(old(self)@[j].0 == old(self).keys@[j]@);
                    }
                }
            },
        }
        *self = Table { keys, values };
        proof {
            assert(final(self)@ =~= upsert(old(self)@, key@, value@));
        }
    }

    /// Empties the table.
    pub fn clear(&mut self)
        ensures
            final(self)@ == Seq::<(Seq<u8>, V::V)>::empty(),
    {
        *self = Table { keys: Vec::new(), values: Vec::new() };
        proof {
            assert(final(self)@ =~= Seq::<(Seq<u8>, V::V)>::empty());
        }
    }
}

impl Table<Vec<u64>> {
    /// Adds `sample` to the end of the list under `key`, which is empty
    /// where the name is new.
    pub fn append(&mut self, key: &[u8], sample: u64)
        ensures
            final(self)@ == upsert(
                old(self)@,
                key@,
                match lookup(old(self)@, key@) {
                    Some(list) => list.push(sample),
                    None => seq![sample],
                },
            ),
            distinct(final(self)@),
    {
        proof {
            use_type_invariant(&*self);
            lemma_position(self@, key@);
        }
        let found = self.find(key);
        let mut list: Vec<u64> = Vec::new();
        match found {
            Some(i) => {
                let mut taken: Table<Vec<u64>> = Table { keys: Vec::new(), values: Vec::new() };
                core::mem::swap(&mut taken, self);
                let Table { keys, mut values } = taken;
                values.set_and_swap(i, &mut list);
                list.push(sample);
                values.set(i, list);
                *self = Table { keys, values };
                proof {
                    assert(final(self)@ =~= upsert(
                        old(self)@,
                        key@,
                        old(self)@[i as int].1.push(sample),
                    ));
                }
            },
            None => {
                list.push(sample);
                proof {
                    assert(list@ =~= seq![sample]);
                }
                self.put(key, list);
            },
        }
    }
}

} // verus!
