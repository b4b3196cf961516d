//! A small verified association map from `u64` keys to copyable values.
//!
//! The map is backed by a vector of key/value pairs with pairwise-distinct
//! keys; its mathematical view is a `Map<u64, T>`. Both the profile store
//! and the token registry are built on it.

use vstd::prelude::*;

verus! {

/// The map denoted by a sequence of key/value pairs, later entries winning.
pub open spec fn map_of<T>(s: Seq<(u64, T)>) -> Map<u64, T>
    decreases s.len(),
{
    if s.len() == 0 {
        Map::empty()
    } else {
        map_of(s.drop_last()).insert(s.last().0, s.last().1)
    }
}

/// A key that no entry of `s` carries is not in the denoted map.
proof fn lemma_map_of_absent<T>(s: Seq<(u64, T)>, key: u64)
    requires
        forall|i: int| 0 <= i < s.len() ==> (#[trigger] s[i]).0 != key,
    ensures
        !map_of(s).contains_key(key),
    decreases s.len(),
{
    if s.len() > 0 {
        assert(s.last().0 != key);
        lemma_map_of_absent(s.drop_last(), key);
    }
}

/// The entry at the last position carrying `s[i].0` decides that key's
/// value in the denoted map.
proof fn lemma_map_of_present<T>(s: Seq<(u64, T)>, i: int)
    requires
        0 <= i < s.len(),
        forall|j: int| i < j < s.len() ==> (#[trigger] s[j]).0 != s[i].0,
    ensures
        map_of(s).contains_key(s[i].0),
        map_of(s)[s[i].0] == s[i].1,
    decreases s.len(),
{
    if i < s.len() - 1 {
        lemma_map_of_present(s.drop_last(), i);
        assert(s.last().0 != s[i].0);
    }
}

/// Overwriting the entry that decides `key` updates the denoted map at
/// `key` and nowhere else.
proof fn lemma_map_of_update<T>(s: Seq<(u64, T)>, i: int, key: u64, value: T)
    requires
        0 <= i < s.len(),
        s[i].0 == key,
        forall|j: int| i < j < s.len() ==> (#[trigger] s[j]).0 != key,
    ensures
        map_of(s.update(i, (key, value))) =~= map_of(s).insert(key, value),
    decreases s.len(),
{
    let t = s.update(i, (key, value));
    if i == s.len() - 1 {
        assert(t.drop_last() =~= s.drop_last());
        assert(t.last() == (key, value));
    } else {
        lemma_map_of_update(s.drop_last(), i, key, value);
        assert(t.drop_last() =~= s.drop_last().update(i, (key, value)));
        assert(t.last() == s.last());
        assert(s.last().0 != key);
    }
}

/// An association map from `u64` keys to values of type `T`, backed by a
/// vector whose entries carry pairwise-distinct keys.
pub struct AssocMap<T> {
    entries: Vec<(u64, T)>,
}

impl<T> View for AssocMap<T> {
    type V = Map<u64, T>;

    closed spec fn view(&self) -> Map<u64, T> {
        map_of(self.entries@)
    }
}

impl<T: Copy> AssocMap<T> {
    /// The backing vector never carries a key twice.
    pub closed spec fn wf(&self) -> bool {
        forall|i: int, j: int|
            0 <= i < j < self.entries@.len() ==> (#[trigger] self.entries@[i]).0 != (
            #[trigger] self.entries@[j]).0
    }

    /// Creates an empty map.
    pub fn new() -> (r: AssocMap<T>)
        ensures
            r.wf(),
            r@ == Map::<u64, T>::empty(),
    {
        AssocMap { entries: Vec::new() }
    }

    /// Looks the key up, returning its value if the map holds one.
    pub fn get(&self, key: u64) -> (r: Option<T>)
        requires
            self.wf(),
        ensures
            r == if self@.contains_key(key) {
                Some(self@[key])
            } else {
                None::<T>
            },
    {
        let n = self.entries.len();
        let mut i: usize = 0;
        while i < n
            invariant
                n == self.entries@.len(),
                0 <= i <= n,
                self.wf(),
                forall|j: int| 0 <= j < i ==> (#[trigger] self.entries@[j]).0 != key,
            decreases n - i,
        {
            if self.entries[i].0 == key {
                proof {
                    lemma_map_of_present(self.entries@, i as int);
                }
                return Some(self.entries[i].1);
            }
            i += 1;
        }
        proof {
            lemma_map_of_absent(self.entries@, key);
        }
        None
    }

    /// Binds the key to the value, replacing any earlier binding.
    pub fn insert(&mut self, key: u64, value: T)
        requires
            old(self).wf(),
        ensures
            final(self).wf(),
            final(self)@ == old(self)@.insert(key, value),
    {
        let n = self.entries.len();
        let mut i: usize = 0;
        while i < n
            invariant
                n == self.entries@.len(),
                0 <= i <= n,
                self.wf(),
                self == old(self),
                forall|j: int| 0 <= j < i ==> (#[trigger] self.entries@[j]).0 != key,
            decreases n - i,
        {
            if self.entries[i].0 == key {
                proof {
                    lemma_map_of_update(self.entries@, i as int, key, value);
                }
                self.entries[i] = (key, value);
                return ;
            }
            i += 1;
        }
        proof {
            let pushed = self.entries@.push((key, value));
            assert(pushed.drop_last() =~= self.entries@);
            lemma_map_of_absent(self.entries@, key);
        }
        self.entries.push((key, value));
    }
}

} // verus!
