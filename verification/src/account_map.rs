//! A small map keyed by account, kept as an association list.

use vstd::prelude::*;
use crate::account::AccountId;

verus! {

/// A finite map from accounts to values.
///
/// Each account occurs at most once among the keys, and the value stored for
/// the key at some position sits at the same position among the values.
pub struct AccountMap<V> {
    keys: Vec<AccountId>,
    values: Vec<V>,
}

impl<V> View for AccountMap<V> {
    type V = Map<AccountId, V>;

    closed spec fn view(&self) -> Map<AccountId, V> {
        Map::new(
            |k: AccountId| self.keys@.contains(k),
            |k: AccountId| self.values@[self.keys@.index_of(k)],
        )
    }
}

impl<V> AccountMap<V> {
    /// No account is listed twice, and every key has its value.
    pub closed spec fn wf(&self) -> bool {
        &&& self.keys@.no_duplicates()
        &&& self.keys@.len() == self.values@.len()
    }

    pub fn new() -> (m: Self)
        ensures
            m.wf(),
            m@ == Map::<AccountId, V>::empty(),
    {
        let m = AccountMap { keys: Vec::new(), values: Vec::new() };
        assert(m@ =~= Map::<AccountId, V>::empty());
        m
    }

    /// The position of `key` among the keys, if it is listed.
    fn position(&self, key: &AccountId) -> (r: Option<usize>)
        requires
            self.wf(),
        ensures
            match r {
                Some(i) => i < self.keys@.len() && self.keys@[i as int] == *key,
                None => !self.keys@.contains(*key),
            },
    {
        let mut i: usize = 0;
        while i < self.keys.len()
            invariant
                i <= self.keys@.len(),
                forall|j: int| 0 <= j < i ==> self.keys@[j] != *key,
            decreases self.keys@.len() - i,
        {
            if self.keys[i] == *key {
                return Some(i);
            }
            i += 1;
        }
        None
    }

    /// Whether a value is stored for `key`.
    pub fn contains(&self, key: &AccountId) -> (r: bool)
        requires
            self.wf(),
        ensures
            r == self@.contains_key(*key),
    {
        self.position(key).is_some()
    }

    /// The value stored for `key`, if there is one.
    pub fn get(&self, key: &AccountId) -> (r: Option<&V>)
        requires
            self.wf(),
        ensures
            match r {
                Some(v) => self@.contains_key(*key) && *v == self@[*key],
                None => !self@.contains_key(*key),
            },
    {
        match self.position(key) {
            Some(i) => {
                proof {
                    self.keys@.index_of_first_ensures(*key);
                }
                assert(self.keys@.index_of(*key) == i);
                Some(&self.values[i])
            },
            None => None,
        }
    }

    /// Stores `value` for `key`, replacing what was stored for it before.
    pub fn insert(&mut self, key: AccountId, value: V)
        requires
            old(self).wf(),
        ensures
            final(self).wf(),
            final(self)@ == old(self)@.insert(key, value),
    {
        match self.position(&key) {
            Some(i) => {
                self.values.set(i, value);
                assert(self@ =~= old(self)@.insert(key, value)) by {
                    assert forall|k: AccountId| self.keys@.contains(k) implies #[trigger] self@[k]
                        == old(self)@.insert(key, value)[k] by {
                        let j = self.keys@.index_of(k);
                        assert(self.keys@[j] == k);
                    }
                }
            },
            None => {
                self.keys.push(key);
                self.values.push(value);
                assert(self@ =~= old(self)@.insert(key, value)) by {
                    let n = old(self).keys@.len() as int;
                    assert(self.keys@[n] == key);
                    assert forall|k: AccountId| self.keys@.contains(k) implies old(self)@.insert(
                        key,
                        value,
                    ).contains_key(k) && #[trigger] self@[k] == old(self)@.insert(key, value)[k] by {
                        let j = self.keys@.index_of(k);
                        assert(self.keys@[j] == k);
                        if j < n {
                            assert(old(self).keys@[j] == k);
                            let j0 = old(self).keys@.index_of(k);
                            assert(old(self).keys@[j0] == k);
                            assert(self.keys@[j0] == k);
                        }
                    }
                    assert forall|k: AccountId| old(self)@.insert(key, value).contains_key(
                        k,
                    ) implies self.keys@.contains(k) by {
                        if k != key {
                            let j0 = old(self).keys@.index_of(k);
                            assert(self.keys@[j0] == k);
                        }
                    }
                }
            },
        }
    }
}

} // verus!
