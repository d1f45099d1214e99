//! The two process-wide collections of the fetch coordinator: the set of
//! keys with a fetch in flight, and the map from a key to the message of its
//! last failed fetch. Both are keyed by the text of a cache key.

use vstd::prelude::*;

verus! {

/// Whether one of `keys` is the text `k`.
pub open spec fn holds(keys: Seq<String>, k: Seq<char>) -> bool {
    exists|i: int| 0 <= i < keys.len() && (#[trigger] keys[i])@ == k
}

/// The message that `entries` gives for the key `k`: that of the last entry
/// under this key, if there is one.
pub open spec fn lookup(entries: Seq<(String, String)>, k: Seq<char>) -> Option<Seq<char>>
    decreases entries.len(),
{
    if entries.len() == 0 {
        None
    } else if entries.last().0@ == k {
        Some(entries.last().1@)
    } else {
        lookup(entries.drop_last(), k)
    }
}

proof fn lemma_holds_push(keys: Seq<String>, x: String, k: Seq<char>)
    ensures
        holds(keys.push(x), k) <==> holds(keys, k) || x@ == k,
{
    let more = keys.push(x);
    if holds(keys, k) {
        let i = choose|i: int| 0 <= i < keys.len() && (#[trigger] keys[i])@ == k;
        assert(more[i]@ == k);
    }
    if x@ == k {
        assert(more[keys.len() as int]@ == k);
    }
    if holds(more, k) {
        let i = choose|i: int| 0 <= i < more.len() && (#[trigger] more[i])@ == k;
        if i < keys.len() {
            assert(keys[i]@ == k);
        }
    }
}

/// A set of keys.
pub struct KeySet {
    keys: Vec<String>,
}

impl View for KeySet {
    type V = Set<Seq<char>>;

    closed spec fn view(&self) -> Set<Seq<char>> {
        Set::new(|k: Seq<char>| holds(self.keys@, k))
    }
}

impl KeySet {
    /// The empty set.
    pub fn new() -> (s: KeySet)
        ensures
            s@ == Set::<Seq<char>>::empty(),
    {
        let s = KeySet { keys: Vec::new() };
        assert(s@ =~= Set::<Seq<char>>::empty());
        s
    }

    /// Whether `k` is in the set.
    pub fn contains(&self, k: &String) -> (r: bool)
        ensures
            r == self@.contains(k@),
    {
        let mut i: usize = 0;
        while i < self.keys.len()
            invariant
                i <= self.keys.len(),
                forall|j: int| 0 <= j < i ==> (#[trigger] self.keys@[j])@ != k@,
            decreases self.keys.len() - i,
        {
            if self.keys[i] == *k {
                return true;
            }
            i += 1;
        }
        false
    }

    /// Puts `k` into the set.
    pub fn insert(&mut self, k: String)
        ensures
            final(self)@ == old(self)@.insert(k@),
    {
        let ghost before = self.keys@;
        if !self.contains(&k) {
            self.keys.push(k);
        }
        assert(self@ =~= old(self)@.insert(k@)) by {
            assert forall|x: Seq<char>| self@.contains(x) <==> old(self)@.insert(k@).contains(
                x,
            ) by {
                if self.keys@.len() > before.len() {
                    lemma_holds_push(before, k, x);
                }
            }
        }
    }

    /// Takes `k` out of the set.
    pub fn remove(&mut self, k: &String)
        ensures
            final(self)@ == old(self)@.remove(k@),
    {
        let mut kept: Vec<String> = Vec::new();
        let mut i: usize = 0;
        while i < self.keys.len()
            invariant
                i <= self.keys.len(),
                self.keys == old(self).keys,
                forall|x: Seq<char>|
                    #![trigger holds(kept@, x)]
                    #![trigger holds(self.keys@.take(i as int), x)]
                    holds(kept@, x) <==> x != k@ && holds(self.keys@.take(i as int), x),
            decreases self.keys.len() - i,
        {
            let ghost seen = self.keys@.take(i as int);
            let ghost more = self.keys@.take(i + 1);
            let ghost kept_before = kept@;
            assert(more == seen.push(self.keys@[i as int]));
            if self.keys[i] == *k {
            } else {
                kept.push(self.keys[i].clone());
                assert(kept@ == kept_before.push(self.keys@[i as int]));
            }
            assert forall|x: Seq<char>|
                #![trigger holds(kept@, x)]
                #![trigger holds(more, x)]
                holds(kept@, x) <==> x != k@ && holds(more, x) by {
                lemma_holds_push(seen, self.keys@[i as int], x);
                if kept@.len() > kept_before.len() {
                    lemma_holds_push(kept_before, self.keys@[i as int], x);
                }
            }
            i += 1;
        }
        assert(self.keys@.take(self.keys@.len() as int) == self.keys@);
        self.keys = kept;
        assert(self@ =~= old(self)@.remove(k@));
    }
}

/// A map from keys to messages.
pub struct ErrorMap {
    entries: Vec<(String, String)>,
}

impl View for ErrorMap {
    type V = Map<Seq<char>, Seq<char>>;

    closed spec fn view(&self) -> Map<Seq<char>, Seq<char>> {
        Map::new(
            |k: Seq<char>| lookup(self.entries@, k) is Some,
            |k: Seq<char>| lookup(self.entries@, k)->0,
        )
    }
}

impl ErrorMap {
    /// The empty map.
    pub fn new() -> (m: ErrorMap)
        ensures
            m@ == Map::<Seq<char>, Seq<char>>::empty(),
    {
        let m = ErrorMap { entries: Vec::new() };
        assert(m@ =~= Map::<Seq<char>, Seq<char>>::empty());
        m
    }

    /// The message under `k`, if there is one.
    pub fn get(&self, k: &String) -> (r: Option<String>)
        ensures
            match r {
                Some(message) => self@.contains_key(k@) && self@[k@] == message@,
                None => !self@.contains_key(k@),
            },
    {
        let mut i: usize = self.entries.len();
        assert(self.entries@.take(i as int) == self.entries@);
        while i > 0
            invariant
                i <= self.entries.len(),
                lookup(self.entries@, k@) == lookup(self.entries@.take(i as int), k@),
            decreases i,
        {
            let ghost cur = self.entries@.take(i as int);
            i -= 1;
            assert(cur.last() == self.entries@[i as int]);
            if self.entries[i].0 == *k {
                return Some(self.entries[i].1.clone());
            }
            assert(cur.drop_last() == self.entries@.take(i as int));
        }
        None
    }

    /// Takes the entry under `k` out of the map.
    pub fn remove(&mut self, k: &String)
        ensures
            final(self)@ == old(self)@.remove(k@),
    {
        let mut kept: Vec<(String, String)> = Vec::new();
        let mut i: usize = 0;
        while i < self.entries.len()
            invariant
                i <= self.entries.len(),
                self.entries == old(self).entries,
                lookup(kept@, k@) is None,
                forall|x: Seq<char>|
                    #![trigger lookup(kept@, x)]
                    #![trigger lookup(self.entries@.take(i as int), x)]
                    x != k@ ==> lookup(kept@, x) == lookup(self.entries@.take(i as int), x),
            decreases self.entries.len() - i,
        {
            let ghost seen = self.entries@.take(i as int);
            let ghost more = self.entries@.take(i + 1);
            let ghost kept_before = kept@;
            assert(more.drop_last() == seen);
            assert(more.last() == self.entries@[i as int]);
            if self.entries[i].0 == *k {
            } else {
                let entry = (self.entries[i].0.clone(), self.entries[i].1.clone());
                kept.push(entry);
                assert(kept@.drop_last() == kept_before);
                assert(kept@.last() == self.entries@[i as int]);
            }
            i += 1;
        }
        assert(self.entries@.take(self.entries@.len() as int) == self.entries@);
        self.entries = kept;
        assert(self@ =~= old(self)@.remove(k@));
    }

    /// Puts `message` under `k`, in place of what was there.
    pub fn insert(&mut self, k: String, message: String)
        ensures
            final(self)@ == old(self)@.insert(k@, message@),
    {
        self.remove(&k);
        let ghost before = self.entries@;
        let ghost entry = (k, message);
        self.entries.push((k, message));
        assert(self.entries@.drop_last() == before);
        assert(self.entries@.last() == entry);
        assert forall|x: Seq<char>|
            #![trigger lookup(self.entries@, x)]
            #![trigger lookup(before, x)]
            lookup(self.entries@, x) == (if x == entry.0@ {
                Some(entry.1@)
            } else {
                lookup(before, x)
            }) by {}
        let ghost removed = old(self)@.remove(entry.0@);
        let ghost target = old(self)@.insert(entry.0@, entry.1@);
        assert forall|x: Seq<char>| self@.dom().contains(x) <==> target.dom().contains(x) by {
            assert(removed.dom().contains(x) <==> lookup(before, x) is Some);
            assert(self@.dom().contains(x) <==> lookup(self.entries@, x) is Some);
        }
        assert forall|x: Seq<char>| self@.dom().contains(x) implies self@[x] == target[x] by {
            assert(removed.dom().contains(x) <==> lookup(before, x) is Some);
            assert(self@[x] == lookup(self.entries@, x)->0);
            if x != entry.0@ {
                assert(removed[x] == lookup(before, x)->0);
            }
        }
        assert(self@ =~= target);
    }
}

} // verus!
