//! Two small collections keyed by text: a map that keeps insertion order and
//! a set.

use crate::text::same_text;
use vstd::prelude::*;

verus! {

/// Texts by key. A key occurs at most once; entries stay in the order in
/// which their keys were first inserted.
#[derive(Debug)]
pub struct StringMap {
    entries: Vec<(String, String)>,
}

/// Whether no key occurs twice among `entries`.
pub open spec fn keys_distinct(entries: Seq<(Seq<char>, Seq<char>)>) -> bool {
    forall|i: int, j: int| 0 <= i < j < entries.len() ==> entries[i].0 != entries[j].0
}

/// Whether `key` is a key of `entries`.
pub open spec fn has_key(entries: Seq<(Seq<char>, Seq<char>)>, key: Seq<char>) -> bool {
    exists|i: int| 0 <= i < entries.len() && (#[trigger] entries[i]).0 == key
}

impl StringMap {
    /// The entries as pairs of key and value, in insertion order.
    pub closed spec fn view(&self) -> Seq<(Seq<char>, Seq<char>)> {
        Seq::new(self.entries@.len(), |i: int| (self.entries@[i].0@, self.entries@[i].1@))
    }

    #[verifier::type_invariant]
    spec fn well_formed(self) -> bool {
        keys_distinct(self.view())
    }

    /// A map without entries.
    pub fn new() -> (r: StringMap)
        ensures
            r@.len() == 0,
    {
        StringMap { entries: Vec::new() }
    }

    /// Number of entries.
    pub fn len(&self) -> (r: usize)
        ensures
            r == self@.len(),
    {
        self.entries.len()
    }

    /// Whether the map has no entries.
    pub fn is_empty(&self) -> (r: bool)
        ensures
            r == (self@.len() == 0),
    {
        self.entries.len() == 0
    }

    /// The entries in insertion order. No key occurs twice.
    pub fn entries(&self) -> (r: &Vec<(String, String)>)
        ensures
            r@.len() == self@.len(),
            forall|i: int| 0 <= i < r@.len() ==> (#[trigger] r@[i]).0@ == self@[i].0 && r@[i].1@ == self@[i].1,
            keys_distinct(self@),
    {
        proof {
            use_type_invariant(self);
        }
        &self.entries
    }

    /// The value stored under `key`, if any.
    pub fn get(&self, key: &str) -> (r: Option<&String>)
        ensures
            match r {
                Some(v) => exists|i: int|
                    0 <= i < self@.len() && #[trigger] self@[i] == (key@, v@),
                None => !has_key(self@, key@),
            },
    {
        let n = self.entries.len();
        let mut i: usize = 0;
        while i < n
            invariant
                n == self.entries@.len(),
                i <= n,
                forall|k: int| 0 <= k < i ==> (#[trigger] self@[k]).0 != key@,
            decreases n - i,
        {
            if same_text(self.entries[i].0.as_str(), key) {
                proof {
                    assert(self@[i as int] == (key@, self.entries@[i as int].1@));
                }
                return Some(&self.entries[i].1);
            }
            i += 1;
        }
        None
    }

    /// Whether the map has an entry under `key`.
    pub fn contains_key(&self, key: &str) -> (r: bool)
        ensures
            r == has_key(self@, key@),
    {
        match self.get(key) {
            Some(_) => true,
            None => false,
        }
    }

    /// Stores `value` under `key`. An entry with that key keeps its place and
    /// gets the new value; otherwise the entry is added at the end.
    pub fn insert(&mut self, key: String, value: String)
        ensures
            has_key(old(self)@, key@) ==> exists|i: int|
                0 <= i < old(self)@.len() && (#[trigger] old(self)@[i]).0 == key@ && final(self)@
                    == old(self)@.update(i, (key@, value@)),
            !has_key(old(self)@, key@) ==> final(self)@ == old(self)@.push((key@, value@)),
            keys_distinct(final(self)@),
    {
        proof {
            use_type_invariant(&*self);
        }
        let n = self.entries.len();
        let mut i: usize = 0;
        while i < n
            invariant
                n == self.entries@.len(),
                i <= n,
                *self == *old(self),
                keys_distinct(self@),
                forall|k: int| 0 <= k < i ==> (#[trigger] self@[k]).0 != key@,
            decreases n - i,
        {
            if same_text(self.entries[i].0.as_str(), key.as_str()) {
                let mut entries: Vec<(String, String)> = Vec::new();
                let ghost target = old(self)@.update(i as int, (key@, value@));
                let mut k: usize = 0;
                while k < i
                    invariant
                        n == self.entries@.len(),
                        i < n,
                        k <= i,
                        *self == *old(self),
                        entries@.len() == k,
                        forall|a: int|
                            0 <= a < k ==> (#[trigger] entries@[a]).0@ == self@[a].0 && entries@[a].1@
                                == self@[a].1,
                    decreases i - k,
                {
                    entries.push((self.entries[k].0.clone(), self.entries[k].1.clone()));
                    k += 1;
                }
                entries.push((key, value));
                let mut k: usize = i + 1;
                while k < n
                    invariant
                        n == self.entries@.len(),
                        i < k <= n,
                        *self == *old(self),
                        target == self@.update(i as int, (key@, value@)),
                        entries@.len() == k,
                        forall|a: int|
                            0 <= a < k ==> (#[trigger] entries@[a]).0@ == target[a].0 && entries@[a].1@
                                == target[a].1,
                    decreases n - k,
                {
                    entries.push((self.entries[k].0.clone(), self.entries[k].1.clone()));
                    k += 1;
                }
                let ghost before = self@;
                proof {
                    assert(keys_distinct(target)) by {
                        assert forall|a: int, b: int| 0 <= a < b < target.len() implies target[a].0
                            != target[b].0 by {
                            assert(before[i as int].0 == key@);
                        }
                    }
                    assert(before[i as int].0 == key@);
                }
                self.entries = entries;
                return ;
            }
            i += 1;
        }
        let ghost before = self@;
        proof {
            let added = before.push((key@, value@));
            assert(keys_distinct(added)) by {
                assert forall|a: int, b: int| 0 <= a < b < added.len() implies added[a].0
                    != added[b].0 by {}
            }
        }
        let mut entries: Vec<(String, String)> = Vec::new();
        let mut k: usize = 0;
        while k < n
            invariant
                n == self.entries@.len(),
                k <= n,
                *self == *old(self),
                entries@.len() == k,
                forall|a: int|
                    0 <= a < k ==> (#[trigger] entries@[a]).0@ == self@[a].0 && entries@[a].1@
                        == self@[a].1,
            decreases n - k,
        {
            entries.push((self.entries[k].0.clone(), self.entries[k].1.clone()));
            k += 1;
        }
        entries.push((key, value));
        self.entries = entries;
    }

    /// An independent copy of the map.
    pub fn duplicate(&self) -> (r: StringMap)
        ensures
            r@ == self@,
    {
        proof {
            use_type_invariant(self);
        }
        let n = self.entries.len();
        let mut entries: Vec<(String, String)> = Vec::new();
        let mut k: usize = 0;
        while k < n
            invariant
                n == self.entries@.len(),
                k <= n,
                entries@.len() == k,
                forall|a: int|
                    0 <= a < k ==> (#[trigger] entries@[a]).0@ == self@[a].0 && entries@[a].1@
                        == self@[a].1,
            decreases n - k,
        {
            entries.push((self.entries[k].0.clone(), self.entries[k].1.clone()));
            k += 1;
        }
        StringMap { entries }
    }
}

/// The set of the texts in `members`.
pub open spec fn text_set(members: Seq<String>) -> Set<Seq<char>> {
    Set::new(|p: Seq<char>| exists|i: int| 0 <= i < members.len() && (#[trigger] members[i])@ == p)
}

/// Appending a text adds it to the set.
pub proof fn lemma_text_set_push(members: Seq<String>, added: String)
    ensures
        text_set(members.push(added)) == text_set(members).insert(added@),
{
    let grown = members.push(added);
    assert forall|p: Seq<char>| text_set(grown).contains(p) == text_set(members).insert(
        added@,
    ).contains(p) by {
        if text_set(grown).contains(p) {
            let k = choose|k: int| 0 <= k < grown.len() && (#[trigger] grown[k])@ == p;
        }
        if text_set(members).contains(p) {
            let k = choose|k: int| 0 <= k < members.len() && (#[trigger] members[k])@ == p;
            assert(grown[k]@ == p);
        }
        if p == added@ {
            assert(grown[members.len() as int]@ == p);
        }
    }
}

/// A set of texts.
#[derive(Debug)]
pub struct PathSet {
    members: Vec<String>,
}

impl PathSet {
    /// The texts in the set.
    pub closed spec fn view(&self) -> Set<Seq<char>> {
        text_set(self.members@)
    }

    /// The empty set.
    pub fn new() -> (r: PathSet)
        ensures
            r@ == Set::<Seq<char>>::empty(),
    {
        let r = PathSet { members: Vec::new() };
        r
    }

    /// Whether `path` is in the set.
    pub fn contains(&self, path: &str) -> (r: bool)
        ensures
            r == self@.contains(path@),
    {
        let n = self.members.len();
        let mut i: usize = 0;
        while i < n
            invariant
                n == self.members@.len(),
                i <= n,
                forall|k: int| 0 <= k < i ==> (#[trigger] self.members@[k])@ != path@,
            decreases n - i,
        {
            if same_text(self.members[i].as_str(), path) {
                return true;
            }
            i += 1;
        }
        false
    }

    /// Adds `path` to the set.
    pub fn insert(&mut self, path: String)
        ensures
            final(self)@ == old(self)@.insert(path@),
    {
        if !self.contains(path.as_str()) {
            proof {
                lemma_text_set_push(self.members@, path);
            }
            self.members.push(path);
        }
    }

    /// Removes `path` from the set.
    pub fn remove(&mut self, path: &str)
        ensures
            final(self)@ == old(self)@.remove(path@),
    {
        let n = self.members.len();
        let mut kept: Vec<String> = Vec::new();
        let mut i: usize = 0;
        while i < n
            invariant
                n == self.members@.len(),
                i <= n,
                *self == *old(self),
                text_set(kept@) == text_set(self.members@.take(i as int)).remove(path@),
            decreases n - i,
        {
            proof {
                let seen = self.members@.take(i as int);
                assert(self.members@.take(i + 1) =~= seen.push(self.members@[i as int]));
                lemma_text_set_push(seen, self.members@[i as int]);
            }
            if !same_text(self.members[i].as_str(), path) {
                let copy = self.members[i].clone();
                proof {
                    lemma_text_set_push(kept@, copy);
                }
                kept.push(copy);
            } else {
            }
            i += 1;
        }
        proof {
            assert(self.members@.take(n as int) =~= self.members@);
        }
        self.members = kept;
    }

    /// Removes every member.
    pub fn clear(&mut self)
        ensures
            final(self)@ == Set::<Seq<char>>::empty(),
    {
        self.members = Vec::new();
    }

    /// An independent copy of the set.
    pub fn duplicate(&self) -> (r: PathSet)
        ensures
            r@ == self@,
    {
        let n = self.members.len();
        let mut members: Vec<String> = Vec::new();
        let mut i: usize = 0;
        while i < n
            invariant
                n == self.members@.len(),
                i <= n,
                members@.len() == i,
                forall|k: int| 0 <= k < i ==> (#[trigger] members@[k])@ == self.members@[k]@,
            decreases n - i,
        {
            members.push(self.members[i].clone());
            i += 1;
        }
        let r = PathSet { members };
        proof {
            assert forall|p: Seq<char>| r@.contains(p) == self@.contains(p) by {
                if r@.contains(p) {
                    let k = choose|k: int| 0 <= k < r.members@.len() && (#[trigger] r.members@[k])@ == p;
                }
                if self@.contains(p) {
                    let k = choose|k: int|
                        0 <= k < self.members@.len() && (#[trigger] self.members@[k])@ == p;
                    assert(r.members@[k]@ == p);
                }
            }
        }
        r
    }
}

} // verus!
