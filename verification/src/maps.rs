//! Maps from keys to values, with overwrite on repeated insertion.
//!
//! A hash table keyed by strings cannot be reasoned about through its
//! hashes, so the map is held as an association list with an invariant
//! that keys are never repeated; its view is an abstract [`Map`] from key
//! text to value, and inserting twice under one key is proved to keep only
//! the later value.

use vstd::prelude::*;

verus! {

/// The value associated with the first entry of `s` whose key reads `k`,
/// if any entry does.
spec fn assoc_get(s: Seq<(String, u8)>, k: Seq<char>) -> Option<u8>
    decreases s.len(),
{
    if s.len() == 0 {
        None
    } else if s[0].0@ == k {
        Some(s[0].1)
    } else {
        assoc_get(s.drop_first(), k)
    }
}

/// Replacing the entry at `i` by one with equal key text rebinds exactly
/// that key, provided keys are unique.
proof fn lemma_assoc_get_update(s: Seq<(String, u8)>, i: int, e: (String, u8), k2: Seq<char>)
    requires
        0 <= i < s.len(),
        s[i].0@ == e.0@,
        forall|p: int, q: int| 0 <= p < q < s.len() ==> s[p].0@ != s[q].0@,
    ensures
        assoc_get(s.update(i, e), k2) == if k2 == e.0@ {
            Some(e.1)
        } else {
            assoc_get(s, k2)
        },
    decreases s.len(),
{
    let updated = s.update(i, e);
    if i == 0 {
        assert(updated.drop_first() =~= s.drop_first());
    } else {
        assert(updated[0] == s[0]);
        assert(updated.drop_first() =~= s.drop_first().update(i - 1, e));
        assert forall|p: int, q: int| 0 <= p < q < s.drop_first().len() implies s.drop_first()[p].0@
            != s.drop_first()[q].0@ by {
            assert(s.drop_first()[p] == s[p + 1]);
            assert(s.drop_first()[q] == s[q + 1]);
        }
        lemma_assoc_get_update(s.drop_first(), i - 1, e, k2);
    }
}

/// A key that no entry of `s` carries is not bound by `s` at all.
proof fn lemma_assoc_get_none(s: Seq<(String, u8)>, k: Seq<char>)
    requires
        forall|i: int| 0 <= i < s.len() ==> (#[trigger] s[i]).0@ != k,
    ensures
        assoc_get(s, k) is None,
    decreases s.len(),
{
    if s.len() > 0 {
        assert forall|i: int| 0 <= i < s.drop_first().len() implies (
        #[trigger] s.drop_first()[i]).0@ != k by {
            assert(s.drop_first()[i] == s[i + 1]);
        }
        lemma_assoc_get_none(s.drop_first(), k);
    }
}

/// Appending an entry whose key text occurs nowhere in `s` binds exactly
/// that key and leaves every other lookup unchanged.
proof fn lemma_assoc_get_push(s: Seq<(String, u8)>, e: (String, u8), k2: Seq<char>)
    requires
        forall|i: int| 0 <= i < s.len() ==> (#[trigger] s[i]).0@ != e.0@,
    ensures
        assoc_get(s.push(e), k2) == if k2 == e.0@ {
            Some(e.1)
        } else {
            assoc_get(s, k2)
        },
    decreases s.len(),
{
    if s.len() == 0 {
        assert(s.push(e)[0] == e);
        assert(s.push(e).drop_first() =~= Seq::<(String, u8)>::empty());
        if k2 == e.0@ {
            assert(assoc_get(s.push(e), k2) == Some(e.1));
        } else {
            assert(assoc_get(Seq::<(String, u8)>::empty(), k2) is None);
            assert(assoc_get(s.push(e), k2) is None);
            assert(assoc_get(s, k2) is None);
        }
    } else {
        assert(s.push(e)[0] == s[0]);
        assert(s.push(e).drop_first() =~= s.drop_first().push(e));
        assert forall|i: int| 0 <= i < s.drop_first().len() implies (
        #[trigger] s.drop_first()[i]).0@ != e.0@ by {
            assert(s.drop_first()[i] == s[i + 1]);
        }
        lemma_assoc_get_push(s.drop_first(), e, k2);
        if k2 == s[0].0@ {
            assert(s[0].0@ != e.0@);
            assert(assoc_get(s.push(e), k2) == Some(s[0].1));
            assert(assoc_get(s, k2) == Some(s[0].1));
        } else {
            assert(assoc_get(s.push(e), k2) == assoc_get(s.drop_first().push(e), k2));
            assert(assoc_get(s, k2) == assoc_get(s.drop_first(), k2));
        }
    }
}

/// A key that some entry of `s` carries is bound by `s`.
proof fn lemma_assoc_get_present(s: Seq<(String, u8)>, i: int)
    requires
        0 <= i < s.len(),
    ensures
        assoc_get(s, s[i].0@) is Some,
    decreases s.len(),
{
    if s[0].0@ == s[i].0@ {
    } else {
        assert(i != 0);
        assert(s.drop_first()[i - 1] == s[i]);
        lemma_assoc_get_present(s.drop_first(), i - 1);
    }
}

/// A map from string keys to byte values. Lookups go by the text of the
/// key, and inserting under a key that is already bound overwrites the
/// old value.
#[derive(Debug)]
pub struct StringMap {
    entries: Vec<(String, u8)>,
}

impl View for StringMap {
    type V = Map<Seq<char>, u8>;

    closed spec fn view(&self) -> Map<Seq<char>, u8> {
        Map::new(
            |k: Seq<char>| assoc_get(self.entries@, k) is Some,
            |k: Seq<char>| assoc_get(self.entries@, k)->Some_0,
        )
    }
}

impl StringMap {
    /// No key is bound by two entries.
    pub closed spec fn well_formed(&self) -> bool {
        forall|p: int, q: int|
            0 <= p < q < self.entries@.len() ==> (#[trigger] self.entries@[p]).0@ != (
            #[trigger] self.entries@[q]).0@
    }

    /// How many keys the map binds.
    pub closed spec fn spec_len(&self) -> nat {
        self.entries@.len()
    }

    /// The empty map: it binds no key.
    pub fn new() -> (m: StringMap)
        ensures
            m.well_formed(),
            m@ == Map::<Seq<char>, u8>::empty(),
            m.spec_len() == 0,
    {
        let m = StringMap { entries: Vec::new() };
        proof {
            assert(m@ =~= Map::<Seq<char>, u8>::empty());
        }
        m
    }

    /// Binds `key` to `value`. If the key was bound already its old value
    /// is overwritten and the map does not grow; otherwise the map grows
    /// by exactly that one binding.
    pub fn insert(&mut self, key: String, value: u8)
        requires
            old(self).well_formed(),
        ensures
            final(self).well_formed(),
            final(self)@ == old(self)@.insert(key@, value),
            final(self).spec_len() == if old(self)@.contains_key(key@) {
                old(self).spec_len()
            } else {
                old(self).spec_len() + 1
            },
    {
        let mut i: usize = 0;
        while i < self.entries.len()
            invariant
                i <= self.entries@.len(),
                self == old(self),
                old(self).well_formed(),
                forall|j: int| 0 <= j < i ==> (#[trigger] self.entries@[j]).0@ != key@,
            decreases self.entries@.len() - i,
        {
            if self.entries[i].0 == key {
                let ghost entries_before = self.entries@;
                self.entries[i] = (key, value);
                proof {
                    lemma_assoc_get_update(
                        entries_before,
                        i as int,
                        self.entries@[i as int],
                        key@,
                    );
                    assert forall|k2: Seq<char>|
                        assoc_get(self.entries@, k2) == if k2 == key@ {
                            Some(value)
                        } else {
                            assoc_get(entries_before, k2)
                        } by {
                        lemma_assoc_get_update(
                            entries_before,
                            i as int,
                            self.entries@[i as int],
                            k2,
                        );
                    }
                    assert(self@ =~= old(self)@.insert(key@, value));
                    lemma_assoc_get_present(entries_before, i as int);
                    assert(old(self)@.contains_key(key@));
                }
                return ;
            }
            i = i + 1;
        }
        let ghost entries_before = self.entries@;
        let ghost new_entry = (key, value);
        self.entries.push((key, value));
        proof {
            assert(self.entries@ == entries_before.push(new_entry));
            assert forall|k2: Seq<char>|
                assoc_get(self.entries@, k2) == if k2 == key@ {
                    Some(value)
                } else {
                    assoc_get(entries_before, k2)
                } by {
                lemma_assoc_get_push(entries_before, new_entry, k2);
            }
            assert(self@ =~= old(self)@.insert(key@, value));
            lemma_assoc_get_none(entries_before, key@);
            assert(!old(self)@.contains_key(key@));
        }
    }

    /// Looks the key's text up: `Some` of the bound value exactly when the
    /// map binds the key, `None` exactly when it does not.
    pub fn get(&self, key: &String) -> (r: Option<u8>)
        ensures
            match r {
                Some(v) => self@.contains_key(key@) && v == self@[key@],
                None => !self@.contains_key(key@),
            },
    {
        proof {
            assert(self.entries@.skip(0) =~= self.entries@);
        }
        let mut i: usize = 0;
        while i < self.entries.len()
            invariant
                i <= self.entries@.len(),
                assoc_get(self.entries@, key@) == assoc_get(
                    self.entries@.skip(i as int),
                    key@,
                ),
            decreases self.entries@.len() - i,
        {
            proof {
                assert(self.entries@.skip(i as int)[0] == self.entries@[i as int]);
                assert(self.entries@.skip(i as int).drop_first() =~= self.entries@.skip(
                    i + 1 as int,
                ));
            }
            if self.entries[i].0 == *key {
                return Some(self.entries[i].1);
            }
            i = i + 1;
        }
        proof {
            assert(self.entries@.skip(self.entries@.len() as int) =~= Seq::<(
                String,
                u8,
            )>::empty());
        }
        None
    }

    /// How many keys are bound, as an executable count.
    pub fn len(&self) -> (n: usize)
        ensures
            n == self.spec_len(),
    {
        self.entries.len()
    }
}

/// Map demonstration with plain string keys: `"seth"` is bound to `1`,
/// overwritten with `2`, and `"chelsea"` is bound to `1`. The resulting
/// map is proved to bind exactly those two keys, with the overwrite kept.
pub fn basic_hashmap() -> (m: StringMap)
    ensures
        m.well_formed(),
        m@ == Map::<Seq<char>, u8>::empty().insert("seth"@, 2u8).insert("chelsea"@, 1u8),
{
    let mut map = StringMap::new();
    map.insert("seth".to_owned(), 1);
    map.insert("seth".to_owned(), 2);
    map.insert("chelsea".to_owned(), 1);
    proof {
        assert(map@ =~= Map::<Seq<char>, u8>::empty().insert("seth"@, 2u8).insert(
            "chelsea"@,
            1u8,
        ));
    }
    map
}

/// A key made of several fields: an owned name and a numeric value.
#[derive(Debug, Hash, PartialEq, Eq)]
pub struct CompoundKey {
    pub name: String,
    pub value: i32,
}

/// Map demonstration with a compound key: a single association from the
/// key `("toast", 3)` to the value `1`, proved to be the only entry.
pub fn compound_key_hashmap() -> (m: Vec<(CompoundKey, u8)>)
    ensures
        m@.len() == 1,
        m@[0].0.name@ == "toast"@,
        m@[0].0.value == 3,
        m@[0].1 == 1,
{
    let mut map: Vec<(CompoundKey, u8)> = Vec::new();
    map.push((CompoundKey { name: "toast".to_owned(), value: 3 }, 1));
    map
}

/// Runs both map demonstrations and returns their results, each pinned by
/// the contracts above.
pub fn hashmaps() -> (r: (StringMap, Vec<(CompoundKey, u8)>))
    ensures
        r.0.well_formed(),
        r.0@ == Map::<Seq<char>, u8>::empty().insert("seth"@, 2u8).insert("chelsea"@, 1u8),
        r.1@.len() == 1,
        r.1@[0].0.name@ == "toast"@,
        r.1@[0].0.value == 3,
        r.1@[0].1 == 1,
{
    (basic_hashmap(), compound_key_hashmap())
}

} // verus!
