//! A small map with text keys.

use vstd::prelude::*;

use crate::text::same_text;

verus! {

/// Values under text keys, in the order in which the keys first came.
pub struct Keyed<V> {
    entries: Vec<(String, V)>,
}

/// What the entries hold under `key`: the first entry of that key.
spec fn find<V>(entries: Seq<(String, V)>, key: Seq<char>) -> Option<V>
    decreases entries.len(),
{
    if entries.len() == 0 {
        None
    } else if entries[0].0@ == key {
        Some(entries[0].1)
    } else {
        find(entries.skip(1), key)
    }
}

proof fn lemma_find_at<V>(entries: Seq<(String, V)>, key: Seq<char>, i: int)
    requires
        0 <= i < entries.len(),
        entries[i].0@ == key,
        forall|j: int| 0 <= j < i ==> (#[trigger] entries[j]).0@ != key,
    ensures
        find(entries, key) == Some(entries[i].1),
    decreases entries.len(),
{
    if i > 0 {
        assert(entries[0].0@ != key);
        lemma_find_at(entries.skip(1), key, i - 1);
    }
}

proof fn lemma_find_none<V>(entries: Seq<(String, V)>, key: Seq<char>)
    requires
        forall|j: int| 0 <= j < entries.len() ==> (#[trigger] entries[j]).0@ != key,
    ensures
        find(entries, key) is None,
    decreases entries.len(),
{
    if entries.len() > 0 {
        assert(entries[0].0@ != key);
        lemma_find_none(entries.skip(1), key);
    }
}

proof fn lemma_find_push<V>(entries: Seq<(String, V)>, added: (String, V), key: Seq<char>)
    ensures
        find(entries.push(added), key) == (match find(entries, key) {
            Some(v) => Some(v),
            None => if added.0@ == key {
                Some(added.1)
            } else {
                None
            },
        }),
    decreases entries.len(),
{
    if entries.len() > 0 {
        assert(entries.push(added).skip(1) =~= entries.skip(1).push(added));
        lemma_find_push(entries.skip(1), added, key);
    } else {
        assert(entries.push(added).skip(1) =~= entries);
    }
}

proof fn lemma_find_update<V>(entries: Seq<(String, V)>, i: int, changed: (String, V), key: Seq<char>)
    requires
        0 <= i < entries.len(),
        changed.0@ == entries[i].0@,
        changed.0@ != key,
    ensures
        find(entries.update(i, changed), key) == find(entries, key),
    decreases entries.len(),
{
    if i == 0 {
        assert(entries.update(i, changed).skip(1) =~= entries.skip(1));
    } else {
        assert(entries.update(i, changed).skip(1) =~= entries.skip(1).update(i - 1, changed));
        lemma_find_update(entries.skip(1), i - 1, changed, key);
    }
}

spec fn map_of<V>(entries: Seq<(String, V)>) -> Map<Seq<char>, V> {
    Map::new(|k: Seq<char>| find(entries, k) is Some, |k: Seq<char>| find(entries, k)->0)
}

impl<V> View for Keyed<V> {
    type V = Map<Seq<char>, V>;

    closed spec fn view(&self) -> Map<Seq<char>, V> {
        map_of(self.entries@)
    }
}

impl<V> Keyed<V> {
    /// A map that holds nothing.
    pub fn new() -> (map: Keyed<V>)
        ensures
            map@ == Map::<Seq<char>, V>::empty(),
    {
        let map = Keyed { entries: Vec::new() };
        assert(map@ =~= Map::<Seq<char>, V>::empty());
        map
    }

    fn position(&self, key: &str) -> (found: Option<usize>)
        ensures
            match found {
                Some(i) => {
                    &&& i < self.entries@.len()
                    &&& self.entries@[i as int].0@ == key@
                    &&& forall|j: int| 0 <= j < i ==> (#[trigger] self.entries@[j]).0@ != key@
                    &&& find(self.entries@, key@) == Some(self.entries@[i as int].1)
                },
                None => find(self.entries@, key@) is None,
            },
    {
        let mut i: usize = 0;
        while i < self.entries.len()
            invariant
                i <= self.entries@.len(),
                forall|j: int| 0 <= j < i ==> (#[trigger] self.entries@[j]).0@ != key@,
            decreases self.entries@.len() - i,
        {
            if same_text(self.entries[i].0.as_str(), key) {
                proof {
                    lemma_find_at(self.entries@, key@, i as int);
                }
                return Some(i);
            }
            i += 1;
        }
        proof {
            lemma_find_none(self.entries@, key@);
        }
        None
    }

    /// Whether the map holds nothing.
    pub fn is_empty(&self) -> (empty: bool)
        ensures
            empty == (self@ == Map::<Seq<char>, V>::empty()),
    {
        if self.entries.len() == 0 {
            assert(self@ =~= Map::<Seq<char>, V>::empty());
            true
        } else {
            assert(find(self.entries@, self.entries@[0].0@) is Some);
            assert(self@.contains_key(self.entries@[0].0@));
            false
        }
    }

    /// The value under `key`.
    pub fn get(&self, key: &str) -> (value: Option<&V>)
        ensures
            match value {
                Some(v) => self@.contains_key(key@) && *v == self@[key@],
                None => !self@.contains_key(key@),
            },
    {
        match self.position(key) {
            Some(i) => Some(&self.entries[i].1),
            None => None,
        }
    }

    /// Puts `value` under `key`, in place of what was there.
    pub fn set(&mut self, key: String, value: V)
        ensures
            final(self)@ == old(self)@.insert(key@, value),
    {
        let ghost before = self.entries@;
        let ghost entry = (key, value);
        match self.position(key.as_str()) {
            Some(i) => {
                self.entries.set(i, (key, value));
                proof {
                    assert forall|k: Seq<char>| #[trigger]
                        find(self.entries@, k) == if k == entry.0@ {
                            Some(entry.1)
                        } else {
                            find(before, k)
                        } by {
                        if k == entry.0@ {
                            lemma_find_at(self.entries@, k, i as int);
                        } else {
                            lemma_find_update(before, i as int, entry, k);
                        }
                    }
                }
            },
            None => {
                self.entries.push((key, value));
                proof {
                    assert forall|k: Seq<char>| #[trigger]
                        find(self.entries@, k) == if k == entry.0@ {
                            Some(entry.1)
                        } else {
                            find(before, k)
                        } by {
                        lemma_find_push(before, entry, k);
                    }
                }
            },
        }
        assert(self@ =~= old(self)@.insert(entry.0@, entry.1));
    }
}

/// The map that pairs make: a later pair takes the place of an earlier one with the
/// same key.
pub open spec fn paired<V>(pairs: Seq<(String, V)>) -> Map<Seq<char>, V>
    decreases pairs.len(),
{
    if pairs.len() == 0 {
        Map::empty()
    } else {
        paired(pairs.drop_last()).insert(pairs.last().0@, pairs.last().1)
    }
}

impl Keyed<String> {
    /// The entries as pairs.
    pub fn pairs(&self) -> (pairs: Vec<(String, String)>)
        ensures
            paired(pairs@) == self@,
    {
        let mut pairs: Vec<(String, String)> = Vec::new();
        let mut i: usize = self.entries.len();
        assert(paired(pairs@) =~= map_of(self.entries@.skip(i as int)));
        while i > 0
            invariant
                i <= self.entries@.len(),
                paired(pairs@) == map_of(self.entries@.skip(i as int)),
            decreases i,
        {
            let ghost before = pairs@;
            i -= 1;
            let key = self.entries[i].0.clone();
            let value = self.entries[i].1.clone();
            pairs.push((key, value));
            proof {
                let rest = self.entries@.skip(i as int);
                assert(rest.skip(1) =~= self.entries@.skip(i + 1));
                assert(rest[0] == self.entries@[i as int]);
                assert(pairs@.drop_last() =~= before);
                assert(paired(pairs@) =~= map_of(rest));
            }
        }
        assert(self.entries@.skip(0) =~= self.entries@);
        pairs
    }
}

/// A map gives under each name what was put there last, and nothing under a name under which
/// nothing was put.
pub proof fn law_map_gives_back_what_was_put_in<V>(
    map: &mut Keyed<V>,
    key: String,
    value: V,
    asked: &str,
    before: Option<&V>,
    found: Option<&V>,
)
    requires
        call_ensures(Keyed::<V>::get, (&*old(map), asked), before),
        call_ensures(Keyed::<V>::set, (map, key, value), ()),
        call_ensures(Keyed::<V>::get, (&*final(map), asked), found),
    ensures
        asked@ == key@ ==> found is Some && *found->0 == value,
        asked@ != key@ ==> (found is Some <==> before is Some) && (found is Some ==> *found->0
            == *before->0),
{
}

/// A new map holds nothing.
pub proof fn law_new_map_holds_nothing<V>(map: Keyed<V>, asked: &str, found: Option<&V>, empty: bool)
    requires
        call_ensures(Keyed::<V>::new, (), map),
        call_ensures(Keyed::<V>::get, (&map, asked), found),
        call_ensures(Keyed::<V>::is_empty, (&map,), empty),
    ensures
        found is None,
        empty,
{
}

} // verus!
