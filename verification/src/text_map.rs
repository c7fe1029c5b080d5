//! A map from texts to texts.

use vstd::prelude::*;

verus! {

broadcast use vstd::string::group_string_axioms;

/// A map from texts to texts, kept as a list of pairs. Of several pairs with
/// one key the first counts.
#[derive(Debug)]
pub struct TextMap {
    pub pairs: Vec<(String, String)>,
}

/// The map that a list of pairs stands for.
pub open spec fn pairs_map(pairs: Seq<(String, String)>) -> Map<Seq<char>, Seq<char>>
    decreases pairs.len(),
{
    if pairs.len() == 0 {
        Map::empty()
    } else {
        pairs_map(pairs.skip(1)).insert(pairs[0].0@, pairs[0].1@)
    }
}

impl View for TextMap {
    type V = Map<Seq<char>, Seq<char>>;

    open spec fn view(&self) -> Map<Seq<char>, Seq<char>> {
        pairs_map(self.pairs@)
    }
}

/// A key that no pair has is not in the map.
proof fn lemma_absent(pairs: Seq<(String, String)>, key: Seq<char>)
    requires
        forall|i: int| 0 <= i < pairs.len() ==> (#[trigger] pairs[i]).0@ != key,
    ensures
        !pairs_map(pairs).dom().contains(key),
    decreases pairs.len(),
{
    if pairs.len() > 0 {
        let rest = pairs.skip(1);
        assert forall|i: int| 0 <= i < rest.len() implies (#[trigger] rest[i]).0@ != key by {
            assert(rest[i] == pairs[i + 1]);
        }
        lemma_absent(rest, key);
    }
}

/// The first pair with a key says what the map holds under it.
proof fn lemma_first(pairs: Seq<(String, String)>, at: int)
    requires
        0 <= at < pairs.len(),
        forall|i: int| 0 <= i < at ==> (#[trigger] pairs[i]).0@ != pairs[at].0@,
    ensures
        pairs_map(pairs).dom().contains(pairs[at].0@),
        pairs_map(pairs)[pairs[at].0@] == pairs[at].1@,
    decreases at,
{
    if at > 0 {
        let rest = pairs.skip(1);
        assert(rest[at - 1] == pairs[at]);
        assert forall|i: int| 0 <= i < at - 1 implies (#[trigger] rest[i]).0@ != rest[at - 1].0@ by {
            assert(rest[i] == pairs[i + 1]);
        }
        lemma_first(rest, at - 1);
        assert(pairs[0].0@ != pairs[at].0@);
    }
}

/// Replacing the first pair with a key replaces what the map holds under it.
proof fn lemma_replace(pairs: Seq<(String, String)>, at: int, pair: (String, String))
    requires
        0 <= at < pairs.len(),
        pairs[at].0@ == pair.0@,
        forall|i: int| 0 <= i < at ==> (#[trigger] pairs[i]).0@ != pair.0@,
    ensures
        pairs_map(pairs.update(at, pair)) == pairs_map(pairs).insert(pair.0@, pair.1@),
    decreases at,
{
    let after = pairs.update(at, pair);
    if at == 0 {
        assert(after.skip(1) =~= pairs.skip(1));
        assert(pairs_map(after) =~= pairs_map(pairs).insert(pair.0@, pair.1@));
    } else {
        let rest = pairs.skip(1);
        assert(rest[at - 1] == pairs[at]);
        assert forall|i: int| 0 <= i < at - 1 implies (#[trigger] rest[i]).0@ != pair.0@ by {
            assert(rest[i] == pairs[i + 1]);
        }
        lemma_replace(rest, at - 1, pair);
        assert(after.skip(1) =~= rest.update(at - 1, pair));
        assert(pairs[0].0@ != pair.0@);
        assert(pairs_map(after) =~= pairs_map(pairs).insert(pair.0@, pair.1@));
    }
}

/// A pair with a new key at the end adds it to the map.
proof fn lemma_append(pairs: Seq<(String, String)>, pair: (String, String))
    requires
        forall|i: int| 0 <= i < pairs.len() ==> (#[trigger] pairs[i]).0@ != pair.0@,
    ensures
        pairs_map(pairs.push(pair)) == pairs_map(pairs).insert(pair.0@, pair.1@),
    decreases pairs.len(),
{
    let after = pairs.push(pair);
    reveal_with_fuel(pairs_map, 2);
    if pairs.len() == 0 {
        assert(after.skip(1) =~= Seq::empty());
        assert(after[0] == pair);
    } else {
        let rest = pairs.skip(1);
        assert forall|i: int| 0 <= i < rest.len() implies (#[trigger] rest[i]).0@ != pair.0@ by {
            assert(rest[i] == pairs[i + 1]);
        }
        lemma_append(rest, pair);
        assert(after.skip(1) =~= rest.push(pair));
        assert(after[0] == pairs[0]);
        assert(pairs[0].0@ != pair.0@);
        assert(pairs_map(after) =~= pairs_map(pairs).insert(pair.0@, pair.1@));
    }
}

/// Taking a pair out changes the map under its key alone.
proof fn lemma_take_out(pairs: Seq<(String, String)>, at: int)
    requires
        0 <= at < pairs.len(),
    ensures
        pairs_map(pairs.remove(at)).remove(pairs[at].0@) == pairs_map(pairs).remove(
            pairs[at].0@,
        ),
    decreases at,
{
    let after = pairs.remove(at);
    let key = pairs[at].0@;
    if at == 0 {
        assert(after =~= pairs.skip(1));
        assert(pairs_map(after).remove(key) =~= pairs_map(pairs).remove(key));
    } else {
        let rest = pairs.skip(1);
        assert(rest[at - 1] == pairs[at]);
        lemma_take_out(rest, at - 1);
        assert(after.skip(1) =~= rest.remove(at - 1));
        assert(after[0] == pairs[0]);
        let (first, value) = (pairs[0].0@, pairs[0].1@);
        let a = pairs_map(rest.remove(at - 1));
        let b = pairs_map(rest);
        if first == key {
            assert(a.insert(first, value).remove(key) =~= a.remove(key));
            assert(b.insert(first, value).remove(key) =~= b.remove(key));
        } else {
            assert(a.insert(first, value).remove(key) =~= a.remove(key).insert(first, value));
            assert(b.insert(first, value).remove(key) =~= b.remove(key).insert(first, value));
        }
    }
}

impl TextMap {
    /// An empty map.
    pub fn new() -> (r: TextMap)
        ensures
            r@ == Map::<Seq<char>, Seq<char>>::empty(),
    {
        TextMap { pairs: Vec::new() }
    }

    /// The position of the first pair with a key.
    fn find(&self, key: &String) -> (r: Option<usize>)
        ensures
            match r {
                Some(at) => at < self.pairs@.len() && self.pairs@[at as int].0@ == key@ && (
                forall|i: int| 0 <= i < at ==> (#[trigger] self.pairs@[i]).0@ != key@),
                None => forall|i: int|
                    0 <= i < self.pairs@.len() ==> (#[trigger] self.pairs@[i]).0@ != key@,
            },
    {
        let mut i: usize = 0;
        while i < self.pairs.len()
            invariant
                i <= self.pairs@.len(),
                forall|j: int| 0 <= j < i ==> (#[trigger] self.pairs@[j]).0@ != key@,
            decreases self.pairs@.len() - i,
        {
            if self.pairs[i].0 == *key {
                return Some(i);
            }
            i = i + 1;
        }
        None
    }

    /// Whether the map holds something under a key.
    pub fn contains_key(&self, key: &String) -> (r: bool)
        ensures
            r == self@.dom().contains(key@),
    {
        match self.find(key) {
            Some(at) => {
                proof {
                    lemma_first(self.pairs@, at as int);
                }
                true
            },
            None => {
                proof {
                    lemma_absent(self.pairs@, key@);
                }
                false
            },
        }
    }

    /// Whether the map holds a value under a key.
    pub fn holds(&self, key: &String, value: &String) -> (r: bool)
        ensures
            r == (self@.dom().contains(key@) && self@[key@] == value@),
    {
        match self.find(key) {
            Some(at) => {
                proof {
                    lemma_first(self.pairs@, at as int);
                }
                self.pairs[at].1 == *value
            },
            None => {
                proof {
                    lemma_absent(self.pairs@, key@);
                }
                false
            },
        }
    }

    /// What the map holds under a key.
    pub fn get(&self, key: &String) -> (r: Option<String>)
        ensures
            match r {
                Some(v) => self@.dom().contains(key@) && v@ == self@[key@],
                None => !self@.dom().contains(key@),
            },
    {
        match self.find(key) {
            Some(at) => {
                proof {
                    lemma_first(self.pairs@, at as int);
                }
                Some(self.pairs[at].1.clone())
            },
            None => {
                proof {
                    lemma_absent(self.pairs@, key@);
                }
                None
            },
        }
    }

    /// Puts a value under a key.
    pub fn insert(&mut self, key: String, value: String)
        ensures
            final(self)@ == old(self)@.insert(key@, value@),
    {
        let ghost before = self.pairs@;
        match self.find(&key) {
            Some(at) => {
                proof {
                    lemma_replace(before, at as int, (key, value));
                }
                self.pairs.set(at, (key, value));
            },
            None => {
                proof {
                    lemma_append(before, (key, value));
                }
                self.pairs.push((key, value));
            },
        }
    }

    /// Takes out what the map holds under a key. The result says whether there
    /// was anything.
    pub fn remove(&mut self, key: &String) -> (removed: bool)
        ensures
            final(self)@ == old(self)@.remove(key@),
            removed == old(self)@.dom().contains(key@),
    {
        let removed: bool = self.contains_key(key);
        let ghost before = self@;
        loop
            invariant
                self@.remove(key@) == before.remove(key@),
            ensures
                self@ == before.remove(key@),
            decreases self.pairs@.len(),
        {
            match self.find(key) {
                Some(at) => {
                    proof {
                        lemma_take_out(self.pairs@, at as int);
                    }
                    let _ = self.pairs.remove(at);
                },
                None => {
                    proof {
                        lemma_absent(self.pairs@, key@);
                        assert(self@.remove(key@) =~= self@);
                    }
                    break;
                },
            }
        }
        removed
    }
}

} // verus!
