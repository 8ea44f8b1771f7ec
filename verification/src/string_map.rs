//! A string-keyed association map with a `Map<Seq<char>, _>` model, used
//! for the in-memory cache store, the address-info index, and the fixed
//! info provider. Keys are unique by construction.

use vstd::prelude::*;

use crate::strutil::{glob_matches, str_eq};

verus! {

/// A map from strings to values, modelled as a `Map<Seq<char>, V::V>`.
pub struct StringMap<V: View> {
    pairs: Vec<(String, V)>,
}

/// The map denoted by a sequence of key/value pairs; later pairs win.
spec fn seq_model<V: View>(s: Seq<(String, V)>) -> Map<Seq<char>, V::V>
    decreases s.len(),
{
    if s.len() == 0 {
        Map::empty()
    } else {
        seq_model(s.drop_last()).insert(s.last().0@, s.last().1@)
    }
}

spec fn unique_keys<V: View>(s: Seq<(String, V)>) -> bool {
    forall|i: int, j: int| 0 <= i < j < s.len() ==> s[i].0@ != s[j].0@
}

proof fn lemma_seq_model_contains<V: View>(s: Seq<(String, V)>, k: Seq<char>)
    ensures
        seq_model(s).contains_key(k) <==> exists|i: int| 0 <= i < s.len() && s[i].0@ == k,
    decreases s.len(),
{
    if s.len() > 0 {
        lemma_seq_model_contains(s.drop_last(), k);
        if seq_model(s).contains_key(k) && s.last().0@ != k {
            let i = choose|i: int| 0 <= i < s.len() - 1 && s.drop_last()[i].0@ == k;
            assert(s[i].0@ == k);
        }
        if exists|i: int| 0 <= i < s.len() && s[i].0@ == k {
            let i = choose|i: int| 0 <= i < s.len() && s[i].0@ == k;
            if i < s.len() - 1 {
                assert(s.drop_last()[i].0@ == k);
            }
        }
    }
}

proof fn lemma_seq_model_value_at<V: View>(s: Seq<(String, V)>, i: int)
    requires
        unique_keys(s),
        0 <= i < s.len(),
    ensures
        seq_model(s).contains_key(s[i].0@),
        seq_model(s)[s[i].0@] == s[i].1@,
    decreases s.len(),
{
    if i == s.len() - 1 {
        lemma_seq_model_contains(s, s[i].0@);
    } else {
        assert(unique_keys(s.drop_last()));
        assert(s.drop_last()[i] == s[i]);
        lemma_seq_model_value_at(s.drop_last(), i);
        assert(s.last().0@ != s[i].0@);
    }
}

/// Removing the pair at an index removes exactly its key from the model.
proof fn lemma_seq_model_remove<V: View>(s: Seq<(String, V)>, i: int)
    requires
        unique_keys(s),
        0 <= i < s.len(),
    ensures
        seq_model(s.remove(i)) =~= seq_model(s).remove(s[i].0@),
    decreases s.len(),
{
    let k = s[i].0@;
    if i == s.len() - 1 {
        assert(s.remove(i) =~= s.drop_last());
        lemma_seq_model_contains(s.drop_last(), k);
        assert(!seq_model(s.drop_last()).contains_key(k));
        assert(seq_model(s.drop_last()) =~= seq_model(s).remove(k));
    } else {
        assert(unique_keys(s.drop_last()));
        lemma_seq_model_remove(s.drop_last(), i);
        assert(s.remove(i).drop_last() =~= s.drop_last().remove(i));
        assert(s.remove(i).last() == s.last());
        assert(seq_model(s.remove(i)) =~= seq_model(s.drop_last().remove(i)).insert(
            s.last().0@,
            s.last().1@,
        ));
        assert(k != s.last().0@);
    }
}

impl<V: View> View for StringMap<V> {
    type V = Map<Seq<char>, V::V>;

    closed spec fn view(&self) -> Map<Seq<char>, V::V> {
        seq_model(self.pairs@)
    }
}

impl<V: View> StringMap<V> {
    #[verifier::type_invariant]
    spec fn wf(self) -> bool {
        unique_keys(self.pairs@)
    }

    /// An empty map.
    pub fn new() -> (r: Self)
        ensures
            r@ == Map::<Seq<char>, V::V>::empty(),
    {
        StringMap { pairs: Vec::new() }
    }

    /// Whether the map holds no entry.
    pub fn is_empty(&self) -> (r: bool)
        ensures
            r <==> self@ == Map::<Seq<char>, V::V>::empty(),
    {
        proof {
            use_type_invariant(&*self);
            if self.pairs@.len() == 0 {
                assert(self@ =~= Map::<Seq<char>, V::V>::empty());
            } else {
                lemma_seq_model_value_at(self.pairs@, self.pairs@.len() - 1);
                assert(self@.contains_key(self.pairs@.last().0@));
            }
        }
        self.pairs.len() == 0
    }

    /// Looks a key up.
    pub fn get(&self, key: &str) -> (r: Option<&V>)
        ensures
            match r {
                Some(v) => self@.contains_key(key@) && v@ == self@[key@],
                None => !self@.contains_key(key@),
            },
    {
        proof {
            use_type_invariant(&*self);
        }
        let n = self.pairs.len();
        let mut i: usize = 0;
        while i < n
            invariant
                n == self.pairs@.len(),
                i <= n,
                unique_keys(self.pairs@),
                forall|j: int| 0 <= j < i ==> self.pairs@[j].0@ != key@,
            decreases n - i,
        {
            if str_eq(self.pairs[i].0.as_str(), key) {
                proof {
                    lemma_seq_model_value_at(self.pairs@, i as int);
                }
                return Some(&self.pairs[i].1);
            }
            i += 1;
        }
        proof {
            lemma_seq_model_contains(self.pairs@, key@);
        }
        None
    }

    /// Whether a key is present.
    pub fn contains_key(&self, key: &str) -> (r: bool)
        ensures
            r == self@.contains_key(key@),
    {
        match self.get(key) {
            Some(_) => true,
            None => false,
        }
    }

    fn index_of(&self, key: &str) -> (r: Option<usize>)
        ensures
            match r {
                Some(i) => i < self.pairs@.len() && self.pairs@[i as int].0@ == key@,
                None => !self@.contains_key(key@),
            },
    {
        proof {
            use_type_invariant(&*self);
        }
        let n = self.pairs.len();
        let mut i: usize = 0;
        while i < n
            invariant
                n == self.pairs@.len(),
                i <= n,
                forall|j: int| 0 <= j < i ==> self.pairs@[j].0@ != key@,
            decreases n - i,
        {
            if str_eq(self.pairs[i].0.as_str(), key) {
                return Some(i);
            }
            i += 1;
        }
        proof {
            lemma_seq_model_contains(self.pairs@, key@);
        }
        None
    }

    /// Inserts a value under a key, overwriting any previous one.
    pub fn insert(&mut self, key: String, value: V)
        ensures
            final(self)@ == old(self)@.insert(key@, value@),
    {
        proof {
            use_type_invariant(&*self);
        }
        let found = self.index_of(key.as_str());
        let mut pairs: Vec<(String, V)> = Vec::new();
        core::mem::swap(&mut pairs, &mut self.pairs);
        let ghost before = pairs@;
        match found {
            Some(i) => {
                pairs.remove(i);
                proof {
                    lemma_seq_model_remove(before, i as int);
                    assert(unique_keys(pairs@));
                }
            },
            None => {
            },
        }
        let ghost after_remove = pairs@;
        let ghost k = key@;
        proof {
            lemma_seq_model_contains(after_remove, k);
            assert(!seq_model(after_remove).contains_key(k));
            assert(forall|i: int| 0 <= i < after_remove.len() ==> after_remove[i].0@ != k);
        }
        pairs.push((key, value));
        proof {
            assert(pairs@.drop_last() =~= after_remove);
            assert(pairs@.last().0@ == k);
            assert(unique_keys(pairs@));
            assert(seq_model(pairs@) == seq_model(after_remove).insert(k, value@));
            assert(seq_model(pairs@) =~= old(self)@.insert(k, value@));
        }
        core::mem::swap(&mut pairs, &mut self.pairs);
    }

    /// Removes a key; absent keys are left alone.
    pub fn remove(&mut self, key: &str)
        ensures
            final(self)@ == old(self)@.remove(key@),
    {
        proof {
            use_type_invariant(&*self);
        }
        let found = self.index_of(key);
        let mut pairs: Vec<(String, V)> = Vec::new();
        core::mem::swap(&mut pairs, &mut self.pairs);
        let ghost before = pairs@;
        match found {
            Some(i) => {
                pairs.remove(i);
                proof {
                    lemma_seq_model_remove(before, i as int);
                    assert(unique_keys(pairs@));
                }
            },
            None => {
                proof {
                    assert(seq_model(pairs@) =~= seq_model(pairs@).remove(key@));
                }
            },
        }
        core::mem::swap(&mut pairs, &mut self.pairs);
    }

    /// Removes every key that matches a glob pattern.
    pub fn remove_matching(&mut self, pattern: &str)
        ensures
            final(self)@ == old(self)@.remove_keys(
                Set::new(|k: Seq<char>| glob_matches(pattern@, k)),
            ),
    {
        proof {
            use_type_invariant(&*self);
        }
        let ghost matching = Set::new(|k: Seq<char>| glob_matches(pattern@, k));
        let mut pairs: Vec<(String, V)> = Vec::new();
        core::mem::swap(&mut pairs, &mut self.pairs);
        let mut kept: Vec<(String, V)> = Vec::new();
        let ghost before = pairs@;
        let ghost mut j = before.len() as int;
        proof {
            assert(before.take(j) =~= before);
            assert(before.skip(j) =~= Seq::<(String, V)>::empty());
            assert(seq_model(kept@) =~= seq_model(before.skip(j)).remove_keys(matching));
        }
        while pairs.len() > 0
            invariant
                unique_keys(before),
                0 <= j <= before.len(),
                pairs@ == before.take(j),
                unique_keys(kept@),
                matching == Set::new(|k: Seq<char>| glob_matches(pattern@, k)),
                seq_model(kept@) =~= seq_model(before.skip(j)).remove_keys(matching),
                forall|m: int|
                    0 <= m < kept@.len() ==> exists|l: int|
                        j <= l < before.len() && before[l].0@ == #[trigger] kept@[m].0@,
            decreases pairs@.len(),
        {
            let pair = pairs.pop().unwrap();
            proof {
                assert(pair == before[j - 1]);
                assert(pairs@ =~= before.take(j - 1));
            }
            let keep = !crate::strutil::glob_match(pattern, pair.0.as_str());
            proof {
                assert(before.skip(j - 1) =~= seq![before[j - 1]].add(before.skip(j)));
                assert forall|m: int| 0 <= m < kept@.len() implies kept@[m].0@ != pair.0@ by {
                    let l = choose|l: int| j <= l < before.len() && before[l].0@ == kept@[m].0@;
                    assert(before[l].0@ != before[j - 1].0@);
                }
            }
            let ghost kept_before = kept@;
            if keep {
                kept.insert(0, pair);
                proof {
                    assert(kept@ =~= seq![pair].add(kept_before));
                    lemma_seq_model_prepend(pair, kept_before);
                    assert(!matching.contains(pair.0@));
                    lemma_seq_model_prepend(pair, before.skip(j));
                    assert(seq_model(kept@) =~= seq_model(before.skip(j - 1)).remove_keys(
                        matching,
                    ));
                    assert(forall|a: int, b: int|
                        0 <= a < b < kept@.len() ==> kept@[a].0@ != kept@[b].0@);
                    assert forall|m: int| 0 <= m < kept@.len() implies exists|l: int|
                        j - 1 <= l < before.len() && before[l].0@ == #[trigger] kept@[m].0@ by {
                        if m == 0 {
                            assert(before[j - 1].0@ == kept@[0].0@);
                        } else {
                            let l = choose|l: int|
                                j <= l < before.len() && before[l].0@ == kept_before[m - 1].0@;
                            assert(before[l].0@ == kept@[m].0@);
                        }
                    }
                    j = j - 1;
                }
            } else {
                proof {
                    assert(glob_matches(pattern@, pair.0@));
                    assert(matching.contains(pair.0@));
                    lemma_seq_model_prepend(pair, before.skip(j));
                    assert(seq_model(kept@) =~= seq_model(before.skip(j - 1)).remove_keys(
                        matching,
                    ));
                    assert forall|m: int| 0 <= m < kept@.len() implies exists|l: int|
                        j - 1 <= l < before.len() && before[l].0@ == #[trigger] kept@[m].0@ by {
                        let l = choose|l: int|
                            j <= l < before.len() && before[l].0@ == kept_before[m].0@;
                        assert(before[l].0@ == kept@[m].0@);
                    }
                    j = j - 1;
                }
            }
        }
        proof {
            assert(j == 0);
            assert(before.skip(0) =~= before);
        }
        core::mem::swap(&mut kept, &mut self.pairs);
    }
}

/// Prepending a pair whose key is fresh adds exactly that binding.
proof fn lemma_seq_model_prepend<V: View>(p: (String, V), s: Seq<(String, V)>)
    requires
        forall|i: int| 0 <= i < s.len() ==> s[i].0@ != p.0@,
    ensures
        seq_model(seq![p].add(s)) =~= seq_model(s).insert(p.0@, p.1@),
    decreases s.len(),
{
    let t = seq![p].add(s);
    assert(t.len() == s.len() + 1);
    assert(seq_model(t) == seq_model(t.drop_last()).insert(t.last().0@, t.last().1@));
    if s.len() == 0 {
        assert(t.drop_last() =~= Seq::<(String, V)>::empty());
        assert(t.last() == p);
        assert(seq_model(t.drop_last()) == Map::<Seq<char>, V::V>::empty());
        assert(seq_model(s) == Map::<Seq<char>, V::V>::empty());
        assert(seq_model(t) =~= seq_model(s).insert(p.0@, p.1@));
    } else {
        assert(t.drop_last() =~= seq![p].add(s.drop_last()));
        assert(forall|i: int| 0 <= i < s.drop_last().len() ==> s.drop_last()[i] == s[i]);
        lemma_seq_model_prepend(p, s.drop_last());
        assert(t.last() == s.last());
        assert(seq_model(t) == seq_model(s.drop_last()).insert(p.0@, p.1@).insert(
            s.last().0@,
            s.last().1@,
        ));
        assert(seq_model(s) == seq_model(s.drop_last()).insert(s.last().0@, s.last().1@));
        assert(s.last().0@ != p.0@);
        assert(seq_model(t) =~= seq_model(s).insert(p.0@, p.1@));
    }
}

} // verus!
