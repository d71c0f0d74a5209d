use vstd::prelude::*;

verus! {

/// The environment of the process: a finite map from variable names to values.
///
/// Each name occurs at most once; inserting a name that is already present
/// replaces its value.
pub struct EnvHashMap {
    entries: Vec<(String, String)>,
}

impl EnvHashMap {
    /// The entries as pairs of character sequences.
    pub closed spec fn pairs(self) -> Seq<(Seq<char>, Seq<char>)> {
        self.entries@.map_values(|p: (String, String)| (p.0@, p.1@))
    }

    /// No name occurs twice among the entries.
    #[verifier::type_invariant]
    closed spec fn keys_unique(self) -> bool {
        forall|i: int, j: int|
            0 <= i < self.entries@.len() && 0 <= j < self.entries@.len() && i != j
                ==> #[trigger] self.entries@[i].0@ != #[trigger] self.entries@[j].0@
    }

    spec fn index_of(self, key: Seq<char>) -> int {
        choose|i: int| 0 <= i < self.entries@.len() && #[trigger] self.entries@[i].0@ == key
    }

    proof fn lemma_index_of(self, i: int)
        requires
            self.keys_unique(),
            0 <= i < self.entries@.len(),
        ensures
            self.index_of(self.entries@[i].0@) == i,
    {
        let k = self.entries@[i].0@;
        let j = self.index_of(k);
        assert(0 <= j < self.entries@.len() && self.entries@[j].0@ == k);
    }
}

impl View for EnvHashMap {
    type V = Map<Seq<char>, Seq<char>>;

    closed spec fn view(&self) -> Map<Seq<char>, Seq<char>> {
        Map::new(
            |k: Seq<char>| exists|i: int| 0 <= i < self.entries@.len() && #[trigger] self.entries@[i].0@ == k,
            |k: Seq<char>| self.entries@[self.index_of(k)].1@,
        )
    }
}

/// The map that inserting `pairs` one after the other into an empty map gives.
pub open spec fn map_of_pairs(pairs: Seq<(Seq<char>, Seq<char>)>) -> Map<Seq<char>, Seq<char>>
    decreases pairs.len(),
{
    if pairs.len() == 0 {
        Map::empty()
    } else {
        map_of_pairs(pairs.drop_last()).insert(pairs.last().0, pairs.last().1)
    }
}

impl EnvHashMap {
    /// An empty environment.
    pub fn new() -> (map: Self)
        ensures
            map@ == Map::<Seq<char>, Seq<char>>::empty(),
    {
        let map = EnvHashMap { entries: Vec::new() };
        assert(map@ =~= Map::<Seq<char>, Seq<char>>::empty());
        map
    }

    /// Position of `key` among the entries, if it is there.
    fn find(&self, key: &String) -> (r: Option<usize>)
        ensures
            match r {
                Some(i) => i < self.entries@.len() && self.entries@[i as int].0@ == key@,
                None => !self@.contains_key(key@),
            },
    {
        let mut i: usize = 0;
        while i < self.entries.len()
            invariant
                i <= self.entries@.len(),
                forall|j: int| 0 <= j < i ==> #[trigger] self.entries@[j].0@ != key@,
            decreases self.entries@.len() - i,
        {
            if self.entries[i].0 == *key {
                return Some(i);
            }
            i = i + 1;
        }
        None
    }

    /// The value of `key`, if the environment holds it.
    pub fn get(&self, key: &str) -> (r: Option<&String>)
        ensures
            match r {
                Some(v) => self@.contains_key(key@) && v@ == self@[key@],
                None => !self@.contains_key(key@),
            },
    {
        proof { use_type_invariant(self); }
        let k = key.to_owned();
        match self.find(&k) {
            Some(i) => {
                proof { self.lemma_index_of(i as int); }
                Some(&self.entries[i].1)
            },
            None => None,
        }
    }

    /// Sets `key` to `value`, replacing an earlier value of `key`.
    pub fn insert(&mut self, key: String, value: String)
        ensures
            final(self)@ == old(self)@.insert(key@, value@),
    {
        proof { use_type_invariant(&*self); }
        let ghost k = key@;
        let ghost v = value@;
        match self.find(&key) {
            Some(i) => {
                let ghost before = self.entries@;
                let mut entries: Vec<(String, String)> = Vec::new();
                std::mem::swap(&mut entries, &mut self.entries);
                entries.set(i, (key, value));
                self.entries = entries;
                proof {
                    assert forall|a: int, b: int|
                        0 <= a < self.entries@.len() && 0 <= b < self.entries@.len() && a != b
                            implies #[trigger] self.entries@[a].0@ != #[trigger] self.entries@[b].0@ by {
                        assert(before[a].0@ != before[b].0@);
                    }
                    assert forall|kk: Seq<char>| #[trigger] self@.contains_key(kk)
                        == old(self)@.insert(k, v).contains_key(kk) by {
                        if self@.contains_key(kk) {
                            let j = choose|j: int| 0 <= j < self.entries@.len() && #[trigger] self.entries@[j].0@ == kk;
                            if j != i {
                                assert(before[j].0@ == kk);
                            }
                        }
                        if old(self)@.contains_key(kk) {
                            let j = choose|j: int| 0 <= j < before.len() && #[trigger] before[j].0@ == kk;
                            assert(self.entries@[j].0@ == kk || j == i);
                        }
                    }
                    assert forall|kk: Seq<char>| #[trigger] self@.contains_key(kk)
                        implies self@[kk] == old(self)@.insert(k, v)[kk] by {
                        let j = choose|j: int| 0 <= j < self.entries@.len() && #[trigger] self.entries@[j].0@ == kk;
                        self.lemma_index_of(j);
                        if j != i {
                            assert(before[j].0@ == kk);
                            old(self).lemma_index_of(j);
                        }
                    }
                    assert(self@ =~= old(self)@.insert(k, v));
                }
            },
            None => {
                let ghost before = self.entries@;
                let mut entries: Vec<(String, String)> = Vec::new();
                std::mem::swap(&mut entries, &mut self.entries);
                entries.push((key, value));
                self.entries = entries;
                proof {
                    let n = before.len() as int;
                    assert forall|a: int, b: int|
                        0 <= a < self.entries@.len() && 0 <= b < self.entries@.len() && a != b
                            implies #[trigger] self.entries@[a].0@ != #[trigger] self.entries@[b].0@ by {
                        if a < n && b < n {
                            assert(before[a].0@ != before[b].0@);
                        } else if a < n {
                            assert(old(self)@.contains_key(before[a].0@));
                        } else {
                            assert(old(self)@.contains_key(before[b].0@));
                        }
                    }
                    assert forall|kk: Seq<char>| #[trigger] self@.contains_key(kk)
                        == old(self)@.insert(k, v).contains_key(kk) by {
                        if self@.contains_key(kk) {
                            let j = choose|j: int| 0 <= j < self.entries@.len() && #[trigger] self.entries@[j].0@ == kk;
                            if j < n {
                                assert(before[j].0@ == kk);
                            }
                        }
                        if old(self)@.contains_key(kk) {
                            let j = choose|j: int| 0 <= j < before.len() && #[trigger] before[j].0@ == kk;
                            assert(self.entries@[j].0@ == kk);
                        }
                        if kk == k {
                            assert(self.entries@[n].0@ == kk);
                        }
                    }
                    assert forall|kk: Seq<char>| #[trigger] self@.contains_key(kk)
                        implies self@[kk] == old(self)@.insert(k, v)[kk] by {
                        let j = choose|j: int| 0 <= j < self.entries@.len() && #[trigger] self.entries@[j].0@ == kk;
                        self.lemma_index_of(j);
                        if j < n {
                            assert(before[j].0@ == kk);
                            old(self).lemma_index_of(j);
                        }
                    }
                    assert(self@ =~= old(self)@.insert(k, v));
                }
            },
        }
    }

    /// The environment that inserting `pairs` in order gives: a later pair
    /// wins over an earlier one with the same name.
    pub fn from_pairs(pairs: Vec<(String, String)>) -> (map: Self)
        ensures
            map@ == map_of_pairs(pairs@.map_values(|p: (String, String)| (p.0@, p.1@))),
    {
        let ghost ps = pairs@.map_values(|p: (String, String)| (p.0@, p.1@));
        let mut map = EnvHashMap::new();
        let mut i: usize = 0;
        while i < pairs.len()
            invariant
                i <= pairs@.len(),
                ps == pairs@.map_values(|p: (String, String)| (p.0@, p.1@)),
                map@ == map_of_pairs(ps.take(i as int)),
            decreases pairs@.len() - i,
        {
            assert(ps.take(i + 1).drop_last() =~= ps.take(i as int));
            assert(ps.take(i + 1).last() == ps[i as int]);
            map.insert(pairs[i].0.clone(), pairs[i].1.clone());
            i = i + 1;
        }
        assert(ps.take(pairs@.len() as int) =~= ps);
        map
    }
}

} // verus!
