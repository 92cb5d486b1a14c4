use vstd::prelude::*;

verus! {

/// One entry of a claim map as mathematics: a key and its value.
pub type Entry = (Seq<char>, Seq<char>);

/// The entries that a vector of pairs of strings holds.
pub open spec fn entries_of(pairs: Seq<(String, String)>) -> Seq<Entry> {
    Seq::new(pairs.len(), |i: int| (pairs[i].0@, pairs[i].1@))
}

/// Whether no key occurs twice in `entries`.
pub open spec fn distinct_keys(entries: Seq<Entry>) -> bool {
    forall|i: int, j: int|
        0 <= i < j < entries.len() ==> (#[trigger] entries[i]).0 != (#[trigger] entries[j]).0
}

/// Whether `entries` holds the key `key`.
pub open spec fn has_key(entries: Seq<Entry>, key: Seq<char>) -> bool {
    exists|i: int| 0 <= i < entries.len() && (#[trigger] entries[i]).0 == key
}

/// A place at which `entries` holds the key `key`.
pub open spec fn place_of(entries: Seq<Entry>, key: Seq<char>) -> int {
    choose|i: int| 0 <= i < entries.len() && (#[trigger] entries[i]).0 == key
}

/// The mapping that `entries` writes down.
pub open spec fn map_of(entries: Seq<Entry>) -> Map<Seq<char>, Seq<char>> {
    Map::new(
        |key: Seq<char>| has_key(entries, key),
        |key: Seq<char>| entries[place_of(entries, key)].1,
    )
}

/// With distinct keys, each entry is what the mapping holds under its key.
pub proof fn lemma_map_of_entry(entries: Seq<Entry>, i: int)
    requires
        distinct_keys(entries),
        0 <= i < entries.len(),
    ensures
        map_of(entries).dom().contains(entries[i].0),
        map_of(entries)[entries[i].0] == entries[i].1,
{
    let key = entries[i].0;
    assert(has_key(entries, key));
    let j = place_of(entries, key);
    assert(i == j) by {
        if i < j {
            assert(entries[i].0 != entries[j].0);
        } else if j < i {
            assert(entries[j].0 != entries[i].0);
        }
    }
}

/// Adding an entry under a new key adds it to the mapping.
pub proof fn lemma_map_of_push(entries: Seq<Entry>, key: Seq<char>, value: Seq<char>)
    requires
        distinct_keys(entries),
        !has_key(entries, key),
    ensures
        distinct_keys(entries.push((key, value))),
        map_of(entries.push((key, value))) == map_of(entries).insert(key, value),
{
    let longer = entries.push((key, value));
    assert(distinct_keys(longer)) by {
        assert forall|i: int, j: int| 0 <= i < j < longer.len() implies (#[trigger] longer[i]).0 != (
        #[trigger] longer[j]).0 by {
            if j < entries.len() {
                assert(entries[i].0 != entries[j].0);
            } else {
                assert(entries[i].0 != key);
            }
        }
    }
    let last = entries.len() as int;
    assert forall|k: Seq<char>| #[trigger]
        map_of(longer).dom().contains(k) == map_of(entries).insert(key, value).dom().contains(
            k,
        ) by {
        if has_key(entries, k) {
            let i = place_of(entries, k);
            assert(longer[i].0 == k);
        }
        if k == key {
            assert(longer[last].0 == k);
        }
        if has_key(longer, k) && k != key {
            let i = place_of(longer, k);
            assert(entries[i].0 == k);
        }
    }
    assert forall|k: Seq<char>| #[trigger] map_of(longer).dom().contains(k) implies map_of(longer)[k]
        == map_of(entries).insert(key, value)[k] by {
        let i = place_of(longer, k);
        lemma_map_of_entry(longer, i);
        if i < last {
            lemma_map_of_entry(entries, i);
        }
    }
    assert(map_of(longer) =~= map_of(entries).insert(key, value));
}

/// Putting a new value under a key that is there replaces its value in the
/// mapping.
pub proof fn lemma_map_of_update(entries: Seq<Entry>, i: int, value: Seq<char>)
    requires
        distinct_keys(entries),
        0 <= i < entries.len(),
    ensures
        distinct_keys(entries.update(i, (entries[i].0, value))),
        map_of(entries.update(i, (entries[i].0, value))) == map_of(entries).insert(
            entries[i].0,
            value,
        ),
{
    let key = entries[i].0;
    let changed = entries.update(i, (key, value));
    assert(distinct_keys(changed)) by {
        assert forall|a: int, b: int| 0 <= a < b < changed.len() implies (#[trigger] changed[a]).0
            != (#[trigger] changed[b]).0 by {
            assert(entries[a].0 != entries[b].0);
        }
    }
    assert forall|k: Seq<char>| #[trigger]
        map_of(changed).dom().contains(k) == map_of(entries).insert(key, value).dom().contains(
            k,
        ) by {
        if has_key(entries, k) {
            let a = place_of(entries, k);
            assert(changed[a].0 == k);
        }
        if k == key {
            assert(changed[i].0 == k);
        }
        if has_key(changed, k) {
            let a = place_of(changed, k);
            assert(entries[a].0 == k);
        }
    }
    assert forall|k: Seq<char>| #[trigger] map_of(changed).dom().contains(k) implies map_of(
        changed,
    )[k] == map_of(entries).insert(key, value)[k] by {
        let a = place_of(changed, k);
        lemma_map_of_entry(changed, a);
        if a != i {
            lemma_map_of_entry(entries, a);
        }
    }
    assert(map_of(changed) =~= map_of(entries).insert(key, value));
}

/// A mapping from text keys to text values in which no key occurs twice:
/// the flat form in which claims are signed.
pub struct ClaimMap {
    entries: Vec<(String, String)>,
}

impl View for ClaimMap {
    type V = Map<Seq<char>, Seq<char>>;

    closed spec fn view(&self) -> Map<Seq<char>, Seq<char>> {
        map_of(entries_of(self.entries@))
    }
}

impl ClaimMap {
    #[verifier::type_invariant]
    closed spec fn well_formed(&self) -> bool {
        distinct_keys(entries_of(self.entries@))
    }

    /// The entries in the order in which they are held.
    pub closed spec fn entries(&self) -> Seq<Entry> {
        entries_of(self.entries@)
    }

    /// A map without entries.
    pub fn new() -> (r: ClaimMap)
        ensures
            r@ == Map::<Seq<char>, Seq<char>>::empty(),
            r.entries() == Seq::<Entry>::empty(),
    {
        let r = ClaimMap { entries: Vec::new() };
        assert(entries_of(r.entries@) =~= Seq::<Entry>::empty());
        assert(r@ =~= Map::<Seq<char>, Seq<char>>::empty());
        r
    }

    /// A map of the given pairs, whose keys differ.
    pub(crate) fn from_pairs(pairs: Vec<(String, String)>) -> (r: ClaimMap)
        requires
            distinct_keys(entries_of(pairs@)),
        ensures
            r.entries() == entries_of(pairs@),
            r@ == map_of(entries_of(pairs@)),
    {
        ClaimMap { entries: pairs }
    }

    /// The pairs that the map holds.
    pub(crate) fn pairs(&self) -> (r: &Vec<(String, String)>)
        ensures
            entries_of(r@) == self.entries(),
            distinct_keys(entries_of(r@)),
            map_of(entries_of(r@)) == self@,
    {
        proof {
            use_type_invariant(self);
        }
        &self.entries
    }

    /// The number of entries.
    pub fn len(&self) -> (r: usize)
        ensures
            r == self.entries().len(),
            r == self@.dom().len(),
    {
        proof {
            use_type_invariant(self);
            lemma_dom_len(entries_of(self.entries@));
        }
        self.entries.len()
    }

    /// The place of `key` among the entries, if it is there.
    fn find(&self, key: &str) -> (r: Option<usize>)
        ensures
            match r {
                Some(i) => i < self.entries().len() && self.entries()[i as int].0 == key@,
                None => !has_key(self.entries(), key@),
            },
    {
        let wanted: String = key.to_owned();
        let n: usize = self.entries.len();
        let mut i: usize = 0;
        while i < n
            invariant
                i <= n,
                n == self.entries@.len(),
                wanted@ == key@,
                forall|k: int| 0 <= k < i ==> (#[trigger] entries_of(self.entries@)[k]).0 != key@,
            decreases n - i,
        {
            if self.entries[i].0 == wanted {
                return Some(i);
            }
            i = i + 1;
        }
        None
    }

    /// The value under `key`, if the map holds that key.
    pub fn get(&self, key: &str) -> (r: Option<&String>)
        ensures
            match r {
                Some(value) => self@.dom().contains(key@) && self@[key@] == value@,
                None => !self@.dom().contains(key@),
            },
    {
        proof {
            use_type_invariant(self);
        }
        match self.find(key) {
            Some(i) => {
                proof {
                    lemma_map_of_entry(entries_of(self.entries@), i as int);
                }
                Some(&self.entries[i].1)
            },
            None => None,
        }
    }

    /// Puts `value` under `key`, in place of the value that was there, if
    /// any.
    pub fn insert(&mut self, key: String, value: String)
        ensures
            final(self)@ == old(self)@.insert(key@, value@),
            has_key(old(self).entries(), key@) ==> final(self).entries() == old(self).entries().update(
                place_of(old(self).entries(), key@),
                (key@, value@),
            ),
            !has_key(old(self).entries(), key@) ==> final(self).entries() == old(
                self,
            ).entries().push((key@, value@)),
    {
        proof {
            use_type_invariant(&*self);
        }
        let ghost before = entries_of(self.entries@);
        match self.find(key.as_str()) {
            Some(i) => {
                proof {
                    lemma_map_of_update(before, i as int, value@);
                    lemma_map_of_entry(before, i as int);
                    assert(has_key(before, key@));
                    let j = place_of(before, key@);
                    assert(i == j) by {
                        if (i as int) < j {
                            assert(before[i as int].0 != before[j].0);
                        } else if j < i {
                            assert(before[j].0 != before[i as int].0);
                        }
                    }
                }
                let mut pairs: Vec<(String, String)> = Vec::new();
                std::mem::swap(&mut pairs, &mut self.entries);
                pairs.set(i, (key, value));
                assert(entries_of(pairs@) =~= before.update(i as int, (key@, value@)));
                self.entries = pairs;
            },
            None => {
                proof {
                    lemma_map_of_push(before, key@, value@);
                }
                let mut pairs: Vec<(String, String)> = Vec::new();
                std::mem::swap(&mut pairs, &mut self.entries);
                pairs.push((key, value));
                assert(entries_of(pairs@) =~= before.push((key@, value@)));
                self.entries = pairs;
            },
        }
    }
}

/// With distinct keys, the mapping has as many keys as there are entries.
pub proof fn lemma_dom_len(entries: Seq<Entry>)
    requires
        distinct_keys(entries),
    ensures
        map_of(entries).dom().finite(),
        map_of(entries).dom().len() == entries.len(),
    decreases entries.len(),
{
    if entries.len() == 0 {
        assert(map_of(entries).dom() =~= Set::<Seq<char>>::empty());
    } else {
        let shorter = entries.drop_last();
        let last = entries.last();
        assert(distinct_keys(shorter)) by {
            assert forall|i: int, j: int| 0 <= i < j < shorter.len() implies (
            #[trigger] shorter[i]).0 != (#[trigger] shorter[j]).0 by {
                assert(entries[i].0 != entries[j].0);
            }
        }
        lemma_dom_len(shorter);
        assert(!has_key(shorter, last.0)) by {
            if has_key(shorter, last.0) {
                let i = place_of(shorter, last.0);
                assert(entries[i].0 != entries[entries.len() - 1].0);
            }
        }
        lemma_map_of_push(shorter, last.0, last.1);
        assert(shorter.push((last.0, last.1)) =~= entries);
    }
}

} // verus!
