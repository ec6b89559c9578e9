//! A small map from strings to values, kept as a list of entries in which no
//! key occurs twice. Its view is the mathematical map it stands for.

use vstd::prelude::*;

verus! {

pub struct StringMap<T> {
    entries: Vec<(String, T)>,
}

/// Whether the entry at `i` of `entries` has the key `key`.
spec fn key_at<T>(entries: Seq<(String, T)>, i: int, key: Seq<char>) -> bool {
    0 <= i < entries.len() && entries[i].0@ == key
}

spec fn distinct_keys<T>(entries: Seq<(String, T)>) -> bool {
    forall|i: int, j: int|
        0 <= i < entries.len() && 0 <= j < entries.len() && i != j ==> entries[i].0@
            != entries[j].0@
}

spec fn entries_map<T>(entries: Seq<(String, T)>) -> Map<Seq<char>, T> {
    Map::new(
        |k: Seq<char>| exists|i: int| key_at(entries, i, k),
        |k: Seq<char>| entries[choose|i: int| key_at(entries, i, k)].1,
    )
}

proof fn lemma_entry_is_mapped<T>(entries: Seq<(String, T)>, i: int)
    requires
        distinct_keys(entries),
        0 <= i < entries.len(),
    ensures
        entries_map(entries).contains_key(entries[i].0@),
        entries_map(entries)[entries[i].0@] == entries[i].1,
{
    let k = entries[i].0@;
    assert(key_at(entries, i, k));
    let j = choose|j: int| key_at(entries, j, k);
    assert(j == i);
}

proof fn lemma_push_is_insert<T>(entries: Seq<(String, T)>, key: String, value: T)
    requires
        distinct_keys(entries),
        !entries_map(entries).contains_key(key@),
    ensures
        distinct_keys(entries.push((key, value))),
        entries_map(entries.push((key, value))) == entries_map(entries).insert(key@, value),
{
    let grown = entries.push((key, value));
    assert forall|i: int, j: int|
        0 <= i < grown.len() && 0 <= j < grown.len() && i != j implies grown[i].0@
        != grown[j].0@ by {
        if i < entries.len() {
            assert(key_at(entries, i, entries[i].0@));
        }
        if j < entries.len() {
            assert(key_at(entries, j, entries[j].0@));
        }
    }
    assert forall|k: Seq<char>|
        entries_map(grown).contains_key(k) <==> entries_map(entries).insert(
            key@,
            value,
        ).contains_key(k) by {
        if entries_map(grown).contains_key(k) {
            let i = choose|i: int| key_at(grown, i, k);
            if i < entries.len() {
                assert(key_at(entries, i, k));
            }
        }
        if entries_map(entries).contains_key(k) {
            let i = choose|i: int| key_at(entries, i, k);
            assert(key_at(grown, i, k));
        }
        if k == key@ {
            assert(key_at(grown, entries.len() as int, k));
        }
    }
    assert forall|k: Seq<char>| entries_map(grown).contains_key(k) implies entries_map(grown)[k]
        == entries_map(entries).insert(key@, value)[k] by {
        let i = choose|i: int| key_at(grown, i, k);
        lemma_entry_is_mapped(grown, i);
        if i < entries.len() {
            lemma_entry_is_mapped(entries, i);
        }
    }
    assert(entries_map(grown) =~= entries_map(entries).insert(key@, value));
}

proof fn lemma_remove_is_remove<T>(entries: Seq<(String, T)>, at: int)
    requires
        distinct_keys(entries),
        0 <= at < entries.len(),
    ensures
        distinct_keys(entries.remove(at)),
        entries_map(entries.remove(at)) == entries_map(entries).remove(entries[at].0@),
{
    let rest = entries.remove(at);
    let gone = entries[at].0@;
    assert forall|i: int| 0 <= i < rest.len() implies #[trigger] rest[i] == entries[if i < at {
        i
    } else {
        i + 1
    }] by {}
    assert(distinct_keys(rest));
    assert forall|k: Seq<char>|
        entries_map(rest).contains_key(k) <==> entries_map(entries).remove(gone).contains_key(
            k,
        ) by {
        if entries_map(rest).contains_key(k) {
            let i = choose|i: int| key_at(rest, i, k);
            let j = if i < at {
                i
            } else {
                i + 1
            };
            assert(key_at(entries, j, k));
        }
        if entries_map(entries).remove(gone).contains_key(k) {
            let j = choose|j: int| key_at(entries, j, k);
            let i = if j < at {
                j
            } else {
                j - 1
            };
            assert(key_at(rest, i, k));
        }
    }
    assert forall|k: Seq<char>| entries_map(rest).contains_key(k) implies entries_map(rest)[k]
        == entries_map(entries).remove(gone)[k] by {
        let i = choose|i: int| key_at(rest, i, k);
        lemma_entry_is_mapped(rest, i);
        let j = if i < at {
            i
        } else {
            i + 1
        };
        lemma_entry_is_mapped(entries, j);
    }
    assert(entries_map(rest) =~= entries_map(entries).remove(gone));
}

proof fn lemma_size<T>(entries: Seq<(String, T)>)
    requires
        distinct_keys(entries),
    ensures
        entries_map(entries).dom().finite(),
        entries_map(entries).dom().len() == entries.len(),
    decreases entries.len(),
{
    if entries.len() == 0 {
        assert(entries_map(entries).dom() =~= Set::<Seq<char>>::empty());
    } else {
        let front = entries.drop_last();
        let last = entries.last();
        assert(distinct_keys(front));
        lemma_size(front);
        if entries_map(front).contains_key(last.0@) {
            let i = choose|i: int| key_at(front, i, last.0@);
            assert(entries[i].0@ == entries[entries.len() - 1].0@);
        }
        lemma_push_is_insert(front, last.0, last.1);
        assert(front.push((last.0, last.1)) =~= entries);
    }
}

impl<T> View for StringMap<T> {
    type V = Map<Seq<char>, T>;

    closed spec fn view(&self) -> Map<Seq<char>, T> {
        entries_map(self.entries@)
    }
}

impl<T> StringMap<T> {
    #[verifier::type_invariant]
    spec fn no_key_twice(self) -> bool {
        distinct_keys(self.entries@)
    }

    pub fn new() -> (out: Self)
        ensures
            out@ == Map::<Seq<char>, T>::empty(),
    {
        let out = StringMap { entries: Vec::new() };
        assert(out@ =~= Map::<Seq<char>, T>::empty());
        out
    }

    pub fn len(&self) -> (n: usize)
        ensures
            self@.dom().finite(),
            n == self@.dom().len(),
    {
        proof {
            use_type_invariant(self);
            lemma_size(self.entries@);
        }
        self.entries.len()
    }

    /// The index of the entry with key `key`, if there is one.
    fn position(&self, key: &String) -> (at: Option<usize>)
        ensures
            match at {
                Some(i) => key_at(self.entries@, i as int, key@),
                None => !self@.contains_key(key@),
            },
    {
        let mut i: usize = 0;
        while i < self.entries.len()
            invariant
                i <= self.entries.len(),
                forall|j: int| 0 <= j < i ==> !key_at(self.entries@, j, key@),
            decreases self.entries.len() - i,
        {
            if self.entries[i].0 == *key {
                return Some(i);
            }
            i = i + 1;
        }
        None
    }

    pub fn contains_key(&self, key: &String) -> (r: bool)
        ensures
            r == self@.contains_key(key@),
    {
        match self.position(key) {
            Some(i) => {
                proof {
                    use_type_invariant(self);
                    lemma_entry_is_mapped(self.entries@, i as int);
                }
                true
            },
            None => false,
        }
    }

    pub fn get(&self, key: &String) -> (r: Option<&T>)
        ensures
            match r {
                Some(value) => self@.contains_key(key@) && *value == self@[key@],
                None => !self@.contains_key(key@),
            },
    {
        match self.position(key) {
            Some(i) => {
                proof {
                    use_type_invariant(self);
                    lemma_entry_is_mapped(self.entries@, i as int);
                }
                Some(&self.entries[i].1)
            },
            None => None,
        }
    }

    /// Takes the entry of `key` out of the map and returns its value.
    pub fn remove(&mut self, key: &String) -> (r: Option<T>)
        ensures
            final(self)@ == old(self)@.remove(key@),
            match r {
                Some(value) => old(self)@.contains_key(key@) && value == old(self)@[key@],
                None => !old(self)@.contains_key(key@),
            },
    {
        proof {
            use_type_invariant(&*self);
        }
        match self.position(key) {
            Some(i) => {
                proof {
                    lemma_entry_is_mapped(self.entries@, i as int);
                    lemma_remove_is_remove(self.entries@, i as int);
                }
                let mut entries: Vec<(String, T)> = Vec::new();
                std::mem::swap(&mut entries, &mut self.entries);
                let entry = entries.remove(i);
                self.entries = entries;
                Some(entry.1)
            },
            None => {
                assert(self@ =~= self@.remove(key@));
                None
            },
        }
    }

    /// Binds `key` to `value`, in place of what it was bound to before.
    pub fn insert(&mut self, key: String, value: T)
        ensures
            final(self)@ == old(self)@.insert(key@, value),
    {
        let _ = self.remove(&key);
        proof {
            use_type_invariant(&*self);
            lemma_push_is_insert(self.entries@, key, value);
            assert(old(self)@.remove(key@).insert(key@, value) =~= old(self)@.insert(key@, value));
        }
        let mut entries: Vec<(String, T)> = Vec::new();
        std::mem::swap(&mut entries, &mut self.entries);
        entries.push((key, value));
        self.entries = entries;
    }

    /// Takes some entry out of the map, if it has one.
    pub fn take_any(&mut self) -> (r: Option<(String, T)>)
        ensures
            match r {
                Some((key, value)) => {
                    &&& old(self)@.contains_key(key@)
                    &&& old(self)@[key@] == value
                    &&& final(self)@ == old(self)@.remove(key@)
                },
                None => old(self)@ == Map::<Seq<char>, T>::empty() && final(self)@ == old(self)@,
            },
    {
        proof {
            use_type_invariant(&*self);
        }
        if self.entries.len() == 0 {
            assert(self@ =~= Map::<Seq<char>, T>::empty());
            return None;
        }
        let at = self.entries.len() - 1;
        proof {
            lemma_entry_is_mapped(self.entries@, at as int);
            lemma_remove_is_remove(self.entries@, at as int);
        }
        let mut entries: Vec<(String, T)> = Vec::new();
        std::mem::swap(&mut entries, &mut self.entries);
        let entry = entries.remove(at);
        self.entries = entries;
        Some(entry)
    }

    pub fn clear(&mut self)
        ensures
            final(self)@ == Map::<Seq<char>, T>::empty(),
    {
        self.entries = Vec::new();
        assert(self@ =~= Map::<Seq<char>, T>::empty());
    }
}

} // verus!
