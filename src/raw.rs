use vstd::prelude::*;

verus! {

/// An untyped value of the override map, as the host handed it over.
/// Of a list or an object only its kind is kept: no setting takes one.
pub enum RawValue {
    Text(String),
    Number(i32),
    Bool(bool),
    Array,
    Object,
    Null,
}

/// The plugin-specific overrides: keys in the order the host supplied them,
/// each key at most once.
pub struct RawConfigMap {
    entries: Vec<(String, RawValue)>,
}

pub type RawEntries = Seq<(Seq<char>, RawValue)>;

pub open spec fn entry_view(e: (String, RawValue)) -> (Seq<char>, RawValue) {
    (e.0@, e.1)
}

/// No key occurs twice.
pub open spec fn keys_distinct(s: RawEntries) -> bool {
    forall|i: int, j: int| 0 <= i < s.len() && 0 <= j < s.len() && i != j ==> s[i].0 != s[j].0
}

/// The value stored under `k`, if any.
pub open spec fn lookup(s: RawEntries, k: Seq<char>) -> Option<RawValue>
    decreases s.len(),
{
    if s.len() == 0 {
        None
    } else if s[0].0 == k {
        Some(s[0].1)
    } else {
        lookup(s.drop_first(), k)
    }
}

impl View for RawConfigMap {
    type V = RawEntries;

    closed spec fn view(&self) -> RawEntries {
        self.entries@.map_values(|e: (String, RawValue)| entry_view(e))
    }
}

impl RawConfigMap {
    pub open spec fn wf(&self) -> bool {
        keys_distinct(self@)
    }

    /// An empty map.
    pub fn new() -> (r: RawConfigMap)
        ensures
            r@ == Seq::<(Seq<char>, RawValue)>::empty(),
            r.wf(),
    {
        RawConfigMap { entries: Vec::new() }
    }

    pub fn len(&self) -> (r: usize)
        ensures
            r == self@.len(),
    {
        self.entries.len()
    }

    /// The position of `key`, if it is present.
    fn position(&self, key: &String) -> (r: Option<usize>)
        ensures
            match r {
                Some(i) => i < self@.len() && self@[i as int].0 == key@ && forall|j: int|
                    0 <= j < i ==> self@[j].0 != key@,
                None => forall|j: int| 0 <= j < self@.len() ==> self@[j].0 != key@,
            },
    {
        let mut i: usize = 0;
        while i < self.entries.len()
            invariant
                i <= self.entries@.len(),
                forall|j: int| 0 <= j < i ==> self@[j].0 != key@,
            decreases self.entries@.len() - i,
        {
            proof {
                assert(self@[i as int] == entry_view(self.entries@[i as int]));
            }
            if self.entries[i].0 == *key {
                return Some(i);
            }
            i = i + 1;
        }
        None
    }

    /// Sets `key` to `value`: in its place if the key is present, else at the end.
    pub fn insert(&mut self, key: String, value: RawValue)
        requires
            old(self).wf(),
        ensures
            final(self).wf(),
            lookup(final(self)@, key@) == Some(value),
            match lookup(old(self)@, key@) {
                Some(_) => final(self)@.len() == old(self)@.len(),
                None => final(self)@ == old(self)@.push((key@, value)),
            },
    {
        proof {
            lemma_lookup_first(self@, key@);
        }
        match self.position(&key) {
            Some(i) => {
                let ghost k = key@;
                self.entries.set(i, (key, value));
                proof {
                    assert(self@ =~= old(self)@.update(i as int, (k, value)));
                    assert(old(self)@[i as int].0 == k);
                    assert(lookup(old(self)@, k) == Some(old(self)@[i as int].1));
                    lemma_lookup_first(self@, k);
                    assert(self@[i as int].1 == value);
                    assert(lookup(self@, k) == Some(self@[i as int].1));
                }
            },
            None => {
                let ghost k = key@;
                self.entries.push((key, value));
                proof {
                    assert(self@ =~= old(self)@.push((k, value)));
                    lemma_lookup_first(self@, k);
                    assert(self@[old(self)@.len() as int].1 == value);
                    assert(lookup(self@, k) == Some(self@[old(self)@.len() as int].1));
                }
            },
        }
    }

    /// The value under `key`, if present.
    pub fn get(&self, key: &str) -> (r: Option<&RawValue>)
        ensures
            match r {
                Some(v) => lookup(self@, key@) == Some(*v),
                None => lookup(self@, key@) is None,
            },
    {
        let k = key.to_owned();
        proof {
            lemma_lookup_first(self@, key@);
        }
        match self.position(&k) {
            Some(i) => {
                proof {
                    assert(self@[i as int] == entry_view(self.entries@[i as int]));
                    assert(lookup(self@, key@) == Some(self@[i as int].1));
                }
                Some(&self.entries[i].1)
            },
            None => None,
        }
    }

    /// The entries, in order.
    pub fn entries(&self) -> (r: &Vec<(String, RawValue)>)
        ensures
            r@.map_values(|e: (String, RawValue)| entry_view(e)) == self@,
    {
        &self.entries
    }
}

/// `lookup` finds the first entry with the key.
pub proof fn lemma_lookup_first(s: RawEntries, k: Seq<char>)
    ensures
        forall|i: int|
            0 <= i < s.len() && s[i].0 == k && (forall|j: int| 0 <= j < i ==> s[j].0 != k)
                ==> lookup(s, k) == Some(#[trigger] s[i].1),
        (forall|j: int| 0 <= j < s.len() ==> s[j].0 != k) ==> lookup(s, k) is None,
    decreases s.len(),
{
    if s.len() > 0 {
        lemma_lookup_first(s.drop_first(), k);
        assert forall|i: int|
            0 <= i < s.len() && s[i].0 == k && (forall|j: int| 0 <= j < i ==> s[j].0 != k)
                implies lookup(s, k) == Some(#[trigger] s[i].1) by {
            if i > 0 {
                assert(s[0].0 != k);
                assert(s.drop_first()[i - 1] == s[i]);
                assert forall|j: int| 0 <= j < i - 1 implies s.drop_first()[j].0 != k by {
                    assert(s.drop_first()[j] == s[j + 1]);
                }
            }
        }
        if forall|j: int| 0 <= j < s.len() ==> s[j].0 != k {
            assert(s[0].0 != k);
            assert forall|j: int| 0 <= j < s.drop_first().len() implies s.drop_first()[j].0 != k by {
                assert(s.drop_first()[j] == s[j + 1]);
            }
        }
    }
}

} // verus!
