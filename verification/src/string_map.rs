//! A small map from text to text that keeps its entries in the order in which they came.
use crate::text::same_text;
use vstd::prelude::*;

verus! {

/// Texts by name. No name occurs twice.
#[derive(Debug)]
pub struct StringMap {
    entries: Vec<(String, String)>,
}

/// The place of the entry `key`, or the number of entries where there is none.
pub open spec fn place_of(entries: Seq<(Seq<char>, Seq<char>)>, key: Seq<char>) -> int
    decreases entries.len(),
{
    if entries.len() == 0 || entries[0].0 == key {
        0
    } else {
        1 + place_of(entries.skip(1), key)
    }
}

/// `entries` with the value of `key` set: in its place where there is such an entry, else as a
/// new entry behind the others.
pub open spec fn with_entry(
    entries: Seq<(Seq<char>, Seq<char>)>,
    key: Seq<char>,
    value: Seq<char>,
) -> Seq<(Seq<char>, Seq<char>)> {
    let place = place_of(entries, key);
    if place < entries.len() {
        entries.update(place, (key, value))
    } else {
        entries.push((key, value))
    }
}

/// No name occurs twice.
pub open spec fn distinct_keys(entries: Seq<(Seq<char>, Seq<char>)>) -> bool {
    forall|i: int, j: int|
        0 <= i < j < entries.len() ==> (#[trigger] entries[i]).0 != (#[trigger] entries[j]).0
}

/// The texts of a list of entries.
spec fn entry_texts(entries: Seq<(String, String)>) -> Seq<(Seq<char>, Seq<char>)> {
    Seq::new(entries.len(), |i: int| (entries[i].0@, entries[i].1@))
}

impl View for StringMap {
    type V = Seq<(Seq<char>, Seq<char>)>;

    closed spec fn view(&self) -> Seq<(Seq<char>, Seq<char>)> {
        entry_texts(self.entries@)
    }
}

proof fn place_is_first(entries: Seq<(Seq<char>, Seq<char>)>, key: Seq<char>)
    ensures
        0 <= place_of(entries, key) <= entries.len(),
        place_of(entries, key) < entries.len() ==> entries[place_of(entries, key)].0 == key,
        forall|i: int| 0 <= i < place_of(entries, key) ==> (#[trigger] entries[i]).0 != key,
    decreases entries.len(),
{
    if entries.len() > 0 && entries[0].0 != key {
        let rest = entries.skip(1);
        place_is_first(rest, key);
        assert forall|i: int| 0 <= i < place_of(entries, key) implies (#[trigger] entries[i]).0
            != key by {
            if i > 0 {
                assert(rest[i - 1] == entries[i]);
            }
        }
    }
}

proof fn place_from_first(entries: Seq<(Seq<char>, Seq<char>)>, key: Seq<char>, place: int)
    requires
        0 <= place <= entries.len(),
        place < entries.len() ==> entries[place].0 == key,
        forall|i: int| 0 <= i < place ==> (#[trigger] entries[i]).0 != key,
    ensures
        place_of(entries, key) == place,
{
    place_is_first(entries, key);
    let p = place_of(entries, key);
    if p < place {
        assert(entries[p].0 != key);
    }
    if place < p {
        assert(entries[place].0 != key);
    }
}

/// Setting an entry keeps the names distinct, gives the name its new value and leaves the value
/// of every other name as it was. No entry changes its place: a new name comes behind the others.
pub proof fn entry_is_set(
    entries: Seq<(Seq<char>, Seq<char>)>,
    key: Seq<char>,
    value: Seq<char>,
)
    requires
        distinct_keys(entries),
    ensures
        distinct_keys(with_entry(entries, key, value)),
        with_entry(entries, key, value).contains((key, value)),
        forall|k: Seq<char>, v: Seq<char>|
            k != key ==> (with_entry(entries, key, value).contains((k, v)) <==> entries.contains(
                (k, v),
            )),
        forall|i: int|
            0 <= i < entries.len() ==> (#[trigger] with_entry(entries, key, value)[i]).0
                == entries[i].0,
        (exists|i: int| 0 <= i < entries.len() && (#[trigger] entries[i]).0 == key)
            ==> with_entry(entries, key, value).len() == entries.len(),
        (forall|i: int| 0 <= i < entries.len() ==> (#[trigger] entries[i]).0 != key)
            ==> with_entry(entries, key, value) == entries.push((key, value)),
{
    place_is_first(entries, key);
    let place = place_of(entries, key);
    let after = with_entry(entries, key, value);
    assert(after[place] == (key, value));
    assert forall|k: Seq<char>, v: Seq<char>| k != key implies (after.contains((k, v))
        <==> entries.contains((k, v))) by {
        if after.contains((k, v)) {
            let i = choose|i: int| 0 <= i < after.len() && after[i] == (k, v);
            assert(entries[i] == (k, v));
        }
        if entries.contains((k, v)) {
            let i = choose|i: int| 0 <= i < entries.len() && entries[i] == (k, v);
            assert(after[i] == (k, v));
        }
    }
}

impl StringMap {
    #[verifier::type_invariant]
    spec fn names_are_distinct(self) -> bool {
        distinct_keys(self@)
    }

    /// A map without entries.
    pub fn new() -> (r: Self)
        ensures
            r@ == Seq::<(Seq<char>, Seq<char>)>::empty(),
            distinct_keys(r@),
    {
        let r = StringMap { entries: Vec::new() };
        assert(r@ =~= Seq::<(Seq<char>, Seq<char>)>::empty());
        r
    }

    /// The number of entries, which is the number of different names.
    pub fn len(&self) -> (r: usize)
        ensures
            r == self@.len(),
            distinct_keys(self@),
    {
        proof {
            use_type_invariant(self);
        }
        self.entries.len()
    }

    /// The name of the entry at a place.
    pub fn key(&self, i: usize) -> (r: &str)
        requires
            i < self@.len(),
        ensures
            r@ == self@[i as int].0,
    {
        self.entries[i].0.as_str()
    }

    /// The value of the entry at a place.
    pub fn value(&self, i: usize) -> (r: &str)
        requires
            i < self@.len(),
        ensures
            r@ == self@[i as int].1,
    {
        self.entries[i].1.as_str()
    }

    /// Sets the value of a name.
    pub fn insert(&mut self, key: String, value: String)
        ensures
            final(self)@ == with_entry(old(self)@, key@, value@),
            distinct_keys(final(self)@),
    {
        proof {
            use_type_invariant(&*self);
            entry_is_set(self@, key@, value@);
        }
        let ghost before = self@;
        let ghost k = key@;
        let ghost v = value@;
        let mut entries: Vec<(String, String)> = Vec::new();
        std::mem::swap(&mut entries, &mut self.entries);
        let n: usize = entries.len();
        let mut i: usize = 0;
        while i < n && !same_text(entries[i].0.as_str(), key.as_str())
            invariant
                i <= n,
                n == entries@.len(),
                before == entry_texts(entries@),
                k == key@,
                forall|j: int| 0 <= j < i ==> (#[trigger] before[j]).0 != k,
            decreases n - i,
        {
            i += 1;
        }
        proof {
            place_from_first(before, k, i as int);
        }
        if i < n {
            entries.set(i, (key, value));
        } else {
            entries.push((key, value));
        }
        assert(entry_texts(entries@) =~= with_entry(before, k, v));
        self.entries = entries;
    }
}

} // verus!
