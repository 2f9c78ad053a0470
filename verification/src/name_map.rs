//! A map from names to values, held as a list of entries with distinct names.

use vstd::prelude::*;
use vstd::seq_lib::seq_to_set_is_finite;

verus! {

/// A finite map keyed by text. Inserting under a name that is already present
/// replaces the value held there.
#[derive(Debug)]
pub struct NameMap<V> {
    entries: Vec<(String, V)>,
}

/// The names of a list of entries, in order.
pub open spec fn names_of<V>(entries: Seq<(String, V)>) -> Seq<Seq<char>> {
    Seq::new(entries.len(), |i: int| entries[i].0@)
}

/// The map that a list of entries with distinct names stands for.
pub open spec fn map_of<V>(entries: Seq<(String, V)>) -> Map<Seq<char>, V> {
    Map::new(
        |k: Seq<char>| names_of(entries).contains(k),
        |k: Seq<char>| entries[names_of(entries).index_of(k)].1,
    )
}

/// In a list with distinct names, the entry at `i` is the one its name maps to.
pub proof fn lemma_map_of_entry<V>(entries: Seq<(String, V)>, i: int)
    requires
        names_of(entries).no_duplicates(),
        0 <= i < entries.len(),
    ensures
        map_of(entries).contains_key(entries[i].0@),
        map_of(entries)[entries[i].0@] == entries[i].1,
{
    let names = names_of(entries);
    assert(names[i] == entries[i].0@);
    assert(names.contains(entries[i].0@));
    let j = names.index_of(entries[i].0@);
    assert(names[j] == names[i]);
}

/// Replacing the value of an entry puts the new value under the entry's name and
/// leaves the names as they were.
pub proof fn lemma_map_of_replace<V>(entries: Seq<(String, V)>, i: int, name: String, value: V)
    requires
        names_of(entries).no_duplicates(),
        0 <= i < entries.len(),
        entries[i].0@ == name@,
    ensures
        names_of(entries.update(i, (name, value))) == names_of(entries),
        map_of(entries.update(i, (name, value))) == map_of(entries).insert(name@, value),
{
    let after = entries.update(i, (name, value));
    let names = names_of(entries);
    assert(names_of(after) =~= names);
    assert(names[i] == name@);
    assert forall|k: Seq<char>| names.contains(k) implies #[trigger] map_of(after)[k] == map_of(
        entries,
    ).insert(name@, value)[k] by {
        let j = names.index_of(k);
        assert(names[j] == k);
        if k != name@ {
            assert(after[j] == entries[j]);
        }
    }
    assert(map_of(after) =~= map_of(entries).insert(name@, value));
}

/// Appending an entry under a name that is not yet held puts its value under that
/// name and keeps the names distinct.
pub proof fn lemma_map_of_push<V>(entries: Seq<(String, V)>, name: String, value: V)
    requires
        names_of(entries).no_duplicates(),
        !names_of(entries).contains(name@),
    ensures
        names_of(entries.push((name, value))).no_duplicates(),
        map_of(entries.push((name, value))) == map_of(entries).insert(name@, value),
{
    let after = entries.push((name, value));
    let names = names_of(entries);
    assert(names_of(after) =~= names.push(name@));
    assert forall|k: Seq<char>| names_of(after).contains(k) <==> (k == name@ || names.contains(
        k,
    )) by {
        if names_of(after).contains(k) {
            let j = names_of(after).index_of(k);
            if j < entries.len() {
                assert(names[j] == k);
            }
        }
        if names.contains(k) {
            assert(names_of(after)[names.index_of(k)] == k);
        }
        if k == name@ {
            assert(names_of(after)[entries.len() as int] == k);
        }
    }
    assert forall|k: Seq<char>| names_of(after).contains(k) implies #[trigger] map_of(after)[k]
        == map_of(entries).insert(name@, value)[k] by {
        if k != name@ {
            assert(names_of(after)[names.index_of(k)] == k);
        } else {
            assert(names_of(after)[entries.len() as int] == k);
        }
    }
    assert(map_of(after) =~= map_of(entries).insert(name@, value));
}

/// A list with distinct names stands for a map with as many names as it has entries.
pub proof fn lemma_map_of_len<V>(entries: Seq<(String, V)>)
    requires
        names_of(entries).no_duplicates(),
    ensures
        map_of(entries).dom().finite(),
        map_of(entries).len() == entries.len(),
{
    let names = names_of(entries);
    assert(map_of(entries).dom() =~= names.to_set());
    seq_to_set_is_finite(names);
    names.unique_seq_to_set();
}

impl<V> NameMap<V> {
    /// Names are pairwise distinct.
    #[verifier::type_invariant]
    pub closed spec fn wf(self) -> bool {
        names_of(self.entries@).no_duplicates()
    }

    /// The entries in the order in which their names first came in.
    pub closed spec fn entries(self) -> Seq<(String, V)> {
        self.entries@
    }

    /// The map this value stands for.
    pub open spec fn view(self) -> Map<Seq<char>, V> {
        map_of(self.entries())
    }

    /// An empty map.
    pub fn new() -> (m: Self)
        ensures
            m@ == Map::<Seq<char>, V>::empty(),
            m.entries() == Seq::<(String, V)>::empty(),
    {
        let m = NameMap { entries: Vec::new() };
        assert(m@ =~= Map::<Seq<char>, V>::empty());
        m
    }

    /// Number of names held.
    pub fn len(&self) -> (n: usize)
        ensures
            n == self@.len(),
            n == self.entries().len(),
            self@.dom().finite(),
    {
        proof {
            use_type_invariant(self);
            lemma_map_of_len(self.entries@);
        }
        self.entries.len()
    }

    /// Position of `name` among the entries, if it is present.
    fn position(&self, name: &String) -> (at: Option<usize>)
        ensures
            match at {
                Some(i) => i < self.entries().len() && self.entries()[i as int].0@ == name@,
                None => !names_of(self.entries()).contains(name@),
            },
    {
        let mut i: usize = 0;
        while i < self.entries.len()
            invariant
                i <= self.entries@.len(),
                forall|j: int| 0 <= j < i ==> self.entries@[j].0@ != name@,
            decreases self.entries.len() - i,
        {
            if self.entries[i].0 == *name {
                return Some(i);
            }
            i += 1;
        }
        None
    }

    /// The value held under `name`.
    pub fn get(&self, name: &str) -> (found: Option<&V>)
        ensures
            match found {
                Some(v) => self@.contains_key(name@) && *v == self@[name@],
                None => !self@.contains_key(name@),
            },
    {
        let key = name.to_owned();
        match self.position(&key) {
            Some(i) => {
                proof {
                    use_type_invariant(self);
                    lemma_map_of_entry(self.entries@, i as int);
                }
                Some(&self.entries[i].1)
            },
            None => None,
        }
    }

    /// Puts `value` under `name`, replacing what was held there.
    pub fn insert(&mut self, name: String, value: V)
        ensures
            final(self)@ == old(self)@.insert(name@, value),
    {
        proof {
            use_type_invariant(&*self);
        }
        let ghost before = self.entries@;
        let at = self.position(&name);
        let mut entries: Vec<(String, V)> = Vec::new();
        std::mem::swap(&mut self.entries, &mut entries);
        match at {
            Some(i) => {
                proof {
                    lemma_map_of_replace(before, i as int, name, value);
                }
                entries.set(i, (name, value));
            },
            None => {
                proof {
                    lemma_map_of_push(before, name, value);
                }
                entries.push((name, value));
            },
        }
        self.entries = entries;
    }

    /// The entries as a slice, for callers that walk the whole map.
    pub fn as_slice(&self) -> (all: &[(String, V)])
        ensures
            all@ == self.entries(),
            names_of(all@).no_duplicates(),
    {
        proof {
            use_type_invariant(self);
        }
        self.entries.as_slice()
    }
}

/// The text that each name maps to, for a map whose values are strings.
pub open spec fn text_of(m: Map<Seq<char>, String>) -> Map<Seq<char>, Seq<char>> {
    m.map_values(|v: String| v@)
}

impl NameMap<String> {
    /// A copy that maps the same names to the same text.
    pub fn duplicate(&self) -> (copy: Self)
        ensures
            copy@ == self@,
            copy.entries() == self.entries(),
    {
        proof {
            use_type_invariant(self);
        }
        let mut entries: Vec<(String, String)> = Vec::new();
        let mut i: usize = 0;
        while i < self.entries.len()
            invariant
                i <= self.entries@.len(),
                entries@ == self.entries@.take(i as int),
            decreases self.entries.len() - i,
        {
            let name = self.entries[i].0.clone();
            let value = self.entries[i].1.clone();
            entries.push((name, value));
            assert(entries@ =~= self.entries@.take(i + 1));
            i += 1;
        }
        assert(entries@ =~= self.entries@);
        NameMap { entries }
    }
}

/// The map that a list of name-value pairs gives when they are put in one after another:
/// of a repeated name the last value stays.
pub open spec fn collected<V>(pairs: Seq<(Seq<char>, V)>) -> Map<Seq<char>, V>
    decreases pairs.len(),
{
    if pairs.len() == 0 {
        Map::empty()
    } else {
        collected(pairs.drop_last()).insert(pairs.last().0, pairs.last().1)
    }
}

/// A pair whose name no later pair repeats is the one its name maps to.
pub proof fn lemma_collected_last_wins<V>(pairs: Seq<(Seq<char>, V)>, i: int)
    requires
        0 <= i < pairs.len(),
        forall|j: int| i < j < pairs.len() ==> pairs[j].0 != pairs[i].0,
    ensures
        collected(pairs).contains_key(pairs[i].0),
        collected(pairs)[pairs[i].0] == pairs[i].1,
    decreases pairs.len(),
{
    if i < pairs.len() - 1 {
        let front = pairs.drop_last();
        assert(front[i] == pairs[i]);
        assert forall|j: int| i < j < front.len() implies front[j].0 != front[i].0 by {
            assert(front[j] == pairs[j]);
        }
        lemma_collected_last_wins(front, i);
    }
}

/// The names of the collected map are the names that occur in the list.
pub proof fn lemma_collected_names<V>(pairs: Seq<(Seq<char>, V)>, name: Seq<char>)
    ensures
        collected(pairs).contains_key(name) <==> exists|i: int|
            0 <= i < pairs.len() && (#[trigger] pairs[i]).0 == name,
    decreases pairs.len(),
{
    if pairs.len() > 0 {
        let front = pairs.drop_last();
        lemma_collected_names(front, name);
        if collected(pairs).contains_key(name) {
            if pairs.last().0 == name {
                assert(pairs[pairs.len() - 1].0 == name);
            } else {
                let i = choose|i: int| 0 <= i < front.len() && (#[trigger] front[i]).0 == name;
                assert(pairs[i] == front[i]);
            }
        }
        if exists|i: int| 0 <= i < pairs.len() && (#[trigger] pairs[i]).0 == name {
            let i = choose|i: int| 0 <= i < pairs.len() && (#[trigger] pairs[i]).0 == name;
            if i < front.len() {
                assert(front[i] == pairs[i]);
            }
        }
    }
}

} // verus!
