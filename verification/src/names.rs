//! A small map keyed by names, kept as a list of entries.
//!
//! Group names are short strings and a timetable holds a few dozen of them,
//! so a list that is searched from its end serves as the map. The model of
//! the map is a `Map` from the name's characters to the value's view.

use vstd::prelude::*;

verus! {

/// One name together with what the map holds for it.
#[derive(Debug)]
pub struct Named<V> {
    pub name: String,
    pub value: V,
}

/// What `entries` holds for `name`: the value of the last entry that carries
/// the name, if there is one.
pub open spec fn lookup<V: View>(entries: Seq<Named<V>>, name: Seq<char>) -> Option<V::V>
    decreases entries.len(),
{
    if entries.len() == 0 {
        None
    } else if entries.last().name@ == name {
        Some(entries.last().value@)
    } else {
        lookup(entries.drop_last(), name)
    }
}

/// Whether no two entries carry the same name.
pub open spec fn distinct_names<V>(entries: Seq<Named<V>>) -> bool {
    forall|i: int, j: int|
        0 <= i < j < entries.len() ==> (#[trigger] entries[i]).name@ != (#[trigger] entries[j]).name@
}

/// The map that a list of entries stands for.
pub open spec fn as_map<V: View>(entries: Seq<Named<V>>) -> Map<Seq<char>, V::V> {
    Map::new(
        |name: Seq<char>| lookup(entries, name).is_some(),
        |name: Seq<char>| lookup(entries, name).unwrap(),
    )
}

/// A name is found exactly if some entry carries it.
pub proof fn lemma_lookup_found<V: View>(entries: Seq<Named<V>>, name: Seq<char>)
    ensures
        lookup(entries, name).is_some() <==> exists|i: int|
            0 <= i < entries.len() && (#[trigger] entries[i]).name@ == name,
    decreases entries.len(),
{
    if entries.len() > 0 {
        let rest = entries.drop_last();
        lemma_lookup_found(rest, name);
        if entries.last().name@ == name {
            assert(entries[entries.len() - 1].name@ == name);
        } else if lookup(rest, name).is_some() {
            let i = choose|i: int| 0 <= i < rest.len() && (#[trigger] rest[i]).name@ == name;
            assert(entries[i].name@ == name);
        } else {
            assert forall|i: int| 0 <= i < entries.len() implies (#[trigger] entries[i]).name@
                != name by {
                if i < rest.len() {
                    assert(rest[i].name@ != name);
                }
            }
        }
    }
}

/// An entry after which the name does not occur again decides the lookup.
pub proof fn lemma_lookup_at<V: View>(entries: Seq<Named<V>>, at: int)
    requires
        0 <= at < entries.len(),
        forall|j: int| at < j < entries.len() ==> (#[trigger] entries[j]).name@ != entries[at].name@,
    ensures
        lookup(entries, entries[at].name@) == Some(entries[at].value@),
    decreases entries.len(),
{
    if at < entries.len() - 1 {
        let rest = entries.drop_last();
        assert(entries[entries.len() - 1].name@ != entries[at].name@);
        assert(rest[at] == entries[at]);
        assert forall|j: int| at < j < rest.len() implies (#[trigger] rest[j]).name@
            != rest[at].name@ by {
            assert(rest[j] == entries[j]);
        }
        lemma_lookup_at(rest, at);
    }
}

/// Replacing the value of the last entry that carries a name changes the
/// lookup of that name and of no other.
pub proof fn lemma_lookup_update<V: View>(
    entries: Seq<Named<V>>,
    at: int,
    entry: Named<V>,
    name: Seq<char>,
)
    requires
        0 <= at < entries.len(),
        entry.name@ == entries[at].name@,
        forall|j: int| at < j < entries.len() ==> (#[trigger] entries[j]).name@ != entry.name@,
    ensures
        lookup(entries.update(at, entry), name) == if name == entry.name@ {
            Some(entry.value@)
        } else {
            lookup(entries, name)
        },
    decreases entries.len(),
{
    let updated = entries.update(at, entry);
    if at == entries.len() - 1 {
        assert(updated.drop_last() =~= entries.drop_last());
    } else {
        let rest = entries.drop_last();
        assert(updated.drop_last() =~= rest.update(at, entry));
        assert(updated.last() == entries.last());
        assert(entries[entries.len() - 1].name@ != entry.name@);
        assert(rest[at] == entries[at]);
        assert forall|j: int| at < j < rest.len() implies (#[trigger] rest[j]).name@
            != entry.name@ by {
            assert(rest[j] == entries[j]);
        }
        lemma_lookup_update(rest, at, entry, name);
    }
}

/// The map of a list grows by one binding with each entry.
pub proof fn lemma_as_map_step<V: View>(entries: Seq<Named<V>>, upto: int)
    requires
        0 <= upto < entries.len(),
    ensures
        as_map(entries.take(upto + 1)) == as_map(entries.take(upto)).insert(
            entries[upto].name@,
            entries[upto].value@,
        ),
{
    let longer = entries.take(upto + 1);
    assert(longer.drop_last() =~= entries.take(upto));
    assert(longer.last() == entries[upto]);
    assert(as_map(longer) =~= as_map(entries.take(upto)).insert(
        entries[upto].name@,
        entries[upto].value@,
    ));
}

/// A map from names to values of type `V`.
#[derive(Debug)]
pub struct NameMap<V> {
    entries: Vec<Named<V>>,
}

impl<V: View> View for NameMap<V> {
    type V = Map<Seq<char>, V::V>;

    closed spec fn view(&self) -> Map<Seq<char>, V::V> {
        as_map(self.entries@)
    }
}

impl<V: View> NameMap<V> {
    /// The entries, in the order in which their names were first inserted.
    pub closed spec fn entries(&self) -> Seq<Named<V>> {
        self.entries@
    }

    /// The invariant that every constructor and method keeps: each name
    /// occurs once.
    pub open spec fn wf(&self) -> bool {
        distinct_names(self.entries())
    }

    /// The model of the map is the lookup over its entries.
    pub proof fn lemma_view(&self)
        ensures
            self@ == as_map(self.entries()),
    {
    }

    /// The empty map.
    pub fn new() -> (map: NameMap<V>)
        ensures
            map@ == Map::<Seq<char>, V::V>::empty(),
            map.entries().len() == 0,
            map.wf(),
    {
        let map = NameMap { entries: Vec::new() };
        assert(map@ =~= Map::<Seq<char>, V::V>::empty());
        map
    }

    /// The number of entries.
    pub fn len(&self) -> (n: usize)
        ensures
            n == self.entries().len(),
    {
        self.entries.len()
    }

    /// The entry at position `at`.
    pub fn entry(&self, at: usize) -> (entry: &Named<V>)
        requires
            at < self.entries().len(),
        ensures
            *entry == self.entries()[at as int],
    {
        &self.entries[at]
    }

    /// The position of the last entry that carries `name`.
    fn position(&self, name: &String) -> (found: Option<usize>)
        ensures
            match found {
                Some(at) => {
                    &&& at < self.entries@.len()
                    &&& self.entries@[at as int].name@ == name@
                    &&& forall|j: int|
                        at < j < self.entries@.len() ==> (#[trigger] self.entries@[j]).name@
                            != name@
                },
                None => forall|j: int|
                    0 <= j < self.entries@.len() ==> (#[trigger] self.entries@[j]).name@ != name@,
            },
    {
        let mut i: usize = self.entries.len();
        while i > 0
            invariant
                i <= self.entries@.len(),
                forall|j: int|
                    i <= j < self.entries@.len() ==> (#[trigger] self.entries@[j]).name@ != name@,
            decreases i,
        {
            i = i - 1;
            if self.entries[i].name == *name {
                return Some(i);
            }
        }
        None
    }

    /// The value held for `name`.
    pub fn get(&self, name: &String) -> (found: Option<&V>)
        ensures
            match found {
                Some(value) => self@.contains_key(name@) && self@[name@] == value@,
                None => !self@.contains_key(name@),
            },
    {
        proof {
            lemma_lookup_found(self.entries@, name@);
        }
        match self.position(name) {
            Some(at) => {
                proof {
                    lemma_lookup_at(self.entries@, at as int);
                }
                Some(&self.entries[at].value)
            },
            None => None,
        }
    }

    /// Whether the map holds a value for `name`.
    pub fn contains(&self, name: &String) -> (found: bool)
        ensures
            found == self@.contains_key(name@),
    {
        self.get(name).is_some()
    }

    /// Sets the value held for `name`. A name that the map holds keeps its
    /// place among the entries and gets the new value; a name that it does
    /// not hold is added as the last entry.
    pub fn insert(&mut self, name: String, value: V)
        ensures
            final(self)@ == old(self)@.insert(name@, value@),
            old(self).wf() ==> final(self).wf(),
            !old(self)@.contains_key(name@) ==> final(self).entries() == old(self).entries().push(
                (Named { name, value }),
            ),
            old(self)@.contains_key(name@) ==> exists|at: int|
                0 <= at < old(self).entries().len() && (#[trigger] old(self).entries()[at]).name@
                    == name@ && final(self).entries() == old(self).entries().update(
                    at,
                    (Named { name, value }),
                ),
    {
        let ghost before = self.entries@;
        let ghost key = name@;
        let ghost held = value@;
        proof {
            lemma_lookup_found(before, key);
        }
        match self.position(&name) {
            Some(at) => {
                let entry = Named { name, value };
                proof {
                    assert forall|other: Seq<char>|
                        lookup(before.update(at as int, entry), other) == if other == key {
                            Some(held)
                        } else {
                            lookup(before, other)
                        } by {
                        lemma_lookup_update(before, at as int, entry, other);
                    }
                }
                self.entries.set(at, entry);
                assert(old(self).entries()[at as int].name@ == key && self.entries()
                    == old(self).entries().update(at as int, entry));
            },
            None => {
                let entry = Named { name, value };
                proof {
                    assert(before.push(entry).drop_last() =~= before);
                    assert(before.push(entry).last() == entry);
                }
                self.entries.push(entry);
            },
        }
        assert(self@ =~= old(self)@.insert(key, held));
    }
}

} // verus!
