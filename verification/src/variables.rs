//! The names of a scope and the values they stand for.

use vstd::prelude::*;

use crate::object::Object;
use crate::strings::str_eq;

verus! {

/// Whether the entry at `index` carries `name`.
spec fn defines(entries: Seq<(String, Object)>, name: Seq<char>, index: int) -> bool {
    0 <= index < entries.len() && entries[index].0@ == name
}

/// Whether no name is carried by two entries.
spec fn distinct_names(entries: Seq<(String, Object)>) -> bool {
    forall|i: int, j: int|
        0 <= i < j < entries.len() ==> (#[trigger] entries[i]).0@ != (#[trigger] entries[j]).0@
}

/// The mapping that a list of entries stands for: each name that an entry
/// carries is mapped to the value of that entry.
spec fn bindings(entries: Seq<(String, Object)>) -> Map<Seq<char>, Object> {
    Map::new(
        |name: Seq<char>| exists|index: int| defines(entries, name, index),
        |name: Seq<char>| entries[choose|index: int| defines(entries, name, index)].1,
    )
}

/// Where names are distinct, the mapping gives each name the value of the
/// one entry that carries it.
proof fn lemma_bindings_at(entries: Seq<(String, Object)>, name: Seq<char>, index: int)
    requires
        distinct_names(entries),
        defines(entries, name, index),
    ensures
        bindings(entries).contains_key(name),
        bindings(entries)[name] == entries[index].1,
{
    let chosen = choose|i: int| defines(entries, name, i);
    if chosen < index {
        assert(entries[chosen].0@ != entries[index].0@);
    } else if index < chosen {
        assert(entries[index].0@ != entries[chosen].0@);
    }
}

/// Replacing an entry by one with the same name keeps the names distinct,
/// redefines that name and changes no other.
proof fn lemma_bindings_update(
    entries: Seq<(String, Object)>,
    index: int,
    entry: (String, Object),
)
    requires
        distinct_names(entries),
        defines(entries, entry.0@, index),
    ensures
        distinct_names(entries.update(index, entry)),
        bindings(entries.update(index, entry)) == bindings(entries).insert(entry.0@, entry.1),
{
    let after = entries.update(index, entry);
    assert forall|i: int, j: int| 0 <= i < j < after.len() implies (#[trigger] after[i]).0@ != (
    #[trigger] after[j]).0@ by {
        assert(after[i].0@ == entries[i].0@);
        assert(after[j].0@ == entries[j].0@);
    }
    assert forall|name: Seq<char>, i: int| defines(after, name, i) <==> defines(
        entries,
        name,
        i,
    ) by {}
    assert forall|name: Seq<char>| #[trigger]
        bindings(after).contains_key(name) implies bindings(after)[name] == bindings(
        entries,
    ).insert(entry.0@, entry.1)[name] by {
        let i = choose|i: int| defines(after, name, i);
        lemma_bindings_at(after, name, i);
        lemma_bindings_at(entries, name, i);
    }
    assert(defines(after, entry.0@, index));
    assert(bindings(after) =~= bindings(entries).insert(entry.0@, entry.1));
}

/// Appending an entry whose name no entry carries keeps the names
/// distinct, defines that name and changes no other.
proof fn lemma_bindings_push(entries: Seq<(String, Object)>, entry: (String, Object))
    requires
        distinct_names(entries),
        forall|i: int| 0 <= i < entries.len() ==> (#[trigger] entries[i]).0@ != entry.0@,
    ensures
        distinct_names(entries.push(entry)),
        bindings(entries.push(entry)) == bindings(entries).insert(entry.0@, entry.1),
{
    let after = entries.push(entry);
    let last = entries.len() as int;
    assert forall|i: int, j: int| 0 <= i < j < after.len() implies (#[trigger] after[i]).0@ != (
    #[trigger] after[j]).0@ by {
        assert(after[i] == entries[i]);
        if j < last {
            assert(after[j] == entries[j]);
        }
    }
    assert forall|name: Seq<char>, i: int| defines(after, name, i) <==> (defines(entries, name, i)
        || (name == entry.0@ && i == last)) by {}
    assert(defines(after, entry.0@, last));
    assert forall|name: Seq<char>| #[trigger]
        bindings(after).contains_key(name) implies bindings(after)[name] == bindings(
        entries,
    ).insert(entry.0@, entry.1)[name] by {
        let i = choose|i: int| defines(after, name, i);
        lemma_bindings_at(after, name, i);
        if name != entry.0@ {
            lemma_bindings_at(entries, name, i);
        }
    }
    assert(bindings(after) =~= bindings(entries).insert(entry.0@, entry.1));
}

/// A mapping from names to objects. Each name has at most one value, and
/// the value a name was last given is the one it has.
pub struct Variables {
    entries: Vec<(String, Object)>,
}

impl View for Variables {
    type V = Map<Seq<char>, Object>;

    closed spec fn view(&self) -> Map<Seq<char>, Object> {
        bindings(self.entries@)
    }
}

impl Variables {
    #[verifier::type_invariant]
    spec fn no_name_twice(&self) -> bool {
        distinct_names(self.entries@)
    }

    /// A mapping that defines no name.
    pub fn new() -> (variables: Variables)
        ensures
            variables@ == Map::<Seq<char>, Object>::empty(),
    {
        let variables = Variables { entries: Vec::new() };
        assert(variables@ =~= Map::empty());
        variables
    }

    /// Gives `name` the value `value`. A value that the name had before is
    /// replaced; all other names keep theirs.
    pub fn insert(&mut self, name: String, value: Object)
        ensures
            final(self)@ == old(self)@.insert(name@, value),
    {
        proof {
            use_type_invariant(&*self);
        }
        // The entries are swapped out while they change, and come back
        // with their names distinct.
        let mut entries: Vec<(String, Object)> = Vec::new();
        std::mem::swap(&mut self.entries, &mut entries);
        let mut i: usize = 0;
        while i < entries.len()
            invariant
                i <= entries.len(),
                forall|earlier: int|
                    0 <= earlier < i ==> (#[trigger] entries@[earlier]).0@ != name@,
            ensures
                i < entries.len() ==> defines(entries@, name@, i as int),
            decreases entries.len() - i,
        {
            if str_eq(entries[i].0.as_str(), name.as_str()) {
                break ;
            }
            i += 1;
        }
        if i < entries.len() {
            proof {
                lemma_bindings_update(entries@, i as int, (name, value));
            }
            entries.set(i, (name, value));
        } else {
            proof {
                lemma_bindings_push(entries@, (name, value));
            }
            entries.push((name, value));
        }
        std::mem::swap(&mut self.entries, &mut entries);
    }

    /// The value of `name`, if it has one.
    pub fn get(&self, name: &str) -> (found: Option<&Object>)
        ensures
            found == if self@.contains_key(name@) {
                Some(&self@[name@])
            } else {
                None
            },
    {
        proof {
            use_type_invariant(self);
        }
        let mut i: usize = 0;
        while i < self.entries.len()
            invariant
                i <= self.entries.len(),
                distinct_names(self.entries@),
                forall|earlier: int|
                    0 <= earlier < i ==> (#[trigger] self.entries@[earlier]).0@ != name@,
            decreases self.entries.len() - i,
        {
            if str_eq(self.entries[i].0.as_str(), name) {
                proof {
                    lemma_bindings_at(self.entries@, name@, i as int);
                }
                return Some(&self.entries[i].1);
            }
            i += 1;
        }
        assert(!self@.contains_key(name@));
        None
    }
}

} // verus!
