//! Lists of named items in which no name occurs twice, and the maps they spell out.
//!
//! The members of a JSON object come as such a list, and so do the checks and
//! services that the agent reports.

use vstd::prelude::*;

verus! {

/// Whether some entry has the given name.
pub open spec fn has_name<T>(entries: Seq<(String, T)>, name: Seq<char>) -> bool {
    exists|i: int| 0 <= i < entries.len() && #[trigger] entries[i].0@ == name
}

/// Whether no name occurs twice among the entries.
pub open spec fn distinct_names<T>(entries: Seq<(String, T)>) -> bool {
    forall|i: int, j: int|
        0 <= i < j < entries.len() ==> #[trigger] entries[i].0@ != #[trigger] entries[j].0@
}

/// The position of an entry with the given name.
pub open spec fn position<T>(entries: Seq<(String, T)>, name: Seq<char>) -> int {
    choose|i: int| 0 <= i < entries.len() && #[trigger] entries[i].0@ == name
}

/// The map that a list of entries spells out: each name with its item.
pub open spec fn map_of<T>(entries: Seq<(String, T)>) -> Map<Seq<char>, T> {
    Map::new(
        |name: Seq<char>| has_name(entries, name),
        |name: Seq<char>| entries[position(entries, name)].1,
    )
}

/// The map that a list of entries spells out, each item taken by its view.
pub open spec fn table_of<T: DeepView>(entries: Seq<(String, T)>) -> Map<Seq<char>, T::V> {
    Map::new(
        |name: Seq<char>| has_name(entries, name),
        |name: Seq<char>| entries[position(entries, name)].1.deep_view(),
    )
}

/// Among entries with distinct names, a name is found at the position of its entry.
pub proof fn lemma_position<T>(entries: Seq<(String, T)>, i: int)
    requires
        distinct_names(entries),
        0 <= i < entries.len(),
    ensures
        has_name(entries, entries[i].0@),
        position(entries, entries[i].0@) == i,
{
    let name = entries[i].0@;
    assert(has_name(entries, name));
    let j = position(entries, name);
    if j < i {
        assert(entries[j].0@ != entries[i].0@);
    } else if i < j {
        assert(entries[i].0@ != entries[j].0@);
    }
}

/// An entry with a new name keeps the names distinct and adds one pair to the map.
pub proof fn lemma_push_entry<T>(entries: Seq<(String, T)>, name: String, item: T)
    requires
        distinct_names(entries),
        !has_name(entries, name@),
    ensures
        distinct_names(entries.push((name, item))),
        map_of(entries.push((name, item))) == map_of(entries).insert(name@, item),
{
    let longer = entries.push((name, item));
    assert forall|i: int, j: int| 0 <= i < j < longer.len() implies #[trigger] longer[i].0@
        != #[trigger] longer[j].0@ by {
        if j == entries.len() {
            assert(entries[i].0@ != name@);
        } else {
            assert(entries[i].0@ != entries[j].0@);
        }
    }
    assert forall|key: Seq<char>| #[trigger]
        map_of(longer).contains_key(key) <==> map_of(entries).insert(name@, item).contains_key(
            key,
        ) by {
        if has_name(longer, key) {
            let i = position(longer, key);
            if i < entries.len() {
                assert(entries[i].0@ == key);
            }
        }
        if has_name(entries, key) {
            let i = position(entries, key);
            assert(longer[i].0@ == key);
        }
        if key == name@ {
            assert(longer[entries.len() as int].0@ == key);
        }
    }
    assert forall|key: Seq<char>| #[trigger] map_of(longer).contains_key(key) implies map_of(
        longer,
    )[key] == map_of(entries).insert(name@, item)[key] by {
        let i = position(longer, key);
        lemma_position(longer, i);
        if i < entries.len() {
            assert(entries[i].0@ == key);
            lemma_position(entries, i);
        }
    }
    assert(map_of(longer) =~= map_of(entries).insert(name@, item));
}

} // verus!
