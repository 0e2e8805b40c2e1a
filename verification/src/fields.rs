//! A small map from field names to text values, kept as a list in which no
//! name occurs twice.

use vstd::prelude::*;

verus! {

/// No two entries of `entries` carry the same name.
pub open spec fn names_distinct(entries: Seq<(String, String)>) -> bool {
    forall|i: int, j: int|
        0 <= i < j < entries.len() ==> (#[trigger] entries[i]).0@ != (#[trigger] entries[j]).0@
}

/// Some entry of `entries` carries `name`.
pub open spec fn listed(entries: Seq<(String, String)>, name: Seq<char>) -> bool {
    exists|i: int| 0 <= i < entries.len() && (#[trigger] entries[i]).0@ == name
}

/// The place of an entry that carries `name`, where there is one.
pub open spec fn position(entries: Seq<(String, String)>, name: Seq<char>) -> int {
    choose|i: int| 0 <= i < entries.len() && (#[trigger] entries[i]).0@ == name
}

/// The map that a list of entries stands for.
pub open spec fn as_map(entries: Seq<(String, String)>) -> Map<Seq<char>, Seq<char>> {
    Map::new(|name: Seq<char>| listed(entries, name), |name: Seq<char>| entries[position(entries, name)].1@)
}

/// Two maps agree wherever both have a value.
pub open spec fn compatible(a: Map<Seq<char>, Seq<char>>, b: Map<Seq<char>, Seq<char>>) -> bool {
    forall|name: Seq<char>| #[trigger] a.contains_key(name) && b.contains_key(name) ==> a[name] == b[name]
}

/// In a list of distinct names, the entry at `i` is the one found under its name.
proof fn lemma_position(entries: Seq<(String, String)>, i: int)
    requires
        names_distinct(entries),
        0 <= i < entries.len(),
    ensures
        listed(entries, entries[i].0@),
        position(entries, entries[i].0@) == i,
        as_map(entries).contains_key(entries[i].0@),
        as_map(entries)[entries[i].0@] == entries[i].1@,
{
    let name = entries[i].0@;
    let p = position(entries, name);
    assert(0 <= p < entries.len() && entries[p].0@ == name);
    if p < i {
        assert(entries[p].0@ != entries[i].0@);
    } else if i < p {
        assert(entries[i].0@ != entries[p].0@);
    }
}

/// Appending an entry under a new name inserts it into the map.
proof fn lemma_push(entries: Seq<(String, String)>, entry: (String, String))
    requires
        names_distinct(entries),
        !listed(entries, entry.0@),
    ensures
        names_distinct(entries.push(entry)),
        as_map(entries.push(entry)) == as_map(entries).insert(entry.0@, entry.1@),
{
    let after = entries.push(entry);
    assert forall|i: int, j: int| 0 <= i < j < after.len() implies (#[trigger] after[i]).0@ != (
    #[trigger] after[j]).0@ by {
        if j == entries.len() {
            assert(after[i] == entries[i]);
        } else {
            assert(after[i] == entries[i]);
            assert(after[j] == entries[j]);
        }
    }
    let last = entries.len() as int;
    assert(after[last] == entry);
    assert forall|name: Seq<char>|
        as_map(after).contains_key(name) <==> as_map(entries).insert(
            entry.0@,
            entry.1@,
        ).contains_key(name) by {
        if listed(after, name) {
            let p = position(after, name);
            if p < last {
                assert(entries[p] == after[p]);
            }
        }
        if listed(entries, name) {
            let p = position(entries, name);
            assert(after[p] == entries[p]);
        }
    }
    assert forall|name: Seq<char>| as_map(after).contains_key(name) implies as_map(after)[name]
        == as_map(entries).insert(entry.0@, entry.1@)[name] by {
        if name == entry.0@ {
            lemma_position(after, last);
        } else {
            let p = position(after, name);
            assert(p < last);
            assert(entries[p] == after[p]);
            lemma_position(entries, p);
            lemma_position(after, p);
        }
    }
    assert(as_map(after) =~= as_map(entries).insert(entry.0@, entry.1@));
}

/// Replacing the value of the entry at `i` inserts the new value under its name.
proof fn lemma_update(entries: Seq<(String, String)>, i: int, entry: (String, String))
    requires
        names_distinct(entries),
        0 <= i < entries.len(),
        entries[i].0@ == entry.0@,
    ensures
        names_distinct(entries.update(i, entry)),
        as_map(entries.update(i, entry)) == as_map(entries).insert(entry.0@, entry.1@),
{
    let after = entries.update(i, entry);
    assert forall|a: int, b: int| 0 <= a < b < after.len() implies (#[trigger] after[a]).0@ != (
    #[trigger] after[b]).0@ by {
        assert(after[a].0@ == entries[a].0@);
        assert(after[b].0@ == entries[b].0@);
    }
    assert forall|name: Seq<char>|
        as_map(after).contains_key(name) <==> as_map(entries).insert(
            entry.0@,
            entry.1@,
        ).contains_key(name) by {
        if listed(after, name) {
            let p = position(after, name);
            assert(entries[p].0@ == after[p].0@);
        }
        if listed(entries, name) {
            let p = position(entries, name);
            assert(after[p].0@ == entries[p].0@);
        }
        if name == entry.0@ {
            assert(after[i].0@ == name);
        }
    }
    assert forall|name: Seq<char>| as_map(after).contains_key(name) implies as_map(after)[name]
        == as_map(entries).insert(entry.0@, entry.1@)[name] by {
        if name == entry.0@ {
            lemma_position(after, i);
        } else {
            let p = position(after, name);
            assert(p != i);
            assert(entries[p] == after[p]);
            lemma_position(entries, p);
            lemma_position(after, p);
        }
    }
    assert(as_map(after) =~= as_map(entries).insert(entry.0@, entry.1@));
}

/// A finite map from field names to text values.
#[derive(Debug)]
pub struct FieldMap {
    entries: Vec<(String, String)>,
}

impl View for FieldMap {
    type V = Map<Seq<char>, Seq<char>>;

    closed spec fn view(&self) -> Map<Seq<char>, Seq<char>> {
        as_map(self.entries@)
    }
}

impl FieldMap {
    #[verifier::type_invariant]
    spec fn well_formed(&self) -> bool {
        names_distinct(self.entries@)
    }

    /// The map without any field.
    pub fn new() -> (fields: FieldMap)
        ensures
            fields@ == Map::<Seq<char>, Seq<char>>::empty(),
    {
        let fields = FieldMap { entries: Vec::new() };
        assert(fields@ =~= Map::<Seq<char>, Seq<char>>::empty());
        fields
    }

    /// Where `name` stands in the list, if it does.
    fn find(&self, name: &String) -> (found: Option<usize>)
        ensures
            match found {
                Some(i) => i < self.entries@.len() && self.entries@[i as int].0@ == name@,
                None => !listed(self.entries@, name@),
            },
    {
        let mut i: usize = 0;
        while i < self.entries.len()
            invariant
                i <= self.entries@.len(),
                forall|k: int| 0 <= k < i ==> (#[trigger] self.entries@[k]).0@ != name@,
            decreases self.entries@.len() - i,
        {
            if self.entries[i].0 == *name {
                return Some(i);
            }
            i += 1;
        }
        None
    }

    /// The value under `name`, or `None` where the map has none.
    pub fn get(&self, name: &str) -> (value: Option<&String>)
        ensures
            match value {
                Some(v) => self@.contains_key(name@) && self@[name@] == v@,
                None => !self@.contains_key(name@),
            },
    {
        let key = name.to_owned();
        match self.find(&key) {
            Some(i) => {
                proof {
                    use_type_invariant(self);
                    lemma_position(self.entries@, i as int);
                }
                Some(&self.entries[i].1)
            },
            None => None,
        }
    }

    /// Puts `value` under `name`, in place of any value that stood there.
    pub fn insert(&mut self, name: String, value: String)
        ensures
            final(self)@ == old(self)@.insert(name@, value@),
    {
        proof {
            use_type_invariant(&*self);
        }
        let found = self.find(&name);
        let mut entries = self.take_entries();
        match found {
            Some(i) => {
                proof {
                    lemma_update(entries@, i as int, (name, value));
                }
                entries.set(i, (name, value));
            },
            None => {
                proof {
                    lemma_push(entries@, (name, value));
                }
                entries.push((name, value));
            },
        }
        self.entries = entries;
    }

    /// Moves the list out and leaves the map empty.
    fn take_entries(&mut self) -> (entries: Vec<(String, String)>)
        ensures
            entries@ == old(self).entries@,
            final(self).entries@.len() == 0,
    {
        let mut entries: Vec<(String, String)> = Vec::new();
        core::mem::swap(&mut self.entries, &mut entries);
        entries
    }

    /// Removes every field.
    pub fn clear(&mut self)
        ensures
            final(self)@ == Map::<Seq<char>, Seq<char>>::empty(),
    {
        self.entries = Vec::new();
        assert(self@ =~= Map::<Seq<char>, Seq<char>>::empty());
    }

    /// Whether the map has no field.
    pub fn is_empty(&self) -> (empty: bool)
        ensures
            empty == (self@ == Map::<Seq<char>, Seq<char>>::empty()),
    {
        let empty = self.entries.len() == 0;
        proof {
            if empty {
                assert(self@ =~= Map::<Seq<char>, Seq<char>>::empty());
            } else {
                use_type_invariant(self);
                lemma_position(self.entries@, 0);
            }
        }
        empty
    }

    /// The fields as a list of names with their values, each name once.
    pub fn to_pairs(&self) -> (pairs: Vec<(String, String)>)
        ensures
            names_distinct(pairs@),
            as_map(pairs@) == self@,
    {
        let copy = self.clone();
        proof {
            use_type_invariant(&copy);
        }
        copy.entries
    }

    /// Whether `other` has, under every name of this map that it carries, the
    /// value that this map has.
    pub fn agrees_with(&self, other: &FieldMap) -> (agree: bool)
        ensures
            agree == compatible(self@, other@),
    {
        proof {
            use_type_invariant(self);
        }
        let mut i: usize = 0;
        while i < self.entries.len()
            invariant
                i <= self.entries@.len(),
                names_distinct(self.entries@),
                forall|k: int|
                    0 <= k < i && other@.contains_key((#[trigger] self.entries@[k]).0@)
                        ==> other@[self.entries@[k].0@] == self.entries@[k].1@,
            decreases self.entries@.len() - i,
        {
            let found = other.get(self.entries[i].0.as_str());
            match found {
                Some(theirs) => {
                    if *theirs != self.entries[i].1 {
                        proof {
                            lemma_position(self.entries@, i as int);
                        }
                        return false;
                    }
                },
                None => {},
            }
            i += 1;
        }
        proof {
            assert forall|name: Seq<char>| #[trigger]
                self@.contains_key(name) && other@.contains_key(name) implies self@[name]
                == other@[name] by {
                let p = position(self.entries@, name);
                lemma_position(self.entries@, p);
            }
        }
        true
    }
}

impl Clone for FieldMap {
    fn clone(&self) -> (copy: FieldMap)
        ensures
            copy@ == self@,
    {
        proof {
            use_type_invariant(self);
        }
        let mut entries: Vec<(String, String)> = Vec::new();
        let mut i: usize = 0;
        while i < self.entries.len()
            invariant
                i <= self.entries@.len(),
                entries@.len() == i,
                forall|k: int|
                    0 <= k < i ==> (#[trigger] entries@[k]).0@ == self.entries@[k].0@
                        && entries@[k].1@ == self.entries@[k].1@,
            decreases self.entries@.len() - i,
        {
            entries.push((self.entries[i].0.clone(), self.entries[i].1.clone()));
            i += 1;
        }
        proof {
            lemma_same_text(self.entries@, entries@);
        }
        FieldMap { entries }
    }
}

/// Two lists with the same names and values, place by place, stand for the same map.
proof fn lemma_same_text(a: Seq<(String, String)>, b: Seq<(String, String)>)
    requires
        a.len() == b.len(),
        forall|k: int|
            0 <= k < a.len() ==> (#[trigger] b[k]).0@ == a[k].0@ && b[k].1@ == a[k].1@,
        names_distinct(a),
    ensures
        names_distinct(b),
        as_map(b) == as_map(a),
{
    assert forall|i: int, j: int| 0 <= i < j < b.len() implies (#[trigger] b[i]).0@ != (
    #[trigger] b[j]).0@ by {
        assert(a[i].0@ != a[j].0@);
    }
    assert forall|name: Seq<char>| as_map(a).contains_key(name) <==> as_map(b).contains_key(
        name,
    ) by {
        if listed(a, name) {
            let p = position(a, name);
            assert(b[p].0@ == name);
        }
        if listed(b, name) {
            let p = position(b, name);
            assert(a[p].0@ == name);
        }
    }
    assert forall|name: Seq<char>| as_map(a).contains_key(name) implies as_map(a)[name] == as_map(
        b,
    )[name] by {
        let p = position(a, name);
        lemma_position(a, p);
        assert(b[p].0@ == name);
        lemma_position(b, p);
    }
    assert(as_map(b) =~= as_map(a));
}

} // verus!
