//! A settings document as a tree of keys and values, before any setting is
//! read from it.

use vstd::prelude::*;

verus! {

/// What a value of a document stands for.
pub ghost enum Node {
    /// A string, by its characters.
    Text(Seq<char>),
    /// A boolean.
    Flag(bool),
    /// A table, by what each of its keys is bound to.
    Table(Map<Seq<char>, Node>),
    /// A value of a kind that no setting takes.
    Other,
}

/// A value of a document.
#[derive(Debug)]
pub enum Item {
    String(String),
    Boolean(bool),
    Table(Table),
    /// A value of a kind that no setting takes: a number, a date, an array.
    Other,
}

/// A table of a document: keys bound to values, no key twice.
#[derive(Debug)]
pub struct Table {
    entries: Vec<(String, Item)>,
}

/// The bindings that a run of entries makes, a later entry overriding an
/// earlier one of the same key.
spec fn bindings(entries: Seq<(String, Item)>) -> Map<Seq<char>, Node>
    decreases entries,
{
    if entries.len() == 0 {
        Map::empty()
    } else {
        bindings(entries.drop_last()).insert(entries.last().0@, entries.last().1@)
    }
}

impl View for Item {
    type V = Node;

    /// What this value stands for.
    open spec fn view(&self) -> Node
        decreases self,
    {
        match self {
            Item::String(s) => Node::Text(s@),
            Item::Boolean(b) => Node::Flag(*b),
            Item::Table(t) => Node::Table(t@),
            Item::Other => Node::Other,
        }
    }
}

impl View for Table {
    type V = Map<Seq<char>, Node>;

    /// What this table stands for: the value bound to each key.
    closed spec fn view(&self) -> Map<Seq<char>, Node>
        decreases self,
    {
        bindings(self.entries@)
    }
}

impl Table {
    #[verifier::type_invariant]
    spec fn distinct_keys(self) -> bool {
        no_key_twice(self.entries@)
    }

    /// The table that binds no key.
    pub fn new() -> (table: Table)
        ensures
            table@ == Map::<Seq<char>, Node>::empty(),
    {
        Table { entries: Vec::new() }
    }

    /// The place of `key` among the entries, if it is bound.
    fn position(&self, key: &String) -> (place: Option<usize>)
        ensures
            match place {
                Some(i) => i < self.entries@.len() && self.entries@[i as int].0@ == key@,
                None => forall|j: int|
                    0 <= j < self.entries@.len() ==> self.entries@[j].0@ != key@,
            },
    {
        let mut i: usize = 0;
        while i < self.entries.len()
            invariant
                i <= self.entries@.len(),
                forall|j: int| 0 <= j < i ==> self.entries@[j].0@ != key@,
            decreases self.entries@.len() - i,
        {
            if self.entries[i].0 == *key {
                return Some(i);
            }
            i += 1;
        }
        None
    }

    /// The value bound to `key`, if any.
    pub fn get(&self, key: &str) -> (found: Option<&Item>)
        ensures
            match found {
                Some(value) => self@.contains_key(key@) && self@[key@] == value@,
                None => !self@.contains_key(key@),
            },
    {
        proof {
            use_type_invariant(self);
            lemma_bindings_of_entries(self.entries@);
        }
        let wanted = key.to_owned();
        match self.position(&wanted) {
            Some(i) => Some(&self.entries[i].1),
            None => None,
        }
    }

    /// Binds `key` to `value`, in place of what `key` was bound to before.
    pub fn insert(&mut self, key: String, value: Item)
        ensures
            final(self)@ == old(self)@.insert(key@, value@),
    {
        proof {
            use_type_invariant(&*self);
        }
        let place = self.position(&key);
        let mut entries: Vec<(String, Item)> = Vec::new();
        core::mem::swap(&mut self.entries, &mut entries);
        match place {
            Some(i) => {
                proof {
                    lemma_bindings_of_update(entries@, i as int, (key, value));
                }
                entries.set(i, (key, value));
            },
            None => {
                proof {
                    lemma_bindings_of_push(entries@, (key, value));
                    lemma_push_keeps_keys_apart(entries@, (key, value));
                }
                entries.push((key, value));
            },
        }
        self.entries = entries;
    }
}

/// No two entries have the same key.
spec fn no_key_twice(entries: Seq<(String, Item)>) -> bool {
    forall|i: int, j: int| 0 <= i < j < entries.len() ==> entries[i].0@ != entries[j].0@
}

/// A key is bound exactly if some entry has it, and where no key stands
/// twice it is bound to the value of its entry.
proof fn lemma_bindings_of_entries(entries: Seq<(String, Item)>)
    ensures
        forall|k: Seq<char>| #[trigger]
            bindings(entries).contains_key(k) <==> exists|i: int|
                0 <= i < entries.len() && #[trigger] entries[i].0@ == k,
        no_key_twice(entries) ==> forall|i: int|
            0 <= i < entries.len() ==> bindings(entries)[#[trigger] entries[i].0@]
                == entries[i].1@,
    decreases entries.len(),
{
    if entries.len() > 0 {
        let front = entries.drop_last();
        lemma_bindings_of_entries(front);
        assert(bindings(entries) == bindings(front).insert(entries.last().0@, entries.last().1@));
        assert forall|k: Seq<char>| #[trigger]
            bindings(entries).contains_key(k) implies exists|i: int|
            0 <= i < entries.len() && #[trigger] entries[i].0@ == k by {
            if k == entries.last().0@ {
                assert(entries[entries.len() - 1].0@ == k);
            } else {
                let i = choose|i: int| 0 <= i < front.len() && #[trigger] front[i].0@ == k;
                assert(entries[i].0@ == k);
            }
        }
        assert forall|k: Seq<char>|
            (exists|i: int|
                0 <= i < entries.len() && #[trigger] entries[i].0@ == k) implies #[trigger]
            bindings(entries).contains_key(k) by {
            let i = choose|i: int| 0 <= i < entries.len() && #[trigger] entries[i].0@ == k;
            if i < front.len() {
                assert(front[i].0@ == k);
            }
        }
        if no_key_twice(entries) {
            assert(no_key_twice(front));
            assert forall|i: int| 0 <= i < entries.len() implies bindings(entries)[#[trigger]
                entries[i].0@] == entries[i].1@ by {
                if i < front.len() {
                    assert(front[i].0@ == entries[i].0@);
                    assert(entries[i].0@ != entries.last().0@);
                }
            }
        }
    }
}

/// An entry whose key is not among the others may join them.
proof fn lemma_push_keeps_keys_apart(entries: Seq<(String, Item)>, entry: (String, Item))
    requires
        no_key_twice(entries),
        forall|j: int| 0 <= j < entries.len() ==> entries[j].0@ != entry.0@,
    ensures
        no_key_twice(entries.push(entry)),
{
}

/// A new entry at the end binds its key, whatever was bound to it before.
proof fn lemma_bindings_of_push(entries: Seq<(String, Item)>, entry: (String, Item))
    ensures
        bindings(entries.push(entry)) == bindings(entries).insert(entry.0@, entry.1@),
{
    assert(entries.push(entry).drop_last() =~= entries);
}

/// Putting an entry in the place of one with the same key binds that key
/// anew and leaves the others as they were.
proof fn lemma_bindings_of_update(
    entries: Seq<(String, Item)>,
    place: int,
    entry: (String, Item),
)
    requires
        no_key_twice(entries),
        0 <= place < entries.len(),
        entries[place].0@ == entry.0@,
    ensures
        no_key_twice(entries.update(place, entry)),
        bindings(entries.update(place, entry)) == bindings(entries).insert(
            entry.0@,
            entry.1@,
        ),
{
    let after = entries.update(place, entry);
    lemma_bindings_of_entries(entries);
    lemma_bindings_of_entries(after);
    let want = bindings(entries).insert(entry.0@, entry.1@);
    assert forall|k: Seq<char>| bindings(after).contains_key(k) <==> want.contains_key(k) by {
        if bindings(after).contains_key(k) {
            let i = choose|i: int| 0 <= i < after.len() && #[trigger] after[i].0@ == k;
            assert(entries[i].0@ == k);
        }
        if want.contains_key(k) {
            if k == entry.0@ {
                assert(after[place].0@ == k);
            } else {
                let i = choose|i: int| 0 <= i < entries.len() && #[trigger] entries[i].0@ == k;
                assert(after[i].0@ == k);
            }
        }
    }
    assert forall|k: Seq<char>| bindings(after).contains_key(k) implies bindings(after)[k]
        == want[k] by {
        let i = choose|i: int| 0 <= i < after.len() && #[trigger] after[i].0@ == k;
        assert(bindings(after)[after[i].0@] == after[i].1@);
        if i != place {
            assert(bindings(entries)[entries[i].0@] == entries[i].1@);
        }
    }
    assert(bindings(after) =~= want);
}

} // verus!
