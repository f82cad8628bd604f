//! The fields of a note: names with their values, each name once, in the
//! order in which the names first appeared.

use vstd::prelude::*;
use vstd::string::StringExecFns;

verus! {

/// The index of the first entry with the given name, or the number of
/// entries where there is none.
pub open spec fn find(entries: Seq<(Seq<char>, Seq<char>)>, name: Seq<char>) -> int
    decreases entries.len(),
{
    if entries.len() == 0 {
        0
    } else if entries[0].0 == name {
        0
    } else {
        1 + find(entries.drop_first(), name)
    }
}

/// The value that the entries give to a name.
pub open spec fn lookup(entries: Seq<(Seq<char>, Seq<char>)>, name: Seq<char>) -> Option<
    Seq<char>,
> {
    if find(entries, name) < entries.len() {
        Some(entries[find(entries, name)].1)
    } else {
        None
    }
}

/// The entries with `name` set to `value`: in place where the name is
/// there, at the end where it is new.
pub open spec fn inserted(
    entries: Seq<(Seq<char>, Seq<char>)>,
    name: Seq<char>,
    value: Seq<char>,
) -> Seq<(Seq<char>, Seq<char>)> {
    if find(entries, name) < entries.len() {
        entries.update(find(entries, name), (name, value))
    } else {
        entries.push((name, value))
    }
}

/// Whether no name occurs twice.
pub open spec fn distinct_names(entries: Seq<(Seq<char>, Seq<char>)>) -> bool {
    forall|i: int, j: int|
        0 <= i < j < entries.len() ==> (#[trigger] entries[i]).0 != (#[trigger] entries[j]).0
}

/// `find` returns the one index that holds the name and has no entry with
/// that name before it.
pub proof fn lemma_find(entries: Seq<(Seq<char>, Seq<char>)>, name: Seq<char>)
    ensures
        0 <= find(entries, name) <= entries.len(),
        find(entries, name) < entries.len() ==> entries[find(entries, name)].0 == name,
        forall|j: int| 0 <= j < find(entries, name) ==> (#[trigger] entries[j]).0 != name,
    decreases entries.len(),
{
    if entries.len() > 0 && entries[0].0 != name {
        let rest = entries.drop_first();
        lemma_find(rest, name);
        assert forall|j: int| 0 <= j < find(entries, name) implies (#[trigger] entries[j]).0
            != name by {
            if j > 0 {
                assert(entries[j] == rest[j - 1]);
            }
        }
    }
}

/// An index that holds the name, with no entry of that name before it, is
/// the one that `find` returns; so is the length where no entry has the name.
pub proof fn lemma_find_is(entries: Seq<(Seq<char>, Seq<char>)>, name: Seq<char>, index: int)
    requires
        0 <= index <= entries.len(),
        index < entries.len() ==> entries[index].0 == name,
        forall|j: int| 0 <= j < index ==> (#[trigger] entries[j]).0 != name,
    ensures
        find(entries, name) == index,
{
    lemma_find(entries, name);
    let found = find(entries, name);
    if found < index {
        assert(entries[found].0 != name);
    } else if index < found {
        assert(entries[index].0 != name);
    }
}

/// Setting a name keeps the names distinct, gives the name its value and
/// leaves every other name as it was.
pub proof fn lemma_inserted(
    entries: Seq<(Seq<char>, Seq<char>)>,
    name: Seq<char>,
    value: Seq<char>,
    other: Seq<char>,
)
    requires
        distinct_names(entries),
    ensures
        distinct_names(inserted(entries, name, value)),
        lookup(inserted(entries, name, value), name) == Some(value),
        other != name ==> lookup(inserted(entries, name, value), other) == lookup(entries, other),
{
    lemma_find(entries, name);
    lemma_find(entries, other);
    let after = inserted(entries, name, value);
    let at = find(entries, name);
    assert(after[at] == (name, value));
    assert forall|j: int| 0 <= j < at implies (#[trigger] after[j]).0 != name by {
        assert(after[j] == entries[j]);
    }
    lemma_find_is(after, name, at);
    assert forall|i: int, j: int| 0 <= i < j < after.len() implies (#[trigger] after[i]).0 != (
    #[trigger] after[j]).0 by {
        if i != at && j != at {
            assert(after[i] == entries[i] && after[j] == entries[j]);
        } else if i == at {
            assert(after[j] == entries[j]);
            if at < entries.len() {
                assert(entries[at].0 == name);
            }
        } else {
            assert(after[i] == entries[i]);
        }
    }
    if other != name {
        let found = find(entries, other);
        if found < entries.len() {
            assert(found != at);
            assert(after[found] == entries[found]);
        }
        assert forall|j: int| 0 <= j < found implies (#[trigger] after[j]).0 != other by {
            if j != at {
                assert(after[j] == entries[j]);
            }
        }
        if found == entries.len() {
            assert forall|j: int| 0 <= j < after.len() implies (#[trigger] after[j]).0
                != other by {
                if j != at {
                    assert(after[j] == entries[j]);
                }
            }
            lemma_find_is(after, other, after.len() as int);
        } else {
            lemma_find_is(after, other, found);
        }
    }
}

/// The fields of a note.
#[derive(Clone, Debug, PartialEq, Eq)]
pub struct Fields {
    pub entries: Vec<(String, String)>,
}

impl View for Fields {
    type V = Seq<(Seq<char>, Seq<char>)>;

    open spec fn view(&self) -> Seq<(Seq<char>, Seq<char>)> {
        Seq::new(self.entries.len() as nat, |i: int| (self.entries[i].0@, self.entries[i].1@))
    }
}

impl Fields {
    /// Fields are well formed when no name occurs twice.
    pub open spec fn wf(&self) -> bool {
        distinct_names(self@)
    }

    /// No fields.
    pub fn new() -> (fields: Fields)
        ensures
            fields@ == Seq::<(Seq<char>, Seq<char>)>::empty(),
            fields.wf(),
    {
        let fields = Fields { entries: Vec::new() };
        assert(fields@ =~= Seq::<(Seq<char>, Seq<char>)>::empty());
        fields
    }

    /// The number of fields.
    pub fn len(&self) -> (n: usize)
        ensures
            n == self@.len(),
    {
        self.entries.len()
    }

    /// The index of the field with the given name, or `len()`.
    fn index_of(&self, name: &String) -> (index: usize)
        ensures
            index == find(self@, name@),
            index <= self@.len(),
    {
        let mut index: usize = 0;
        while index < self.entries.len()
            invariant
                index <= self.entries.len(),
                forall|j: int| 0 <= j < index ==> (#[trigger] self@[j]).0 != name@,
            decreases self.entries.len() - index,
        {
            if self.entries[index].0 == *name {
                proof {
                    lemma_find_is(self@, name@, index as int);
                }
                return index;
            }
            index += 1;
        }
        proof {
            lemma_find_is(self@, name@, index as int);
        }
        index
    }

    /// The value of a field, or `None` where the note has no such field.
    pub fn get(&self, name: &str) -> (value: Option<String>)
        ensures
            value.is_some() == lookup(self@, name@).is_some(),
            value matches Some(text) ==> lookup(self@, name@) == Some(text@),
    {
        let name = String::from_str(name);
        let index = self.index_of(&name);
        if index < self.entries.len() {
            Some(self.entries[index].1.clone())
        } else {
            None
        }
    }

    /// Sets a field: an old value of that name is replaced, a new name goes
    /// to the end.
    pub fn insert(&mut self, name: String, value: String)
        ensures
            final(self)@ == inserted(old(self)@, name@, value@),
            old(self).wf() ==> final(self).wf(),
    {
        let index = self.index_of(&name);
        proof {
            if self.wf() {
                lemma_inserted(self@, name@, value@, name@);
            }
        }
        if index < self.entries.len() {
            self.entries.set(index, (name, value));
        } else {
            self.entries.push((name, value));
        }
        assert(self@ =~= inserted(old(self)@, name@, value@));
    }
}

} // verus!
