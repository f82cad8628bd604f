//! Decks: the directories of a collection.

use vstd::prelude::*;
use vstd::string::{StrSliceExecFns, StringExecFns};
use crate::text::{chars_of, views};

verus! {

/// The character that separates the components of a path.
pub const SEPARATOR: char = '/';

/// A path with one more component: an absolute component replaces the
/// path, and a separator is put between the two unless the path is empty or
/// ends in one.
pub open spec fn path_join(base: Seq<char>, component: Seq<char>) -> Seq<char> {
    if component.len() > 0 && component[0] == SEPARATOR {
        component
    } else if base.len() == 0 || base.last() == SEPARATOR {
        base + component
    } else {
        base + seq![SEPARATOR] + component
    }
}

/// Appends a component to a path.
pub fn join_path(base: &str, component: &str) -> (path: String)
    ensures
        path@ == path_join(base@, component@),
{
    let component_len: usize = component.unicode_len();
    if component_len > 0 && component.get_char(0) == SEPARATOR {
        return String::from_str(component);
    }
    let base_len: usize = base.unicode_len();
    let path = String::from_str(base);
    if base_len == 0 || base.get_char(base_len - 1) == SEPARATOR {
        path.concat(component)
    } else {
        proof {
            reveal_strlit("/");
            assert("/"@ =~= seq![SEPARATOR]);
        }
        path.concat("/").concat(component)
    }
}

/// The directory of a deck inside a collection.
pub fn get_deck_path(collection: &str, deck: &str) -> (path: String)
    ensures
        path@ == path_join(collection@, deck@),
{
    join_path(collection, deck)
}

/// The character that sets off the extension of a file name.
pub const DOT: char = '.';

/// The index of the last dot of a name, or -1 where it has none.
pub open spec fn last_dot(name: Seq<char>) -> int
    decreases name.len(),
{
    if name.len() == 0 {
        -1
    } else if name.last() == DOT {
        name.len() - 1
    } else {
        last_dot(name.drop_last())
    }
}

/// The stem of a file name: the name up to its last dot, or all of it
/// where it has no dot but a first one. The empty name and the names `.` and
/// `..` have none.
pub open spec fn file_stem_of(name: Seq<char>) -> Option<Seq<char>> {
    if name.len() == 0 || name == seq![DOT] || name == seq![DOT, DOT] {
        None
    } else if last_dot(name) <= 0 {
        Some(name)
    } else {
        Some(name.subrange(0, last_dot(name)))
    }
}

/// An index that holds a dot with none behind it is `last_dot`; so is -1
/// where the name has no dot.
pub proof fn lemma_last_dot_is(name: Seq<char>, index: int)
    requires
        -1 <= index < name.len(),
        index >= 0 ==> name[index] == DOT,
        forall|j: int| index < j < name.len() ==> #[trigger] name[j] != DOT,
    ensures
        last_dot(name) == index,
    decreases name.len(),
{
    if name.len() > 0 && index < name.len() - 1 {
        let rest = name.drop_last();
        assert(name[name.len() - 1] != DOT);
        assert forall|j: int| index < j < rest.len() implies #[trigger] rest[j] != DOT by {
            assert(rest[j] == name[j]);
        }
        if index >= 0 {
            assert(rest[index] == name[index]);
        }
        lemma_last_dot_is(rest, index);
    }
}

/// The stem of a file name, as `Path::file_stem` gives it for a path of
/// one component.
pub fn file_stem(name: &str) -> (stem: Option<String>)
    ensures
        stem.deep_view() == file_stem_of(name@),
{
    let chars = chars_of(name);
    let len: usize = chars.len();
    if len == 0 || (len == 1 && chars[0] == DOT) || (len == 2 && chars[0] == DOT && chars[1]
        == DOT) {
        proof {
            if len == 1 {
                assert(name@ =~= seq![DOT]);
            }
            if len == 2 {
                assert(name@ =~= seq![DOT, DOT]);
            }
        }
        return None;
    }
    assert(name@ != seq![DOT]) by {
        if name@ == seq![DOT] {
            assert(name@.len() == 1 && name@[0] == DOT);
        }
    }
    assert(name@ != seq![DOT, DOT]) by {
        if name@ == seq![DOT, DOT] {
            assert(name@.len() == 2 && name@[0] == DOT && name@[1] == DOT);
        }
    }
    let mut at: usize = len;
    while at > 0 && chars[at - 1] != DOT
        invariant
            at <= len,
            len == chars@.len(),
            forall|j: int| at <= j < len ==> #[trigger] chars@[j] != DOT,
        decreases at,
    {
        at -= 1;
    }
    proof {
        lemma_last_dot_is(name@, at - 1);
    }
    if at <= 1 {
        Some(String::from_str(name))
    } else {
        Some(String::from_str(name.substring_char(0, at - 1)))
    }
}

/// The stems of those names that have one, in the order of the names.
pub open spec fn stems_of(names: Seq<Seq<char>>) -> Seq<Seq<char>>
    decreases names.len(),
{
    if names.len() == 0 {
        Seq::empty()
    } else {
        match file_stem_of(names.last()) {
            Some(stem) => stems_of(names.drop_last()).push(stem),
            None => stems_of(names.drop_last()),
        }
    }
}

/// The names of the decks of a collection, from the names of the entries
/// of its directory.
pub fn get_decks_from_paths(paths: &Vec<String>) -> (decks: Vec<String>)
    ensures
        views(decks@) == stems_of(views(paths@)),
{
    let mut decks: Vec<String> = Vec::new();
    let mut at: usize = 0;
    assert(views(paths@).subrange(0, 0) =~= Seq::<Seq<char>>::empty());
    while at < paths.len()
        invariant
            at <= paths.len(),
            views(decks@) =~= stems_of(views(paths@).subrange(0, at as int)),
        decreases paths.len() - at,
    {
        proof {
            let next = views(paths@).subrange(0, at + 1);
            assert(next.drop_last() =~= views(paths@).subrange(0, at as int));
            assert(next.last() == paths@[at as int]@);
        }
        if let Some(stem) = file_stem(paths[at].as_str()) {
            decks.push(stem);
        }
        at += 1;
    }
    assert(views(paths@).subrange(0, at as int) =~= views(paths@));
    decks
}

} // verus!
