//! Pages.

use crate::models::app::App;
use crate::models::content::Content;
use vstd::prelude::*;

verus! {

/// A page of an app.
#[derive(Debug)]
pub struct Page {
    pub id: i64,
    pub app_id: i64,
    pub name: String,
    pub created_at: String,
    pub updated_at: String,
}

/// A page with the app that owns it and the content it owns.
#[derive(Debug)]
pub struct PageWithContent {
    pub app: App,
    pub page: Page,
    pub content: Vec<Content>,
}

/// What is submitted to create a page.
#[derive(Debug)]
pub struct NewPageRequest {
    pub app_id: i64,
    pub name: String,
}

/// The map that a list of named bodies stands for: a later entry replaces an
/// earlier one of the same name.
pub open spec fn entries_map(entries: Seq<(String, String)>) -> Map<Seq<char>, Seq<char>>
    decreases entries.len(),
{
    if entries.len() == 0 {
        Map::empty()
    } else {
        entries_map(entries.drop_last()).insert(entries.last().0@, entries.last().1@)
    }
}

/// No name occurs twice in `entries`.
pub open spec fn distinct_names(entries: Seq<(String, String)>) -> bool {
    forall|i: int, j: int|
        0 <= i < j < entries.len() ==> (#[trigger] entries[i]).0@ != (#[trigger] entries[j]).0@
}

/// The content of a page, by name: each name once, with its body. It is held
/// as a list in the order in which the names came, so that a caller can walk
/// it as well as look a name up.
#[derive(Debug)]
pub struct PageContent {
    entries: Vec<(String, String)>,
}

impl View for PageContent {
    type V = Map<Seq<char>, Seq<char>>;

    closed spec fn view(&self) -> Map<Seq<char>, Seq<char>> {
        entries_map(self.entries@)
    }
}

/// The names of `entries` are the keys of their map, and each entry's body is
/// what the map holds for its name.
proof fn lemma_entries_map(entries: Seq<(String, String)>)
    requires
        distinct_names(entries),
    ensures
        forall|i: int|
            0 <= i < entries.len() ==> entries_map(entries).contains_key(
                (#[trigger] entries[i]).0@,
            ) && entries_map(entries)[entries[i].0@] == entries[i].1@,
        forall|name: Seq<char>| #[trigger]
            entries_map(entries).contains_key(name) ==> exists|i: int|
                0 <= i < entries.len() && (#[trigger] entries[i]).0@ == name,
    decreases entries.len(),
{
    if entries.len() > 0 {
        let front = entries.drop_last();
        assert forall|i: int, j: int| 0 <= i < j < front.len() implies (#[trigger] front[i]).0@ != (
        #[trigger] front[j]).0@ by {
            assert(front[i] == entries[i] && front[j] == entries[j]);
        }
        lemma_entries_map(front);
        assert forall|i: int| 0 <= i < entries.len() implies entries_map(entries).contains_key(
            (#[trigger] entries[i]).0@,
        ) && entries_map(entries)[entries[i].0@] == entries[i].1@ by {
            if i < front.len() {
                assert(front[i] == entries[i]);
                assert(entries[i].0@ != entries[entries.len() - 1].0@);
            }
        }
        assert forall|name: Seq<char>| #[trigger]
            entries_map(entries).contains_key(name) implies exists|i: int|
            0 <= i < entries.len() && (#[trigger] entries[i]).0@ == name by {
            if name == entries.last().0@ {
                assert(entries[entries.len() - 1].0@ == name);
            } else {
                assert(entries_map(front).contains_key(name));
                let i = choose|i: int| 0 <= i < front.len() && (#[trigger] front[i]).0@ == name;
                assert(entries[i] == front[i]);
            }
        }
    }
}

/// Giving a name that is already there another body is inserting at the name.
proof fn lemma_replace_is_insert(
    entries: Seq<(String, String)>,
    i: int,
    entry: (String, String),
)
    requires
        distinct_names(entries),
        0 <= i < entries.len(),
        entries[i].0@ == entry.0@,
    ensures
        distinct_names(entries.update(i, entry)),
        entries_map(entries.update(i, entry)) == entries_map(entries).insert(entry.0@, entry.1@),
    decreases entries.len(),
{
    let changed = entries.update(i, entry);
    assert forall|a: int, b: int| 0 <= a < b < changed.len() implies (#[trigger] changed[a]).0@ != (
    #[trigger] changed[b]).0@ by {
        assert(entries[a].0@ != entries[b].0@);
    }
    let front = entries.drop_last();
    if i == entries.len() - 1 {
        assert(changed.drop_last() =~= front);
        assert(entries_map(changed) =~= entries_map(entries).insert(entry.0@, entry.1@));
    } else {
        assert forall|a: int, b: int| 0 <= a < b < front.len() implies (#[trigger] front[a]).0@ != (
        #[trigger] front[b]).0@ by {
            assert(front[a] == entries[a] && front[b] == entries[b]);
        }
        lemma_replace_is_insert(front, i, entry);
        assert(changed.drop_last() =~= front.update(i, entry));
        assert(changed.last() == entries.last());
        assert(entries[i].0@ != entries[entries.len() - 1].0@);
        assert(entries_map(changed) =~= entries_map(entries).insert(entry.0@, entry.1@));
    }
}

impl PageContent {
    /// The invariant: no name is held twice.
    #[verifier::type_invariant]
    spec fn well_formed(&self) -> bool {
        distinct_names(self.entries@)
    }

    /// The content of a page that has none.
    pub fn new() -> (content: Self)
        ensures
            content@ == Map::<Seq<char>, Seq<char>>::empty(),
    {
        PageContent { entries: Vec::new() }
    }

    /// The position of the entry called `name`.
    fn position(&self, name: &str) -> (r: Option<usize>)
        ensures
            match r {
                Some(i) => i < self.entries.len() && self.entries@[i as int].0@ == name@,
                None => forall|k: int|
                    0 <= k < self.entries.len() ==> (#[trigger] self.entries@[k]).0@ != name@,
            },
    {
        let wanted = name.to_owned();
        let mut i: usize = 0;
        while i < self.entries.len()
            invariant
                0 <= i <= self.entries.len(),
                wanted@ == name@,
                forall|k: int| 0 <= k < i ==> (#[trigger] self.entries@[k]).0@ != name@,
            decreases self.entries.len() - i,
        {
            if self.entries[i].0 == wanted {
                return Some(i);
            }
            i += 1;
        }
        None
    }

    /// Gives `name` the body `body`, whether or not the name had one.
    pub fn insert(&mut self, name: String, body: String)
        ensures
            final(self)@ == old(self)@.insert(name@, body@),
    {
        proof {
            use_type_invariant(&*self);
        }
        let found = self.position(name.as_str());
        let mut held = PageContent { entries: Vec::new() };
        std::mem::swap(self, &mut held);
        let mut entries = held.entries;
        let ghost before = entries@;
        match found {
            Some(i) => {
                proof {
                    lemma_replace_is_insert(before, i as int, (name, body));
                }
                entries.set(i, (name, body));
            },
            None => {
                entries.push((name, body));
                proof {
                    assert(entries@.drop_last() =~= before);
                    assert forall|a: int, b: int| 0 <= a < b < entries@.len() implies (
                    #[trigger] entries@[a]).0@ != (#[trigger] entries@[b]).0@ by {
                        if b < before.len() {
                            assert(before[a].0@ != before[b].0@);
                        } else {
                            assert(before[a].0@ != name@);
                        }
                    }
                }
            },
        }
        *self = PageContent { entries };
    }

    /// The body of the content called `name`.
    pub fn get(&self, name: &str) -> (body: Option<&String>)
        ensures
            match body {
                Some(text) => self@.contains_key(name@) && self@[name@] == text@,
                None => !self@.contains_key(name@),
            },
    {
        proof {
            use_type_invariant(self);
            lemma_entries_map(self.entries@);
        }
        match self.position(name) {
            Some(i) => Some(&self.entries[i].1),
            None => None,
        }
    }

    /// The names with their bodies, each name once.
    pub fn entries(&self) -> (entries: &Vec<(String, String)>)
        ensures
            distinct_names(entries@),
            entries_map(entries@) == self@,
            forall|i: int|
                0 <= i < entries@.len() ==> self@.contains_key((#[trigger] entries@[i]).0@)
                    && self@[entries@[i].0@] == entries@[i].1@,
            forall|name: Seq<char>| #[trigger]
                self@.contains_key(name) ==> exists|i: int|
                    0 <= i < entries@.len() && (#[trigger] entries@[i]).0@ == name,
    {
        proof {
            use_type_invariant(self);
            lemma_entries_map(self.entries@);
        }
        &self.entries
    }
}

} // verus!
