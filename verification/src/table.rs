//! Lists of named items in which no name occurs twice: a namespace's
//! constants, and a document's namespaces.

use vstd::prelude::*;
use crate::scalar::{Scalar, ScalarView};

verus! {

/// The names of a list of named items, in order.
pub open spec fn names_of<T>(entries: Seq<(Seq<char>, T)>) -> Seq<Seq<char>> {
    entries.map_values(|e: (Seq<char>, T)| e.0)
}

/// Items under names, in the order in which their names first came in. No
/// name occurs twice.
#[derive(Debug, PartialEq)]
pub struct NamedList<T> {
    items: Vec<(String, T)>,
}

impl<T> NamedList<T> {
    /// The names with their items, in order.
    pub closed spec fn entries(&self) -> Seq<(Seq<char>, T)> {
        self.items@.map_values(|e: (String, T)| (e.0@, e.1))
    }

    #[verifier::type_invariant]
    spec fn names_differ(&self) -> bool {
        names_of(self.entries()).no_duplicates()
    }

    /// The empty list.
    pub fn new() -> (list: Self)
        ensures
            list.entries() == Seq::<(Seq<char>, T)>::empty(),
    {
        let list = NamedList { items: Vec::new() };
        assert(list.entries() =~= Seq::<(Seq<char>, T)>::empty());
        list
    }

    /// The number of items. Their names differ from one another.
    pub fn len(&self) -> (n: usize)
        ensures
            n == self.entries().len(),
            names_of(self.entries()).no_duplicates(),
    {
        proof {
            use_type_invariant(self);
        }
        self.items.len()
    }

    /// The name and the item at position `i`.
    pub fn entry(&self, i: usize) -> (entry: (&String, &T))
        requires
            i < self.entries().len(),
        ensures
            (entry.0@, *entry.1) == self.entries()[i as int],
    {
        let pair = &self.items[i];
        (&pair.0, &pair.1)
    }

    /// Puts an item under a name. Where the name is new, the item goes to the
    /// end; where it is taken, the item takes the place of the one that was
    /// there, which is handed back.
    pub fn insert(&mut self, name: String, item: T) -> (replaced: Option<T>)
        ensures
            match replaced {
                Some(previous) => exists|i: int|
                    0 <= i < old(self).entries().len() && #[trigger] old(self).entries()[i] == (
                        name@,
                        previous,
                    ) && final(self).entries() == old(self).entries().update(i, (name@, item)),
                None => !names_of(old(self).entries()).contains(name@) && final(self).entries()
                    == old(self).entries().push((name@, item)),
            },
    {
        proof {
            use_type_invariant(&*self);
        }
        let ghost before = self.entries();
        let mut items: Vec<(String, T)> = Vec::new();
        std::mem::swap(&mut items, &mut self.items);
        assert(items@.map_values(|e: (String, T)| (e.0@, e.1)) == before);
        let mut i: usize = 0;
        while i < items.len()
            invariant
                i <= items.len(),
                before == old(self).entries(),
                names_of(before).no_duplicates(),
                self.items@.len() == 0,
                items@.map_values(|e: (String, T)| (e.0@, e.1)) == before,
                forall|j: int| 0 <= j < i ==> before[j].0 != name@,
            decreases items.len() - i,
        {
            if items[i].0 == name {
                let old_pair = items.remove(i);
                items.insert(i, (name, item));
                proof {
                    let after = items@.map_values(|e: (String, T)| (e.0@, e.1));
                    assert(before[i as int] == (name@, old_pair.1));
                    assert(after =~= before.update(i as int, (name@, item)));
                    assert(names_of(after) =~= names_of(before));
                }
                self.items = items;
                return Some(old_pair.1);
            }
            i += 1;
        }
        items.push((name, item));
        proof {
            let after = items@.map_values(|e: (String, T)| (e.0@, e.1));
            assert(after =~= before.push((name@, item)));
            assert(!names_of(before).contains(name@)) by {
                if names_of(before).contains(name@) {
                    let j = choose|j: int| 0 <= j < names_of(before).len() && names_of(before)[j] == name@;
                    assert(before[j].0 != name@);
                }
            }
            assert(names_of(after).no_duplicates()) by {
                assert forall|a: int, b: int|
                    0 <= a < names_of(after).len() && 0 <= b < names_of(after).len() && a != b implies names_of(
                    after,
                )[a] != names_of(after)[b] by {
                    if a < before.len() && b < before.len() {
                        assert(names_of(before)[a] != names_of(before)[b]);
                    }
                }
            }
        }
        self.items = items;
        None
    }
}

impl<T: View> View for NamedList<T> {
    type V = Seq<(Seq<char>, T::V)>;

    open spec fn view(&self) -> Self::V {
        self.entries().map_values(|e: (Seq<char>, T)| (e.0, e.1@))
    }
}

/// A namespace's constants: values under the constants' names.
pub type Table = NamedList<Scalar>;

/// The mathematical content of a [`Table`].
pub type TableView = Seq<(Seq<char>, ScalarView)>;

/// What a document holds under a namespace's name: a table of constants, or
/// something that is no table.
#[derive(Debug, PartialEq)]
pub enum Section {
    Table(Table),
    NotATable,
}

/// The mathematical content of a [`Section`].
pub enum SectionView {
    Table(TableView),
    NotATable,
}

impl View for Section {
    type V = SectionView;

    open spec fn view(&self) -> SectionView {
        match self {
            Section::Table(table) => SectionView::Table(table@),
            Section::NotATable => SectionView::NotATable,
        }
    }
}

/// A document: sections under the namespaces' names.
pub type Document = NamedList<Section>;

/// The mathematical content of a [`Document`].
pub type DocumentView = Seq<(Seq<char>, SectionView)>;

} // verus!
