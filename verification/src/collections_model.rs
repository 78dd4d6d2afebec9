//! The ordered, observable list behind every collection of resources.

use vstd::prelude::*;

use crate::text::{same_text, texts};

verus! {

/// One structural change of a list: at `position`, `removed` items left and
/// `added` items took their place.
#[derive(Clone, Copy, Debug, PartialEq, Eq, Structural)]
pub struct Delta {
    pub position: usize,
    pub removed: usize,
    pub added: usize,
}

/// An ordered list of resource URIs that reports each change of its
/// structure.
///
/// The list of all collections is one; so is the child list of every
/// provider, collection and calendar. An item is a resource's URI: the
/// resource itself lives in the pool, where every holder of the URI finds its
/// current state. Each mutation returns the delta that observers of the list
/// are to be told.
#[derive(Debug)]
pub struct CollectionsModel {
    items: Vec<String>,
}

impl View for CollectionsModel {
    type V = Seq<Seq<char>>;

    closed spec fn view(&self) -> Seq<Seq<char>> {
        texts(self.items@)
    }
}

impl CollectionsModel {
    /// The empty list.
    pub fn new() -> (list: CollectionsModel)
        ensures
            list@ == Seq::<Seq<char>>::empty(),
    {
        let list = CollectionsModel { items: Vec::new() };
        assert(list@ =~= Seq::<Seq<char>>::empty());
        list
    }

    /// The number of items.
    pub fn n_items(&self) -> (n: usize)
        ensures
            n == self@.len(),
    {
        self.items.len()
    }

    /// The item at `position`, if the list is that long.
    pub fn item(&self, position: usize) -> (item: Option<&str>)
        ensures
            match item {
                Some(uri) => position < self@.len() && uri@ == self@[position as int],
                None => position >= self@.len(),
            },
    {
        if position < self.items.len() {
            Some(self.items[position].as_str())
        } else {
            None
        }
    }

    /// The position of the first item equal to `uri`.
    pub fn find(&self, uri: &str) -> (found: Option<usize>)
        ensures
            match found {
                Some(position) => self@.index_of_first(uri@) == Some(position as int),
                None => self@.index_of_first(uri@).is_none(),
            },
    {
        proof {
            self@.index_of_first_ensures(uri@);
        }
        let mut i: usize = 0;
        while i < self.items.len()
            invariant
                i <= self.items.len(),
                forall|j: int| 0 <= j < i ==> self@[j] != uri@,
            decreases self.items.len() - i,
        {
            if same_text(self.items[i].as_str(), uri) {
                proof {
                    self@.index_of_first_ensures(uri@);
                    assert(self@[i as int] == uri@);
                }
                return Some(i);
            }
            i += 1;
        }
        None
    }

    /// Whether `uri` is an item of the list.
    pub fn contains(&self, uri: &str) -> (held: bool)
        ensures
            held == self@.contains(uri@),
    {
        proof {
            self@.index_of_first_ensures(uri@);
        }
        self.find(uri).is_some()
    }

    /// Adds `uri` at the end.
    pub fn append(&mut self, uri: &str) -> (delta: Delta)
        ensures
            final(self)@ == old(self)@.push(uri@),
            delta == (Delta { position: old(self)@.len() as usize, removed: 0, added: 1 }),
    {
        let position = self.items.len();
        self.items.push(uri.to_owned());
        assert(self@ =~= old(self)@.push(uri@));
        Delta { position, removed: 0, added: 1 }
    }

    /// Inserts `uris`, in their order, before the item at position `at`.
    ///
    /// Nothing changes, and no delta is due, where `at` lies beyond the end
    /// of the list.
    pub fn splice(&mut self, uris: &[String], at: usize) -> (delta: Option<Delta>)
        ensures
            at <= old(self)@.len() ==> delta == Some(
                Delta { position: at, removed: 0, added: uris@.len() as usize },
            ) && final(self)@ == old(self)@.subrange(0, at as int) + texts(uris@) + old(
                self,
            )@.subrange(at as int, old(self)@.len() as int),
            at > old(self)@.len() ==> delta.is_none() && final(self)@ == old(self)@,
    {
        if at > self.items.len() {
            return None;
        }
        let ghost before = self@;
        let mut i: usize = 0;
        while i < uris.len()
            invariant
                i <= uris.len(),
                at <= before.len(),
                self.items.len() == before.len() + i,
                self@ == before.subrange(0, at as int) + texts(uris@).subrange(0, i as int)
                    + before.subrange(at as int, before.len() as int),
            decreases uris.len() - i,
        {
            let ghost so_far = self@;
            self.items.insert(at + i, uris[i].clone());
            assert(self@ =~= so_far.insert(at + i, uris@[i as int]@));
            assert(self@ =~= before.subrange(0, at as int) + texts(uris@).subrange(0, i + 1)
                + before.subrange(at as int, before.len() as int));
            i += 1;
        }
        assert(texts(uris@).subrange(0, i as int) =~= texts(uris@));
        Some(Delta { position: at, removed: 0, added: uris.len() })
    }

    /// Takes `uri` out of the list, at its first position.
    pub fn remove(&mut self, uri: &str) -> (delta: Delta)
        requires
            old(self)@.contains(uri@),
        ensures
            final(self)@ == old(self)@.remove(old(self)@.index_of_first(uri@).unwrap()),
            delta == (Delta {
                position: old(self)@.index_of_first(uri@).unwrap() as usize,
                removed: 1,
                added: 0,
            }),
    {
        proof {
            self@.index_of_first_ensures(uri@);
        }
        let position = self.find(uri).unwrap();
        self.items.remove(position);
        assert(self@ =~= old(self)@.remove(position as int));
        Delta { position, removed: 1, added: 0 }
    }
}

impl Default for CollectionsModel {
    fn default() -> (list: CollectionsModel)
        ensures
            list@ == Seq::<Seq<char>>::empty(),
    {
        CollectionsModel::new()
    }
}

} // verus!
