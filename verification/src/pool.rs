//! The pool of resources.

use vstd::prelude::*;

use crate::resource::{Resource, ResourceView};
use crate::text::same_text;

verus! {

/// Every resource of the mirror, under its URI: at most one under each.
///
/// The pool is the one place where a resource lives. Whoever holds a URI
/// finds there the resource as it is now.
#[derive(Debug)]
pub struct ResourcePool {
    entries: Vec<(String, Resource)>,
}

/// The URIs under which `entries` are held, in the order of the entries.
spec fn keys(entries: Seq<(String, Resource)>) -> Seq<Seq<char>> {
    entries.map_values(|entry: (String, Resource)| entry.0@)
}

/// The resource held under each URI, where no URI occurs twice.
spec fn map_of(entries: Seq<(String, Resource)>) -> Map<Seq<char>, ResourceView> {
    Map::new(
        |uri: Seq<char>| keys(entries).contains(uri),
        |uri: Seq<char>| entries[keys(entries).index_of(uri)].1@,
    )
}

/// Each entry is found under its URI.
proof fn lemma_entry(entries: Seq<(String, Resource)>, i: int)
    requires
        keys(entries).no_duplicates(),
        0 <= i < entries.len(),
    ensures
        map_of(entries).dom().contains(entries[i].0@),
        map_of(entries)[entries[i].0@] == entries[i].1@,
{
    assert(keys(entries)[i] == entries[i].0@);
}

/// A URI that no entry has is not held.
proof fn lemma_absent(entries: Seq<(String, Resource)>, uri: Seq<char>)
    requires
        forall|i: int| 0 <= i < entries.len() ==> (#[trigger] entries[i]).0@ != uri,
    ensures
        !map_of(entries).dom().contains(uri),
{
    if keys(entries).contains(uri) {
        let i = keys(entries).index_of(uri);
        assert(entries[i].0@ == uri);
    }
}

/// Replacing the resource of an entry replaces what is held under its URI,
/// and nothing else.
proof fn lemma_replaced(entries: Seq<(String, Resource)>, i: int, resource: Resource)
    requires
        keys(entries).no_duplicates(),
        0 <= i < entries.len(),
    ensures
        keys(entries.update(i, (entries[i].0, resource))) == keys(entries),
        map_of(entries.update(i, (entries[i].0, resource))) == map_of(entries).insert(
            entries[i].0@,
            resource@,
        ),
{
    let after = entries.update(i, (entries[i].0, resource));
    assert(keys(after) =~= keys(entries));
    assert(keys(entries)[i] == entries[i].0@);
    assert forall|uri: Seq<char>| map_of(entries).insert(entries[i].0@, resource@).dom().contains(
        uri,
    ) implies keys(entries).contains(uri) && #[trigger] map_of(after)[uri] == map_of(
        entries,
    ).insert(entries[i].0@, resource@)[uri] by {
        assert(keys(entries).contains(uri));
        let at = keys(entries).index_of(uri);
        assert(keys(entries)[at] == uri);
    }
    assert(map_of(after) =~= map_of(entries).insert(entries[i].0@, resource@));
}

/// A new entry under a URI that is not held adds that URI, and nothing else
/// changes.
proof fn lemma_pushed(entries: Seq<(String, Resource)>, uri: String, resource: Resource)
    requires
        keys(entries).no_duplicates(),
        !keys(entries).contains(uri@),
    ensures
        keys(entries.push((uri, resource))).no_duplicates(),
        map_of(entries.push((uri, resource))) == map_of(entries).insert(uri@, resource@),
{
    let after = entries.push((uri, resource));
    assert(keys(after) =~= keys(entries).push(uri@));
    assert forall|k: Seq<char>| map_of(entries).insert(uri@, resource@).dom().contains(
        k,
    ) implies #[trigger] map_of(after)[k] == map_of(entries).insert(uri@, resource@)[k] by {
        if k == uri@ {
            assert(keys(after)[entries.len() as int] == uri@);
            assert(keys(after).contains(k));
        } else {
            let at = keys(entries).index_of(k);
            assert(keys(entries)[at] == k);
            assert(keys(after)[at] == k);
        }
        let found = keys(after).index_of(k);
        assert(keys(after)[found] == k);
    }
    assert forall|k: Seq<char>| map_of(after).dom().contains(k) implies map_of(entries).insert(
        uri@,
        resource@,
    ).dom().contains(k) by {
        let found = keys(after).index_of(k);
        assert(keys(after)[found] == k);
        if found < entries.len() {
            assert(keys(entries)[found] == k);
        }
    }
    assert forall|k: Seq<char>| map_of(entries).insert(uri@, resource@).dom().contains(
        k,
    ) implies map_of(after).dom().contains(k) by {
        if k == uri@ {
            assert(keys(after)[entries.len() as int] == uri@);
        } else {
            let at = keys(entries).index_of(k);
            assert(keys(entries)[at] == k);
            assert(keys(after)[at] == k);
        }
    }
    assert(map_of(after) =~= map_of(entries).insert(uri@, resource@));
}

/// Taking an entry out takes its URI out, and nothing else changes.
proof fn lemma_removed(entries: Seq<(String, Resource)>, i: int)
    requires
        keys(entries).no_duplicates(),
        0 <= i < entries.len(),
    ensures
        keys(entries.remove(i)).no_duplicates(),
        !keys(entries.remove(i)).contains(entries[i].0@),
        map_of(entries.remove(i)) == map_of(entries).remove(entries[i].0@),
{
    let after = entries.remove(i);
    assert(keys(after) =~= keys(entries).remove(i));
    assert(keys(entries)[i] == entries[i].0@);
    if keys(after).contains(entries[i].0@) {
        let at = keys(after).index_of(entries[i].0@);
        let at0 = if at < i { at } else { at + 1 };
        assert(keys(entries)[at0] == keys(after)[at]);
    }
    assert forall|a: int, b: int| 0 <= a < b < keys(after).len() implies keys(after)[a] != keys(
        after,
    )[b] by {
        let a0 = if a < i { a } else { a + 1 };
        let b0 = if b < i { b } else { b + 1 };
        assert(keys(after)[a] == keys(entries)[a0]);
        assert(keys(after)[b] == keys(entries)[b0]);
    }
    assert(keys(entries)[i] == entries[i].0@);
    assert forall|k: Seq<char>| map_of(after).dom().contains(k) implies map_of(entries).remove(
        entries[i].0@,
    ).dom().contains(k) && map_of(after)[k] == map_of(entries).remove(entries[i].0@)[k] by {
        let found = keys(after).index_of(k);
        assert(keys(after)[found] == k);
        let found0 = if found < i { found } else { found + 1 };
        assert(keys(entries)[found0] == k);
        let at = keys(entries).index_of(k);
        assert(keys(entries)[at] == k);
    }
    assert forall|k: Seq<char>| map_of(entries).remove(entries[i].0@).dom().contains(
        k,
    ) implies map_of(after).dom().contains(k) by {
        let at = keys(entries).index_of(k);
        assert(keys(entries)[at] == k);
        let at1 = if at < i { at } else { at - 1 };
        assert(keys(after)[at1] == k);
    }
    assert(map_of(after) =~= map_of(entries).remove(entries[i].0@));
}

impl View for ResourcePool {
    type V = Map<Seq<char>, ResourceView>;

    closed spec fn view(&self) -> Map<Seq<char>, ResourceView> {
        map_of(self.entries@)
    }
}

impl ResourcePool {
    /// Whether the pool is in order: no URI is held twice.
    pub closed spec fn wf(&self) -> bool {
        keys(self.entries@).no_duplicates()
    }

    /// The empty pool.
    pub fn new() -> (pool: ResourcePool)
        ensures
            pool.wf(),
            pool@ == Map::<Seq<char>, ResourceView>::empty(),
    {
        let pool = ResourcePool { entries: Vec::new() };
        assert(pool@ =~= Map::<Seq<char>, ResourceView>::empty());
        pool
    }

    /// Where in the pool the resource under `uri` is held.
    fn position(&self, uri: &str) -> (found: Option<usize>)
        requires
            self.wf(),
        ensures
            match found {
                Some(i) => i < self.entries.len() && self.entries[i as int].0@ == uri@
                    && self@.dom().contains(uri@) && self@[uri@] == self.entries[i as int].1@,
                None => !self@.dom().contains(uri@) && !keys(self.entries@).contains(uri@),
            },
    {
        let mut i: usize = 0;
        while i < self.entries.len()
            invariant
                i <= self.entries.len(),
                self.wf(),
                forall|j: int| 0 <= j < i ==> (#[trigger] self.entries[j]).0@ != uri@,
            decreases self.entries.len() - i,
        {
            if same_text(self.entries[i].0.as_str(), uri) {
                proof {
                    lemma_entry(self.entries@, i as int);
                }
                return Some(i);
            }
            i += 1;
        }
        proof {
            lemma_absent(self.entries@, uri@);
        }
        None
    }

    /// The number of resources.
    pub fn len(&self) -> (n: usize)
        requires
            self.wf(),
        ensures
            n == self@.dom().len(),
            self@.dom().finite(),
    {
        proof {
            lemma_size(self.entries@);
        }
        self.entries.len()
    }

    /// Whether a resource is held under `uri`.
    pub fn contains(&self, uri: &str) -> (held: bool)
        requires
            self.wf(),
        ensures
            held == self@.dom().contains(uri@),
    {
        self.position(uri).is_some()
    }

    /// The resource under `uri`.
    pub fn get(&self, uri: &str) -> (found: Option<&Resource>)
        requires
            self.wf(),
        ensures
            match found {
                Some(resource) => self@.dom().contains(uri@) && resource@ == self@[uri@],
                None => !self@.dom().contains(uri@),
            },
    {
        match self.position(uri) {
            Some(i) => Some(&self.entries[i].1),
            None => None,
        }
    }

    /// The resource under `uri`, to be changed where it is.
    pub fn get_mut(&mut self, uri: &str) -> (found: Option<&mut Resource>)
        requires
            old(self).wf(),
        ensures
            final(self).wf(),
            match found {
                Some(resource) => old(self)@.dom().contains(uri@) && (*resource)@ == old(self)@[uri@]
                    && final(self)@ == old(self)@.insert(uri@, (*final(resource))@),
                None => !old(self)@.dom().contains(uri@) && final(self)@ == old(self)@,
            },
    {
        match self.position(uri) {
            Some(i) => {
                proof {
                    let entries = self.entries@;
                    assert forall|resource: Resource|
                        keys(#[trigger] entries.update(i as int, (entries[i as int].0, resource)))
                            == keys(entries) && map_of(
                            entries.update(i as int, (entries[i as int].0, resource)),
                        ) == map_of(entries).insert(uri@, resource@) by {
                        lemma_replaced(entries, i as int, resource);
                    }
                }
                Some(&mut self.entries[i].1)
            },
            None => None,
        }
    }

    /// Puts `resource` under `uri`, in place of what was held there, and
    /// returns what was held there.
    pub fn insert(&mut self, uri: String, resource: Resource) -> (previous: Option<Resource>)
        requires
            old(self).wf(),
        ensures
            final(self).wf(),
            final(self)@ == old(self)@.insert(uri@, resource@),
            match previous {
                Some(replaced) => old(self)@.dom().contains(uri@) && replaced@ == old(self)@[uri@],
                None => !old(self)@.dom().contains(uri@),
            },
    {
        match self.position(uri.as_str()) {
            Some(i) => {
                proof {
                    lemma_removed(self.entries@, i as int);
                }
                let replaced = self.entries.remove(i);
                proof {
                    lemma_pushed(self.entries@, uri, resource);
                    assert(old(self)@.remove(uri@).insert(uri@, resource@) =~= old(self)@.insert(
                        uri@,
                        resource@,
                    ));
                }
                self.entries.push((uri, resource));
                Some(replaced.1)
            },
            None => {
                proof {
                    lemma_pushed(self.entries@, uri, resource);
                }
                self.entries.push((uri, resource));
                None
            },
        }
    }

    /// Takes the resource under `uri` out of the pool.
    pub fn remove(&mut self, uri: &str) -> (removed: Option<Resource>)
        requires
            old(self).wf(),
        ensures
            final(self).wf(),
            final(self)@ == old(self)@.remove(uri@),
            match removed {
                Some(resource) => old(self)@.dom().contains(uri@) && resource@ == old(self)@[uri@],
                None => !old(self)@.dom().contains(uri@),
            },
    {
        match self.position(uri) {
            Some(i) => {
                proof {
                    lemma_removed(self.entries@, i as int);
                }
                let entry = self.entries.remove(i);
                Some(entry.1)
            },
            None => {
                assert(self@.remove(uri@) =~= self@);
                None
            },
        }
    }
}

impl Default for ResourcePool {
    fn default() -> (pool: ResourcePool)
        ensures
            pool.wf(),
            pool@ == Map::<Seq<char>, ResourceView>::empty(),
    {
        ResourcePool::new()
    }
}

/// As many URIs are held as there are entries.
proof fn lemma_size(entries: Seq<(String, Resource)>)
    requires
        keys(entries).no_duplicates(),
    ensures
        map_of(entries).dom().finite(),
        map_of(entries).dom().len() == entries.len(),
    decreases entries.len(),
{
    if entries.len() == 0 {
        assert(map_of(entries).dom() =~= Set::<Seq<char>>::empty());
    } else {
        let rest = entries.drop_last();
        let last = entries.last();
        assert(keys(rest) =~= keys(entries).drop_last());
        assert(keys(entries)[entries.len() - 1] == last.0@);
        assert(!keys(rest).contains(last.0@)) by {
            if keys(rest).contains(last.0@) {
                let at = keys(rest).index_of(last.0@);
                assert(keys(entries)[at] == last.0@);
            }
        }
        lemma_size(rest);
        assert(entries =~= rest.push(last));
        lemma_pushed(rest, last.0, last.1);
        assert(map_of(entries).dom() =~= map_of(rest).dom().insert(last.0@));
    }
}

} // verus!
