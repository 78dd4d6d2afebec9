//! The manager of the mirror.

use vstd::prelude::*;

use crate::calendar::Calendar;
use crate::collection::Collection;
use crate::collections_model::CollectionsModel;
use crate::color::Color;
use crate::command::{commands, WriteCommand, WriteCommandView};
use crate::event::Event;
use crate::laws::{lemma_create_keeps_order, lemma_delete_keeps_order, lemma_update_keeps_order};
use crate::model::ManagerView;
use crate::model::{resolved, unresolved};
use crate::notice::{notices, Failure, Notice, NoticeView};
use crate::notification::{batch, borrowed_batch, Notification};
use crate::pool::ResourcePool;
use crate::pre_resource::pre_calendar::PreCalendar;
use crate::pre_resource::pre_collection::PreCollection;
use crate::pre_resource::pre_event::PreEvent;
use crate::pre_resource::pre_provider::PreProvider;
use crate::pre_resource::{
    calendars, collections, events, providers, resources, Lookup, PreResource, PreResourceView,
};
use crate::provider::Provider;
use crate::resource::{Kind, Resource};
use crate::text::texts;

verus! {

/// The mirror of the store: every resource by its URI, and the list of all
/// collections.
///
/// The manager changes only by what it is told of the store: the rows of the
/// first load, and the batches of notifications after that. Whatever it is
/// told, it stays in order, and it answers each piece of work with the
/// notices of what it did.
#[derive(Debug)]
pub struct Manager {
    resource_pool: ResourcePool,
    collections_model: CollectionsModel,
}

impl View for Manager {
    type V = ManagerView;

    closed spec fn view(&self) -> ManagerView {
        ManagerView { pool: self.resource_pool@, collections: self.collections_model@ }
    }
}

impl Manager {
    /// Whether the manager is in order: its pool is, and so is the state
    /// that it stands for.
    pub closed spec fn wf(&self) -> bool {
        self.resource_pool.wf() && self@.wf()
    }

    /// A manager in order stands for a state in order.
    pub proof fn lemma_in_order(&self)
        requires
            self.wf(),
        ensures
            self@.wf(),
    {
    }

    /// A manager that holds nothing.
    pub fn new() -> (manager: Manager)
        ensures
            manager.wf(),
            manager@ == ManagerView::empty(),
    {
        Manager { resource_pool: ResourcePool::new(), collections_model: CollectionsModel::new() }
    }

    /// The resource under `uri`, as it is now.
    pub fn find_resource(&self, uri: &str) -> (found: Option<&Resource>)
        requires
            self.wf(),
        ensures
            match found {
                Some(resource) => self@.holds(uri@) && resource@ == self@.pool[uri@],
                None => !self@.holds(uri@),
            },
    {
        self.resource_pool.get(uri)
    }

    /// The pool of all resources.
    pub fn resource_pool(&self) -> (pool: &ResourcePool)
        requires
            self.wf(),
        ensures
            pool.wf(),
            pool@ == self@.pool,
    {
        &self.resource_pool
    }

    /// The list of all collections.
    pub fn collections_model(&self) -> (list: &CollectionsModel)
        ensures
            list@ == self@.collections,
    {
        &self.collections_model
    }

    /// Creates a provider, unless the pool holds a resource under its URI.
    pub fn insert_provider(&mut self, row: &PreProvider) -> (out: Vec<Notice>)
        requires
            old(self).wf(),
        ensures
            final(self).wf(),
            final(self)@ == old(self)@.create(PreResourceView::Provider(row@), false).state,
            notices(out@) == old(self)@.create(PreResourceView::Provider(row@), false).notices,
    {
        proof {
            lemma_create_keeps_order(self@, PreResourceView::Provider(row@), false);
        }
        let mut out: Vec<Notice> = Vec::new();
        let uri = row.uri.as_str();
        if self.resource_pool.contains(uri) {
            out.push(Notice::skipped(uri, Failure::DuplicateUri));
            assert(notices(out@) =~= self@.skip(uri@, Failure::DuplicateUri).notices);
            return out;
        }
        let provider = Provider::new(uri, row.name.as_str());
        self.resource_pool.insert(row.uri.clone(), Resource::Provider(provider));
        out.push(Notice::created(PreResource::Provider(row.duplicate())));
        assert(notices(out@) =~= old(self)@.create(
            PreResourceView::Provider(row@),
            false,
        ).notices);
        out
    }

    /// Creates a collection and hands it to its provider, unless the pool
    /// holds a resource under its URI or no provider under the URI that it
    /// names. Where `listed` is set, the collection also joins the list of
    /// all collections.
    pub fn insert_collection(&mut self, row: &PreCollection, listed: bool) -> (out: Vec<Notice>)
        requires
            old(self).wf(),
        ensures
            final(self).wf(),
            final(self)@ == old(self)@.create(PreResourceView::Collection(row@), listed).state,
            notices(out@) == old(self)@.create(PreResourceView::Collection(row@), listed).notices,
    {
        proof {
            lemma_create_keeps_order(self@, PreResourceView::Collection(row@), listed);
        }
        let mut out: Vec<Notice> = Vec::new();
        let uri = row.uri.as_str();
        let parent = row.provider_uri.as_str();
        if self.resource_pool.contains(uri) {
            out.push(Notice::skipped(uri, Failure::DuplicateUri));
            assert(notices(out@) =~= self@.skip(uri@, Failure::DuplicateUri).notices);
            return out;
        }
        match self.resource_pool.get_mut(parent) {
            Some(Resource::Provider(provider)) => {
                let delta = provider.add_collection(uri);
                out.push(Notice::created(PreResource::Collection(row.duplicate())));
                out.push(Notice::children_changed(parent, uri, delta));
            },
            _ => {
                out.push(Notice::skipped(uri, Failure::MissingParent));
                assert(notices(out@) =~= old(self)@.skip(uri@, Failure::MissingParent).notices);
                assert(self.resource_pool@ =~= old(self).resource_pool@);
                return out;
            },
        }
        if listed {
            let delta = self.collections_model.append(uri);
            out.push(Notice::collections_changed(uri, delta));
        }
        let collection = Collection::new(parent, uri, row.name.as_str());
        self.resource_pool.insert(row.uri.clone(), Resource::Collection(collection));
        assert(notices(out@) =~= old(self)@.create(
            PreResourceView::Collection(row@),
            listed,
        ).notices);
        out
    }

    /// Creates a calendar and hands it to its collection, unless the pool
    /// holds a resource under its URI or no collection under the URI that it
    /// names.
    pub fn insert_calendar(&mut self, row: &PreCalendar) -> (out: Vec<Notice>)
        requires
            old(self).wf(),
        ensures
            final(self).wf(),
            final(self)@ == old(self)@.create(PreResourceView::Calendar(row@), false).state,
            notices(out@) == old(self)@.create(PreResourceView::Calendar(row@), false).notices,
    {
        proof {
            lemma_create_keeps_order(self@, PreResourceView::Calendar(row@), false);
        }
        let mut out: Vec<Notice> = Vec::new();
        let uri = row.uri.as_str();
        let parent = row.collection_uri.as_str();
        if self.resource_pool.contains(uri) {
            out.push(Notice::skipped(uri, Failure::DuplicateUri));
            assert(notices(out@) =~= self@.skip(uri@, Failure::DuplicateUri).notices);
            return out;
        }
        match self.resource_pool.get_mut(parent) {
            Some(Resource::Collection(collection)) => {
                let delta = collection.add_calendar(uri);
                out.push(Notice::created(PreResource::Calendar(row.duplicate())));
                out.push(Notice::children_changed(parent, uri, delta));
            },
            _ => {
                out.push(Notice::skipped(uri, Failure::MissingParent));
                assert(notices(out@) =~= old(self)@.skip(uri@, Failure::MissingParent).notices);
                assert(self.resource_pool@ =~= old(self).resource_pool@);
                return out;
            },
        }
        let calendar = Calendar::new(parent, uri, row.name.as_str(), row.color);
        self.resource_pool.insert(row.uri.clone(), Resource::Calendar(calendar));
        assert(notices(out@) =~= old(self)@.create(
            PreResourceView::Calendar(row@),
            false,
        ).notices);
        out
    }

    /// Creates an event and hands it to its calendar, unless the pool holds a
    /// resource under its URI or no calendar under the URI that it names.
    pub fn insert_event(&mut self, row: &PreEvent) -> (out: Vec<Notice>)
        requires
            old(self).wf(),
        ensures
            final(self).wf(),
            final(self)@ == old(self)@.create(PreResourceView::Event(row@), false).state,
            notices(out@) == old(self)@.create(PreResourceView::Event(row@), false).notices,
    {
        proof {
            lemma_create_keeps_order(self@, PreResourceView::Event(row@), false);
        }
        let mut out: Vec<Notice> = Vec::new();
        let uri = row.uri.as_str();
        let parent = row.calendar_uri.as_str();
        if self.resource_pool.contains(uri) {
            out.push(Notice::skipped(uri, Failure::DuplicateUri));
            assert(notices(out@) =~= self@.skip(uri@, Failure::DuplicateUri).notices);
            return out;
        }
        match self.resource_pool.get_mut(parent) {
            Some(Resource::Calendar(calendar)) => {
                let delta = calendar.add_event(uri);
                out.push(Notice::created(PreResource::Event(row.duplicate())));
                out.push(Notice::children_changed(parent, uri, delta));
            },
            _ => {
                out.push(Notice::skipped(uri, Failure::MissingParent));
                assert(notices(out@) =~= old(self)@.skip(uri@, Failure::MissingParent).notices);
                assert(self.resource_pool@ =~= old(self).resource_pool@);
                return out;
            },
        }
        let event = Event::new(parent, uri, row.name.as_str(), row.description.as_str());
        self.resource_pool.insert(row.uri.clone(), Resource::Event(event));
        assert(notices(out@) =~= old(self)@.create(PreResourceView::Event(row@), false).notices);
        out
    }

    /// Creates one resource, of whatever kind.
    pub fn create_resource(&mut self, resource: &PreResource, listed: bool) -> (out: Vec<Notice>)
        requires
            old(self).wf(),
        ensures
            final(self).wf(),
            final(self)@ == old(self)@.create(resource@, listed).state,
            notices(out@) == old(self)@.create(resource@, listed).notices,
    {
        match resource {
            PreResource::Provider(row) => self.insert_provider(row),
            PreResource::Collection(row) => self.insert_collection(row, listed),
            PreResource::Calendar(row) => self.insert_calendar(row),
            PreResource::Event(row) => self.insert_event(row),
        }
    }

    /// Brings the resource at `uri` up to what the store now answers.
    pub fn update_resource(&mut self, uri: &str, lookup: &Lookup) -> (out: Vec<Notice>)
        requires
            old(self).wf(),
        ensures
            final(self).wf(),
            final(self)@ == old(self)@.update(uri@, lookup@).state,
            notices(out@) == old(self)@.update(uri@, lookup@).notices,
    {
        proof {
            lemma_update_keeps_order(self@, uri@, lookup@);
        }
        let mut out: Vec<Notice> = Vec::new();
        if !self.resource_pool.contains(uri) {
            out.push(Notice::skipped(uri, Failure::NotInPool));
            assert(notices(out@) =~= self@.skip(uri@, Failure::NotInPool).notices);
            return out;
        }
        match PreResource::from_uri(uri, lookup) {
            Err(failure) => {
                out.push(Notice::skipped(uri, failure));
                assert(notices(out@) =~= self@.skip(uri@, failure).notices);
            },
            Ok(PreResource::Calendar(new)) => {
                match self.resource_pool.get_mut(uri) {
                    Some(Resource::Calendar(calendar)) => {
                        calendar.emit_updated(new.name.as_str(), new.color);
                        out.push(Notice::updated(uri, new.name.as_str(), new.color));
                        assert(notices(out@) =~= old(self)@.update(uri@, lookup@).notices);
                    },
                    _ => {
                        out.push(Notice::skipped(uri, Failure::UnhandledCombination));
                        assert(notices(out@) =~= old(self)@.skip(
                            uri@,
                            Failure::UnhandledCombination,
                        ).notices);
                        assert(self.resource_pool@ =~= old(self).resource_pool@);
                    },
                }
            },
            Ok(_) => {
                out.push(Notice::skipped(uri, Failure::UnhandledCombination));
                assert(notices(out@) =~= self@.skip(uri@, Failure::UnhandledCombination).notices);
            },
        }
        out
    }

    /// Takes the resource at `uri` out of the mirror.
    pub fn delete_resource(&mut self, uri: &str) -> (out: Vec<Notice>)
        requires
            old(self).wf(),
        ensures
            final(self).wf(),
            final(self)@ == old(self)@.delete(uri@).state,
            notices(out@) == old(self)@.delete(uri@).notices,
    {
        proof {
            lemma_delete_keeps_order(self@, uri@);
            assert(self@.holds(uri@) ==> self@.parent_in_order(uri@));
        }
        let mut out: Vec<Notice> = Vec::new();
        match self.resource_pool.get(uri) {
            None => {
                out.push(Notice::skipped(uri, Failure::NotInPool));
                assert(notices(out@) =~= self@.skip(uri@, Failure::NotInPool).notices);
                return out;
            },
            Some(Resource::Calendar(_)) => {},
            Some(_) => {
                out.push(Notice::skipped(uri, Failure::UnhandledCombination));
                assert(notices(out@) =~= self@.skip(uri@, Failure::UnhandledCombination).notices);
                return out;
            },
        }
        if let Some(Resource::Calendar(calendar)) = self.resource_pool.remove(uri) {
            let parent = calendar.collection_uri();
            proof {
                old(self)@.pool[parent@].children().index_of_first_ensures(uri@);
            }
            out.push(calendar.emit_deleted());
            match self.resource_pool.get_mut(parent) {
                Some(Resource::Collection(collection)) => {
                    let delta = collection.remove_calendar(uri);
                    out.push(Notice::children_changed(parent, uri, delta));
                },
                _ => {
                    assert(self.resource_pool@ =~= old(self).resource_pool@.remove(uri@));
                },
            }
        }
        assert(notices(out@) =~= old(self)@.delete(uri@).notices);
        out
    }

    /// Creates, in their order, those of `list` that are of kind `kind`.
    pub fn create_of_kind(&mut self, list: &Vec<PreResource>, kind: Kind, listed: bool) -> (out:
        Vec<Notice>)
        requires
            old(self).wf(),
        ensures
            final(self).wf(),
            final(self)@ == old(self)@.create_kind(resources(list@), kind, listed).state,
            notices(out@) == old(self)@.create_kind(resources(list@), kind, listed).notices,
    {
        let ghost start = self@;
        let mut out: Vec<Notice> = Vec::new();
        let mut i: usize = 0;
        assert(notices(out@) =~= Seq::empty());
        while i < list.len()
            invariant
                i <= list.len(),
                self.wf(),
                self@ == start.create_kind(resources(list@).take(i as int), kind, listed).state,
                notices(out@) == start.create_kind(
                    resources(list@).take(i as int),
                    kind,
                    listed,
                ).notices,
            decreases list.len() - i,
        {
            proof {
                let seen = resources(list@).take(i + 1);
                assert(seen.drop_last() =~= resources(list@).take(i as int));
                assert(seen.last() == list[i as int]@);
            }
            if list[i].kind() == kind {
                let mut step = self.create_resource(&list[i], listed);
                let ghost before = out@;
                let ghost added = step@;
                out.append(&mut step);
                assert(notices(out@) =~= notices(before) + notices(added));
            }
            i += 1;
        }
        assert(resources(list@).take(i as int) =~= resources(list@));
        out
    }

    /// Creates the resources of `list`, kind by kind from the root of the
    /// hierarchy down.
    pub fn create_all(&mut self, list: &Vec<PreResource>, listed: bool) -> (out: Vec<Notice>)
        requires
            old(self).wf(),
        ensures
            final(self).wf(),
            final(self)@ == old(self)@.create_all(resources(list@), listed).state,
            notices(out@) == old(self)@.create_all(resources(list@), listed).notices,
    {
        let mut out = self.create_of_kind(list, Kind::Provider, listed);
        let mut collections = self.create_of_kind(list, Kind::Collection, listed);
        let mut calendars = self.create_of_kind(list, Kind::Calendar, listed);
        let mut events = self.create_of_kind(list, Kind::Event, listed);
        let ghost first = out@;
        let ghost second = collections@;
        let ghost third = calendars@;
        let ghost fourth = events@;
        out.append(&mut collections);
        out.append(&mut calendars);
        out.append(&mut events);
        assert(notices(out@) =~= notices(first) + notices(second) + notices(third) + notices(
            fourth,
        ));
        out
    }

    /// The creations of a batch: reads the answer of every notification, in
    /// order, and then creates the resources that the answers describe, kind
    /// by kind from the root of the hierarchy down. A notification whose
    /// answer describes no resource is passed over, and so is a resource
    /// that cannot be created; neither stops the others.
    pub fn create_resources(&mut self, created: &Vec<&Notification>) -> (out: Vec<Notice>)
        requires
            old(self).wf(),
        ensures
            final(self).wf(),
            final(self)@ == old(self)@.create_phase(borrowed_batch(created@)).state,
            notices(out@) == old(self)@.create_phase(borrowed_batch(created@)).notices,
    {
        let mut out: Vec<Notice> = Vec::new();
        let mut list: Vec<PreResource> = Vec::new();
        let mut i: usize = 0;
        assert(notices(out@) =~= Seq::empty());
        assert(resources(list@) =~= Seq::empty());
        while i < created.len()
            invariant
                i <= created.len(),
                resources(list@) == resolved(borrowed_batch(created@).take(i as int)),
                notices(out@) == unresolved(borrowed_batch(created@).take(i as int)),
            decreases created.len() - i,
        {
            proof {
                let seen = borrowed_batch(created@).take(i + 1);
                assert(seen.drop_last() =~= borrowed_batch(created@).take(i as int));
                assert(seen.last() == created[i as int]@);
            }
            let event = created[i];
            let ghost out_before = out@;
            let ghost list_before = list@;
            match PreResource::from_uri(event.uri.as_str(), &event.lookup) {
                Ok(resource) => {
                    list.push(resource);
                    assert(resources(list@) =~= resources(list_before) + seq![resource@]);
                },
                Err(failure) => {
                    out.push(Notice::skipped(event.uri.as_str(), failure));
                    assert(notices(out@) =~= notices(out_before) + seq![
                        NoticeView::Skipped { uri: event.uri@, failure },
                    ]);
                },
            }
            i += 1;
        }
        assert(borrowed_batch(created@).take(i as int) =~= borrowed_batch(created@));
        let mut made = self.create_all(&list, false);
        let ghost first = out@;
        let ghost second = made@;
        out.append(&mut made);
        assert(notices(out@) =~= notices(first) + notices(second));
        out
    }

    /// The updates of a batch, in order. An update that cannot be made is
    /// passed over, and does not stop the others.
    pub fn update_resources(&mut self, updated: &Vec<&Notification>) -> (out: Vec<Notice>)
        requires
            old(self).wf(),
        ensures
            final(self).wf(),
            final(self)@ == old(self)@.update_all(borrowed_batch(updated@)).state,
            notices(out@) == old(self)@.update_all(borrowed_batch(updated@)).notices,
    {
        let ghost start = self@;
        let mut out: Vec<Notice> = Vec::new();
        let mut i: usize = 0;
        assert(notices(out@) =~= Seq::empty());
        while i < updated.len()
            invariant
                i <= updated.len(),
                self.wf(),
                self@ == start.update_all(borrowed_batch(updated@).take(i as int)).state,
                notices(out@) == start.update_all(borrowed_batch(updated@).take(i as int)).notices,
            decreases updated.len() - i,
        {
            proof {
                let seen = borrowed_batch(updated@).take(i + 1);
                assert(seen.drop_last() =~= borrowed_batch(updated@).take(i as int));
                assert(seen.last() == updated[i as int]@);
            }
            let event = updated[i];
            let mut step = self.update_resource(event.uri.as_str(), &event.lookup);
            let ghost before = out@;
            let ghost added = step@;
            out.append(&mut step);
            assert(notices(out@) =~= notices(before) + notices(added));
            i += 1;
        }
        assert(borrowed_batch(updated@).take(i as int) =~= borrowed_batch(updated@));
        out
    }

    /// The deletions of a batch, in order. A deletion that cannot be made is
    /// passed over, and does not stop the others.
    pub fn delete_resources(&mut self, deleted: &Vec<&Notification>) -> (out: Vec<Notice>)
        requires
            old(self).wf(),
        ensures
            final(self).wf(),
            final(self)@ == old(self)@.delete_all(borrowed_batch(deleted@)).state,
            notices(out@) == old(self)@.delete_all(borrowed_batch(deleted@)).notices,
    {
        let ghost start = self@;
        let mut out: Vec<Notice> = Vec::new();
        let mut i: usize = 0;
        assert(notices(out@) =~= Seq::empty());
        while i < deleted.len()
            invariant
                i <= deleted.len(),
                self.wf(),
                self@ == start.delete_all(borrowed_batch(deleted@).take(i as int)).state,
                notices(out@) == start.delete_all(borrowed_batch(deleted@).take(i as int)).notices,
            decreases deleted.len() - i,
        {
            proof {
                let seen = borrowed_batch(deleted@).take(i + 1);
                assert(seen.drop_last() =~= borrowed_batch(deleted@).take(i as int));
                assert(seen.last() == deleted[i as int]@);
            }
            let event = deleted[i];
            let mut step = self.delete_resource(event.uri.as_str());
            let ghost before = out@;
            let ghost added = step@;
            out.append(&mut step);
            assert(notices(out@) =~= notices(before) + notices(added));
            i += 1;
        }
        assert(borrowed_batch(deleted@).take(i as int) =~= borrowed_batch(deleted@));
        out
    }

    /// Applies one batch of notifications: what it reports as created, then
    /// what it reports as updated, then what it reports as deleted. Within
    /// each of the three the order of the batch is kept; across them it is
    /// not.
    ///
    /// The manager is borrowed for the whole batch, so nobody sees the batch
    /// half applied.
    pub fn handle_notifier_events(&mut self, events: &Vec<Notification>) -> (out: Vec<Notice>)
        requires
            old(self).wf(),
        ensures
            final(self).wf(),
            final(self)@ == old(self)@.handle(batch(events@)).state,
            notices(out@) == old(self)@.handle(batch(events@)).notices,
    {
        let sorted = Notification::partition(events);
        let mut out = self.create_resources(&sorted.created);
        let mut updated = self.update_resources(&sorted.updated);
        let mut deleted = self.delete_resources(&sorted.deleted);
        let ghost first = out@;
        let ghost second = updated@;
        let ghost third = deleted@;
        out.append(&mut updated);
        out.append(&mut deleted);
        assert(notices(out@) =~= notices(first) + notices(second) + notices(third));
        out
    }

    /// The first load of the providers: each row is created, in order.
    pub fn retrieve_providers(&mut self, rows: &Vec<PreProvider>) -> (out: Vec<Notice>)
        requires
            old(self).wf(),
        ensures
            final(self).wf(),
            final(self)@ == old(self)@.create_kind(providers(rows@), Kind::Provider, true).state,
            notices(out@) == old(self)@.create_kind(providers(rows@), Kind::Provider, true).notices,
    {
        let ghost start = self@;
        let mut out: Vec<Notice> = Vec::new();
        let mut i: usize = 0;
        assert(notices(out@) =~= Seq::empty());
        while i < rows.len()
            invariant
                i <= rows.len(),
                self.wf(),
                self@ == start.create_kind(
                    providers(rows@).take(i as int),
                    Kind::Provider,
                    true,
                ).state,
                notices(out@) == start.create_kind(
                    providers(rows@).take(i as int),
                    Kind::Provider,
                    true,
                ).notices,
            decreases rows.len() - i,
        {
            proof {
                let seen = providers(rows@).take(i + 1);
                assert(seen.drop_last() =~= providers(rows@).take(i as int));
                assert(seen.last() == PreResourceView::Provider(rows[i as int]@));
            }
            let mut step = self.insert_provider(&rows[i]);
            let ghost before = out@;
            let ghost added = step@;
            out.append(&mut step);
            assert(notices(out@) =~= notices(before) + notices(added));
            i += 1;
        }
        assert(providers(rows@).take(i as int) =~= providers(rows@));
        out
    }

    /// The first load of the collections: each row is created, in order, and
    /// joins the list of all collections. A row whose provider the pool does
    /// not hold is passed over.
    pub fn retrieve_collections(&mut self, rows: &Vec<PreCollection>) -> (out: Vec<Notice>)
        requires
            old(self).wf(),
        ensures
            final(self).wf(),
            final(self)@ == old(self)@.create_kind(
                collections(rows@),
                Kind::Collection,
                true,
            ).state,
            notices(out@) == old(self)@.create_kind(
                collections(rows@),
                Kind::Collection,
                true,
            ).notices,
    {
        let ghost start = self@;
        let mut out: Vec<Notice> = Vec::new();
        let mut i: usize = 0;
        assert(notices(out@) =~= Seq::empty());
        while i < rows.len()
            invariant
                i <= rows.len(),
                self.wf(),
                self@ == start.create_kind(
                    collections(rows@).take(i as int),
                    Kind::Collection,
                    true,
                ).state,
                notices(out@) == start.create_kind(
                    collections(rows@).take(i as int),
                    Kind::Collection,
                    true,
                ).notices,
            decreases rows.len() - i,
        {
            proof {
                let seen = collections(rows@).take(i + 1);
                assert(seen.drop_last() =~= collections(rows@).take(i as int));
                assert(seen.last() == PreResourceView::Collection(rows[i as int]@));
            }
            let mut step = self.insert_collection(&rows[i], true);
            let ghost before = out@;
            let ghost added = step@;
            out.append(&mut step);
            assert(notices(out@) =~= notices(before) + notices(added));
            i += 1;
        }
        assert(collections(rows@).take(i as int) =~= collections(rows@));
        out
    }

    /// The first load of the calendars: each row is created, in order. A row
    /// whose collection the pool does not hold is passed over.
    pub fn retrieve_calendars(&mut self, rows: &Vec<PreCalendar>) -> (out: Vec<Notice>)
        requires
            old(self).wf(),
        ensures
            final(self).wf(),
            final(self)@ == old(self)@.create_kind(calendars(rows@), Kind::Calendar, true).state,
            notices(out@) == old(self)@.create_kind(calendars(rows@), Kind::Calendar, true).notices,
    {
        let ghost start = self@;
        let mut out: Vec<Notice> = Vec::new();
        let mut i: usize = 0;
        assert(notices(out@) =~= Seq::empty());
        while i < rows.len()
            invariant
                i <= rows.len(),
                self.wf(),
                self@ == start.create_kind(
                    calendars(rows@).take(i as int),
                    Kind::Calendar,
                    true,
                ).state,
                notices(out@) == start.create_kind(
                    calendars(rows@).take(i as int),
                    Kind::Calendar,
                    true,
                ).notices,
            decreases rows.len() - i,
        {
            proof {
                let seen = calendars(rows@).take(i + 1);
                assert(seen.drop_last() =~= calendars(rows@).take(i as int));
                assert(seen.last() == PreResourceView::Calendar(rows[i as int]@));
            }
            let mut step = self.insert_calendar(&rows[i]);
            let ghost before = out@;
            let ghost added = step@;
            out.append(&mut step);
            assert(notices(out@) =~= notices(before) + notices(added));
            i += 1;
        }
        assert(calendars(rows@).take(i as int) =~= calendars(rows@));
        out
    }

    /// The first load of the events: each row is created, in order. A row
    /// whose calendar the pool does not hold is passed over.
    pub fn retrieve_events(&mut self, rows: &Vec<PreEvent>) -> (out: Vec<Notice>)
        requires
            old(self).wf(),
        ensures
            final(self).wf(),
            final(self)@ == old(self)@.create_kind(events(rows@), Kind::Event, true).state,
            notices(out@) == old(self)@.create_kind(events(rows@), Kind::Event, true).notices,
    {
        let ghost start = self@;
        let mut out: Vec<Notice> = Vec::new();
        let mut i: usize = 0;
        assert(notices(out@) =~= Seq::empty());
        while i < rows.len()
            invariant
                i <= rows.len(),
                self.wf(),
                self@ == start.create_kind(events(rows@).take(i as int), Kind::Event, true).state,
                notices(out@) == start.create_kind(
                    events(rows@).take(i as int),
                    Kind::Event,
                    true,
                ).notices,
            decreases rows.len() - i,
        {
            proof {
                let seen = events(rows@).take(i + 1);
                assert(seen.drop_last() =~= events(rows@).take(i as int));
                assert(seen.last() == PreResourceView::Event(rows[i as int]@));
            }
            let mut step = self.insert_event(&rows[i]);
            let ghost before = out@;
            let ghost added = step@;
            out.append(&mut step);
            assert(notices(out@) =~= notices(before) + notices(added));
            i += 1;
        }
        assert(events(rows@).take(i as int) =~= events(rows@));
        out
    }

    /// The first load of the mirror: the providers, then the collections,
    /// then the calendars, then the events, each as the store listed them.
    pub fn retrieve_resources(
        &mut self,
        provider_rows: &Vec<PreProvider>,
        collection_rows: &Vec<PreCollection>,
        calendar_rows: &Vec<PreCalendar>,
        event_rows: &Vec<PreEvent>,
    ) -> (out: Vec<Notice>)
        requires
            old(self).wf(),
        ensures
            final(self).wf(),
            final(self)@ == old(self)@.load(
                providers(provider_rows@),
                collections(collection_rows@),
                calendars(calendar_rows@),
                events(event_rows@),
            ).state,
            notices(out@) == old(self)@.load(
                providers(provider_rows@),
                collections(collection_rows@),
                calendars(calendar_rows@),
                events(event_rows@),
            ).notices,
    {
        let mut out = self.retrieve_providers(provider_rows);
        let mut second = self.retrieve_collections(collection_rows);
        let mut third = self.retrieve_calendars(calendar_rows);
        let mut fourth = self.retrieve_events(event_rows);
        let ghost a = out@;
        let ghost b = second@;
        let ghost c = third@;
        let ghost d = fourth@;
        out.append(&mut second);
        out.append(&mut third);
        out.append(&mut fourth);
        assert(notices(out@) =~= notices(a) + notices(b) + notices(c) + notices(d));
        out
    }

    /// Whether a search for `query` asks the store at all: a search for
    /// nothing does not.
    pub fn wants_search(query: &str) -> (wanted: bool)
        ensures
            wanted == (query@.len() > 0),
    {
        !query.is_empty()
    }

    /// The events that a search for `query` shows, given the URIs that the
    /// store matched: those under which the pool holds an event, in the
    /// store's order. The others are passed over, each with a notice.
    ///
    /// A search for nothing shows nothing, whatever `matches` holds, and so
    /// does a search that the store could not carry out, for which there are
    /// no matches.
    pub fn search_events(&self, query: &str, matches: Option<&Vec<String>>) -> (found: (
        CollectionsModel,
        Vec<Notice>,
    ))
        requires
            self.wf(),
        ensures
            found.0@ == self@.search(
                query@,
                match matches {
                    Some(uris) => Some(texts(uris@)),
                    None => None,
                },
            ),
            notices(found.1@) == self@.search_notices(
                query@,
                match matches {
                    Some(uris) => Some(texts(uris@)),
                    None => None,
                },
            ),
    {
        let mut list = CollectionsModel::new();
        let mut out: Vec<Notice> = Vec::new();
        assert(notices(out@) =~= Seq::empty());
        if query.is_empty() {
            return (list, out);
        }
        let uris = match matches {
            Some(uris) => uris,
            None => {
                return (list, out);
            },
        };
        let mut i: usize = 0;
        while i < uris.len()
            invariant
                i <= uris.len(),
                self.wf(),
                list@ == self@.found_events(texts(uris@).take(i as int)),
                notices(out@) == self@.passed_over(texts(uris@).take(i as int)),
            decreases uris.len() - i,
        {
            proof {
                let seen = texts(uris@).take(i + 1);
                assert(seen.drop_last() =~= texts(uris@).take(i as int));
                assert(seen.last() == uris[i as int]@);
                reveal(Seq::filter);
            }
            let uri = uris[i].as_str();
            let ghost before = out@;
            match self.resource_pool.get(uri) {
                Some(Resource::Event(_)) => {
                    list.append(uri);
                },
                _ => {
                    out.push(Notice::skipped(uri, Failure::NotInPool));
                    assert(notices(out@) =~= notices(before) + seq![
                        NoticeView::Skipped { uri: uri@, failure: Failure::NotInPool },
                    ]);
                },
            }
            i += 1;
        }
        assert(texts(uris@).take(i as int) =~= texts(uris@));
        (list, out)
    }

    /// The request to create a calendar in a collection.
    pub open spec fn calendar_creation(
        collection_uri: Seq<char>,
        name: Seq<char>,
        color: Color,
    ) -> WriteCommandView {
        WriteCommandView::CreateCalendar { collection_uri, name, color }
    }

    /// The requests that change a calendar: for the name, where one is given,
    /// then for the colour, where one is given.
    pub open spec fn calendar_update(
        uri: Seq<char>,
        name: Option<Seq<char>>,
        color: Option<Color>,
    ) -> Seq<WriteCommandView> {
        let renaming = match name {
            Some(name) => seq![WriteCommandView::UpdateCalendarName { uri, name }],
            None => seq![],
        };
        let recolouring = match color {
            Some(color) => seq![WriteCommandView::UpdateCalendarColor { uri, color }],
            None => seq![],
        };
        renaming + recolouring
    }

    /// The request to delete a calendar.
    pub open spec fn calendar_deletion(uri: Seq<char>) -> WriteCommandView {
        WriteCommandView::DeleteCalendar { uri }
    }

    /// The request to create an event in a calendar.
    pub open spec fn event_creation(
        calendar_uri: Seq<char>,
        name: Seq<char>,
        description: Seq<char>,
    ) -> WriteCommandView {
        WriteCommandView::CreateEvent { calendar_uri, name, description }
    }

    /// The request to create a calendar named `name` in the collection at
    /// `collection_uri`.
    pub fn create_calendar(collection_uri: &str, name: &str, color: Color) -> (command:
        WriteCommand)
        ensures
            command@ == Self::calendar_creation(collection_uri@, name@, color),
    {
        WriteCommand::CreateCalendar {
            collection_uri: collection_uri.to_owned(),
            name: name.to_owned(),
            color,
        }
    }

    /// The requests that give the calendar at `uri` a new name, a new colour,
    /// or both: none where neither is given.
    pub fn update_calendar(uri: &str, name: Option<&str>, color: Option<Color>) -> (requests: Vec<
        WriteCommand,
    >)
        ensures
            commands(requests@) == Self::calendar_update(
                uri@,
                match name {
                    Some(name) => Some(name@),
                    None => None,
                },
                color,
            ),
    {
        let mut requests: Vec<WriteCommand> = Vec::new();
        if let Some(name) = name {
            requests.push(WriteCommand::UpdateCalendarName { uri: uri.to_owned(), name: name.to_owned() });
        }
        if let Some(color) = color {
            requests.push(WriteCommand::UpdateCalendarColor { uri: uri.to_owned(), color });
        }
        assert(commands(requests@) =~= Self::calendar_update(
            uri@,
            match name {
                Some(name) => Some(name@),
                None => None,
            },
            color,
        ));
        requests
    }

    /// The request to delete the calendar at `uri`.
    pub fn delete_calendar(uri: &str) -> (command: WriteCommand)
        ensures
            command@ == Self::calendar_deletion(uri@),
    {
        WriteCommand::DeleteCalendar { uri: uri.to_owned() }
    }

    /// The request to create an event named `name` in the calendar at
    /// `calendar_uri`.
    pub fn create_event(calendar_uri: &str, name: &str, description: &str) -> (command:
        WriteCommand)
        ensures
            command@ == Self::event_creation(calendar_uri@, name@, description@),
    {
        WriteCommand::CreateEvent {
            calendar_uri: calendar_uri.to_owned(),
            name: name.to_owned(),
            description: description.to_owned(),
        }
    }
}

impl Default for Manager {
    fn default() -> (manager: Manager)
        ensures
            manager.wf(),
            manager@ == ManagerView::empty(),
    {
        Manager::new()
    }
}

} // verus!
