//! Collections.

use vstd::prelude::*;

use crate::collections_model::{CollectionsModel, Delta};
use crate::color::Color;
use crate::command::WriteCommand;
use crate::manager::Manager;

verus! {

/// A collection of calendars, owned by a provider.
#[derive(Debug)]
pub struct Collection {
    uri: String,
    provider_uri: String,
    name: String,
    calendars: CollectionsModel,
}

/// What a [`Collection`] holds.
pub struct CollectionView {
    pub uri: Seq<char>,
    pub provider_uri: Seq<char>,
    pub name: Seq<char>,
    pub calendars: Seq<Seq<char>>,
}

impl View for Collection {
    type V = CollectionView;

    closed spec fn view(&self) -> CollectionView {
        CollectionView {
            uri: self.uri@,
            provider_uri: self.provider_uri@,
            name: self.name@,
            calendars: self.calendars@,
        }
    }
}

impl Collection {
    /// A collection of the provider at `provider_uri`, without calendars.
    pub fn new(provider_uri: &str, uri: &str, name: &str) -> (collection: Collection)
        ensures
            collection@ == (CollectionView {
                uri: uri@,
                provider_uri: provider_uri@,
                name: name@,
                calendars: Seq::empty(),
            }),
    {
        Collection {
            uri: uri.to_owned(),
            provider_uri: provider_uri.to_owned(),
            name: name.to_owned(),
            calendars: CollectionsModel::new(),
        }
    }

    pub fn uri(&self) -> (uri: &str)
        ensures
            uri@ == self@.uri,
    {
        self.uri.as_str()
    }

    /// The URI of the provider that the collection belongs to.
    pub fn provider_uri(&self) -> (uri: &str)
        ensures
            uri@ == self@.provider_uri,
    {
        self.provider_uri.as_str()
    }

    pub fn name(&self) -> (name: &str)
        ensures
            name@ == self@.name,
    {
        self.name.as_str()
    }

    /// The collection's calendars, in the order in which they were added.
    pub fn calendars(&self) -> (list: &CollectionsModel)
        ensures
            list@ == self@.calendars,
    {
        &self.calendars
    }

    /// The number of calendars.
    pub fn n_items(&self) -> (n: usize)
        ensures
            n == self@.calendars.len(),
    {
        self.calendars.n_items()
    }

    /// The calendar at `position`, if there are that many.
    pub fn item(&self, position: usize) -> (item: Option<&str>)
        ensures
            match item {
                Some(uri) => position < self@.calendars.len() && uri@ == self@.calendars[position as int],
                None => position >= self@.calendars.len(),
            },
    {
        self.calendars.item(position)
    }

    /// Adds a calendar at the end of the collection's list.
    pub fn add_calendar(&mut self, calendar_uri: &str) -> (delta: Delta)
        ensures
            final(self)@ == (CollectionView {
                calendars: old(self)@.calendars.push(calendar_uri@),
                ..old(self)@
            }),
            delta == (Delta { position: old(self)@.calendars.len() as usize, removed: 0, added: 1 }),
    {
        self.calendars.append(calendar_uri)
    }

    /// What the collection does when one of its calendars is deleted: the
    /// calendar leaves the list.
    pub fn remove_calendar(&mut self, calendar_uri: &str) -> (delta: Delta)
        requires
            old(self)@.calendars.contains(calendar_uri@),
        ensures
            final(self)@ == (CollectionView {
                calendars: old(self)@.calendars.remove(
                    old(self)@.calendars.index_of_first(calendar_uri@).unwrap(),
                ),
                ..old(self)@
            }),
            delta == (Delta {
                position: old(self)@.calendars.index_of_first(calendar_uri@).unwrap() as usize,
                removed: 1,
                added: 0,
            }),
    {
        self.calendars.remove(calendar_uri)
    }

    /// The request to create a calendar in this collection.
    pub fn create_calendar(&self, name: &str, color: Color) -> (command: WriteCommand)
        ensures
            command@ == Manager::calendar_creation(self@.uri, name@, color),
    {
        Manager::create_calendar(self.uri.as_str(), name, color)
    }
}

} // verus!
