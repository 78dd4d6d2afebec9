//! Calendars.

use vstd::prelude::*;

use crate::collections_model::{CollectionsModel, Delta};
use crate::color::Color;
use crate::command::{commands, WriteCommand};
use crate::manager::Manager;
use crate::notice::{Notice, NoticeView};

verus! {

/// A calendar of a collection.
#[derive(Debug)]
pub struct Calendar {
    uri: String,
    collection_uri: String,
    name: String,
    color: Color,
    events: CollectionsModel,
}

/// What a [`Calendar`] holds.
pub struct CalendarView {
    pub uri: Seq<char>,
    pub collection_uri: Seq<char>,
    pub name: Seq<char>,
    pub color: Color,
    pub events: Seq<Seq<char>>,
}

impl View for Calendar {
    type V = CalendarView;

    closed spec fn view(&self) -> CalendarView {
        CalendarView {
            uri: self.uri@,
            collection_uri: self.collection_uri@,
            name: self.name@,
            color: self.color,
            events: self.events@,
        }
    }
}

impl Calendar {
    /// A calendar of the collection at `collection_uri`, without events.
    pub fn new(collection_uri: &str, uri: &str, name: &str, color: Color) -> (calendar: Calendar)
        ensures
            calendar@ == (CalendarView {
                uri: uri@,
                collection_uri: collection_uri@,
                name: name@,
                color,
                events: Seq::empty(),
            }),
    {
        Calendar {
            uri: uri.to_owned(),
            collection_uri: collection_uri.to_owned(),
            name: name.to_owned(),
            color,
            events: CollectionsModel::new(),
        }
    }

    pub fn uri(&self) -> (uri: &str)
        ensures
            uri@ == self@.uri,
    {
        self.uri.as_str()
    }

    /// The URI of the collection that the calendar belongs to.
    pub fn collection_uri(&self) -> (uri: &str)
        ensures
            uri@ == self@.collection_uri,
    {
        self.collection_uri.as_str()
    }

    pub fn name(&self) -> (name: &str)
        ensures
            name@ == self@.name,
    {
        self.name.as_str()
    }

    pub fn color(&self) -> (color: Color)
        ensures
            color == self@.color,
    {
        self.color
    }

    /// The calendar's events, in the order in which they were added.
    pub fn events(&self) -> (list: &CollectionsModel)
        ensures
            list@ == self@.events,
    {
        &self.events
    }

    /// The requests that give the calendar in the store a new name, a new
    /// colour, or both. The calendar itself stays as it is until the store
    /// reports the change.
    pub fn update(&self, name: Option<&str>, color: Option<Color>) -> (requests: Vec<WriteCommand>)
        ensures
            commands(requests@) == Manager::calendar_update(
                self@.uri,
                match name {
                    Some(name) => Some(name@),
                    None => None,
                },
                color,
            ),
    {
        Manager::update_calendar(self.uri.as_str(), name, color)
    }

    /// Takes over the name and colour that the store reported.
    pub fn emit_updated(&mut self, name: &str, color: Color)
        ensures
            final(self)@ == (CalendarView { name: name@, color, ..old(self)@ }),
    {
        self.name = name.to_owned();
        self.color = color;
    }

    /// The request to delete the calendar from the store.
    pub fn delete(&self) -> (command: WriteCommand)
        ensures
            command@ == Manager::calendar_deletion(self@.uri),
    {
        Manager::delete_calendar(self.uri.as_str())
    }

    /// The notice that the calendar is deleted, for those who watch it.
    pub fn emit_deleted(&self) -> (notice: Notice)
        ensures
            notice@ == (NoticeView::Deleted { uri: self@.uri }),
    {
        Notice::deleted(self.uri.as_str())
    }

    /// Adds an event at the end of the calendar's list.
    pub fn add_event(&mut self, event_uri: &str) -> (delta: Delta)
        ensures
            final(self)@ == (CalendarView {
                events: old(self)@.events.push(event_uri@),
                ..old(self)@
            }),
            delta == (Delta { position: old(self)@.events.len() as usize, removed: 0, added: 1 }),
    {
        self.events.append(event_uri)
    }
}

} // verus!
