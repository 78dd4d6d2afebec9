//! Events.

use vstd::prelude::*;

verus! {

/// An event of a calendar.
#[derive(Debug)]
pub struct Event {
    uri: String,
    calendar_uri: String,
    name: String,
    description: String,
}

/// What an [`Event`] holds.
pub struct EventView {
    pub uri: Seq<char>,
    pub calendar_uri: Seq<char>,
    pub name: Seq<char>,
    pub description: Seq<char>,
}

impl View for Event {
    type V = EventView;

    closed spec fn view(&self) -> EventView {
        EventView {
            uri: self.uri@,
            calendar_uri: self.calendar_uri@,
            name: self.name@,
            description: self.description@,
        }
    }
}

impl Event {
    /// An event of the calendar at `calendar_uri`.
    pub fn new(calendar_uri: &str, uri: &str, name: &str, description: &str) -> (event: Event)
        ensures
            event@ == (EventView {
                uri: uri@,
                calendar_uri: calendar_uri@,
                name: name@,
                description: description@,
            }),
    {
        Event {
            uri: uri.to_owned(),
            calendar_uri: calendar_uri.to_owned(),
            name: name.to_owned(),
            description: description.to_owned(),
        }
    }

    pub fn uri(&self) -> (uri: &str)
        ensures
            uri@ == self@.uri,
    {
        self.uri.as_str()
    }

    /// The URI of the calendar that the event belongs to.
    pub fn calendar_uri(&self) -> (uri: &str)
        ensures
            uri@ == self@.calendar_uri,
    {
        self.calendar_uri.as_str()
    }

    pub fn name(&self) -> (name: &str)
        ensures
            name@ == self@.name,
    {
        self.name.as_str()
    }

    pub fn description(&self) -> (description: &str)
        ensures
            description@ == self@.description,
    {
        self.description.as_str()
    }
}

} // verus!
