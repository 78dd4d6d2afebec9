//! Resources as the store describes them, before they enter the mirror.

pub mod pre_calendar;
pub mod pre_collection;
pub mod pre_event;
pub mod pre_provider;

use vstd::prelude::*;

use crate::calendar::CalendarView;
use crate::collection::CollectionView;
use crate::color::Color;
use crate::event::EventView;
use crate::notice::Failure;
use crate::provider::ProviderView;
use crate::resource::{Kind, ResourceView};
use pre_calendar::{PreCalendar, PreCalendarView};
use pre_collection::{PreCollection, PreCollectionView};
use pre_event::{PreEvent, PreEventView};
use pre_provider::{PreProvider, PreProviderView};

verus! {

/// What the store answered when asked for the resource under one URI.
#[derive(Clone, Debug, PartialEq, Eq)]
pub enum Lookup {
    /// The store could not carry out the lookup.
    Failed,
    /// The store holds nothing under the URI.
    Missing,
    Provider { name: String },
    Collection { provider_uri: String, name: String },
    /// A calendar. There is no colour where the store's text for it is not a
    /// colour.
    Calendar { collection_uri: String, name: String, color: Option<Color> },
    Event { calendar_uri: String, name: String, description: String },
}

/// What a [`Lookup`] holds.
pub enum LookupView {
    Failed,
    Missing,
    Provider { name: Seq<char> },
    Collection { provider_uri: Seq<char>, name: Seq<char> },
    Calendar { collection_uri: Seq<char>, name: Seq<char>, color: Option<Color> },
    Event { calendar_uri: Seq<char>, name: Seq<char>, description: Seq<char> },
}

impl View for Lookup {
    type V = LookupView;

    open spec fn view(&self) -> LookupView {
        match *self {
            Lookup::Failed => LookupView::Failed,
            Lookup::Missing => LookupView::Missing,
            Lookup::Provider { name } => LookupView::Provider { name: name@ },
            Lookup::Collection { provider_uri, name } => LookupView::Collection {
                provider_uri: provider_uri@,
                name: name@,
            },
            Lookup::Calendar { collection_uri, name, color } => LookupView::Calendar {
                collection_uri: collection_uri@,
                name: name@,
                color,
            },
            Lookup::Event { calendar_uri, name, description } => LookupView::Event {
                calendar_uri: calendar_uri@,
                name: name@,
                description: description@,
            },
        }
    }
}

/// What the store holds under one URI, predicate by predicate: the text of
/// each predicate that is there.
#[derive(Clone, Debug, PartialEq, Eq)]
pub struct Predicates {
    pub provider_name: Option<String>,
    pub collection_name: Option<String>,
    /// The provider of a collection.
    pub provider: Option<String>,
    pub calendar_name: Option<String>,
    /// The colour of a calendar. Where the predicate is there and its text is
    /// not a colour, there is no colour inside.
    pub color: Option<Option<Color>>,
    /// The collection of a calendar.
    pub collection: Option<String>,
    pub event_name: Option<String>,
    pub event_description: Option<String>,
    /// The calendar of an event.
    pub calendar: Option<String>,
}

/// What [`Predicates`] hold.
pub struct PredicatesView {
    pub provider_name: Option<Seq<char>>,
    pub collection_name: Option<Seq<char>>,
    pub provider: Option<Seq<char>>,
    pub calendar_name: Option<Seq<char>>,
    pub color: Option<Option<Color>>,
    pub collection: Option<Seq<char>>,
    pub event_name: Option<Seq<char>>,
    pub event_description: Option<Seq<char>>,
    pub calendar: Option<Seq<char>>,
}

/// The text of a predicate, where it is there.
pub open spec fn text_of(predicate: Option<String>) -> Option<Seq<char>> {
    match predicate {
        Some(text) => Some(text@),
        None => None,
    }
}

impl View for Predicates {
    type V = PredicatesView;

    open spec fn view(&self) -> PredicatesView {
        PredicatesView {
            provider_name: text_of(self.provider_name),
            collection_name: text_of(self.collection_name),
            provider: text_of(self.provider),
            calendar_name: text_of(self.calendar_name),
            color: self.color,
            collection: text_of(self.collection),
            event_name: text_of(self.event_name),
            event_description: text_of(self.event_description),
            calendar: text_of(self.calendar),
        }
    }
}

impl PredicatesView {
    /// The resource that the predicates describe: of the first kind, from
    /// the root of the hierarchy down, whose predicates are all there, and
    /// none where those of no kind are.
    pub open spec fn classified(self) -> LookupView {
        if self.provider_name is Some {
            LookupView::Provider { name: self.provider_name->0 }
        } else if self.collection_name is Some && self.provider is Some {
            LookupView::Collection {
                provider_uri: self.provider->0,
                name: self.collection_name->0,
            }
        } else if self.calendar_name is Some && self.color is Some && self.collection is Some {
            LookupView::Calendar {
                collection_uri: self.collection->0,
                name: self.calendar_name->0,
                color: self.color->0,
            }
        } else if self.event_name is Some && self.event_description is Some && self.calendar
            is Some {
            LookupView::Event {
                calendar_uri: self.calendar->0,
                name: self.event_name->0,
                description: self.event_description->0,
            }
        } else {
            LookupView::Missing
        }
    }
}

impl Lookup {
    /// Tells from the predicates that the store holds under a URI what kind
    /// of resource is there, and with which values.
    pub fn from_predicates(found: &Predicates) -> (lookup: Lookup)
        ensures
            lookup@ == found@.classified(),
    {
        if let Some(name) = &found.provider_name {
            return Lookup::Provider { name: name.clone() };
        }
        if let (Some(name), Some(provider)) = (&found.collection_name, &found.provider) {
            return Lookup::Collection { provider_uri: provider.clone(), name: name.clone() };
        }
        if let (Some(name), Some(color), Some(collection)) = (
            &found.calendar_name,
            &found.color,
            &found.collection,
        ) {
            return Lookup::Calendar {
                collection_uri: collection.clone(),
                name: name.clone(),
                color: *color,
            };
        }
        if let (Some(name), Some(description), Some(calendar)) = (
            &found.event_name,
            &found.event_description,
            &found.calendar,
        ) {
            return Lookup::Event {
                calendar_uri: calendar.clone(),
                name: name.clone(),
                description: description.clone(),
            };
        }
        Lookup::Missing
    }
}

/// A resource as the store describes it: its own values and the URI of the
/// resource it belongs to, and no list of what belongs to it.
#[derive(Clone, Debug, PartialEq, Eq)]
pub enum PreResource {
    Provider(PreProvider),
    Collection(PreCollection),
    Calendar(PreCalendar),
    Event(PreEvent),
}

/// What a [`PreResource`] holds.
pub enum PreResourceView {
    Provider(PreProviderView),
    Collection(PreCollectionView),
    Calendar(PreCalendarView),
    Event(PreEventView),
}

impl View for PreResource {
    type V = PreResourceView;

    open spec fn view(&self) -> PreResourceView {
        match *self {
            PreResource::Provider(provider) => PreResourceView::Provider(provider@),
            PreResource::Collection(collection) => PreResourceView::Collection(collection@),
            PreResource::Calendar(calendar) => PreResourceView::Calendar(calendar@),
            PreResource::Event(event) => PreResourceView::Event(event@),
        }
    }
}

impl PreResourceView {
    pub open spec fn uri(self) -> Seq<char> {
        match self {
            PreResourceView::Provider(provider) => provider.uri,
            PreResourceView::Collection(collection) => collection.uri,
            PreResourceView::Calendar(calendar) => calendar.uri,
            PreResourceView::Event(event) => event.uri,
        }
    }

    pub open spec fn kind(self) -> Kind {
        match self {
            PreResourceView::Provider(_) => Kind::Provider,
            PreResourceView::Collection(_) => Kind::Collection,
            PreResourceView::Calendar(_) => Kind::Calendar,
            PreResourceView::Event(_) => Kind::Event,
        }
    }

    /// The URI of the resource that this one belongs to: none for a
    /// provider.
    pub open spec fn parent_uri(self) -> Option<Seq<char>> {
        match self {
            PreResourceView::Provider(_) => None,
            PreResourceView::Collection(collection) => Some(collection.provider_uri),
            PreResourceView::Calendar(calendar) => Some(calendar.collection_uri),
            PreResourceView::Event(event) => Some(event.calendar_uri),
        }
    }

    /// The resource as it enters the mirror: with the values that the store
    /// gave, and nothing belonging to it yet.
    pub open spec fn fresh(self) -> ResourceView {
        match self {
            PreResourceView::Provider(provider) => ResourceView::Provider(
                ProviderView { uri: provider.uri, name: provider.name, collections: Seq::empty() },
            ),
            PreResourceView::Collection(collection) => ResourceView::Collection(
                CollectionView {
                    uri: collection.uri,
                    provider_uri: collection.provider_uri,
                    name: collection.name,
                    calendars: Seq::empty(),
                },
            ),
            PreResourceView::Calendar(calendar) => ResourceView::Calendar(
                CalendarView {
                    uri: calendar.uri,
                    collection_uri: calendar.collection_uri,
                    name: calendar.name,
                    color: calendar.color,
                    events: Seq::empty(),
                },
            ),
            PreResourceView::Event(event) => ResourceView::Event(
                EventView {
                    uri: event.uri,
                    calendar_uri: event.calendar_uri,
                    name: event.name,
                    description: event.description,
                },
            ),
        }
    }

    /// The resource that the store's answer describes under `uri`, or why
    /// there is none.
    pub open spec fn resolved(uri: Seq<char>, lookup: LookupView) -> Result<
        PreResourceView,
        Failure,
    > {
        match lookup {
            LookupView::Failed => Err(Failure::QueryFailure),
            LookupView::Missing => Err(Failure::ResolutionNotFound),
            LookupView::Provider { name } => Ok(
                PreResourceView::Provider(PreProviderView { uri, name }),
            ),
            LookupView::Collection { provider_uri, name } => Ok(
                PreResourceView::Collection(PreCollectionView { uri, provider_uri, name }),
            ),
            LookupView::Calendar { collection_uri, name, color } => match color {
                Some(color) => Ok(
                    PreResourceView::Calendar(PreCalendarView { uri, collection_uri, name, color }),
                ),
                None => Err(Failure::ParseFailure),
            },
            LookupView::Event { calendar_uri, name, description } => Ok(
                PreResourceView::Event(PreEventView { uri, calendar_uri, name, description }),
            ),
        }
    }
}

/// What a sequence of resources, as the store describes them, holds.
pub open spec fn resources(list: Seq<PreResource>) -> Seq<PreResourceView> {
    list.map_values(|resource: PreResource| resource@)
}

/// The providers of `rows` as resources.
pub open spec fn providers(rows: Seq<PreProvider>) -> Seq<PreResourceView> {
    rows.map_values(|row: PreProvider| PreResourceView::Provider(row@))
}

/// The collections of `rows` as resources.
pub open spec fn collections(rows: Seq<PreCollection>) -> Seq<PreResourceView> {
    rows.map_values(|row: PreCollection| PreResourceView::Collection(row@))
}

/// The calendars of `rows` as resources.
pub open spec fn calendars(rows: Seq<PreCalendar>) -> Seq<PreResourceView> {
    rows.map_values(|row: PreCalendar| PreResourceView::Calendar(row@))
}

/// The events of `rows` as resources.
pub open spec fn events(rows: Seq<PreEvent>) -> Seq<PreResourceView> {
    rows.map_values(|row: PreEvent| PreResourceView::Event(row@))
}

/// The outcome of resolving one URI, as plain text.
pub open spec fn resolution(outcome: Result<PreResource, Failure>) -> Result<
    PreResourceView,
    Failure,
> {
    match outcome {
        Ok(resource) => Ok(resource@),
        Err(failure) => Err(failure),
    }
}

impl PreResource {
    /// A copy that holds the same values.
    pub fn duplicate(&self) -> (copy: PreResource)
        ensures
            copy@ == self@,
    {
        match self {
            PreResource::Provider(provider) => PreResource::Provider(provider.duplicate()),
            PreResource::Collection(collection) => PreResource::Collection(collection.duplicate()),
            PreResource::Calendar(calendar) => PreResource::Calendar(calendar.duplicate()),
            PreResource::Event(event) => PreResource::Event(event.duplicate()),
        }
    }

    pub fn uri(&self) -> (uri: &str)
        ensures
            uri@ == self@.uri(),
    {
        match self {
            PreResource::Provider(provider) => provider.uri.as_str(),
            PreResource::Collection(collection) => collection.uri.as_str(),
            PreResource::Calendar(calendar) => calendar.uri.as_str(),
            PreResource::Event(event) => event.uri.as_str(),
        }
    }

    pub fn kind(&self) -> (kind: Kind)
        ensures
            kind == self@.kind(),
    {
        match self {
            PreResource::Provider(_) => Kind::Provider,
            PreResource::Collection(_) => Kind::Collection,
            PreResource::Calendar(_) => Kind::Calendar,
            PreResource::Event(_) => Kind::Event,
        }
    }

    /// Reads the store's answer for `uri`: a resource of the kind that the
    /// answer names, with the values that it gives, or the reason why the
    /// answer describes none.
    pub fn from_uri(uri: &str, lookup: &Lookup) -> (outcome: Result<PreResource, Failure>)
        ensures
            resolution(outcome) == PreResourceView::resolved(uri@, lookup@),
    {
        match lookup {
            Lookup::Failed => Err(Failure::QueryFailure),
            Lookup::Missing => Err(Failure::ResolutionNotFound),
            Lookup::Provider { name } => Ok(
                PreResource::Provider(PreProvider { uri: uri.to_owned(), name: name.clone() }),
            ),
            Lookup::Collection { provider_uri, name } => Ok(
                PreResource::Collection(
                    PreCollection {
                        uri: uri.to_owned(),
                        provider_uri: provider_uri.clone(),
                        name: name.clone(),
                    },
                ),
            ),
            Lookup::Calendar { collection_uri, name, color } => match color {
                Some(color) => Ok(
                    PreResource::Calendar(
                        PreCalendar {
                            uri: uri.to_owned(),
                            collection_uri: collection_uri.clone(),
                            name: name.clone(),
                            color: *color,
                        },
                    ),
                ),
                None => Err(Failure::ParseFailure),
            },
            Lookup::Event { calendar_uri, name, description } => Ok(
                PreResource::Event(
                    PreEvent {
                        uri: uri.to_owned(),
                        calendar_uri: calendar_uri.clone(),
                        name: name.clone(),
                        description: description.clone(),
                    },
                ),
            ),
        }
    }
}

} // verus!
