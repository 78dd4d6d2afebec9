//! The resources of the mirror, of whatever kind.

use vstd::prelude::*;

use crate::calendar::{Calendar, CalendarView};
use crate::collection::{Collection, CollectionView};
use crate::event::{Event, EventView};
use crate::provider::{Provider, ProviderView};

verus! {

/// The four kinds of resource, from the root of the hierarchy down.
#[derive(Clone, Copy, Debug, PartialEq, Eq, Structural)]
pub enum Kind {
    Provider,
    Collection,
    Calendar,
    Event,
}

impl Kind {
    /// The kind of the resources that belong to a resource of this kind:
    /// none for an event, to which nothing belongs.
    pub open spec fn below(self) -> Option<Kind> {
        match self {
            Kind::Provider => Some(Kind::Collection),
            Kind::Collection => Some(Kind::Calendar),
            Kind::Calendar => Some(Kind::Event),
            Kind::Event => None,
        }
    }
}

/// A resource of the mirror.
#[derive(Debug)]
pub enum Resource {
    Provider(Provider),
    Collection(Collection),
    Calendar(Calendar),
    Event(Event),
}

/// What a [`Resource`] holds.
pub enum ResourceView {
    Provider(ProviderView),
    Collection(CollectionView),
    Calendar(CalendarView),
    Event(EventView),
}

impl View for Resource {
    type V = ResourceView;

    open spec fn view(&self) -> ResourceView {
        match *self {
            Resource::Provider(provider) => ResourceView::Provider(provider@),
            Resource::Collection(collection) => ResourceView::Collection(collection@),
            Resource::Calendar(calendar) => ResourceView::Calendar(calendar@),
            Resource::Event(event) => ResourceView::Event(event@),
        }
    }
}

impl ResourceView {
    pub open spec fn uri(self) -> Seq<char> {
        match self {
            ResourceView::Provider(provider) => provider.uri,
            ResourceView::Collection(collection) => collection.uri,
            ResourceView::Calendar(calendar) => calendar.uri,
            ResourceView::Event(event) => event.uri,
        }
    }

    pub open spec fn kind(self) -> Kind {
        match self {
            ResourceView::Provider(_) => Kind::Provider,
            ResourceView::Collection(_) => Kind::Collection,
            ResourceView::Calendar(_) => Kind::Calendar,
            ResourceView::Event(_) => Kind::Event,
        }
    }

    /// The URI of the resource that this one belongs to: none for a
    /// provider, which belongs to nothing.
    pub open spec fn parent_uri(self) -> Option<Seq<char>> {
        match self {
            ResourceView::Provider(_) => None,
            ResourceView::Collection(collection) => Some(collection.provider_uri),
            ResourceView::Calendar(calendar) => Some(calendar.collection_uri),
            ResourceView::Event(event) => Some(event.calendar_uri),
        }
    }

    /// The URIs of the resources that belong to this one, in order: none for
    /// an event, to which nothing belongs.
    pub open spec fn children(self) -> Seq<Seq<char>> {
        match self {
            ResourceView::Provider(provider) => provider.collections,
            ResourceView::Collection(collection) => collection.calendars,
            ResourceView::Calendar(calendar) => calendar.events,
            ResourceView::Event(_) => Seq::empty(),
        }
    }

    /// The resource with `child` added at the end of what belongs to it. An
    /// event stays as it is.
    pub open spec fn with_child(self, child: Seq<char>) -> ResourceView {
        match self {
            ResourceView::Provider(provider) => ResourceView::Provider(
                ProviderView { collections: provider.collections.push(child), ..provider },
            ),
            ResourceView::Collection(collection) => ResourceView::Collection(
                CollectionView { calendars: collection.calendars.push(child), ..collection },
            ),
            ResourceView::Calendar(calendar) => ResourceView::Calendar(
                CalendarView { events: calendar.events.push(child), ..calendar },
            ),
            ResourceView::Event(event) => ResourceView::Event(event),
        }
    }

    /// The resource with what belongs to it replaced by `children`. An event
    /// stays as it is.
    pub open spec fn with_children(self, children: Seq<Seq<char>>) -> ResourceView {
        match self {
            ResourceView::Provider(provider) => ResourceView::Provider(
                ProviderView { collections: children, ..provider },
            ),
            ResourceView::Collection(collection) => ResourceView::Collection(
                CollectionView { calendars: children, ..collection },
            ),
            ResourceView::Calendar(calendar) => ResourceView::Calendar(
                CalendarView { events: children, ..calendar },
            ),
            ResourceView::Event(event) => ResourceView::Event(event),
        }
    }
}

impl Resource {
    pub fn uri(&self) -> (uri: &str)
        ensures
            uri@ == self@.uri(),
    {
        match self {
            Resource::Provider(provider) => provider.uri(),
            Resource::Collection(collection) => collection.uri(),
            Resource::Calendar(calendar) => calendar.uri(),
            Resource::Event(event) => event.uri(),
        }
    }

    pub fn kind(&self) -> (kind: Kind)
        ensures
            kind == self@.kind(),
    {
        match self {
            Resource::Provider(_) => Kind::Provider,
            Resource::Collection(_) => Kind::Collection,
            Resource::Calendar(_) => Kind::Calendar,
            Resource::Event(_) => Kind::Event,
        }
    }
}

} // verus!
