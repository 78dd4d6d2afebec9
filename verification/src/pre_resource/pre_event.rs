//! Events as the store describes them.

use vstd::prelude::*;

use crate::notice::Failure;
use crate::pre_resource::{Lookup, LookupView};

verus! {

/// An event as the store describes it.
#[derive(Clone, Debug, PartialEq, Eq)]
pub struct PreEvent {
    pub uri: String,
    pub calendar_uri: String,
    pub name: String,
    pub description: String,
}

/// What a [`PreEvent`] holds.
pub struct PreEventView {
    pub uri: Seq<char>,
    pub calendar_uri: Seq<char>,
    pub name: Seq<char>,
    pub description: Seq<char>,
}

impl View for PreEvent {
    type V = PreEventView;

    open spec fn view(&self) -> PreEventView {
        PreEventView {
            uri: self.uri@,
            calendar_uri: self.calendar_uri@,
            name: self.name@,
            description: self.description@,
        }
    }
}

impl PreEventView {
    /// The event that the store's answer describes under `uri`. An answer
    /// that describes a resource of another kind describes no event.
    pub open spec fn resolved(uri: Seq<char>, lookup: LookupView) -> Result<PreEventView, Failure> {
        match lookup {
            LookupView::Failed => Err(Failure::QueryFailure),
            LookupView::Event { calendar_uri, name, description } => Ok(
                PreEventView { uri, calendar_uri, name, description },
            ),
            _ => Err(Failure::ResolutionNotFound),
        }
    }
}

impl PreEvent {
    /// A copy that holds the same values.
    pub fn duplicate(&self) -> (copy: PreEvent)
        ensures
            copy@ == self@,
    {
        PreEvent {
            uri: self.uri.clone(),
            calendar_uri: self.calendar_uri.clone(),
            name: self.name.clone(),
            description: self.description.clone(),
        }
    }

    /// Reads the store's answer for the event at `uri`.
    pub fn from_uri(uri: &str, lookup: &Lookup) -> (outcome: Result<PreEvent, Failure>)
        ensures
            match outcome {
                Ok(event) => PreEventView::resolved(uri@, lookup@) == Ok::<PreEventView, Failure>(
                    event@,
                ),
                Err(failure) => PreEventView::resolved(uri@, lookup@) == Err::<
                    PreEventView,
                    Failure,
                >(failure),
            },
    {
        match lookup {
            Lookup::Failed => Err(Failure::QueryFailure),
            Lookup::Event { calendar_uri, name, description } => Ok(
                PreEvent {
                    uri: uri.to_owned(),
                    calendar_uri: calendar_uri.clone(),
                    name: name.clone(),
                    description: description.clone(),
                },
            ),
            _ => Err(Failure::ResolutionNotFound),
        }
    }
}

} // verus!
