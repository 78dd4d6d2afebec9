//! Calendars as the store describes them.

use vstd::prelude::*;

use crate::color::Color;
use crate::notice::Failure;
use crate::pre_resource::{Lookup, LookupView};

verus! {

/// A calendar as the store describes it.
#[derive(Clone, Debug, PartialEq, Eq)]
pub struct PreCalendar {
    pub uri: String,
    pub collection_uri: String,
    pub name: String,
    pub color: Color,
}

/// What a [`PreCalendar`] holds.
pub struct PreCalendarView {
    pub uri: Seq<char>,
    pub collection_uri: Seq<char>,
    pub name: Seq<char>,
    pub color: Color,
}

impl View for PreCalendar {
    type V = PreCalendarView;

    open spec fn view(&self) -> PreCalendarView {
        PreCalendarView {
            uri: self.uri@,
            collection_uri: self.collection_uri@,
            name: self.name@,
            color: self.color,
        }
    }
}

impl PreCalendarView {
    /// The calendar that the store's answer describes under `uri`. An answer
    /// that describes a resource of another kind describes no calendar, and
    /// one without a colour describes a calendar that cannot be read.
    pub open spec fn resolved(uri: Seq<char>, lookup: LookupView) -> Result<
        PreCalendarView,
        Failure,
    > {
        match lookup {
            LookupView::Failed => Err(Failure::QueryFailure),
            LookupView::Calendar { collection_uri, name, color } => match color {
                Some(color) => Ok(PreCalendarView { uri, collection_uri, name, color }),
                None => Err(Failure::ParseFailure),
            },
            _ => Err(Failure::ResolutionNotFound),
        }
    }
}

impl PreCalendar {
    /// A copy that holds the same values.
    pub fn duplicate(&self) -> (copy: PreCalendar)
        ensures
            copy@ == self@,
    {
        PreCalendar {
            uri: self.uri.clone(),
            collection_uri: self.collection_uri.clone(),
            name: self.name.clone(),
            color: self.color,
        }
    }

    /// Reads the store's answer for the calendar at `uri`.
    pub fn from_uri(uri: &str, lookup: &Lookup) -> (outcome: Result<PreCalendar, Failure>)
        ensures
            match outcome {
                Ok(calendar) => PreCalendarView::resolved(uri@, lookup@) == Ok::<
                    PreCalendarView,
                    Failure,
                >(calendar@),
                Err(failure) => PreCalendarView::resolved(uri@, lookup@) == Err::<
                    PreCalendarView,
                    Failure,
                >(failure),
            },
    {
        match lookup {
            Lookup::Failed => Err(Failure::QueryFailure),
            Lookup::Calendar { collection_uri, name, color } => match color {
                Some(color) => Ok(
                    PreCalendar {
                        uri: uri.to_owned(),
                        collection_uri: collection_uri.clone(),
                        name: name.clone(),
                        color: *color,
                    },
                ),
                None => Err(Failure::ParseFailure),
            },
            _ => Err(Failure::ResolutionNotFound),
        }
    }
}

} // verus!
