//! Providers as the store describes them.

use vstd::prelude::*;

use crate::notice::Failure;
use crate::pre_resource::{Lookup, LookupView};

verus! {

/// A provider as the store describes it.
#[derive(Clone, Debug, PartialEq, Eq)]
pub struct PreProvider {
    pub uri: String,
    pub name: String,
}

/// What a [`PreProvider`] holds.
pub struct PreProviderView {
    pub uri: Seq<char>,
    pub name: Seq<char>,
}

impl View for PreProvider {
    type V = PreProviderView;

    open spec fn view(&self) -> PreProviderView {
        PreProviderView { uri: self.uri@, name: self.name@ }
    }
}

impl PreProviderView {
    /// The provider that the store's answer describes under `uri`. An answer
    /// that describes a resource of another kind describes no provider.
    pub open spec fn resolved(uri: Seq<char>, lookup: LookupView) -> Result<
        PreProviderView,
        Failure,
    > {
        match lookup {
            LookupView::Failed => Err(Failure::QueryFailure),
            LookupView::Provider { name } => Ok(PreProviderView { uri, name }),
            _ => Err(Failure::ResolutionNotFound),
        }
    }
}

impl PreProvider {
    /// A copy that holds the same values.
    pub fn duplicate(&self) -> (copy: PreProvider)
        ensures
            copy@ == self@,
    {
        PreProvider { uri: self.uri.clone(), name: self.name.clone() }
    }

    /// Reads the store's answer for the provider at `uri`.
    pub fn from_uri(uri: &str, lookup: &Lookup) -> (outcome: Result<PreProvider, Failure>)
        ensures
            match outcome {
                Ok(provider) => PreProviderView::resolved(uri@, lookup@) == Ok::<
                    PreProviderView,
                    Failure,
                >(provider@),
                Err(failure) => PreProviderView::resolved(uri@, lookup@) == Err::<
                    PreProviderView,
                    Failure,
                >(failure),
            },
    {
        match lookup {
            Lookup::Failed => Err(Failure::QueryFailure),
            Lookup::Provider { name } => Ok(PreProvider { uri: uri.to_owned(), name: name.clone() }),
            _ => Err(Failure::ResolutionNotFound),
        }
    }
}

} // verus!
