//! Collections as the store describes them.

use vstd::prelude::*;

use crate::notice::Failure;
use crate::pre_resource::{Lookup, LookupView};

verus! {

/// A collection as the store describes it.
#[derive(Clone, Debug, PartialEq, Eq)]
pub struct PreCollection {
    pub uri: String,
    pub provider_uri: String,
    pub name: String,
}

/// What a [`PreCollection`] holds.
pub struct PreCollectionView {
    pub uri: Seq<char>,
    pub provider_uri: Seq<char>,
    pub name: Seq<char>,
}

impl View for PreCollection {
    type V = PreCollectionView;

    open spec fn view(&self) -> PreCollectionView {
        PreCollectionView { uri: self.uri@, provider_uri: self.provider_uri@, name: self.name@ }
    }
}

impl PreCollectionView {
    /// The collection that the store's answer describes under `uri`. An
    /// answer that describes a resource of another kind describes no
    /// collection.
    pub open spec fn resolved(uri: Seq<char>, lookup: LookupView) -> Result<
        PreCollectionView,
        Failure,
    > {
        match lookup {
            LookupView::Failed => Err(Failure::QueryFailure),
            LookupView::Collection { provider_uri, name } => Ok(
                PreCollectionView { uri, provider_uri, name },
            ),
            _ => Err(Failure::ResolutionNotFound),
        }
    }
}

impl PreCollection {
    /// A copy that holds the same values.
    pub fn duplicate(&self) -> (copy: PreCollection)
        ensures
            copy@ == self@,
    {
        PreCollection {
            uri: self.uri.clone(),
            provider_uri: self.provider_uri.clone(),
            name: self.name.clone(),
        }
    }

    /// Reads the store's answer for the collection at `uri`.
    pub fn from_uri(uri: &str, lookup: &Lookup) -> (outcome: Result<PreCollection, Failure>)
        ensures
            match outcome {
                Ok(collection) => PreCollectionView::resolved(uri@, lookup@) == Ok::<
                    PreCollectionView,
                    Failure,
                >(collection@),
                Err(failure) => PreCollectionView::resolved(uri@, lookup@) == Err::<
                    PreCollectionView,
                    Failure,
                >(failure),
            },
    {
        match lookup {
            Lookup::Failed => Err(Failure::QueryFailure),
            Lookup::Collection { provider_uri, name } => Ok(
                PreCollection {
                    uri: uri.to_owned(),
                    provider_uri: provider_uri.clone(),
                    name: name.clone(),
                },
            ),
            _ => Err(Failure::ResolutionNotFound),
        }
    }
}

} // verus!
