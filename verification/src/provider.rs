//! Providers.

use vstd::prelude::*;

use crate::collections_model::{CollectionsModel, Delta};

verus! {

/// A source of collections, such as an account.
#[derive(Debug)]
pub struct Provider {
    uri: String,
    name: String,
    collections: CollectionsModel,
}

/// What a [`Provider`] holds.
pub struct ProviderView {
    pub uri: Seq<char>,
    pub name: Seq<char>,
    pub collections: Seq<Seq<char>>,
}

impl View for Provider {
    type V = ProviderView;

    closed spec fn view(&self) -> ProviderView {
        ProviderView { uri: self.uri@, name: self.name@, collections: self.collections@ }
    }
}

impl Provider {
    /// A provider without collections.
    pub fn new(uri: &str, name: &str) -> (provider: Provider)
        ensures
            provider@ == (ProviderView { uri: uri@, name: name@, collections: Seq::empty() }),
    {
        Provider { uri: uri.to_owned(), name: name.to_owned(), collections: CollectionsModel::new() }
    }

    pub fn uri(&self) -> (uri: &str)
        ensures
            uri@ == self@.uri,
    {
        self.uri.as_str()
    }

    pub fn name(&self) -> (name: &str)
        ensures
            name@ == self@.name,
    {
        self.name.as_str()
    }

    /// The provider's collections, in the order in which they were added.
    pub fn collections(&self) -> (list: &CollectionsModel)
        ensures
            list@ == self@.collections,
    {
        &self.collections
    }

    /// Adds a collection at the end of the provider's list.
    pub fn add_collection(&mut self, collection_uri: &str) -> (delta: Delta)
        ensures
            final(self)@ == (ProviderView {
                collections: old(self)@.collections.push(collection_uri@),
                ..old(self)@
            }),
            delta == (Delta {
                position: old(self)@.collections.len() as usize,
                removed: 0,
                added: 1,
            }),
    {
        self.collections.append(collection_uri)
    }
}

} // verus!
