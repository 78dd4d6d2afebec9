//! What the mirror reports of its own changes.

use vstd::prelude::*;

use crate::collections_model::Delta;
use crate::color::Color;
use crate::pre_resource::{PreResource, PreResourceView};

verus! {

/// Why an item of work was left undone.
#[derive(Clone, Copy, Debug, PartialEq, Eq, Structural)]
pub enum Failure {
    /// The store could not carry out the lookup.
    QueryFailure,
    /// The store holds nothing under the URI, or nothing of the kind asked
    /// for.
    ResolutionNotFound,
    /// The store holds the resource, but a value of it cannot be read: a
    /// colour that is not one.
    ParseFailure,
    /// The resource names a parent that the pool does not hold as a resource
    /// of the kind that can hold it.
    MissingParent,
    /// The pool holds nothing under the URI.
    NotInPool,
    /// The pool already holds a resource under the URI.
    DuplicateUri,
    /// The operation is not defined for a resource of this kind.
    UnhandledCombination,
}

/// One thing that the mirror did, or declined to do, for the observers to be
/// told.
#[derive(Clone, Debug, PartialEq, Eq)]
pub enum Notice {
    /// A resource entered the pool, with these values and nothing belonging
    /// to it yet.
    Created { resource: PreResource },
    /// The calendar at `uri` took this name and this colour.
    Updated { uri: String, name: String, color: Color },
    /// The resource at `uri` left the pool.
    Deleted { uri: String },
    /// The resource at `uri` joined or left a list: the child list of the
    /// resource at `owner`, or the list of all collections where there is no
    /// owner.
    ItemsChanged { owner: Option<String>, uri: String, delta: Delta },
    /// Nothing was done for the resource at `uri`.
    Skipped { uri: String, failure: Failure },
}

/// What a [`Notice`] says.
pub enum NoticeView {
    Created { resource: PreResourceView },
    Updated { uri: Seq<char>, name: Seq<char>, color: Color },
    Deleted { uri: Seq<char> },
    ItemsChanged { owner: Option<Seq<char>>, uri: Seq<char>, delta: Delta },
    Skipped { uri: Seq<char>, failure: Failure },
}

impl View for Notice {
    type V = NoticeView;

    open spec fn view(&self) -> NoticeView {
        match *self {
            Notice::Created { resource } => NoticeView::Created { resource: resource@ },
            Notice::Updated { uri, name, color } => NoticeView::Updated {
                uri: uri@,
                name: name@,
                color,
            },
            Notice::Deleted { uri } => NoticeView::Deleted { uri: uri@ },
            Notice::ItemsChanged { owner, uri, delta } => NoticeView::ItemsChanged {
                owner: match owner {
                    Some(owner) => Some(owner@),
                    None => None,
                },
                uri: uri@,
                delta,
            },
            Notice::Skipped { uri, failure } => NoticeView::Skipped { uri: uri@, failure },
        }
    }
}

/// What a sequence of notices says, in order.
pub open spec fn notices(list: Seq<Notice>) -> Seq<NoticeView> {
    list.map_values(|notice: Notice| notice@)
}

impl Notice {
    pub fn created(resource: PreResource) -> (notice: Notice)
        ensures
            notice@ == (NoticeView::Created { resource: resource@ }),
    {
        Notice::Created { resource }
    }

    pub fn updated(uri: &str, name: &str, color: Color) -> (notice: Notice)
        ensures
            notice@ == (NoticeView::Updated { uri: uri@, name: name@, color }),
    {
        Notice::Updated { uri: uri.to_owned(), name: name.to_owned(), color }
    }

    pub fn deleted(uri: &str) -> (notice: Notice)
        ensures
            notice@ == (NoticeView::Deleted { uri: uri@ }),
    {
        Notice::Deleted { uri: uri.to_owned() }
    }

    /// The notice that the resource at `uri` joined or left the child list
    /// of the resource at `owner`.
    pub fn children_changed(owner: &str, uri: &str, delta: Delta) -> (notice: Notice)
        ensures
            notice@ == (NoticeView::ItemsChanged { owner: Some(owner@), uri: uri@, delta }),
    {
        Notice::ItemsChanged { owner: Some(owner.to_owned()), uri: uri.to_owned(), delta }
    }

    /// The notice that the collection at `uri` joined or left the list of all
    /// collections.
    pub fn collections_changed(uri: &str, delta: Delta) -> (notice: Notice)
        ensures
            notice@ == (NoticeView::ItemsChanged { owner: None, uri: uri@, delta }),
    {
        Notice::ItemsChanged { owner: None, uri: uri.to_owned(), delta }
    }

    pub fn skipped(uri: &str, failure: Failure) -> (notice: Notice)
        ensures
            notice@ == (NoticeView::Skipped { uri: uri@, failure }),
    {
        Notice::Skipped { uri: uri.to_owned(), failure }
    }
}

} // verus!
