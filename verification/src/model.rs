//! The mirror as a mathematical state, and the rules by which it changes.
//!
//! Everything that the manager does is stated here first, on plain values:
//! what a state in order looks like, what one creation, update or deletion
//! makes of a state, and what a whole batch makes of it. The manager's
//! functions promise to do exactly this.

use vstd::prelude::*;

use crate::calendar::CalendarView;
use crate::collections_model::Delta;
use crate::notice::{Failure, NoticeView};
use crate::notification::{of_change, Change, NotificationView};
use crate::pre_resource::{LookupView, PreResourceView};
use crate::resource::{Kind, ResourceView};

verus! {

/// The state of the mirror: the resource under each URI, and the URIs of
/// the list of all collections.
pub struct ManagerView {
    pub pool: Map<Seq<char>, ResourceView>,
    pub collections: Seq<Seq<char>>,
}

/// What a piece of work leaves behind: the state after it, and the notices
/// of what it did, in the order in which it did it.
pub struct Outcome {
    pub state: ManagerView,
    pub notices: Seq<NoticeView>,
}

impl Outcome {
    /// The outcome of `next`, done after this one.
    pub open spec fn followed_by(self, next: Outcome) -> Outcome {
        Outcome { state: next.state, notices: self.notices + next.notices }
    }
}

impl ManagerView {
    /// The state that holds nothing.
    pub open spec fn empty() -> ManagerView {
        ManagerView { pool: Map::empty(), collections: Seq::empty() }
    }

    /// Whether the pool holds a resource under `uri`.
    pub open spec fn holds(self, uri: Seq<char>) -> bool {
        self.pool.dom().contains(uri)
    }

    /// Whether the pool holds a resource of kind `kind` under `uri`.
    pub open spec fn holds_kind(self, uri: Seq<char>, kind: Kind) -> bool {
        self.holds(uri) && self.pool[uri].kind() == kind
    }

    /// Whether the pool holds under `parent` a resource to which resources of
    /// kind `kind` belong.
    pub open spec fn can_hold(self, parent: Seq<char>, kind: Kind) -> bool {
        self.holds(parent) && self.pool[parent].kind().below() == Some(kind)
    }

    /// Whether `child`, listed by the resource at `parent`, is a resource of
    /// the pool, of the kind that belongs there, that names `parent` as the
    /// resource it belongs to.
    pub open spec fn lists_rightly(self, parent: Seq<char>, child: Seq<char>) -> bool {
        &&& self.holds(child)
        &&& self.pool[parent].kind().below() == Some(self.pool[child].kind())
        &&& self.pool[child].parent_uri() == Some(parent)
    }

    /// Whether the resource at `uri` lists no URI twice, and each rightly.
    pub open spec fn children_in_order(self, uri: Seq<char>) -> bool {
        let children = self.pool[uri].children();
        &&& children.no_duplicates()
        &&& forall|i: int|
            0 <= i < children.len() ==> self.lists_rightly(uri, #[trigger] children[i])
    }

    /// Whether the resource at `uri`, if it is a collection or a calendar, is
    /// listed by the resource that it names as its parent.
    ///
    /// Nothing is asked of an event: the calendar of an event may have been
    /// deleted, and the event stays in the pool.
    pub open spec fn parent_in_order(self, uri: Seq<char>) -> bool {
        let resource = self.pool[uri];
        resource.kind() == Kind::Collection || resource.kind() == Kind::Calendar ==> {
            let parent = resource.parent_uri().unwrap();
            &&& self.can_hold(parent, resource.kind())
            &&& self.pool[parent].children().contains(uri)
        }
    }

    /// Whether the state is in order.
    ///
    /// Each resource is held under its own URI. A resource lists only
    /// resources of the pool that belong to it, and none twice. Each
    /// collection is listed by its provider, and each calendar by its
    /// collection. The list of all collections holds collections of the
    /// pool, and none twice.
    pub open spec fn wf(self) -> bool {
        &&& forall|uri: Seq<char>| #[trigger]
            self.holds(uri) ==> {
                &&& self.pool[uri].uri() == uri
                &&& self.children_in_order(uri)
                &&& self.parent_in_order(uri)
            }
        &&& self.collections.no_duplicates()
        &&& forall|i: int|
            0 <= i < self.collections.len() ==> self.holds_kind(
                #[trigger] self.collections[i],
                Kind::Collection,
            )
    }

    /// Nothing done for the resource at `uri`, and the reason reported.
    pub open spec fn skip(self, uri: Seq<char>, failure: Failure) -> Outcome {
        Outcome { state: self, notices: seq![NoticeView::Skipped { uri, failure }] }
    }

    /// Nothing done, and nothing reported.
    pub open spec fn idle(self) -> Outcome {
        Outcome { state: self, notices: Seq::empty() }
    }

    /// The creation of one resource.
    ///
    /// A resource whose URI the pool already holds is refused, whatever it
    /// is: the pool keeps what it has. A provider enters the pool. Any other
    /// resource enters the pool and the list of its parent, if the pool holds
    /// the parent that it names and that parent is of the kind to hold it;
    /// otherwise it is dropped. A collection is also added to the list of all
    /// collections where `listed` says so. The notices tell of the resource
    /// first, and then of each list that it joined.
    pub open spec fn create(self, resource: PreResourceView, listed: bool) -> Outcome {
        let uri = resource.uri();
        if self.holds(uri) {
            self.skip(uri, Failure::DuplicateUri)
        } else {
            match resource.parent_uri() {
                None => Outcome {
                    state: ManagerView { pool: self.pool.insert(uri, resource.fresh()), ..self },
                    notices: seq![NoticeView::Created { resource }],
                },
                Some(parent) => if self.can_hold(parent, resource.kind()) {
                    let family = self.pool[parent];
                    let to_list = listed && resource.kind() == Kind::Collection;
                    Outcome {
                        state: ManagerView {
                            pool: self.pool.insert(parent, family.with_child(uri)).insert(
                                uri,
                                resource.fresh(),
                            ),
                            collections: if to_list {
                                self.collections.push(uri)
                            } else {
                                self.collections
                            },
                        },
                        notices: seq![
                            NoticeView::Created { resource },
                            NoticeView::ItemsChanged {
                                owner: Some(parent),
                                uri,
                                delta: Delta {
                                    position: family.children().len() as usize,
                                    removed: 0,
                                    added: 1,
                                },
                            },
                        ] + (if to_list {
                            seq![
                                NoticeView::ItemsChanged {
                                    owner: None,
                                    uri,
                                    delta: Delta {
                                        position: self.collections.len() as usize,
                                        removed: 0,
                                        added: 1,
                                    },
                                },
                            ]
                        } else {
                            Seq::empty()
                        }),
                    }
                } else {
                    self.skip(uri, Failure::MissingParent)
                },
            }
        }
    }

    /// The creation, in order, of those of `resources` that are of kind
    /// `kind`.
    pub open spec fn create_kind(
        self,
        resources: Seq<PreResourceView>,
        kind: Kind,
        listed: bool,
    ) -> Outcome
        decreases resources.len(),
    {
        if resources.len() == 0 {
            self.idle()
        } else {
            let before = self.create_kind(resources.drop_last(), kind, listed);
            if resources.last().kind() == kind {
                before.followed_by(before.state.create(resources.last(), listed))
            } else {
                before
            }
        }
    }

    /// The creation of `resources`, kind by kind from the root of the
    /// hierarchy down, so that a parent is there before what belongs to it,
    /// wherever in `resources` the two stand.
    pub open spec fn create_all(self, resources: Seq<PreResourceView>, listed: bool) -> Outcome {
        let providers = self.create_kind(resources, Kind::Provider, listed);
        let collections = providers.state.create_kind(resources, Kind::Collection, listed);
        let calendars = collections.state.create_kind(resources, Kind::Calendar, listed);
        let events = calendars.state.create_kind(resources, Kind::Event, listed);
        providers.followed_by(collections).followed_by(calendars).followed_by(events)
    }

    /// The update of the resource at `uri` to what the store now answers.
    ///
    /// Nothing is done where the pool holds nothing under `uri`, nor where
    /// the answer describes no resource. A calendar takes the name and the
    /// colour of the calendar that the answer describes, and keeps its URI,
    /// its collection and its events. No other update is defined.
    pub open spec fn update(self, uri: Seq<char>, lookup: LookupView) -> Outcome {
        if !self.holds(uri) {
            self.skip(uri, Failure::NotInPool)
        } else {
            match PreResourceView::resolved(uri, lookup) {
                Err(failure) => self.skip(uri, failure),
                Ok(resource) => match (self.pool[uri], resource) {
                    (ResourceView::Calendar(old), PreResourceView::Calendar(new)) => Outcome {
                        state: ManagerView {
                            pool: self.pool.insert(
                                uri,
                                ResourceView::Calendar(
                                    CalendarView { name: new.name, color: new.color, ..old },
                                ),
                            ),
                            ..self
                        },
                        notices: seq![
                            NoticeView::Updated { uri, name: new.name, color: new.color },
                        ],
                    },
                    _ => self.skip(uri, Failure::UnhandledCombination),
                },
            }
        }
    }

    /// The deletion of the resource at `uri`.
    ///
    /// Nothing is done where the pool holds nothing under `uri`. A calendar
    /// leaves the pool and the list of its collection; its events stay in the
    /// pool. No other deletion is defined.
    pub open spec fn delete(self, uri: Seq<char>) -> Outcome {
        if !self.holds(uri) {
            self.skip(uri, Failure::NotInPool)
        } else {
            match self.pool[uri] {
                ResourceView::Calendar(calendar) => {
                    let parent = calendar.collection_uri;
                    if self.holds_kind(parent, Kind::Collection)
                        && self.pool[parent].children().contains(uri) {
                        let siblings = self.pool[parent].children();
                        let position = siblings.index_of_first(uri).unwrap();
                        Outcome {
                            state: ManagerView {
                                pool: self.pool.remove(uri).insert(
                                    parent,
                                    self.pool[parent].with_children(siblings.remove(position)),
                                ),
                                ..self
                            },
                            notices: seq![
                                NoticeView::Deleted { uri },
                                NoticeView::ItemsChanged {
                                    owner: Some(parent),
                                    uri,
                                    delta: Delta {
                                        position: position as usize,
                                        removed: 1,
                                        added: 0,
                                    },
                                },
                            ],
                        }
                    } else {
                        Outcome {
                            state: ManagerView { pool: self.pool.remove(uri), ..self },
                            notices: seq![NoticeView::Deleted { uri }],
                        }
                    }
                },
                _ => self.skip(uri, Failure::UnhandledCombination),
            }
        }
    }

    /// The updates that `events` ask for, in order.
    pub open spec fn update_all(self, events: Seq<NotificationView>) -> Outcome
        decreases events.len(),
    {
        if events.len() == 0 {
            self.idle()
        } else {
            let before = self.update_all(events.drop_last());
            before.followed_by(before.state.update(events.last().uri, events.last().lookup))
        }
    }

    /// The deletions that `events` ask for, in order.
    pub open spec fn delete_all(self, events: Seq<NotificationView>) -> Outcome
        decreases events.len(),
    {
        if events.len() == 0 {
            self.idle()
        } else {
            let before = self.delete_all(events.drop_last());
            before.followed_by(before.state.delete(events.last().uri))
        }
    }

    /// The creations that `events` ask for: first every answer is read, then
    /// the resources that the answers describe are created, kind by kind.
    pub open spec fn create_phase(self, events: Seq<NotificationView>) -> Outcome {
        Outcome { state: self, notices: unresolved(events) }.followed_by(
            self.create_all(resolved(events), false),
        )
    }

    /// What a batch of notifications makes of the state: the creations, then
    /// the updates, then the deletions.
    pub open spec fn handle(self, events: Seq<NotificationView>) -> Outcome {
        let created = self.create_phase(of_change(events, Change::Create));
        let updated = created.state.update_all(of_change(events, Change::Update));
        let deleted = updated.state.delete_all(of_change(events, Change::Delete));
        created.followed_by(updated).followed_by(deleted)
    }

    /// The first load: the providers, then the collections, which join the
    /// list of all collections, then the calendars, then the events.
    pub open spec fn load(
        self,
        providers: Seq<PreResourceView>,
        collections: Seq<PreResourceView>,
        calendars: Seq<PreResourceView>,
        events: Seq<PreResourceView>,
    ) -> Outcome {
        let first = self.create_kind(providers, Kind::Provider, true);
        let second = first.state.create_kind(collections, Kind::Collection, true);
        let third = second.state.create_kind(calendars, Kind::Calendar, true);
        let fourth = third.state.create_kind(events, Kind::Event, true);
        first.followed_by(second).followed_by(third).followed_by(fourth)
    }

    /// What a search for `query` shows, given the URIs that the store
    /// matched, if it could match any: nothing for a search for nothing, and
    /// nothing where the store could not carry out the search.
    pub open spec fn search(self, query: Seq<char>, matches: Option<Seq<Seq<char>>>) -> Seq<
        Seq<char>,
    > {
        match matches {
            Some(uris) => if query.len() == 0 {
                Seq::empty()
            } else {
                self.found_events(uris)
            },
            None => Seq::empty(),
        }
    }

    /// The notices of what a search for `query` passes over.
    pub open spec fn search_notices(
        self,
        query: Seq<char>,
        matches: Option<Seq<Seq<char>>>,
    ) -> Seq<NoticeView> {
        match matches {
            Some(uris) => if query.len() == 0 {
                Seq::empty()
            } else {
                self.passed_over(uris)
            },
            None => Seq::empty(),
        }
    }

    /// The events among `matches` that a search shows: the URIs under which
    /// the pool holds an event, in the order of `matches`.
    pub open spec fn found_events(self, matches: Seq<Seq<char>>) -> Seq<Seq<char>> {
        matches.filter(|uri: Seq<char>| self.holds_kind(uri, Kind::Event))
    }

    /// The notices of the URIs among `matches` that a search passes over,
    /// because the pool holds no event under them.
    pub open spec fn passed_over(self, matches: Seq<Seq<char>>) -> Seq<NoticeView> {
        matches.filter_map(
            |uri: Seq<char>|
                if self.holds_kind(uri, Kind::Event) {
                    None
                } else {
                    Some(NoticeView::Skipped { uri, failure: Failure::NotInPool })
                },
        )
    }
}

/// The resources that the answers of `events` describe, in order.
pub open spec fn resolved(events: Seq<NotificationView>) -> Seq<PreResourceView> {
    events.filter_map(
        |event: NotificationView|
            match PreResourceView::resolved(event.uri, event.lookup) {
                Ok(resource) => Some(resource),
                Err(_) => None,
            },
    )
}

/// The notices of those of `events` whose answer describes no resource, in
/// order.
pub open spec fn unresolved(events: Seq<NotificationView>) -> Seq<NoticeView> {
    events.filter_map(
        |event: NotificationView|
            match PreResourceView::resolved(event.uri, event.lookup) {
                Ok(_) => None,
                Err(failure) => Some(NoticeView::Skipped { uri: event.uri, failure }),
            },
    )
}

} // verus!
