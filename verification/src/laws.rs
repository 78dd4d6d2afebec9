//! What holds of the mirror whatever it is given.

use vstd::prelude::*;

use crate::calendar::CalendarView;
use crate::collections_model::Delta;
use crate::color::Color;
use crate::model::{resolved, unresolved, ManagerView};
use crate::notice::{Failure, NoticeView};
use crate::notification::{of_change, Change, NotificationView};
use crate::pre_resource::{LookupView, PreResourceView};
use crate::resource::{Kind, ResourceView};

verus! {

/// The state that holds nothing is in order.
pub proof fn lemma_empty_is_in_order()
    ensures
        ManagerView::empty().wf(),
{
}

/// A creation leaves a state in order as it found it: in order.
pub proof fn lemma_create_keeps_order(state: ManagerView, resource: PreResourceView, listed: bool)
    requires
        state.wf(),
    ensures
        state.create(resource, listed).state.wf(),
{
    let after = state.create(resource, listed).state;
    let uri = resource.uri();
    if state.holds(uri) {
    } else {
        match resource.parent_uri() {
            None => {
                assert forall|other: Seq<char>| #[trigger] after.holds(other) implies {
                    &&& after.pool[other].uri() == other
                    &&& after.children_in_order(other)
                    &&& after.parent_in_order(other)
                } by {
                    if other != uri {
                        assert(state.holds(other));
                        let children = state.pool[other].children();
                        assert forall|i: int| 0 <= i < children.len() implies after.lists_rightly(
                            other,
                            #[trigger] children[i],
                        ) by {
                            assert(state.lists_rightly(other, children[i]));
                        }
                    }
                }
                assert forall|i: int| 0 <= i < after.collections.len() implies after.holds_kind(
                    #[trigger] after.collections[i],
                    Kind::Collection,
                ) by {
                    assert(state.holds_kind(state.collections[i], Kind::Collection));
                }
            },
            Some(parent) => {
                if state.can_hold(parent, resource.kind()) {
                    let family = state.pool[parent];
                    assert(state.holds(parent));
                    assert(state.children_in_order(parent));
                    assert(!family.children().contains(uri)) by {
                        if family.children().contains(uri) {
                            let at = family.children().index_of(uri);
                            assert(state.lists_rightly(parent, family.children()[at]));
                        }
                    }
                    assert(family.with_child(uri).children() == family.children().push(uri));
                    assert forall|other: Seq<char>| #[trigger] after.holds(other) implies {
                        &&& after.pool[other].uri() == other
                        &&& after.children_in_order(other)
                        &&& after.parent_in_order(other)
                    } by {
                        if other == uri {
                            assert(after.pool[parent].children()[family.children().len() as int]
                                == uri);
                        } else {
                            assert(state.holds(other));
                            let before = state.pool[other].children();
                            let children = after.pool[other].children();
                            assert forall|i: int|
                                0 <= i < children.len() implies after.lists_rightly(
                                other,
                                #[trigger] children[i],
                            ) by {
                                if i < before.len() {
                                    assert(children[i] == before[i]);
                                    assert(state.lists_rightly(other, before[i]));
                                }
                            }
                            if after.pool[other].kind() == Kind::Collection || after.pool[other].kind()
                                == Kind::Calendar {
                                let above = state.pool[other].parent_uri().unwrap();
                                assert(state.holds(above));
                                let at = state.pool[above].children().index_of(other);
                                assert(after.pool[above].children()[at] == other);
                            }
                        }
                    }
                    assert forall|i: int|
                        0 <= i < after.collections.len() implies after.holds_kind(
                        #[trigger] after.collections[i],
                        Kind::Collection,
                    ) by {
                        if i < state.collections.len() {
                            assert(state.holds_kind(state.collections[i], Kind::Collection));
                        }
                    }
                    assert(after.collections.no_duplicates()) by {
                        assert forall|i: int| 0 <= i < state.collections.len() implies #[trigger] state.collections[i] != uri by {
                            assert(state.holds_kind(state.collections[i], Kind::Collection));
                        }
                    }
                }
            },
        }
    }
}

/// An update leaves a state in order as it found it: in order.
pub proof fn lemma_update_keeps_order(state: ManagerView, uri: Seq<char>, lookup: LookupView)
    requires
        state.wf(),
    ensures
        state.update(uri, lookup).state.wf(),
{
    let after = state.update(uri, lookup).state;
    if after != state {
        assert forall|other: Seq<char>| #[trigger] after.holds(other) implies {
            &&& after.pool[other].uri() == other
            &&& after.children_in_order(other)
            &&& after.parent_in_order(other)
        } by {
            assert(state.holds(other));
            let children = state.pool[other].children();
            assert(after.pool[other].children() == children);
            assert forall|i: int| 0 <= i < children.len() implies after.lists_rightly(
                other,
                #[trigger] children[i],
            ) by {
                assert(state.lists_rightly(other, children[i]));
            }
            if after.pool[other].kind() == Kind::Collection || after.pool[other].kind()
                == Kind::Calendar {
                let above = state.pool[other].parent_uri().unwrap();
                assert(state.holds(above));
            }
        }
        assert forall|i: int| 0 <= i < after.collections.len() implies after.holds_kind(
            #[trigger] after.collections[i],
            Kind::Collection,
        ) by {
            assert(state.holds_kind(state.collections[i], Kind::Collection));
        }
    }
}

/// A deletion leaves a state in order as it found it: in order.
pub proof fn lemma_delete_keeps_order(state: ManagerView, uri: Seq<char>)
    requires
        state.wf(),
    ensures
        state.delete(uri).state.wf(),
{
    let after = state.delete(uri).state;
    if after != state {
        assert(state.holds(uri));
        assert(state.parent_in_order(uri));
        let parent = state.pool[uri].parent_uri().unwrap();
        let siblings = state.pool[parent].children();
        assert(state.holds(parent));
        assert(state.children_in_order(parent));
        siblings.index_of_first_ensures(uri);
        let position = siblings.index_of_first(uri).unwrap();
        let remaining = siblings.remove(position);
        assert(after.pool[parent].children() == remaining);
        assert forall|i: int| 0 <= i < remaining.len() implies #[trigger] remaining[i] != uri
            && siblings.contains(remaining[i]) by {
            let from = if i < position { i } else { i + 1 };
            assert(remaining[i] == siblings[from]);
        }
        assert forall|other: Seq<char>| #[trigger] after.holds(other) implies {
            &&& after.pool[other].uri() == other
            &&& after.children_in_order(other)
            &&& after.parent_in_order(other)
        } by {
            assert(state.holds(other));
            let before = state.pool[other].children();
            let children = after.pool[other].children();
            if other == parent {
                assert forall|i: int, j: int|
                    0 <= i < remaining.len() && 0 <= j < remaining.len() && i != j implies remaining[i]
                    != remaining[j] by {
                    let from_i = if i < position { i } else { i + 1 };
                    let from_j = if j < position { j } else { j + 1 };
                    assert(remaining[i] == siblings[from_i]);
                    assert(remaining[j] == siblings[from_j]);
                }
                assert forall|i: int| 0 <= i < children.len() implies after.lists_rightly(
                    other,
                    #[trigger] children[i],
                ) by {
                    let from = if i < position { i } else { i + 1 };
                    assert(remaining[i] == siblings[from]);
                    assert(state.lists_rightly(parent, siblings[from]));
                }
            } else {
                assert(children == before);
                assert forall|i: int| 0 <= i < children.len() implies after.lists_rightly(
                    other,
                    #[trigger] children[i],
                ) by {
                    assert(state.lists_rightly(other, before[i]));
                }
            }
            if after.pool[other].kind() == Kind::Collection || after.pool[other].kind()
                == Kind::Calendar {
                let above = state.pool[other].parent_uri().unwrap();
                assert(state.holds(above));
                if above == parent {
                    let at = siblings.index_of(other);
                    let to = if at < position { at } else { at - 1 };
                    assert(remaining[to] == other);
                }
            }
        }
        assert forall|i: int| 0 <= i < after.collections.len() implies after.holds_kind(
            #[trigger] after.collections[i],
            Kind::Collection,
        ) by {
            assert(state.holds_kind(state.collections[i], Kind::Collection));
        }
    }
}

/// Creating the resources of one kind leaves a state in order.
pub proof fn lemma_create_kind_keeps_order(
    state: ManagerView,
    resources: Seq<PreResourceView>,
    kind: Kind,
    listed: bool,
)
    requires
        state.wf(),
    ensures
        state.create_kind(resources, kind, listed).state.wf(),
    decreases resources.len(),
{
    if resources.len() > 0 {
        lemma_create_kind_keeps_order(state, resources.drop_last(), kind, listed);
        lemma_create_keeps_order(
            state.create_kind(resources.drop_last(), kind, listed).state,
            resources.last(),
            listed,
        );
    }
}

/// Creating resources of every kind leaves a state in order.
pub proof fn lemma_create_all_keeps_order(
    state: ManagerView,
    resources: Seq<PreResourceView>,
    listed: bool,
)
    requires
        state.wf(),
    ensures
        state.create_all(resources, listed).state.wf(),
{
    let providers = state.create_kind(resources, Kind::Provider, listed).state;
    let collections = providers.create_kind(resources, Kind::Collection, listed).state;
    let calendars = collections.create_kind(resources, Kind::Calendar, listed).state;
    lemma_create_kind_keeps_order(state, resources, Kind::Provider, listed);
    lemma_create_kind_keeps_order(providers, resources, Kind::Collection, listed);
    lemma_create_kind_keeps_order(collections, resources, Kind::Calendar, listed);
    lemma_create_kind_keeps_order(calendars, resources, Kind::Event, listed);
}

/// A run of updates leaves a state in order.
pub proof fn lemma_update_all_keeps_order(state: ManagerView, events: Seq<NotificationView>)
    requires
        state.wf(),
    ensures
        state.update_all(events).state.wf(),
    decreases events.len(),
{
    if events.len() > 0 {
        lemma_update_all_keeps_order(state, events.drop_last());
        lemma_update_keeps_order(
            state.update_all(events.drop_last()).state,
            events.last().uri,
            events.last().lookup,
        );
    }
}

/// A run of deletions leaves a state in order.
pub proof fn lemma_delete_all_keeps_order(state: ManagerView, events: Seq<NotificationView>)
    requires
        state.wf(),
    ensures
        state.delete_all(events).state.wf(),
    decreases events.len(),
{
    if events.len() > 0 {
        lemma_delete_all_keeps_order(state, events.drop_last());
        lemma_delete_keeps_order(state.delete_all(events.drop_last()).state, events.last().uri);
    }
}

/// Whatever a batch of notifications holds, it leaves a state in order as it
/// found it: in order.
pub proof fn lemma_batch_keeps_order(state: ManagerView, events: Seq<NotificationView>)
    requires
        state.wf(),
    ensures
        state.handle(events).state.wf(),
{
    let created = state.create_phase(of_change(events, Change::Create));
    let updated = created.state.update_all(of_change(events, Change::Update));
    lemma_create_all_keeps_order(state, resolved(of_change(events, Change::Create)), false);
    lemma_update_all_keeps_order(created.state, of_change(events, Change::Update));
    lemma_delete_all_keeps_order(updated.state, of_change(events, Change::Delete));
}

/// Whatever the first load is given, it leaves a state in order as it found
/// it: in order.
pub proof fn lemma_load_keeps_order(
    state: ManagerView,
    providers: Seq<PreResourceView>,
    collections: Seq<PreResourceView>,
    calendars: Seq<PreResourceView>,
    events: Seq<PreResourceView>,
)
    requires
        state.wf(),
    ensures
        state.load(providers, collections, calendars, events).state.wf(),
{
    let first = state.create_kind(providers, Kind::Provider, true).state;
    let second = first.create_kind(collections, Kind::Collection, true).state;
    let third = second.create_kind(calendars, Kind::Calendar, true).state;
    lemma_create_kind_keeps_order(state, providers, Kind::Provider, true);
    lemma_create_kind_keeps_order(first, collections, Kind::Collection, true);
    lemma_create_kind_keeps_order(second, calendars, Kind::Calendar, true);
    lemma_create_kind_keeps_order(third, events, Kind::Event, true);
}

/// In a state in order, no two entries of the pool hold a resource with the
/// same URI: under each URI there is at most one resource, and it is the
/// resource of that URI.
pub proof fn lemma_one_resource_per_uri(state: ManagerView, first: Seq<char>, second: Seq<char>)
    requires
        state.wf(),
        state.holds(first),
        state.holds(second),
        state.pool[first].uri() == state.pool[second].uri(),
    ensures
        first == second,
{
}

/// In a state in order, a resource is listed by at most one resource, and at
/// most once by that one: by the resource that it names as its parent.
pub proof fn lemma_listed_once(
    state: ManagerView,
    first: Seq<char>,
    i: int,
    second: Seq<char>,
    j: int,
)
    requires
        state.wf(),
        state.holds(first),
        state.holds(second),
        0 <= i < state.pool[first].children().len(),
        0 <= j < state.pool[second].children().len(),
        state.pool[first].children()[i] == state.pool[second].children()[j],
    ensures
        first == second,
        i == j,
        state.pool[state.pool[first].children()[i]].parent_uri() == Some(first),
{
    assert(state.children_in_order(first));
    assert(state.children_in_order(second));
    assert(state.lists_rightly(first, state.pool[first].children()[i]));
    assert(state.lists_rightly(second, state.pool[second].children()[j]));
}

/// A resource whose parent the pool does not hold is not created: the pool
/// and every list stay as they are, and the one notice says why.
pub proof fn lemma_orphan_changes_nothing(
    state: ManagerView,
    resource: PreResourceView,
    listed: bool,
)
    requires
        resource.parent_uri() matches Some(parent) && !state.holds(parent),
    ensures
        state.create(resource, listed).state == state,
        state.create(resource, listed).notices == seq![
            NoticeView::Skipped {
                uri: resource.uri(),
                failure: if state.holds(resource.uri()) {
                    Failure::DuplicateUri
                } else {
                    Failure::MissingParent
                },
            },
        ],
{
}

/// A parent and a resource that belongs to it, created in one batch: the
/// resource is attached to the parent, once, in whichever order the batch
/// holds the two.
pub proof fn lemma_parent_and_child_in_one_batch(
    state: ManagerView,
    parent: PreResourceView,
    child: PreResourceView,
    listed: bool,
)
    requires
        state.wf(),
        !state.holds(parent.uri()),
        !state.holds(child.uri()),
        parent.uri() != child.uri(),
        child.parent_uri() == Some(parent.uri()),
        parent.kind().below() == Some(child.kind()),
        parent.parent_uri() matches Some(above) ==> state.can_hold(above, parent.kind()),
    ensures
        state.create_all(seq![child, parent], listed).state == state.create_all(
            seq![parent, child],
            listed,
        ).state,
        ({
            let after = state.create_all(seq![parent, child], listed).state;
            &&& after.holds(parent.uri())
            &&& after.holds(child.uri())
            &&& after.pool[parent.uri()].children() == seq![child.uri()]
            &&& after.pool[child.uri()] == child.fresh()
            &&& after.wf()
        }),
{
    let forward = seq![parent, child];
    let backward = seq![child, parent];
    assert(forward.drop_last() =~= seq![parent]);
    assert(backward.drop_last() =~= seq![child]);
    assert(seq![parent].drop_last() =~= Seq::<PreResourceView>::empty());
    assert(seq![child].drop_last() =~= Seq::<PreResourceView>::empty());
    assert(forward.last() == child && backward.last() == parent);
    assert(seq![parent].last() == parent && seq![child].last() == child);
    reveal_with_fuel(ManagerView::create_kind, 3);
    lemma_create_all_keeps_order(state, forward, listed);
    let with_parent = state.create(parent, listed).state;
    assert(with_parent.holds(parent.uri()));
    assert(with_parent.pool[parent.uri()].children() =~= Seq::<Seq<char>>::empty());
    let with_both = with_parent.create(child, listed).state;
    assert(with_both.pool[parent.uri()].children() =~= seq![child.uri()]);
    assert(state.create_all(forward, listed).state == with_both);
    assert(state.create_all(backward, listed).state == with_both);
}

/// A resource created while the pool does not hold its parent is dropped for
/// good: a later batch that creates the parent, and nothing else, does not
/// bring it back.
pub proof fn lemma_dropped_child_stays_dropped(
    state: ManagerView,
    child: PreResourceView,
    parent: PreResourceView,
    listed: bool,
)
    requires
        state.wf(),
        !state.holds(parent.uri()),
        !state.holds(child.uri()),
        parent.uri() != child.uri(),
        child.parent_uri() == Some(parent.uri()),
    ensures
        state.create_all(seq![child], listed).state == state,
        ({
            let later = state.create_all(seq![child], listed).state.create_all(
                seq![parent],
                listed,
            ).state;
            &&& !later.holds(child.uri())
            &&& later.holds(parent.uri()) ==> later.pool[parent.uri()].children() == Seq::<
                Seq<char>,
            >::empty()
        }),
{
    assert(seq![child].drop_last() =~= Seq::<PreResourceView>::empty());
    assert(seq![parent].drop_last() =~= Seq::<PreResourceView>::empty());
    assert(seq![parent].last() == parent && seq![child].last() == child);
    reveal_with_fuel(ManagerView::create_kind, 2);
    let later = state.create_all(seq![parent], listed).state;
    assert(later == state.create(parent, listed).state);
    if later.holds(parent.uri()) {
        assert(later.pool[parent.uri()] == parent.fresh());
        assert(later.pool[parent.uri()].children() =~= Seq::<Seq<char>>::empty());
    }
}

/// A resource and the parent that it names, created in one batch, where the
/// parent is not of the kind that holds such a resource: the resource is
/// dropped, the batch does what it would have done without it, and a later
/// batch that creates the parent, and nothing else, changes nothing.
pub proof fn lemma_child_of_wrong_parent_is_dropped(
    state: ManagerView,
    child: PreResourceView,
    parent: PreResourceView,
    listed: bool,
)
    requires
        state.wf(),
        !state.holds(parent.uri()),
        !state.holds(child.uri()),
        parent.uri() != child.uri(),
        child.parent_uri() == Some(parent.uri()),
        parent.kind().below() != Some(child.kind()),
    ensures
        state.create_all(seq![child, parent], listed).state == state.create_all(
            seq![parent],
            listed,
        ).state,
        !state.create_all(seq![child, parent], listed).state.holds(child.uri()),
        state.create_all(seq![child, parent], listed).state.create_all(
            seq![parent],
            listed,
        ).state == state.create_all(seq![child, parent], listed).state,
{
    let both = seq![child, parent];
    assert(both.drop_last() =~= seq![child]);
    assert(both.last() == parent);
    assert(seq![child].drop_last() =~= Seq::<PreResourceView>::empty());
    assert(seq![parent].drop_last() =~= Seq::<PreResourceView>::empty());
    assert(seq![parent].last() == parent && seq![child].last() == child);
    reveal_with_fuel(ManagerView::create_kind, 3);
    let with_parent = state.create(parent, listed).state;
    assert(state.create_all(seq![parent], listed).state == with_parent);
    assert(with_parent.create(child, listed).state == with_parent);
    assert(state.create(child, listed).state == state);
    assert(state.create_all(both, listed).state == with_parent);
    assert(with_parent.create(parent, listed).state == with_parent);
}

/// A batch of one notification does what that notification asks, and nothing
/// else: it creates the resource that the answer describes, or updates or
/// deletes the resource at the URI.
pub proof fn lemma_batch_of_one(state: ManagerView, event: NotificationView)
    ensures
        state.handle(seq![event]) == (match event.change {
            Change::Create => match PreResourceView::resolved(event.uri, event.lookup) {
                Ok(resource) => state.create(resource, false),
                Err(failure) => state.skip(event.uri, failure),
            },
            Change::Update => state.update(event.uri, event.lookup),
            Change::Delete => state.delete(event.uri),
        }),
{
    let events = seq![event];
    let none = Seq::<NotificationView>::empty();
    assert(events.drop_last() =~= none);
    assert(events.last() == event);
    reveal_with_fuel(Seq::filter, 2);
    reveal_with_fuel(Seq::filter_map, 2);
    reveal_with_fuel(ManagerView::create_kind, 2);
    reveal_with_fuel(ManagerView::update_all, 2);
    reveal_with_fuel(ManagerView::delete_all, 2);
    let created = of_change(events, Change::Create);
    let updated = of_change(events, Change::Update);
    let deleted = of_change(events, Change::Delete);
    match event.change {
        Change::Create => {
            assert(created =~= events);
            assert(updated =~= none);
            assert(deleted =~= none);
            match PreResourceView::resolved(event.uri, event.lookup) {
                Ok(resource) => {
                    let list = seq![resource];
                    assert(resolved(events) =~= list);
                    assert(unresolved(events) =~= Seq::<NoticeView>::empty());
                    assert(list.drop_last() =~= Seq::<PreResourceView>::empty());
                    assert(list.last() == resource);
                    let step = state.create(resource, false);
                    assert(state.create_all(list, false).state == step.state);
                    assert(state.create_all(list, false).notices =~= step.notices);
                    assert(state.handle(events).notices =~= step.notices);
                },
                Err(failure) => {
                    assert(resolved(events) =~= Seq::<PreResourceView>::empty());
                    assert(unresolved(events) =~= seq![
                        NoticeView::Skipped { uri: event.uri, failure },
                    ]);
                    assert(state.handle(events).notices =~= state.skip(event.uri, failure).notices);
                },
            }
        },
        Change::Update => {
            assert(created =~= none);
            assert(updated =~= events);
            assert(deleted =~= none);
            assert(state.handle(events).notices =~= state.update(event.uri, event.lookup).notices);
        },
        Change::Delete => {
            assert(created =~= none);
            assert(updated =~= none);
            assert(deleted =~= events);
            assert(state.handle(events).notices =~= state.delete(event.uri).notices);
        },
    }
}

/// A batch that reports the creation of a parent and of a resource that
/// belongs to it attaches the resource to the parent, once, in whichever
/// order the batch holds the two notifications.
pub proof fn lemma_parent_and_child_notified_together(
    state: ManagerView,
    parent: NotificationView,
    child: NotificationView,
)
    requires
        state.wf(),
        parent.change == Change::Create,
        child.change == Change::Create,
        PreResourceView::resolved(parent.uri, parent.lookup) is Ok,
        PreResourceView::resolved(child.uri, child.lookup) is Ok,
        !state.holds(parent.uri),
        !state.holds(child.uri),
        parent.uri != child.uri,
        PreResourceView::resolved(child.uri, child.lookup)->Ok_0.parent_uri() == Some(parent.uri),
        PreResourceView::resolved(parent.uri, parent.lookup)->Ok_0.kind().below() == Some(
            PreResourceView::resolved(child.uri, child.lookup)->Ok_0.kind(),
        ),
        PreResourceView::resolved(parent.uri, parent.lookup)->Ok_0.parent_uri() matches Some(
            above,
        ) ==> state.can_hold(
            above,
            PreResourceView::resolved(parent.uri, parent.lookup)->Ok_0.kind(),
        ),
    ensures
        state.handle(seq![child, parent]).state == state.handle(seq![parent, child]).state,
        ({
            let after = state.handle(seq![parent, child]).state;
            &&& after.holds(parent.uri)
            &&& after.holds(child.uri)
            &&& after.pool[parent.uri].children() == seq![child.uri]
            &&& after.wf()
        }),
{
    let first = PreResourceView::resolved(parent.uri, parent.lookup)->Ok_0;
    let second = PreResourceView::resolved(child.uri, child.lookup)->Ok_0;
    assert(first.uri() == parent.uri && second.uri() == child.uri);
    let none = Seq::<NotificationView>::empty();
    let forward = seq![parent, child];
    let backward = seq![child, parent];
    assert(forward.drop_last() =~= seq![parent] && forward.last() == child);
    assert(backward.drop_last() =~= seq![child] && backward.last() == parent);
    assert(seq![parent].drop_last() =~= none && seq![parent].last() == parent);
    assert(seq![child].drop_last() =~= none && seq![child].last() == child);
    reveal_with_fuel(Seq::filter, 3);
    reveal_with_fuel(Seq::filter_map, 3);
    reveal_with_fuel(ManagerView::update_all, 1);
    reveal_with_fuel(ManagerView::delete_all, 1);
    assert(of_change(seq![parent], Change::Create) =~= seq![parent]);
    assert(of_change(seq![child], Change::Create) =~= seq![child]);
    assert(of_change(forward, Change::Create) =~= forward);
    assert(of_change(backward, Change::Create) =~= backward);
    assert(of_change(forward, Change::Update) =~= none);
    assert(of_change(backward, Change::Update) =~= none);
    assert(of_change(forward, Change::Delete) =~= none);
    assert(of_change(backward, Change::Delete) =~= none);
    assert(resolved(seq![parent]) =~= seq![first]);
    assert(resolved(seq![child]) =~= seq![second]);
    assert(resolved(forward) =~= seq![first, second]);
    assert(resolved(backward) =~= seq![second, first]);
    lemma_parent_and_child_in_one_batch(state, first, second, false);
    assert(state.handle(forward).state == state.create_all(seq![first, second], false).state);
    assert(state.handle(backward).state == state.create_all(seq![second, first], false).state);
}

/// A batch that reports the creation of a resource whose parent the pool
/// does not hold changes nothing, and a later batch that reports the
/// creation of that parent, and nothing else, does not bring the resource
/// back.
pub proof fn lemma_dropped_child_stays_dropped_across_batches(
    state: ManagerView,
    child: NotificationView,
    parent: NotificationView,
)
    requires
        state.wf(),
        parent.change == Change::Create,
        child.change == Change::Create,
        PreResourceView::resolved(child.uri, child.lookup) is Ok,
        !state.holds(parent.uri),
        !state.holds(child.uri),
        parent.uri != child.uri,
        PreResourceView::resolved(child.uri, child.lookup)->Ok_0.parent_uri() == Some(parent.uri),
    ensures
        state.handle(seq![child]).state == state,
        ({
            let later = state.handle(seq![child]).state.handle(seq![parent]).state;
            &&& !later.holds(child.uri)
            &&& later.holds(parent.uri) ==> later.pool[parent.uri].children() == Seq::<
                Seq<char>,
            >::empty()
        }),
{
    lemma_batch_of_one(state, child);
    lemma_batch_of_one(state, parent);
    let second = PreResourceView::resolved(child.uri, child.lookup)->Ok_0;
    assert(second.uri() == child.uri);
    lemma_orphan_changes_nothing(state, second, false);
    match PreResourceView::resolved(parent.uri, parent.lookup) {
        Ok(first) => {
            assert(first.uri() == parent.uri);
            let later = state.create(first, false).state;
            if later.holds(parent.uri) {
                assert(later.pool[parent.uri] == first.fresh());
                assert(later.pool[parent.uri].children() =~= Seq::<Seq<char>>::empty());
            }
        },
        Err(_) => {},
    }
}

/// The deletion of a URI that the pool does not hold changes nothing, and
/// the one notice says so.
pub proof fn lemma_delete_of_absent_changes_nothing(state: ManagerView, uri: Seq<char>)
    requires
        !state.holds(uri),
    ensures
        state.delete(uri).state == state,
        state.delete(uri).notices == seq![
            NoticeView::Skipped { uri, failure: Failure::NotInPool },
        ],
{
}

/// The deletion of a calendar takes it out of the pool and out of the list
/// of its collection, and nothing else changes. The notices are two: that the
/// calendar is deleted, and the one delta of the collection's list, with one
/// item removed, none added, at the position that the calendar had.
pub proof fn lemma_delete_of_calendar(state: ManagerView, uri: Seq<char>)
    requires
        state.wf(),
        state.holds_kind(uri, Kind::Calendar),
    ensures
        ({
            let parent = state.pool[uri].parent_uri().unwrap();
            let siblings = state.pool[parent].children();
            let position = siblings.index_of_first(uri).unwrap();
            let after = state.delete(uri).state;
            &&& state.holds_kind(parent, Kind::Collection)
            &&& 0 <= position < siblings.len()
            &&& siblings[position] == uri
            &&& !after.holds(uri)
            &&& after.pool[parent] == state.pool[parent].with_children(siblings.remove(position))
            &&& !after.pool[parent].children().contains(uri)
            &&& after.collections == state.collections
            &&& forall|other: Seq<char>|
                other != uri && other != parent ==> after.holds(other) == state.holds(other)
                    && after.pool[other] == state.pool[other]
            &&& state.delete(uri).notices == seq![
                NoticeView::Deleted { uri },
                NoticeView::ItemsChanged {
                    owner: Some(parent),
                    uri,
                    delta: Delta { position: position as usize, removed: 1, added: 0 },
                },
            ]
        }),
{
    assert(state.holds(uri));
    assert(state.parent_in_order(uri));
    let parent = state.pool[uri].parent_uri().unwrap();
    let siblings = state.pool[parent].children();
    assert(state.holds(parent));
    assert(state.children_in_order(parent));
    siblings.index_of_first_ensures(uri);
    let position = siblings.index_of_first(uri).unwrap();
    let remaining = siblings.remove(position);
    assert(state.delete(uri).state.pool[parent].children() == remaining);
    if remaining.contains(uri) {
        let at = remaining.index_of(uri);
        let from = if at < position { at } else { at + 1 };
        assert(remaining[at] == siblings[from]);
    }
}

/// The update of a calendar gives it the name and the colour that the store
/// now answers, where it is: the pool holds the same URIs as before, every
/// other resource and every list is as it was, and so whoever holds the
/// calendar's URI finds the new values under it.
pub proof fn lemma_update_of_calendar(
    state: ManagerView,
    uri: Seq<char>,
    collection_uri: Seq<char>,
    name: Seq<char>,
    color: Color,
)
    requires
        state.holds_kind(uri, Kind::Calendar),
    ensures
        ({
            let lookup = LookupView::Calendar { collection_uri, name, color: Some(color) };
            let after = state.update(uri, lookup).state;
            &&& after.pool.dom() == state.pool.dom()
            &&& after.pool[uri] == ResourceView::Calendar(
                CalendarView { name, color, ..state.pool[uri]->Calendar_0 },
            )
            &&& after.pool[uri].uri() == state.pool[uri].uri()
            &&& after.pool[uri].parent_uri() == state.pool[uri].parent_uri()
            &&& after.pool[uri].children() == state.pool[uri].children()
            &&& forall|other: Seq<char>| other != uri ==> after.pool[other] == state.pool[other]
            &&& after.collections == state.collections
            &&& state.update(uri, lookup).notices == seq![NoticeView::Updated { uri, name, color }]
        }),
{
    let lookup = LookupView::Calendar { collection_uri, name, color: Some(color) };
    let after = state.update(uri, lookup).state;
    assert(after.pool.dom() =~= state.pool.dom());
}

/// An update never creates: where the pool does not hold the URI, nothing
/// changes, whatever the store answers.
pub proof fn lemma_update_of_absent_changes_nothing(
    state: ManagerView,
    uri: Seq<char>,
    lookup: LookupView,
)
    requires
        !state.holds(uri),
    ensures
        state.update(uri, lookup).state == state,
        state.update(uri, lookup).notices == seq![
            NoticeView::Skipped { uri, failure: Failure::NotInPool },
        ],
{
}

/// A search shows a URI exactly if the store matched it and the pool holds
/// an event under it.
pub proof fn lemma_search_shows_the_events(state: ManagerView, matches: Seq<Seq<char>>)
    ensures
        forall|uri: Seq<char>|
            state.found_events(matches).contains(uri) <==> matches.contains(uri)
                && state.holds_kind(uri, Kind::Event),
{
    let shown = |uri: Seq<char>| state.holds_kind(uri, Kind::Event);
    assert forall|uri: Seq<char>|
        state.found_events(matches).contains(uri) <==> matches.contains(uri) && state.holds_kind(
            uri,
            Kind::Event,
        ) by {
        if matches.filter(shown).contains(uri) {
            let at = matches.filter(shown).index_of(uri);
            matches.lemma_filter_pred(shown, at);
            matches.lemma_filter_contains_rev(shown, uri);
        }
        if matches.contains(uri) && shown(uri) {
            let at = matches.index_of(uri);
            matches.lemma_filter_contains(shown, at);
        }
    }
}

/// A search for nothing shows nothing and passes over nothing, whatever the
/// store might have matched.
pub proof fn lemma_search_for_nothing(state: ManagerView, matches: Option<Seq<Seq<char>>>)
    ensures
        state.search(Seq::empty(), matches) == Seq::<Seq<char>>::empty(),
        state.search_notices(Seq::empty(), matches) == Seq::<NoticeView>::empty(),
{
}

} // verus!
