//! Notifications of change, as the store sends them.

use vstd::prelude::*;

use crate::pre_resource::{Lookup, LookupView};

verus! {

/// What happened to a resource of the store.
#[derive(Clone, Copy, Debug, PartialEq, Eq, Structural)]
pub enum Change {
    Create,
    Update,
    Delete,
}

/// One notification of a batch: what happened to the resource at `uri`, and
/// what the store answers when asked for that resource now. For a deletion
/// the answer is not read.
#[derive(Clone, Debug, PartialEq, Eq)]
pub struct Notification {
    pub change: Change,
    pub uri: String,
    pub lookup: Lookup,
}

/// What a [`Notification`] holds.
pub struct NotificationView {
    pub change: Change,
    pub uri: Seq<char>,
    pub lookup: LookupView,
}

impl View for Notification {
    type V = NotificationView;

    open spec fn view(&self) -> NotificationView {
        NotificationView { change: self.change, uri: self.uri@, lookup: self.lookup@ }
    }
}

/// What a batch of notifications holds, in order.
pub open spec fn batch(events: Seq<Notification>) -> Seq<NotificationView> {
    events.map_values(|event: Notification| event@)
}

/// What a list of borrowed notifications holds, in order.
pub open spec fn borrowed_batch(events: Seq<&Notification>) -> Seq<NotificationView> {
    events.map_values(|event: &Notification| event@)
}

/// The notifications of `events` that report `change`, in their order.
pub open spec fn of_change(events: Seq<NotificationView>, change: Change) -> Seq<NotificationView> {
    events.filter(|event: NotificationView| event.change == change)
}

/// A batch of notifications, sorted by what they report.
#[derive(Debug)]
pub struct Batch<'a> {
    pub created: Vec<&'a Notification>,
    pub updated: Vec<&'a Notification>,
    pub deleted: Vec<&'a Notification>,
}

impl Notification {
    pub fn new(change: Change, uri: &str, lookup: Lookup) -> (event: Notification)
        ensures
            event@ == (NotificationView { change, uri: uri@, lookup: lookup@ }),
    {
        Notification { change, uri: uri.to_owned(), lookup }
    }

    /// Sorts a batch into the creations, the updates and the deletions that
    /// it reports. Each of the three keeps the order of the batch.
    pub fn partition<'a>(events: &'a Vec<Notification>) -> (sorted: Batch<'a>)
        ensures
            borrowed_batch(sorted.created@) == of_change(batch(events@), Change::Create),
            borrowed_batch(sorted.updated@) == of_change(batch(events@), Change::Update),
            borrowed_batch(sorted.deleted@) == of_change(batch(events@), Change::Delete),
    {
        let mut created: Vec<&'a Notification> = Vec::new();
        let mut updated: Vec<&'a Notification> = Vec::new();
        let mut deleted: Vec<&'a Notification> = Vec::new();
        let mut i: usize = 0;
        while i < events.len()
            invariant
                i <= events.len(),
                borrowed_batch(created@) == of_change(batch(events@).take(i as int), Change::Create),
                borrowed_batch(updated@) == of_change(batch(events@).take(i as int), Change::Update),
                borrowed_batch(deleted@) == of_change(batch(events@).take(i as int), Change::Delete),
            decreases events.len() - i,
        {
            let event = &events[i];
            proof {
                let seen = batch(events@).take(i + 1);
                assert(seen.drop_last() =~= batch(events@).take(i as int));
                assert(seen.last() == event@);
                reveal(Seq::filter);
            }
            let ghost before_created = created@;
            let ghost before_updated = updated@;
            let ghost before_deleted = deleted@;
            match event.change {
                Change::Create => {
                    created.push(event);
                    assert(borrowed_batch(created@) =~= borrowed_batch(before_created).push(
                        event@,
                    ));
                },
                Change::Update => {
                    updated.push(event);
                    assert(borrowed_batch(updated@) =~= borrowed_batch(before_updated).push(
                        event@,
                    ));
                },
                Change::Delete => {
                    deleted.push(event);
                    assert(borrowed_batch(deleted@) =~= borrowed_batch(before_deleted).push(
                        event@,
                    ));
                },
            }
            i += 1;
        }
        assert(batch(events@).take(i as int) =~= batch(events@));
        Batch { created, updated, deleted }
    }
}

} // verus!
