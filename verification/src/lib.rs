//! A live, in-process mirror of a calendar store.
//!
//! The store holds providers, their collections, the calendars of each
//! collection and the events of each calendar, every one of them under a URI
//! of its own. This crate keeps the mirror: the pool of resources by URI, the
//! ordered child lists, and the rules by which a batch of change
//! notifications is applied to them. Talking to the store and to the
//! consumers of the mirror is left to the caller, who hands in what the store
//! answered and receives the list of notices to pass on.

pub mod calendar;
pub mod collection;
pub mod collections_model;
pub mod color;
pub mod command;
pub mod event;
pub mod laws;
pub mod manager;
pub mod model;
pub mod notice;
pub mod notification;
pub mod pool;
pub mod pre_resource;
pub mod provider;
pub mod resource;
pub mod text;
pub mod time_frame;

pub use calendar::Calendar;
pub use collection::Collection;
pub use collections_model::{CollectionsModel, Delta};
pub use color::Color;
pub use command::WriteCommand;
pub use event::Event;
pub use manager::Manager;
pub use notice::{Failure, Notice};
pub use notification::{Batch, Change, Notification};
pub use pool::ResourcePool;
pub use pre_resource::pre_calendar::PreCalendar;
pub use pre_resource::pre_collection::PreCollection;
pub use pre_resource::pre_event::PreEvent;
pub use pre_resource::pre_provider::PreProvider;
pub use pre_resource::{Lookup, Predicates, PreResource};
pub use provider::Provider;
pub use resource::{Kind, Resource};
pub use time_frame::{Instant, InstantInner, TimeFrame};

pub use jiff;
