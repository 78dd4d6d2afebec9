//! Requests to change the store.

use vstd::prelude::*;

use crate::color::Color;

verus! {

/// A request that the store change what it holds.
///
/// The mirror never applies such a request to itself: the store answers it
/// with a notification, and only the notification changes the mirror.
#[derive(Clone, Debug, PartialEq, Eq)]
pub enum WriteCommand {
    CreateCalendar { collection_uri: String, name: String, color: Color },
    UpdateCalendarName { uri: String, name: String },
    UpdateCalendarColor { uri: String, color: Color },
    DeleteCalendar { uri: String },
    CreateEvent { calendar_uri: String, name: String, description: String },
}

/// What a [`WriteCommand`] says, as plain text.
pub enum WriteCommandView {
    CreateCalendar { collection_uri: Seq<char>, name: Seq<char>, color: Color },
    UpdateCalendarName { uri: Seq<char>, name: Seq<char> },
    UpdateCalendarColor { uri: Seq<char>, color: Color },
    DeleteCalendar { uri: Seq<char> },
    CreateEvent { calendar_uri: Seq<char>, name: Seq<char>, description: Seq<char> },
}

impl View for WriteCommand {
    type V = WriteCommandView;

    open spec fn view(&self) -> WriteCommandView {
        match *self {
            WriteCommand::CreateCalendar { collection_uri, name, color } => {
                WriteCommandView::CreateCalendar {
                    collection_uri: collection_uri@,
                    name: name@,
                    color,
                }
            },
            WriteCommand::UpdateCalendarName { uri, name } => {
                WriteCommandView::UpdateCalendarName { uri: uri@, name: name@ }
            },
            WriteCommand::UpdateCalendarColor { uri, color } => {
                WriteCommandView::UpdateCalendarColor { uri: uri@, color }
            },
            WriteCommand::DeleteCalendar { uri } => WriteCommandView::DeleteCalendar { uri: uri@ },
            WriteCommand::CreateEvent { calendar_uri, name, description } => {
                WriteCommandView::CreateEvent {
                    calendar_uri: calendar_uri@,
                    name: name@,
                    description: description@,
                }
            },
        }
    }
}

impl WriteCommandView {
    /// The name of the store's method that carries out the request.
    pub open spec fn method(self) -> Seq<char> {
        match self {
            WriteCommandView::CreateCalendar { .. } => "CreateCalendar"@,
            WriteCommandView::UpdateCalendarName { .. } => "UpdateCalendarName"@,
            WriteCommandView::UpdateCalendarColor { .. } => "UpdateCalendarColor"@,
            WriteCommandView::DeleteCalendar { .. } => "DeleteCalendar"@,
            WriteCommandView::CreateEvent { .. } => "CreateEvent"@,
        }
    }
}

impl WriteCommand {
    /// The name of the store's method that carries out the request.
    pub fn method(&self) -> (name: &'static str)
        ensures
            name@ == self@.method(),
    {
        match self {
            WriteCommand::CreateCalendar { .. } => "CreateCalendar",
            WriteCommand::UpdateCalendarName { .. } => "UpdateCalendarName",
            WriteCommand::UpdateCalendarColor { .. } => "UpdateCalendarColor",
            WriteCommand::DeleteCalendar { .. } => "DeleteCalendar",
            WriteCommand::CreateEvent { .. } => "CreateEvent",
        }
    }
}

/// What a sequence of commands says, in order.
pub open spec fn commands(list: Seq<WriteCommand>) -> Seq<WriteCommandView> {
    list.map_values(|command: WriteCommand| command@)
}

} // verus!
