//! The records that the service sends back.

use vstd::prelude::*;

verus! {

/// A group as the service describes it.
#[derive(Debug, PartialEq, Eq)]
pub struct MeetupGroup {
    /// The identifier under which the service addresses the group.
    pub id: String,
    /// The name shown to people.
    pub name: String,
}

impl Clone for MeetupGroup {
    fn clone(&self) -> (copy: MeetupGroup)
        ensures
            copy == *self,
    {
        MeetupGroup { id: self.id.clone(), name: self.name.clone() }
    }
}

/// A [`MeetupGroup`] as a mathematical value.
pub struct GroupView {
    pub id: Seq<char>,
    pub name: Seq<char>,
}

impl View for MeetupGroup {
    type V = GroupView;

    open spec fn view(&self) -> GroupView {
        GroupView { id: self.id@, name: self.name@ }
    }
}

/// One scheduled occurrence of a group.
#[derive(Debug, PartialEq, Eq)]
pub struct MeetupEvent {
    /// The identifier under which the service addresses the event.
    pub id: String,
    /// The name shown to people.
    pub name: String,
    /// The start, in milliseconds since the epoch.
    pub time: i64,
}

impl Clone for MeetupEvent {
    fn clone(&self) -> (copy: MeetupEvent)
        ensures
            copy == *self,
    {
        MeetupEvent { id: self.id.clone(), name: self.name.clone(), time: self.time }
    }
}

/// A [`MeetupEvent`] as a mathematical value.
pub struct EventView {
    pub id: Seq<char>,
    pub name: Seq<char>,
    pub time: int,
}

impl View for MeetupEvent {
    type V = EventView;

    open spec fn view(&self) -> EventView {
        EventView { id: self.id@, name: self.name@, time: self.time as int }
    }
}

/// The events of a list, in the order of the list.
pub open spec fn events_view(events: Seq<MeetupEvent>) -> Seq<EventView> {
    events.map_values(|e: MeetupEvent| e@)
}

} // verus!
