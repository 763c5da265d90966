//! Non-blocking delivery of classified events to the application.

use vstd::prelude::*;

verus! {

/// A failed delivery always hands the event back: nothing is dropped silently.
#[derive(Debug, PartialEq, Eq)]
pub enum EventPublishError<Event> {
    /// The bounded queue had no room.
    Full(Event),
    /// The application receiver was closed.
    Closed(Event),
}

impl<Event> EventPublishError<Event> {
    /// Event that was not delivered.
    pub open spec fn event(self) -> Event {
        match self {
            EventPublishError::Full(event) => event,
            EventPublishError::Closed(event) => event,
        }
    }

    /// Consumes the failure and returns the event that was not delivered.
    pub fn into_event(self) -> (r: Event)
        ensures
            r == self.event(),
    {
        match self {
            EventPublishError::Full(event) => event,
            EventPublishError::Closed(event) => event,
        }
    }
}

/// Port through which the Driver hands events to the application. An
/// implementation makes exactly one attempt and returns at once; the application
/// decides whether it takes the event.
pub trait ApplicationEventPort<Event> {
    /// Attempts to hand over `event` without waiting.
    fn try_publish(&self, event: Event) -> Result<(), EventPublishError<Event>>;
}

/// An event that was not taken comes back, whatever the reason.
pub proof fn law_refused_event_comes_back<Event>(event: Event)
    ensures
        EventPublishError::Full(event).event() == event,
        EventPublishError::Closed(event).event() == event,
{
}

} // verus!
