//! The one interface over both ways in which events arrive.

use crate::event::Event;
use crate::polling::{poll_step, PollAction, PollOutcome, Polling};
use crate::webhook::EventQueue;
use vstd::prelude::*;

verus! {

/// Where events come from. The choice is made once, at startup; what
/// consumes the events does not depend on it.
pub enum EventSource {
    /// Events are pulled with long-poll requests.
    Polling(Polling),
    /// Events are pushed to a listener and wait in its queue.
    Webhook(EventQueue),
}

impl EventSource {
    /// Whether the source still takes in new events.
    pub open spec fn accepting(&self) -> bool {
        match self {
            EventSource::Polling(polling) => !polling.cancelled,
            EventSource::Webhook(queue) => !queue@.closed,
        }
    }

    /// The events that were taken in and wait for the dispatcher.
    pub open spec fn waiting(&self) -> Seq<Event> {
        match self {
            EventSource::Polling(_) => Seq::empty(),
            EventSource::Webhook(queue) => queue@.events,
        }
    }

    /// Sets up the source that the configuration chose.
    pub fn select(use_polling: bool) -> (source: EventSource)
        ensures
            source is Polling <==> use_polling,
            source.accepting(),
            source.waiting().len() == 0,
            source matches EventSource::Polling(polling) ==> polling.cursor == 0
                && polling.error_count == 0,
    {
        if use_polling {
            let (polling, _) = Polling::start();
            EventSource::Polling(polling)
        } else {
            EventSource::Webhook(EventQueue::new())
        }
    }

    /// Tells whether the source still takes in new events.
    pub fn is_accepting(&self) -> (accepting: bool)
        ensures
            accepting == self.accepting(),
    {
        match self {
            EventSource::Polling(polling) => !polling.cancelled,
            EventSource::Webhook(queue) => !queue.is_closed(),
        }
    }

    /// Shuts the source down: it takes in nothing new from here on. Events
    /// that wait in the queue stay for the dispatcher.
    pub fn shutdown(self) -> (source: EventSource)
        ensures
            !source.accepting(),
            source is Polling <==> self is Polling,
            source.waiting() == self.waiting(),
            self matches EventSource::Polling(before) ==> source == EventSource::Polling(
                Polling { cancelled: true, ..before },
            ),
    {
        match self {
            EventSource::Polling(polling) => EventSource::Polling(polling.cancel()),
            EventSource::Webhook(queue) => {
                let mut queue = queue;
                queue.close();
                EventSource::Webhook(queue)
            },
        }
    }
}

/// Once a polling source is shut down, its next step is to stop, whatever
/// the last request brought.
pub proof fn shut_down_polling_stops(polling: Polling, outcome: PollOutcome)
    requires
        polling.cancelled,
    ensures
        poll_step(polling, outcome) == (polling, PollAction::Stop),
{
}

} // verus!
