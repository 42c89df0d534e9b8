//! The session store: the state of every conversation seen so far, and the
//! dispatcher's decisions around it.

use crate::dialogue::{transition_of, Action, Dialogue, MainState, Transition};
use crate::event::{ConversationId, Event, EventKind};
use crate::webhook::{EventQueue, QueueView};
use std::collections::HashMap;
use vstd::prelude::*;

verus! {

broadcast use vstd::std_specs::hash::group_hash_axioms;

/// The state of conversation `id` in `sessions`: the stored one, or idle
/// for a conversation not seen before.
pub open spec fn session_state(sessions: Map<i64, Dialogue>, id: ConversationId) -> Dialogue {
    if sessions.contains_key(id.0) {
        sessions[id.0]
    } else {
        Dialogue::Main(MainState)
    }
}

/// The sessions after `event` was applied to the state of its conversation.
pub open spec fn applied(sessions: Map<i64, Dialogue>, event: Event) -> Map<i64, Dialogue> {
    sessions.insert(
        event.conversation.0,
        transition_of(session_state(sessions, event.conversation), event.kind).next,
    )
}

/// The sessions after these events were applied one after the other.
pub open spec fn replayed(sessions: Map<i64, Dialogue>, events: Seq<Event>) -> Map<i64, Dialogue>
    decreases events.len(),
{
    if events.len() == 0 {
        sessions
    } else {
        replayed(applied(sessions, events[0]), events.drop_first())
    }
}

/// The events of conversation `id` among `events`, in their order.
pub open spec fn events_of(events: Seq<Event>, id: ConversationId) -> Seq<EventKind>
    decreases events.len(),
{
    if events.len() == 0 {
        Seq::empty()
    } else if events[0].conversation == id {
        seq![events[0].kind] + events_of(events.drop_first(), id)
    } else {
        events_of(events.drop_first(), id)
    }
}

/// The state that one conversation reaches from `state` through these
/// events, in their order.
pub open spec fn state_after(state: Dialogue, kinds: Seq<EventKind>) -> Dialogue
    decreases kinds.len(),
{
    if kinds.len() == 0 {
        state
    } else {
        state_after(transition_of(state, kinds[0]).next, kinds.drop_first())
    }
}

/// Maps each conversation to its current state. A conversation enters the
/// store with its first event and never leaves it.
pub struct SessionStore {
    states: HashMap<i64, Dialogue>,
}

impl View for SessionStore {
    type V = Map<i64, Dialogue>;

    closed spec fn view(&self) -> Map<i64, Dialogue> {
        self.states@
    }
}

impl SessionStore {
    /// An empty store.
    pub fn new() -> (store: SessionStore)
        ensures
            store@ == Map::<i64, Dialogue>::empty(),
    {
        SessionStore { states: HashMap::new() }
    }

    /// How many conversations the store knows.
    pub fn len(&self) -> (n: usize)
        ensures
            n == self@.len(),
    {
        self.states.len()
    }

    /// Whether the store knows this conversation.
    pub fn contains(&self, id: ConversationId) -> (known: bool)
        ensures
            known == self@.contains_key(id.0),
    {
        self.states.contains_key(&id.0)
    }

    /// The state of a conversation, idle if it is not known; the store is
    /// left as it is.
    pub fn state_of(&self, id: ConversationId) -> (state: Dialogue)
        ensures
            state == session_state(self@, id),
    {
        match self.states.get(&id.0) {
            Some(state) => *state,
            None => Dialogue::Main(MainState),
        }
    }

    /// The state of a conversation; one not known before enters the store
    /// as idle.
    pub fn get_or_create(&mut self, id: ConversationId) -> (state: Dialogue)
        ensures
            state == session_state(old(self)@, id),
            final(self)@ == old(self)@.insert(id.0, state),
    {
        let state = self.state_of(id);
        self.states.insert(id.0, state);
        state
    }

    /// Applies one event to the state of a conversation: reads the state,
    /// computes the transition and stores the next state, all in one
    /// exclusive borrow of the store. Returns the transition, whose action
    /// is for the caller to perform once the store is free again.
    pub fn apply(&mut self, id: ConversationId, event: EventKind) -> (t: Transition)
        ensures
            t == transition_of(session_state(old(self)@, id), event),
            final(self)@ == old(self)@.insert(id.0, t.next),
            final(self)@ == applied(old(self)@, Event { conversation: id, kind: event }),
    {
        let state = self.state_of(id);
        let t = state.transition(event);
        self.states.insert(id.0, t.next);
        t
    }
}

/// Routes one event: applies it to its conversation and hands back the
/// action to perform.
pub fn dispatch(store: &mut SessionStore, event: Event) -> (action: Action)
    ensures
        action == transition_of(session_state(old(store)@, event.conversation), event.kind).action,
        final(store)@ == applied(old(store)@, event),
{
    store.apply(event.conversation, event.kind).action
}

/// The actions that applying these events one after the other calls for,
/// each with the conversation it is for, in the order of the events.
pub open spec fn actions_of(sessions: Map<i64, Dialogue>, events: Seq<Event>) -> Seq<
    (ConversationId, Action),
>
    decreases events.len(),
{
    if events.len() == 0 {
        Seq::empty()
    } else {
        seq![
            (
                events[0].conversation,
                transition_of(session_state(sessions, events[0].conversation), events[0].kind).action,
            ),
        ] + actions_of(applied(sessions, events[0]), events.drop_first())
    }
}

/// Routes every event that waits in the queue, the one that has waited
/// longest first, and hands back the actions to perform, in that order.
pub fn dispatch_all(store: &mut SessionStore, queue: &mut EventQueue) -> (actions: Vec<
    (ConversationId, Action),
>)
    ensures
        final(store)@ == replayed(old(store)@, old(queue)@.events),
        actions@ == actions_of(old(store)@, old(queue)@.events),
        final(queue)@ == (QueueView { events: Seq::empty(), closed: old(queue)@.closed }),
{
    let mut actions: Vec<(ConversationId, Action)> = Vec::new();
    proof {
        assert(actions@ + actions_of(store@, queue@.events) =~= actions_of(
            store@,
            queue@.events,
        ));
    }
    loop
        invariant
            queue@.closed == old(queue)@.closed,
            replayed(store@, queue@.events) == replayed(old(store)@, old(queue)@.events),
            actions@ + actions_of(store@, queue@.events) == actions_of(
                old(store)@,
                old(queue)@.events,
            ),
        ensures
            queue@.events.len() == 0,
        decreases queue@.events.len(),
    {
        let ghost before = store@;
        let ghost waiting = queue@.events;
        let ghost done = actions@;
        match queue.pop() {
            Some(event) => {
                let conversation = event.conversation;
                let action = dispatch(store, event);
                actions.push((conversation, action));
                proof {
                    assert(queue@.events == waiting.drop_first());
                    assert(actions@ + actions_of(store@, queue@.events) =~= done + actions_of(
                        before,
                        waiting,
                    ));
                }
            },
            None => {
                break ;
            },
        }
    }
    proof {
        assert(queue@.events =~= Seq::<Event>::empty());
        assert(actions@ + actions_of(store@, queue@.events) =~= actions@);
    }
    actions
}

/// Why performing an action failed.
#[derive(Clone, Copy, Debug, PartialEq, Eq, Structural)]
pub enum ActionFailure {
    /// The platform could not be reached or refused the request.
    Communication,
    /// The program found itself in a state it must never be in.
    InvariantViolation,
}

/// What the dispatcher does about a failed action.
#[derive(Clone, Copy, Debug, PartialEq, Eq, Structural)]
pub enum Supervision {
    /// Log the failure and give this turn up; the action is not tried
    /// again, and the next event is handled as usual.
    AbandonTurn,
    /// Hand the failure to whoever supervises the process.
    Propagate,
}

/// Decides what becomes of a failed action: a failure to communicate costs
/// the turn and no more; a violated invariant is not for the dispatcher to
/// swallow.
pub fn on_action_failure(failure: ActionFailure) -> (decision: Supervision)
    ensures
        decision is AbandonTurn <==> failure is Communication,
        decision is Propagate <==> failure is InvariantViolation,
{
    match failure {
        ActionFailure::Communication => Supervision::AbandonTurn,
        ActionFailure::InvariantViolation => Supervision::Propagate,
    }
}

/// Applying an event touches its own conversation only.
pub proof fn applied_leaves_others(sessions: Map<i64, Dialogue>, event: Event, id: ConversationId)
    requires
        event.conversation != id,
    ensures
        session_state(applied(sessions, event), id) == session_state(sessions, id),
        applied(sessions, event).dom() == sessions.dom().insert(event.conversation.0),
{
}

/// The state machine of a conversation sees that conversation's events one
/// at a time and in the order in which they were applied, and none of any
/// other conversation: after any sequence of events the state of each
/// conversation is what its own events, taken in their order, lead to.
pub proof fn replay_keeps_order(sessions: Map<i64, Dialogue>, events: Seq<Event>, id: ConversationId)
    ensures
        session_state(replayed(sessions, events), id) == state_after(
            session_state(sessions, id),
            events_of(events, id),
        ),
    decreases events.len(),
{
    if events.len() > 0 {
        let first = events[0];
        let rest = events.drop_first();
        replay_keeps_order(applied(sessions, first), rest, id);
        if first.conversation == id {
            let own = seq![first.kind] + events_of(rest, id);
            assert(own[0] == first.kind);
            assert(own.drop_first() =~= events_of(rest, id));
        }
    }
}

/// No conversation ever leaves the store.
pub proof fn replay_keeps_sessions(sessions: Map<i64, Dialogue>, events: Seq<Event>, key: i64)
    requires
        sessions.contains_key(key),
    ensures
        replayed(sessions, events).contains_key(key),
    decreases events.len(),
{
    if events.len() > 0 {
        replay_keeps_sessions(applied(sessions, events[0]), events.drop_first(), key);
    }
}

} // verus!
