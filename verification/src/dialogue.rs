//! The conversation state machine: from a state and an event to the next
//! state and the one action to perform.
//!
//! Media that arrives while no image is awaited is turned away with a
//! reminder that a command comes first; it is never processed unasked.

use crate::commands::{command_named, command_reply, commands_handler, Command, Reply};
use crate::event::{EventKind, FileReference};
use crate::resize_image_handler::{handle_document, handle_photo, photo_choice};
use vstd::prelude::*;

verus! {

/// The idle state: a command is expected.
#[derive(Clone, Copy, Debug, PartialEq, Eq, Structural)]
pub struct MainState;

/// The state after `resize`: an image is awaited.
#[derive(Clone, Copy, Debug, PartialEq, Eq, Structural)]
pub struct ReceiveImageTgStickerState;

/// The state of one conversation.
#[derive(Clone, Copy, Debug, PartialEq, Eq, Structural)]
pub enum Dialogue {
    Main(MainState),
    ReceiveImageTgSticker(ReceiveImageTgStickerState),
}

impl Default for Dialogue {
    /// Every conversation starts idle.
    fn default() -> (state: Self)
        ensures
            state == Dialogue::Main(MainState),
    {
        Dialogue::Main(MainState)
    }
}

/// What the dispatcher is to do after a transition.
#[derive(Debug, PartialEq, Eq)]
pub enum Action {
    /// Send this text to the conversation.
    Reply(Reply),
    /// Run the media pipeline on this file.
    RunPipeline(FileReference),
}

/// The outcome of one transition.
#[derive(Debug, PartialEq, Eq)]
pub struct Transition {
    pub next: Dialogue,
    pub action: Action,
}

/// The transition out of the idle state on a command name.
pub open spec fn command_transition(name: Seq<char>) -> Transition {
    match command_named(name) {
        Some(command) => Transition {
            next: if command == Command::Resize {
                Dialogue::ReceiveImageTgSticker(ReceiveImageTgStickerState)
            } else {
                Dialogue::Main(MainState)
            },
            action: Action::Reply(command_reply(command)),
        },
        None => Transition {
            next: Dialogue::Main(MainState),
            action: Action::Reply(Reply::UnknownCommand),
        },
    }
}

/// The transition out of the idle state.
pub open spec fn main_transition(event: EventKind) -> Transition {
    match event {
        EventKind::Command(name) => command_transition(name@),
        EventKind::Text(_) => Transition {
            next: Dialogue::Main(MainState),
            action: Action::Reply(Reply::UnknownCommand),
        },
        EventKind::Photo(_) | EventKind::Document(_) | EventKind::Unrecognized => Transition {
            next: Dialogue::Main(MainState),
            action: Action::Reply(Reply::CommandExpected),
        },
    }
}

/// The transition out of the state in which an image is awaited.
pub open spec fn receive_image_transition(event: EventKind) -> Transition {
    match event {
        EventKind::Photo(photos) => Transition {
            next: Dialogue::Main(MainState),
            action: match photo_choice(photos@) {
                Ok(file) => Action::RunPipeline(file),
                Err(_) => Action::Reply(Reply::ProcessingFailed),
            },
        },
        EventKind::Document(document) => Transition {
            next: Dialogue::Main(MainState),
            action: Action::RunPipeline(document.file),
        },
        EventKind::Command(_) | EventKind::Text(_) => Transition {
            next: Dialogue::Main(MainState),
            action: Action::Reply(Reply::ImageExpected),
        },
        EventKind::Unrecognized => Transition {
            next: Dialogue::ReceiveImageTgSticker(ReceiveImageTgStickerState),
            action: Action::Reply(Reply::ImageExpected),
        },
    }
}

/// The transition function of the state machine.
pub open spec fn transition_of(state: Dialogue, event: EventKind) -> Transition {
    match state {
        Dialogue::Main(_) => main_transition(event),
        Dialogue::ReceiveImageTgSticker(_) => receive_image_transition(event),
    }
}

/// Reacts to a command name in the idle state.
pub fn handle_command(state: MainState, name: &String) -> (t: Transition)
    ensures
        t == command_transition(name@),
{
    match Command::from(name) {
        None => Transition {
            next: Dialogue::Main(state),
            action: Action::Reply(Reply::UnknownCommand),
        },
        Some(command) => {
            let reply = commands_handler(command);
            match command {
                Command::Resize => Transition {
                    next: Dialogue::ReceiveImageTgSticker(ReceiveImageTgStickerState),
                    action: Action::Reply(reply),
                },
                _ => Transition { next: Dialogue::Main(state), action: Action::Reply(reply) },
            }
        },
    }
}

impl MainState {
    /// Reacts to an event in the idle state.
    pub fn transition(self, event: EventKind) -> (t: Transition)
        ensures
            t == main_transition(event),
    {
        match event {
            EventKind::Command(name) => handle_command(self, &name),
            EventKind::Text(_) => Transition {
                next: Dialogue::Main(self),
                action: Action::Reply(Reply::UnknownCommand),
            },
            _ => Transition {
                next: Dialogue::Main(self),
                action: Action::Reply(Reply::CommandExpected),
            },
        }
    }
}

impl ReceiveImageTgStickerState {
    /// Reacts to an event while an image is awaited.
    pub fn transition(self, event: EventKind) -> (t: Transition)
        ensures
            t == receive_image_transition(event),
    {
        match event {
            EventKind::Photo(photos) => Transition {
                next: Dialogue::Main(MainState),
                action: match handle_photo(photos) {
                    Ok(file) => Action::RunPipeline(file),
                    Err(_) => Action::Reply(Reply::ProcessingFailed),
                },
            },
            EventKind::Document(document) => Transition {
                next: Dialogue::Main(MainState),
                action: Action::RunPipeline(handle_document(document)),
            },
            EventKind::Unrecognized => Transition {
                next: Dialogue::ReceiveImageTgSticker(self),
                action: Action::Reply(Reply::ImageExpected),
            },
            _ => Transition {
                next: Dialogue::Main(MainState),
                action: Action::Reply(Reply::ImageExpected),
            },
        }
    }
}

impl Dialogue {
    /// Computes the next state and the action for one event.
    pub fn transition(self, event: EventKind) -> (t: Transition)
        ensures
            t == transition_of(self, event),
    {
        match self {
            Dialogue::Main(state) => state.transition(event),
            Dialogue::ReceiveImageTgSticker(state) => state.transition(event),
        }
    }
}

/// The table is total, and this is what it says of every state and event:
/// the machine leaves the idle state on `resize` and on nothing else, and
/// answers in words there; while an image is awaited it runs the pipeline on
/// a document and on a photo that holds a variant, and on nothing else, and
/// goes back to idle on every event but an unrecognized one.
pub proof fn transition_table(state: Dialogue, event: EventKind)
    ensures
        ({
            let t = transition_of(state, event);
            let asks_resize = event matches EventKind::Command(name) && command_named(name@)
                == Some(Command::Resize);
            let holds_media = event is Document || (event matches EventKind::Photo(photos)
                && photos@.len() > 0);
            &&& state is Main ==> (t.next is ReceiveImageTgSticker <==> asks_resize)
            &&& state is Main ==> t.action is Reply
            &&& state is Main && asks_resize ==> t.action == Action::Reply(Reply::SendPicture)
            &&& state is ReceiveImageTgSticker ==> (t.next is Main <==> !(event is Unrecognized))
            &&& state is ReceiveImageTgSticker ==> (t.action is RunPipeline <==> holds_media)
            &&& t.action matches Action::Reply(reply) ==> reply != Reply::ProcessingFailed
                || (state is ReceiveImageTgSticker && event is Photo)
        }),
{
}

} // verus!
