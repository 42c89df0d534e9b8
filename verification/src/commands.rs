//! The commands the bot knows and what it answers in words.

use vstd::prelude::*;

verus! {

/// A command the bot knows.
#[derive(Clone, Copy, Debug, PartialEq, Eq, Structural)]
pub enum Command {
    Start,
    Help,
    Resize,
}

/// The command that a bare name stands for, if any.
pub open spec fn command_named(name: Seq<char>) -> Option<Command> {
    if name == "start"@ {
        Some(Command::Start)
    } else if name == "help"@ {
        Some(Command::Help)
    } else if name == "resize"@ {
        Some(Command::Resize)
    } else {
        None
    }
}

impl Command {
    /// Recognizes a command by its bare, lower-case name.
    pub fn from(name: &String) -> (r: Option<Command>)
        ensures
            r == command_named(name@),
    {
        if name.eq(&"start".to_owned()) {
            Some(Command::Start)
        } else if name.eq(&"help".to_owned()) {
            Some(Command::Help)
        } else if name.eq(&"resize".to_owned()) {
            Some(Command::Resize)
        } else {
            None
        }
    }
}

/// A message the bot sends in words.
#[derive(Clone, Copy, Debug, PartialEq, Eq, Structural)]
pub enum Reply {
    /// What the bot does and how to use it.
    Help,
    /// The prompt after `resize`: an image is awaited.
    SendPicture,
    /// The command or text was not understood.
    UnknownCommand,
    /// Something other than a command arrived where a command was due.
    CommandExpected,
    /// Something other than an image arrived where an image was due.
    ImageExpected,
    /// The apology after a failed pipeline run.
    ProcessingFailed,
}

/// The wording of each reply.
pub open spec fn reply_text(reply: Reply) -> Seq<char> {
    match reply {
        Reply::Help =>
            "Hello, I'm the Resize Image Bot! If you send me an image or an image file, I can resize it to fit in a 512x512 square, and send you back the file in PNG format. \n\nThe result can be sent to the @Stickers bot to add a new sticker to your sticker pack!"@,
        Reply::SendPicture => "OK. Send me a picture"@,
        Reply::UnknownCommand => "Unknown or absent command. Try /help"@,
        Reply::CommandExpected =>
            "Command expected. Try /help to get info about available commands"@,
        Reply::ImageExpected => "Expected image or file containing image."@,
        Reply::ProcessingFailed => "Couldn't process image."@,
    }
}

impl Reply {
    /// The text to send.
    pub fn text(self) -> (text: &'static str)
        ensures
            text@ == reply_text(self),
    {
        match self {
            Reply::Help =>
                "Hello, I'm the Resize Image Bot! If you send me an image or an image file, I can resize it to fit in a 512x512 square, and send you back the file in PNG format. \n\nThe result can be sent to the @Stickers bot to add a new sticker to your sticker pack!",
            Reply::SendPicture => "OK. Send me a picture",
            Reply::UnknownCommand => "Unknown or absent command. Try /help",
            Reply::CommandExpected =>
                "Command expected. Try /help to get info about available commands",
            Reply::ImageExpected => "Expected image or file containing image.",
            Reply::ProcessingFailed => "Couldn't process image.",
        }
    }
}

/// The reply to a command the bot knows: the help text for `start` and
/// `help`, the prompt for `resize`.
pub open spec fn command_reply(command: Command) -> Reply {
    match command {
        Command::Start | Command::Help => Reply::Help,
        Command::Resize => Reply::SendPicture,
    }
}

/// Chooses the reply to a command the bot knows.
pub fn commands_handler(command: Command) -> (reply: Reply)
    ensures
        reply == command_reply(command),
{
    match command {
        Command::Start | Command::Help => Reply::Help,
        Command::Resize => Reply::SendPicture,
    }
}

} // verus!
