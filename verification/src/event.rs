//! Inbound events, as the state machine sees them.

use vstd::prelude::*;

verus! {

/// Identifies one conversation. Stable for the conversation's lifetime.
#[derive(Clone, Copy, Debug, PartialEq, Eq, Hash, Structural)]
pub struct ConversationId(pub i64);

/// A file on the chat platform: its identifier and, where known, its size
/// in bytes. It is resolved to a download path only when a pipeline runs.
#[derive(Debug, PartialEq, Eq)]
pub struct FileReference {
    pub id: String,
    pub size: Option<u32>,
}

impl Clone for FileReference {
    fn clone(&self) -> (copy: Self)
        ensures
            copy == *self,
    {
        FileReference { id: self.id.clone(), size: self.size }
    }
}

/// One resolution of a photo.
#[derive(Debug, PartialEq, Eq)]
pub struct PhotoSize {
    pub file: FileReference,
    pub width: u32,
    pub height: u32,
}

/// A file sent as an attachment, with the type its sender declared.
#[derive(Debug, PartialEq, Eq)]
pub struct Document {
    pub file: FileReference,
    pub mime_type: Option<String>,
}

/// What an inbound notification holds.
#[derive(Debug, PartialEq, Eq)]
pub enum EventKind {
    /// A command, by its bare name (no slash, no arguments).
    Command(String),
    /// Free text.
    Text(String),
    /// A photo in one or more resolutions.
    Photo(Vec<PhotoSize>),
    /// A file attachment.
    Document(Document),
    /// Anything else.
    Unrecognized,
}

/// One inbound notification and the conversation it belongs to.
#[derive(Debug, PartialEq, Eq)]
pub struct Event {
    pub conversation: ConversationId,
    pub kind: EventKind,
}

} // verus!
