//! The ways one pipeline run can fail.

use vstd::prelude::*;

verus! {

/// Why a pipeline run did not deliver a resized image.
#[derive(Clone, Copy, Debug, PartialEq, Eq, Structural)]
pub enum PipelineError {
    /// A request to the chat platform failed.
    RemoteCommunicationError,
    /// The payload is not an image this crate can decode.
    DecodeError,
    /// An event that should carry media carried none.
    NoMediaFound,
    /// Local temporary storage or memory could not be had.
    LocalResourceError,
}

} // verus!
