//! Which file a media event asks to have resized, and what is said to the
//! user once a pipeline run has ended.

use crate::commands::Reply;
use crate::error::PipelineError;
use crate::event::{Document, FileReference, PhotoSize};
use vstd::prelude::*;

verus! {

/// Whether `index` is the photo to process: none is wider, and every
/// earlier one is narrower.
pub open spec fn is_widest(photos: Seq<PhotoSize>, index: int) -> bool {
    &&& 0 <= index < photos.len()
    &&& forall|j: int| 0 <= j < photos.len() ==> photos[j].width <= photos[index].width
    &&& forall|j: int| 0 <= j < index ==> photos[j].width < photos[index].width
}

/// The index of the photo to process: the first among the widest.
pub open spec fn widest(photos: Seq<PhotoSize>) -> int {
    choose|index: int| is_widest(photos, index)
}

/// At most one index is the widest.
pub proof fn widest_is_unique(photos: Seq<PhotoSize>, a: int, b: int)
    requires
        is_widest(photos, a),
        is_widest(photos, b),
    ensures
        a == b,
{
    if a < b {
        assert(photos[a].width < photos[b].width);
    } else if b < a {
        assert(photos[b].width < photos[a].width);
    }
}

/// Finds the widest photo, the first of them where several are as wide.
pub fn select_widest(photos: &Vec<PhotoSize>) -> (r: Option<usize>)
    ensures
        r is None <==> photos@.len() == 0,
        r matches Some(index) ==> is_widest(photos@, index as int) && index == widest(photos@),
{
    if photos.len() == 0 {
        return None;
    }
    let mut best: usize = 0;
    let mut next: usize = 1;
    while next < photos.len()
        invariant
            0 <= best < next <= photos.len(),
            forall|j: int| 0 <= j < next ==> photos[j].width <= photos[best as int].width,
            forall|j: int| 0 <= j < best ==> photos[j].width < photos[best as int].width,
        decreases photos.len() - next,
    {
        if photos[next].width > photos[best].width {
            best = next;
        }
        next += 1;
    }
    proof {
        assert(is_widest(photos@, best as int));
        widest_is_unique(photos@, best as int, widest(photos@));
    }
    Some(best)
}

/// The file that a photo payload asks to have resized.
pub open spec fn photo_choice(photos: Seq<PhotoSize>) -> Result<FileReference, PipelineError> {
    if photos.len() == 0 {
        Err(PipelineError::NoMediaFound)
    } else {
        Ok(photos[widest(photos)].file)
    }
}

/// Chooses the file to resize from a photo payload: the widest variant, or
/// `NoMediaFound` where the payload holds none.
pub fn handle_photo(photos: Vec<PhotoSize>) -> (r: Result<FileReference, PipelineError>)
    ensures
        r == photo_choice(photos@),
{
    let mut photos = photos;
    match select_widest(&photos) {
        Some(index) => {
            let chosen = photos.swap_remove(index);
            Ok(chosen.file)
        },
        None => Err(PipelineError::NoMediaFound),
    }
}

/// Chooses the file to resize from a document: the document itself,
/// whatever type its sender declared.
pub fn handle_document(document: Document) -> (file: FileReference)
    ensures
        file == document.file,
{
    document.file
}

/// What is said to the user after a pipeline run: nothing after a success
/// (the document was the answer), the apology after any failure.
pub open spec fn result_reply(result: Result<(), PipelineError>) -> Option<Reply> {
    match result {
        Ok(()) => None,
        Err(_) => Some(Reply::ProcessingFailed),
    }
}

/// Decides what to tell the user once a pipeline run has ended.
pub fn handle_result(result: Result<(), PipelineError>) -> (reply: Option<Reply>)
    ensures
        reply == result_reply(result),
{
    match result {
        Ok(()) => None,
        Err(_) => Some(Reply::ProcessingFailed),
    }
}

} // verus!
