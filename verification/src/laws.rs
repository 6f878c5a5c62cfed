//! What holds of every save, whatever the disk does.
//!
//! The library orders the work and words the reply; the disk is the caller's.
//! These laws say what the decisions alone settle: which path is written, with
//! which bytes, and when a path is handed back at all.

use vstd::prelude::*;
use crate::error::SaveErrorView;
use crate::request::{FileWriteView, SaveRequestView};
use crate::steps::{reply_of, save_reply};

verus! {

/// The reply that the steps come to when they are taken one after the other:
/// the write step only where the directory step ordered a write.
pub open spec fn reply_of_steps(
    request: SaveRequestView,
    creation: Result<(), Seq<char>>,
    write: Result<(), Seq<char>>,
) -> Result<Seq<char>, Seq<char>> {
    reply_of(
        match request.after_directory_creation(creation) {
            Ok(order) => order.after_file_write(write),
            Err(error) => Err(error),
        },
    )
}

/// Taken one after the other, the steps hand back what `save_reply` says of
/// the whole save.
pub proof fn lemma_steps_make_the_save(
    request: SaveRequestView,
    creation: Result<(), Seq<char>>,
    write: Result<(), Seq<char>>,
)
    ensures
        reply_of_steps(request, creation, write) == save_reply(request, creation, write),
{
}

/// Where the directory is created and the file written, the save succeeds:
/// the write is ordered for the request's bytes, none added, dropped or
/// changed, be they none at all; and the path handed back is the one that
/// they were written to.
pub proof fn lemma_success_hands_back_the_path_written(request: SaveRequestView)
    ensures
        request.after_directory_creation(Ok(())) == Ok::<FileWriteView, SaveErrorView>(
            request.write(),
        ),
        request.write().data == request.data,
        request.write().after_file_write(Ok(())) == Ok::<Seq<char>, SaveErrorView>(
            request.write().path,
        ),
        save_reply(request, Ok(()), Ok(())) == Ok::<Seq<char>, Seq<char>>(request.write().path),
{
}

/// A path is handed back only where both pieces of work went well.
pub proof fn lemma_path_only_after_both_went_well(
    request: SaveRequestView,
    creation: Result<(), Seq<char>>,
    write: Result<(), Seq<char>>,
)
    ensures
        save_reply(request, creation, write) is Ok <==> creation is Ok && write is Ok,
{
}

/// Where the directory cannot be created, no write is ordered, and the reply
/// is the message of that failure with its cause, however a write would have
/// gone.
pub proof fn lemma_failed_creation_orders_no_write(
    request: SaveRequestView,
    cause: Seq<char>,
    write: Result<(), Seq<char>>,
)
    ensures
        request.after_directory_creation(Err(cause)) == Err::<FileWriteView, SaveErrorView>(
            SaveErrorView::DirectoryCreationFailed(cause),
        ),
        save_reply(request, Err(cause), write) == Err::<Seq<char>, Seq<char>>(
            SaveErrorView::DirectoryCreationFailed(cause).message(),
        ),
{
}

/// Where the file cannot be written, the reply is the message of that failure
/// with its cause.
pub proof fn lemma_failed_write_is_reported(request: SaveRequestView, cause: Seq<char>)
    ensures
        request.write().after_file_write(Err(cause)) == Err::<Seq<char>, SaveErrorView>(
            SaveErrorView::FileWriteFailed(cause),
        ),
        save_reply(request, Ok(()), Err(cause)) == Err::<Seq<char>, Seq<char>>(
            SaveErrorView::FileWriteFailed(cause).message(),
        ),
{
}

/// Two requests with the same directory and file name are written to the same
/// path, each with its own bytes alone: of what the first one held, nothing
/// goes into the second write.
pub proof fn lemma_same_names_same_path(first: SaveRequestView, second: SaveRequestView)
    requires
        first.directory == second.directory,
        first.file_name == second.file_name,
    ensures
        second.write().path == first.write().path,
        second.write().data == second.data,
{
}

} // verus!
