//! The decisions of a save, one after each piece of work on the disk.
//!
//! A save is two pieces of work that the caller does: creating the directory
//! with its missing ancestors, then writing the file. After each the caller
//! reports how it went, `Ok(())` or the cause of the failure in words, and is
//! told what follows.

use vstd::prelude::*;
use crate::error::{SaveError, SaveErrorView};
use crate::path::{join_path, joined_path};
use crate::request::{FileWrite, FileWriteView, SaveRequest, SaveRequestView};

verus! {

/// A `Result` as contracts see it: the view of what it holds, on either side.
pub open spec fn view_result<T: View, E: View>(result: Result<T, E>) -> Result<T::V, E::V> {
    match result {
        Ok(value) => Ok(value@),
        Err(error) => Err(error@),
    }
}

impl SaveRequestView {
    /// What follows the creation of the directory: the write, if the directory
    /// is there; else the end of the save, with the cause.
    pub open spec fn after_directory_creation(self, creation: Result<(), Seq<char>>) -> Result<
        FileWriteView,
        SaveErrorView,
    > {
        match creation {
            Ok(_) => Ok(self.write()),
            Err(cause) => Err(SaveErrorView::DirectoryCreationFailed(cause)),
        }
    }
}

impl FileWriteView {
    /// What follows the write: the path of the file, if it was written; else
    /// the cause.
    pub open spec fn after_file_write(self, write: Result<(), Seq<char>>) -> Result<
        Seq<char>,
        SaveErrorView,
    > {
        match write {
            Ok(_) => Ok(self.path),
            Err(cause) => Err(SaveErrorView::FileWriteFailed(cause)),
        }
    }
}

/// What the caller of a save is handed: the path as it is, or the error's
/// message in place of the error.
pub open spec fn reply_of(result: Result<Seq<char>, SaveErrorView>) -> Result<
    Seq<char>,
    Seq<char>,
> {
    match result {
        Ok(path) => Ok(path),
        Err(error) => Err(error.message()),
    }
}

/// What a save hands back, given how each of the two pieces of work went:
/// the path of the file when both went well, else the message of the first
/// failure. Of `write` nothing is read unless the directory was created.
pub open spec fn save_reply(
    request: SaveRequestView,
    creation: Result<(), Seq<char>>,
    write: Result<(), Seq<char>>,
) -> Result<Seq<char>, Seq<char>> {
    match creation {
        Err(cause) => Err("Failed to create directory: "@ + cause),
        Ok(_) => match write {
            Err(cause) => Err("Failed to write file: "@ + cause),
            Ok(_) => Ok(joined_path(request.directory, request.file_name)),
        },
    }
}

impl SaveRequest {
    /// Decides what follows the creation of `self.directory`, of which
    /// `creation` says how it went.
    pub fn after_directory_creation(self, creation: Result<(), String>) -> (next: Result<
        FileWrite,
        SaveError,
    >)
        ensures
            view_result(next) == self@.after_directory_creation(view_result(creation)),
    {
        match creation {
            Ok(_) => {
                let path = join_path(self.directory.as_str(), self.file_name.as_str());
                Ok(FileWrite::new(path, self.data))
            },
            Err(cause) => Err(SaveError::DirectoryCreationFailed(cause)),
        }
    }
}

impl FileWrite {
    /// Decides how the save ends after the write, of which `write` says how it
    /// went.
    pub fn after_file_write(self, write: Result<(), String>) -> (result: Result<String, SaveError>)
        ensures
            view_result(result) == self@.after_file_write(view_result(write)),
    {
        match write {
            Ok(_) => Ok(self.path),
            Err(cause) => Err(SaveError::FileWriteFailed(cause)),
        }
    }
}

/// Turns the end of a save into what its caller is handed.
pub fn reply(result: Result<String, SaveError>) -> (reply: Result<String, String>)
    ensures
        view_result(reply) == reply_of(view_result(result)),
{
    match result {
        Ok(path) => Ok(path),
        Err(error) => Err(error.message()),
    }
}

} // verus!
