//! The two ways in which a save fails, and the text that reports each.

use vstd::prelude::*;
use vstd::string::StringExecFns;

verus! {

/// Why a save did not happen. Each kind carries the cause as the operating
/// system worded it.
#[derive(Debug, Clone, PartialEq, Eq)]
pub enum SaveError {
    /// The directory, or one of its missing ancestors, could not be created.
    DirectoryCreationFailed(String),
    /// The file could not be written.
    FileWriteFailed(String),
}

/// A `SaveError` as contracts see it.
pub enum SaveErrorView {
    DirectoryCreationFailed(Seq<char>),
    FileWriteFailed(Seq<char>),
}

impl View for SaveError {
    type V = SaveErrorView;

    open spec fn view(&self) -> SaveErrorView {
        match self {
            SaveError::DirectoryCreationFailed(cause) => SaveErrorView::DirectoryCreationFailed(
                cause@,
            ),
            SaveError::FileWriteFailed(cause) => SaveErrorView::FileWriteFailed(cause@),
        }
    }
}

impl SaveErrorView {
    /// The cause that the error carries.
    pub open spec fn cause(self) -> Seq<char> {
        match self {
            SaveErrorView::DirectoryCreationFailed(cause) => cause,
            SaveErrorView::FileWriteFailed(cause) => cause,
        }
    }

    /// The words that say which of the two steps failed.
    pub open spec fn heading(self) -> Seq<char> {
        match self {
            SaveErrorView::DirectoryCreationFailed(_) => "Failed to create directory: "@,
            SaveErrorView::FileWriteFailed(_) => "Failed to write file: "@,
        }
    }

    /// The text that the caller is shown: the heading, then the cause.
    pub open spec fn message(self) -> Seq<char> {
        self.heading() + self.cause()
    }
}

impl SaveError {
    /// The cause that the error carries.
    pub fn cause(&self) -> (cause: &str)
        ensures
            cause@ == self@.cause(),
    {
        match self {
            SaveError::DirectoryCreationFailed(cause) => cause.as_str(),
            SaveError::FileWriteFailed(cause) => cause.as_str(),
        }
    }

    /// The text that the caller is shown: the heading, then the cause.
    pub fn message(&self) -> (text: String)
        ensures
            text@ == self@.message(),
    {
        let heading = match self {
            SaveError::DirectoryCreationFailed(_) => "Failed to create directory: ",
            SaveError::FileWriteFailed(_) => "Failed to write file: ",
        };
        String::from_str(heading).concat(self.cause())
    }
}

} // verus!
