//! What is asked to be saved, and the one write that a save comes to.

use vstd::prelude::*;
use crate::path::joined_path;

verus! {

/// A request to save `data` as the file `file_name` in `directory`.
///
/// Neither text is checked: a file name with parent segments, or an absolute
/// one, is taken as it comes.
#[derive(Debug, Clone, PartialEq, Eq)]
pub struct SaveRequest {
    pub directory: String,
    pub file_name: String,
    pub data: Vec<u8>,
}

/// A `SaveRequest` as contracts see it.
pub struct SaveRequestView {
    pub directory: Seq<char>,
    pub file_name: Seq<char>,
    pub data: Seq<u8>,
}

impl View for SaveRequest {
    type V = SaveRequestView;

    open spec fn view(&self) -> SaveRequestView {
        SaveRequestView {
            directory: self.directory@,
            file_name: self.file_name@,
            data: self.data@,
        }
    }
}

/// The order to write `data` to the file at `path`, in place of whatever the
/// file held before.
#[derive(Debug, Clone, PartialEq, Eq)]
pub struct FileWrite {
    pub path: String,
    pub data: Vec<u8>,
}

/// A `FileWrite` as contracts see it.
pub struct FileWriteView {
    pub path: Seq<char>,
    pub data: Seq<u8>,
}

impl View for FileWrite {
    type V = FileWriteView;

    open spec fn view(&self) -> FileWriteView {
        FileWriteView { path: self.path@, data: self.data@ }
    }
}

impl SaveRequestView {
    /// The path of the file that the request names.
    pub open spec fn target(self) -> Seq<char> {
        joined_path(self.directory, self.file_name)
    }

    /// The write that the request comes to: its bytes, as they are, to its
    /// target.
    pub open spec fn write(self) -> FileWriteView {
        FileWriteView { path: self.target(), data: self.data }
    }
}

impl SaveRequest {
    /// The request to save `data` as `file_name` in `directory`.
    pub fn new(directory: String, file_name: String, data: Vec<u8>) -> (request: SaveRequest)
        ensures
            request@ == (SaveRequestView {
                directory: directory@,
                file_name: file_name@,
                data: data@,
            }),
    {
        SaveRequest { directory, file_name, data }
    }
}

impl FileWrite {
    /// The order to write `data` to the file at `path`.
    pub fn new(path: String, data: Vec<u8>) -> (write: FileWrite)
        ensures
            write@ == (FileWriteView { path: path@, data: data@ }),
    {
        FileWrite { path, data }
    }
}

} // verus!
