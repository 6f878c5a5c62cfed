//! Joining a directory and a file name into the path of the file.

use vstd::prelude::*;

verus! {

/// The text of the path that `std::path::Path::join` gives for a directory and
/// a file name. The join follows the conventions of the platform that the
/// library is built for (its separator, and what it takes for an absolute
/// file name), so nothing more is said of it here than that it is settled by
/// the two texts.
pub uninterp spec fn joined_path(directory: Seq<char>, file_name: Seq<char>) -> Seq<char>;

/// Calls `std::path::Path::join` on `directory` with `file_name` and hands the
/// joined path back as text. Both arguments are UTF-8, so the joined path is
/// too, and turning it into a `String` loses nothing. The contract claims only
/// that the text is the one that `joined_path` stands for.
#[verifier::external_body]
pub(crate) fn join_path(directory: &str, file_name: &str) -> (path: String)
    ensures
        path@ == joined_path(directory@, file_name@),
{
    std::path::Path::new(directory).join(file_name).to_string_lossy().into_owned()
}

} // verus!
