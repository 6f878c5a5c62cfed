//! The decisions of saving a byte buffer under a directory and a file name.
//!
//! The library touches no disk. It says which directory has to exist, which
//! file has to be written with which bytes, and what the caller is told in the
//! end; the program around it creates the directory and writes the file, and
//! reports back how each of the two went.

pub mod error;
pub mod laws;
pub mod path;
pub mod request;
pub mod steps;

pub use error::SaveError;
pub use request::{FileWrite, SaveRequest};
pub use steps::reply;
