//! Saving and loading a record under one of three interchangeable encodings,
//! with a fetch-or-default policy for absent or unreadable files.
//!
//! A record is held as its field values in order (`Vec<u64>`). The file
//! system itself is left to the caller: the functions here take what was
//! read and return what is to be written.

pub mod codec;
pub mod format;
pub mod recovery;
pub mod save;
