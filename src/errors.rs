//! Errors reported to the user around the resolver.
use vstd::prelude::*;

verus! {

/// A query file that could not be read.
#[derive(Debug)]
pub enum FileParseError {
    /// The file's extension is not a supported query format.
    UnsupportedFileExtension { ext: String, path: String },
    /// The path has no extension to go by.
    UnknownFileExtension(String),
    /// There is no file at the path.
    NotFound(String),
}

/// A failed run of `cargo-geiger`.
#[derive(Debug)]
pub enum GeigerError {
    /// The tool exited with this status; its error output follows.
    NonZeroStatus(i32, String),
    /// The output could not be parsed: the parser's message, and the output.
    UnexpectedOutput(String, String),
}

} // verus!
