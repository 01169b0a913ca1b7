//! The unified error union of the pipeline. Every stage failure is carried as
//! one of these variants, each with enough context for one diagnostic line;
//! all are fatal and none is retried.

use vstd::prelude::*;

verus! {

/// One fatal pipeline failure. String payloads carry the underlying cause
/// rendered as text; `MissingFile` carries the full resolved path; and
/// `InvalidMode` carries the offending mode tag.
#[derive(Debug, PartialEq)]
pub enum GeneralError {
    /// The configuration text did not parse.
    TOMLError(String),
    /// A file or directory could not be created or written.
    FileError(String),
    /// The external decoder rejected the legacy save file.
    ClassicError(String),
    /// The external converter could not map the decoded world.
    ConversionError(String),
    /// The storage-file write failed.
    WriteError(String),
    /// The resolved input path does not exist.
    MissingFile(String),
    /// The configured output mode is neither 0 nor 1.
    InvalidMode(u8),
}

} // verus!
