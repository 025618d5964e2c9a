//! The errors that the library reports.
use vstd::prelude::*;

verus! {

/// What went wrong in building, encoding or writing an event.
#[derive(Debug, PartialEq, Eq)]
pub enum Error {
    /// The caller passed an argument that cannot be used.
    InvalidArgumentsError { desc: String },
    /// A path or a host name is not valid Unicode.
    UnicodeError { desc: String },
    /// A value could not be turned into its wire structure.
    ConversionError { desc: String },
    /// The byte sink failed to take bytes or to flush.
    IoError { desc: String },
}

} // verus!
