use vstd::prelude::*;

verus! {

/// The failures that the library reports.
#[derive(Debug, Clone, Copy, PartialEq, Eq, Structural)]
pub enum ClideError {
    /// A filesystem read, write or listing failed.
    Io,
    /// Save or reload was attempted on a buffer without a path.
    NoFilePath,
    /// A tab operation named an index out of range.
    InvalidIndex,
    /// The explorer was queried before anything was selected.
    NoSelection,
    /// A path has no final component to name it (for instance `/`).
    NoFileName,
    /// Two entries of one directory share a name.
    DuplicateEntry,
    /// More than one run mode was requested on the command line.
    MultipleRunModes,
}

} // verus!
