//! The closed taxonomy of failure kinds reported by the parser.

use vstd::prelude::*;

verus! {

/// Every failure the parser can report.
///
/// `Malformed` carries a human-readable detail string naming the offending
/// entity; callers must not depend on its exact text.
#[derive(Debug)]
pub enum Error {
    /// A typed read was attempted at a position not aligned for the target type.
    Misaligned,
    /// A read would cross the end of the backing slice.
    InsufficientBuffer,
    /// A validator or decoder rejected a field value.
    Malformed(String),
    /// A magic number indicates a non-PE32+ file.
    InvalidFileFormat,
    /// The requested data directory has size zero.
    DataDirectoryEmpty,
    /// No section backs the RVA of the requested directory.
    SectionEmpty,
}

impl Error {
    /// Wraps a detail message into the `Malformed` kind, as the error side of
    /// a result.
    pub fn make_malformed<R>(m: String) -> (r: Result<R, Error>)
        ensures
            r == Result::<R, Error>::Err(Error::Malformed(m)),
    {
        Err(Error::Malformed(m))
    }
}

} // verus!
