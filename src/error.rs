//! Failures that the library reports to its callers.
use vstd::prelude::*;
use vstd::string::*;

verus! {

/// A failure surfaced to the caller instead of a panic.
#[derive(Debug, Clone)]
pub enum Error {
    /// A free-form failure message.
    Msg(String),
    /// A type shape for which no binding strategy exists; generation stops
    /// for that type.
    DescriptorInvalid(String),
    /// A two-dimensional buffer whose rows do not all have the expected
    /// length, or whose element count does not match its shape.
    DimensionMismatch { expected: usize, found: usize },
    /// A container index outside `0..len` (`0..=len` for insertion).
    IndexOutOfRange { index: usize, len: usize },
    /// A value that could not be read as the expected sequence or buffer.
    ExtractionFailure(String),
}

impl Error {
    /// A free-form failure carrying `msg`.
    pub fn msg(msg: &str) -> (r: Error)
        ensures
            r matches Error::Msg(m) && m@ == msg@,
    {
        Error::Msg(String::from_str(msg))
    }
}

} // verus!
