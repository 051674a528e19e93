use vstd::prelude::*;

verus! {

/// An error surfaced while producing samples.
///
/// Errors mostly originate in decoders sitting below a `Sound`. A failure of
/// the underlying byte source is reported as `IoError`; a failure to
/// understand the bytes themselves is reported as `FormatError`. Each variant
/// carries a human-readable description of the failure.
#[derive(Debug)]
pub enum Error {
    /// An I/O operation failed.
    IoError(String),
    /// The data being decoded did not conform to its format.
    FormatError(String),
}

impl Error {
    /// The description this error was created with.
    pub fn message(&self) -> (r: &String)
        ensures
            (match self {
                Error::IoError(m) => r@ == m@,
                Error::FormatError(m) => r@ == m@,
            }),
    {
        match self {
            Error::IoError(m) => m,
            Error::FormatError(m) => m,
        }
    }

    /// Whether this error is an `IoError`.
    pub fn is_io_error(&self) -> (r: bool)
        ensures
            r == (self is IoError),
    {
        match self {
            Error::IoError(_) => true,
            Error::FormatError(_) => false,
        }
    }
}

} // verus!
