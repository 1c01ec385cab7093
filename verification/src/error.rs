//! The error returned when wrapping a foreign file handle fails.

use vstd::prelude::*;

verus! {

/// Declares `std::io::Error`, the operating-system error type, so that it
/// can be carried through this crate. It is opaque here: nothing is
/// assumed about its values.
#[verifier::external_type_specification]
#[verifier::external_body]
pub struct ExIoError(std::io::Error);

/// Error returned when the file handle given to a validate-and-wrap
/// operation is not an anonymous memory file.
///
/// It carries the OS error that the seal query reported and the original
/// file object, so that a failed wrap hands ownership of the rejected
/// handle back to the caller instead of dropping it.
pub struct FromFdError<T> {
    error: std::io::Error,
    file: T,
}

impl<T> FromFdError<T> {
    /// The OS error of this failure.
    pub closed spec fn spec_error(&self) -> std::io::Error {
        self.error
    }

    /// The rejected file object.
    pub closed spec fn spec_file(&self) -> T {
        self.file
    }

    /// Pack the OS error of a failed validation together with the
    /// rejected file object.
    pub fn new(error: std::io::Error, file: T) -> (r: Self)
        ensures
            r.spec_error() == error,
            r.spec_file() == file,
    {
        FromFdError { error, file }
    }

    /// Get a reference to the I/O error.
    pub fn error(&self) -> (r: &std::io::Error)
        ensures
            *r == self.spec_error(),
    {
        &self.error
    }

    /// Get a reference to the original file object.
    pub fn file(&self) -> (r: &T)
        ensures
            *r == self.spec_file(),
    {
        &self.file
    }

    /// Consume the struct and return the I/O error and the original file
    /// object as a tuple.
    pub fn into_parts(self) -> (r: (std::io::Error, T))
        ensures
            r.0 == self.spec_error(),
            r.1 == self.spec_file(),
    {
        (self.error, self.file)
    }

    /// Consume the struct and return the I/O error.
    pub fn into_error(self) -> (r: std::io::Error)
        ensures
            r == self.spec_error(),
    {
        self.error
    }

    /// Consume the struct and return the original file object.
    pub fn into_file(self) -> (r: T)
        ensures
            r == self.spec_file(),
    {
        self.file
    }
}

} // verus!
