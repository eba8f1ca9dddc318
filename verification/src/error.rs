//! Why reading a line can fail.

use vstd::prelude::*;

verus! {

/// `std::io::Error`, carried through as it came: nothing is known of its content.
#[verifier::external_type_specification]
#[verifier::external_body]
pub struct ExIoError(std::io::Error);

/// The failure of one attempt to read a line.
#[derive(Debug)]
pub enum ReadError {
    /// The byte source failed; the value is the failure as the source reported it.
    Io(std::io::Error),
    /// The codec gave up on the bytes of the line.
    InvalidData,
}

/// The fixed description of [`ReadError::InvalidData`].
pub const INVALID_DATA_MESSAGE: &'static str = "stream did not contain valid character data";

impl ReadError {
    /// Whether the codec, and not the byte source, caused the failure.
    pub fn is_invalid_data(&self) -> (b: bool)
        ensures
            b == (self is InvalidData),
    {
        match self {
            ReadError::InvalidData => true,
            ReadError::Io(_) => false,
        }
    }
}

} // verus!
