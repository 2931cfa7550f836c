//! Error kinds for reading and decoding a watched file.

use vstd::prelude::*;

verus! {

/// The watched file could not be read (missing or unreadable path).
#[derive(Clone, Debug)]
pub struct IoError {
    pub message: String,
}

/// The file's content is malformed for the declared format.
#[derive(Clone, Debug)]
pub struct ParseError {
    pub message: String,
}

/// Everything that can go wrong in a read-and-decode operation.
///
/// Setup-time failures propagate to the caller; the background refresh path
/// swallows both kinds and keeps the last good value instead.
#[derive(Clone, Debug)]
pub enum ReadError {
    /// Reading the file failed.
    Io(IoError),
    /// Decoding the file's text failed.
    Parse(ParseError),
}

impl ReadError {
    /// True when this error came from the I/O side.
    pub fn is_io(&self) -> (r: bool)
        ensures
            r == (*self is Io),
    {
        match self {
            ReadError::Io(_) => true,
            ReadError::Parse(_) => false,
        }
    }

    /// True when this error came from the decoding side.
    pub fn is_parse(&self) -> (r: bool)
        ensures
            r == (*self is Parse),
    {
        match self {
            ReadError::Io(_) => false,
            ReadError::Parse(_) => true,
        }
    }
}

} // verus!
