//! Normalized file-change notifications.
//!
//! The OS notification facility is an external collaborator; whatever backend
//! delivers raw events, the listener converts each into one of these before
//! any decision is made on it.

use vstd::prelude::*;

verus! {

/// One normalized notification about the watched file.
#[derive(Clone, Debug)]
pub enum ChangeEvent {
    /// The file's contents changed.
    Modified,
    /// The file was read or its metadata touched.
    Accessed,
    /// The file disappeared.
    Removed,
    /// The backend reported a failure for this tick; the listener carries on.
    Error(String),
}

impl ChangeEvent {
    /// True for the event kind that triggers a refresh in automatic mode.
    pub fn is_modified(&self) -> (r: bool)
        ensures
            r == (*self is Modified),
    {
        match self {
            ChangeEvent::Modified => true,
            _ => false,
        }
    }
}

} // verus!
