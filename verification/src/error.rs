//! The ways in which an export can fail.

use vstd::prelude::*;

verus! {

/// Why an operation of an export session failed.
#[derive(Clone, Copy, Debug, PartialEq, Eq, Structural)]
pub enum ExportError {
    /// A codec, pixel format or container could not be resolved, or the
    /// encoder or the writer could not be set up from the settings given.
    Configuration,
    /// The output file could not be created, or a write to it failed.
    Io,
    /// A frame was not accepted for encoding.
    Encoding,
    /// The container writer rejected a packet, or could not be finalized.
    Mux,
    /// The operation is not valid in the state the session is in.
    InvalidState,
}

impl ExportError {
    /// A short description of the error.
    pub fn message(&self) -> (text: String)
        ensures
            text@ == (match *self {
                ExportError::Configuration => "configuration error"@,
                ExportError::Io => "i/o error"@,
                ExportError::Encoding => "encoding error"@,
                ExportError::Mux => "mux error"@,
                ExportError::InvalidState => "invalid session state"@,
            }),
    {
        match self {
            ExportError::Configuration => "configuration error".to_owned(),
            ExportError::Io => "i/o error".to_owned(),
            ExportError::Encoding => "encoding error".to_owned(),
            ExportError::Mux => "mux error".to_owned(),
            ExportError::InvalidState => "invalid session state".to_owned(),
        }
    }
}

} // verus!
