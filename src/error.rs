use vstd::prelude::*;

verus! {

/// Why a command failed. Each kind carries the message of the underlying
/// failure, which is what crosses the command boundary.
#[derive(Debug, Clone, PartialEq)]
pub enum CommandError {
    /// The host could not provide a requested OS directory.
    PathResolution(String),
    /// Creating the directory, or reading or writing the file, failed.
    Filesystem(String),
    /// The document could not be rendered as JSON text.
    Serialization(String),
    /// The stored text is not a JSON document.
    Deserialization(String),
    /// The OS could not reveal the given path.
    OpenFailed(String),
}

impl CommandError {
    /// The message that a caller receives for this error.
    pub open spec fn message_spec(&self) -> Seq<char> {
        match self {
            CommandError::PathResolution(m) => m@,
            CommandError::Filesystem(m) => m@,
            CommandError::Serialization(m) => m@,
            CommandError::Deserialization(m) => m@,
            CommandError::OpenFailed(m) => m@,
        }
    }

    /// The single string that reports this error to the caller.
    pub fn message(&self) -> (r: String)
        ensures
            r@ == self.message_spec(),
    {
        match self {
            CommandError::PathResolution(m) => m.clone(),
            CommandError::Filesystem(m) => m.clone(),
            CommandError::Serialization(m) => m.clone(),
            CommandError::Deserialization(m) => m.clone(),
            CommandError::OpenFailed(m) => m.clone(),
        }
    }
}

} // verus!
