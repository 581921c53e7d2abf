use vstd::prelude::*;
use crate::error::CommandError;

verus! {

/// The result of revealing a folder, given the host's outcome: a refusal by
/// the OS becomes an open-failed error with the OS's message.
pub fn open_folder_result(opened: Result<(), String>) -> (r: Result<(), CommandError>)
    ensures
        match opened {
            Ok(()) => r is Ok,
            Err(m) => r == Err::<(), CommandError>(CommandError::OpenFailed(m)),
        },
{
    match opened {
        Ok(()) => Ok(()),
        Err(m) => Err(CommandError::OpenFailed(m)),
    }
}

} // verus!
