//! What can go wrong, and how the engine's status is read.

use vstd::prelude::*;

verus! {

/// The status code by which the engine reports that nothing has failed.
pub const STATUS_SUCCESS: i32 = 0;

/// An error of this back-end.
#[derive(Clone, Copy, Debug, PartialEq, Eq, Structural)]
pub enum Error {
    /// An image was asked for in a pixel format that the converter does not
    /// take.
    NotSupported,
    /// The engine's status is not success; the code is the engine's own.
    EngineStatus(i32),
    /// Something of the engine's is in use elsewhere and cannot be had
    /// exclusively.
    BorrowConflict,
}

/// What a status code of the engine means to a caller.
pub open spec fn status_result(code: i32) -> Result<(), Error> {
    if code == STATUS_SUCCESS {
        Ok(())
    } else {
        Err(Error::EngineStatus(code))
    }
}

/// Reads the engine's status. The engine keeps the first failure until it is
/// asked, so every check after a failure reports it again.
pub fn status(code: i32) -> (r: Result<(), Error>)
    ensures
        r == status_result(code),
{
    if code == STATUS_SUCCESS {
        Ok(())
    } else {
        Err(Error::EngineStatus(code))
    }
}

} // verus!
