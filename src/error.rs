use vstd::prelude::*;

verus! {

/// The failure of one operating-system call, carrying the error code that the
/// system reported for that call.
#[derive(Debug, Clone, Copy, PartialEq, Eq, Structural)]
pub struct OsCallError {
    pub code: u32,
}

impl OsCallError {
    /// Wraps the error code captured right after a failing call.
    pub fn from_code(code: u32) -> (r: OsCallError)
        ensures
            r.code == code,
    {
        OsCallError { code }
    }

    /// The error code the system reported.
    pub fn error_code(&self) -> (r: u32)
        ensures
            r == self.code,
    {
        self.code
    }
}

} // verus!
