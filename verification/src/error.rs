//! Result codes of the system and the error they turn into.

use vstd::prelude::*;

verus! {

/// The error of a call into a system service.
#[derive(Copy, Clone, Debug, PartialEq, Eq, Structural)]
pub enum Error {
    /// The system answered with this failing result code.
    Os(i32),
}

/// Whether a result code of the system reports a failure: the failing codes are the negative ones.
pub open spec fn is_failure(code: i32) -> bool {
    code < 0
}

/// A result code, as a system call returns it.
#[derive(Copy, Clone, Debug, PartialEq, Eq, Structural)]
pub struct ResultCode(pub i32);

impl ResultCode {
    /// `Ok` for a code that reports success, the code as an error otherwise.
    pub fn into_result(self) -> (r: Result<(), Error>)
        ensures
            r == if is_failure(self.0) {
                Err::<(), Error>(Error::Os(self.0))
            } else {
                Ok::<(), Error>(())
            },
    {
        if self.0 < 0 {
            Err(Error::Os(self.0))
        } else {
            Ok(())
        }
    }
}

} // verus!
