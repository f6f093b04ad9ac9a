//! Failures of the client layer and the meaning of the engine's status
//! codes.
use vstd::prelude::*;

verus! {

/// Why an operation did not succeed.
#[derive(Debug, Clone, Copy, PartialEq, Eq, Structural)]
pub enum SplinterError {
    /// The engine answered with a status other than zero; the code is
    /// carried as it came.
    Engine { code: i32 },
    /// A key longer than the family's maximum key size was offered.
    KeyTooLarge { len: usize, max: u64 },
    /// A family was asked for with a maximum key size above the ceiling
    /// that the database was configured with.
    MaxKeySizeExceeded { requested: u64, ceiling: u64 },
    /// The database handle is not in the state that the operation needs.
    BadState,
    /// The answer handed in does not belong to the call that was issued.
    Protocol,
}

/// What a status code of the engine means: zero is success, every other
/// code is a failure that carries the code.
pub open spec fn status_result(rc: i32) -> Result<(), SplinterError> {
    if rc == 0 {
        Ok(())
    } else {
        Err(SplinterError::Engine { code: rc })
    }
}

/// The outcome that a status code of the engine stands for.
pub fn as_result(rc: i32) -> (r: Result<(), SplinterError>)
    ensures
        r == status_result(rc),
{
    if rc == 0 {
        Ok(())
    } else {
        Err(SplinterError::Engine { code: rc })
    }
}

} // verus!
