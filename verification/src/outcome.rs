//! Interpretation of a raw syscall return value: the single error category
//! this layer knows. A negative return means the call failed and the
//! process-wide error code says why; a non-negative return is the call's
//! result. The hosting program performs the call and reads the error code;
//! this function fixes, for every pair of values, which outcome the caller
//! sees.

use vstd::prelude::*;

verus! {

/// A failed operating-system call, carrying the kernel's error code.
#[derive(Clone, Copy, Debug, PartialEq, Eq, Structural)]
pub struct OsError {
    pub code: i32,
}

/// Maps a raw return value and the error code read after the call to the
/// structured outcome: `Err` carrying the code exactly when the raw value is
/// negative, else `Ok` with the raw value itself, losslessly and with no
/// other classification.
pub fn interpret_return(res: i32, errno: i32) -> (r: Result<i32, OsError>)
    ensures
        res < 0 ==> r == Result::<i32, OsError>::Err(OsError { code: errno }),
        res >= 0 ==> r == Result::<i32, OsError>::Ok(res),
{
    if res < 0 {
        Err(OsError { code: errno })
    } else {
        Ok(res)
    }
}

} // verus!
