//! The one error of this library: a system call failed, and the operating
//! system said why.

use vstd::prelude::*;

verus! {

/// A failure of the transport or the operating system, with the system's
/// error number.
#[derive(Clone, Copy, Debug, PartialEq, Eq, Structural)]
pub struct OsError {
    pub code: i32,
}

/// Reads the result of a call that returns an `int`: a negative one is a
/// failure, explained by `errno`; any other is the value asked for.
pub fn cvt(v: i32, errno: i32) -> (r: Result<i32, OsError>)
    ensures
        r == (if v < 0 {
            Err::<i32, OsError>(OsError { code: errno })
        } else {
            Ok(v)
        }),
{
    if v < 0 {
        Err(OsError { code: errno })
    } else {
        Ok(v)
    }
}

/// Reads the result of a call that returns a signed size, in the same way.
pub fn cvt_s(v: isize, errno: i32) -> (r: Result<isize, OsError>)
    ensures
        r == (if v < 0 {
            Err::<isize, OsError>(OsError { code: errno })
        } else {
            Ok(v)
        }),
{
    if v < 0 {
        Err(OsError { code: errno })
    } else {
        Ok(v)
    }
}

} // verus!
