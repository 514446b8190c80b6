//! Status words of the OpenCL C API, and the one rule that reads them.

use crate::types::cl_int;
use vstd::prelude::*;

verus! {

/// The status of a native call that did what it was asked.
pub const CL_SUCCESS: cl_int = 0;

pub const CL_INVALID_VALUE: cl_int = -30;

pub const CL_INVALID_KERNEL: cl_int = -48;

/// What a native call amounts to: its value where the status is
/// `CL_SUCCESS`, and otherwise the status itself, unchanged.
pub open spec fn outcome<T>(status: cl_int, value: T) -> Result<T, cl_int> {
    if status == CL_SUCCESS {
        Ok(value)
    } else {
        Err(status)
    }
}

/// No status is made up and none is lost: a call succeeds exactly where the
/// driver said `CL_SUCCESS`, then with the value that the driver gave, and
/// fails with the very status that the driver gave.
pub proof fn lemma_outcome_keeps_status<T>(status: cl_int, value: T)
    ensures
        outcome(status, value) is Ok <==> status == CL_SUCCESS,
        outcome(status, value) matches Ok(v) ==> v == value,
        outcome(status, value) matches Err(e) ==> e == status,
{
}

/// Turns the status and the value of a native call into a `Result`.
pub fn check<T>(status: cl_int, value: T) -> (r: Result<T, cl_int>)
    ensures
        r == outcome(status, value),
{
    if CL_SUCCESS != status {
        Err(status)
    } else {
        Ok(value)
    }
}

} // verus!
