//! Classification of native status codes.
//!
//! The native library reports the outcome of every call as a signed integer:
//! zero for plain success, a negative value for success with a warning, a
//! positive value for failure. One failure code is set apart: it says that
//! the output did not fit into the buffer that was offered.

use vstd::prelude::*;
use crate::error::Error;

verus! {

/// The status code of plain success.
pub const OK_CODE: i32 = 0;

/// The status code that reports an output buffer as too small.
pub const BUFFER_OVERFLOW_CODE: i32 = 15;

/// The three kinds of status code.
#[derive(Debug, Clone, Copy, PartialEq, Eq, Structural)]
pub enum StatusClass {
    /// The call succeeded.
    Success,
    /// The call succeeded and left a warning.
    Warning,
    /// The call failed.
    Failure,
}

/// The kind of a status code.
pub open spec fn class_of(code: i32) -> StatusClass {
    if code == OK_CODE {
        StatusClass::Success
    } else if code < OK_CODE {
        StatusClass::Warning
    } else {
        StatusClass::Failure
    }
}

/// What a status code means for the caller: nothing on success or warning,
/// an error that carries the code on failure.
pub open spec fn status_result(code: i32) -> Result<(), Error> {
    if class_of(code) == StatusClass::Failure {
        Err(Error::Native(code))
    } else {
        Ok(())
    }
}

/// Classifies a status code.
pub fn classify(code: i32) -> (class: StatusClass)
    ensures
        class == class_of(code),
{
    if code == OK_CODE {
        StatusClass::Success
    } else if code < OK_CODE {
        StatusClass::Warning
    } else {
        StatusClass::Failure
    }
}

/// Whether the code is that of plain success, without a warning.
pub fn is_ok(code: i32) -> (ok: bool)
    ensures
        ok == (class_of(code) == StatusClass::Success),
        ok == (code == OK_CODE),
{
    code == OK_CODE
}

/// Whether the code reports that the output buffer was too small.
pub fn is_buffer_overflow(code: i32) -> (overflow: bool)
    ensures
        overflow == (code == BUFFER_OVERFLOW_CODE),
        overflow ==> class_of(code) == StatusClass::Failure,
{
    code == BUFFER_OVERFLOW_CODE
}

/// Turns a status code into a result: success and warnings pass, a failure
/// becomes an error that carries the code.
pub fn ok_or_warning(code: i32) -> (result: Result<(), Error>)
    ensures
        result == status_result(code),
        result is Ok <==> code <= OK_CODE,
{
    match classify(code) {
        StatusClass::Failure => Err(Error::Native(code)),
        _ => Ok(()),
    }
}

} // verus!
