//! The failures that an operation of this crate can report.

use vstd::prelude::*;

verus! {

/// Why an operation failed.
#[derive(Debug, Clone, Copy, PartialEq, Eq, Structural)]
pub enum Error {
    /// The native library reported a failure status; the code is kept.
    Native(i32),
    /// Text that was given for a locale identifier holds a NUL byte or is not
    /// valid UTF-8.
    Validation,
    /// The bytes that the native library wrote are not valid UTF-8.
    Encoding,
    /// A length that the native library reported is negative.
    Conversion,
}

} // verus!
