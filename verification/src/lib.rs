//! Safe marshaling for a native locale-identifier library.
//!
//! The native library writes variable-length text into a fixed buffer that the
//! caller supplies, and reports through a status code and a length whether the
//! buffer was large enough. This crate holds everything that is decided around
//! such calls: how a status code is classified, when a call is repeated and
//! with what capacity, how the bytes become text, what a locale identifier may
//! hold, and how the answer of a language negotiation is read. The native
//! entry points themselves are handed in by the caller.

pub mod error;
pub mod status;
pub mod invocation;
pub mod locale;
pub mod negotiation;

pub use error::Error;
pub use invocation::{buffered_string_with_retry, Invocation, Reply, Retry, Step, LOCALE_CAPACITY};
pub use locale::{get_default, set_default, ULoc};
pub use negotiation::{accept_language, AcceptResult, Request};
