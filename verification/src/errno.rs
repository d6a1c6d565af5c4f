//! Status codes handed back to the host.

use vstd::prelude::*;

verus! {

/// The operation succeeded.
pub const ERR_SUCCESS: i32 = 0;

/// An argument of the host could not be decoded.
pub const ERR_CALLBACK_INVALID_ARGS: i32 = 20002;

/// The plugin manager, or an event handler, reported a failure.
pub const ERR_CALLBACK_FAILED: i32 = 21001;

} // verus!
