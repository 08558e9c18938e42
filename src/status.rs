//! Status codes shared by the trace engine's functions and callbacks.

use vstd::prelude::*;

verus! {

/// The call succeeded.
pub const STATUS_OK: i32 = 0;

/// The object reached its end (end of data, end of graph).
pub const STATUS_END: i32 = 1;

/// No progress could be made now; try again later.
pub const STATUS_AGAIN: i32 = 11;

/// A generic error.
pub const STATUS_ERROR: i32 = -1;

/// An allocation failed.
pub const STATUS_MEMORY_ERROR: i32 = -12;

} // verus!
