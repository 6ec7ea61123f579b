//! Reserved unit ids and status codes shared by the router's parts.

use vstd::prelude::*;

verus! {

/// Unit id of the built-in emulation layer: the default target of every call
/// that no grate has claimed.
pub const RAWPOSIX_CAGEID: u64 = 777777;

/// Target id that asks `register_handler_impl` to drop a call number's row
/// instead of adding a handler.
pub const THREEI_DEREGISTER: u64 = 0xFFFF_FFFF_FFFF_FFFE;

/// Status returned when a table copy is asked from a unit that has no row.
pub const ELINDAPIABORTED: u64 = 0xE001_0001;

/// Status of a call that ran to completion.
pub const GRATE_OK: i32 = 0;

/// Status of a re-entered call that failed at the boundary: a missing
/// export, a signature mismatch or a trap inside the target unit.
pub const GRATE_ERR: i32 = -1;

} // verus!
