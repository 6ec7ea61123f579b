//! Routing of intercepted system calls between isolated execution units.
//!
//! A unit (a cage running guest code, or a grate that interposes on calls)
//! issues numbered system calls. The handler table decides, for each
//! (calling unit, call number, target unit), which handler address in which
//! unit serves the call; the dispatcher turns that decision into either a
//! local call of the built-in emulation layer or a re-entry into another
//! unit; the bridge sequences that re-entry around a parked execution
//! context. Counters for timing call sites, and the start-up data of a guest
//! program, stand beside these.

pub mod bridge;
pub mod consts;
pub mod dispatch;
pub mod environ;
pub mod laws;
pub mod lifecycle;
pub mod perf;
pub mod table;
