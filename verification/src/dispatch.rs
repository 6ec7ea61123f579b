//! The decision taken for each call: serve it in place through the emulation
//! layer, or re-enter the grate that has claimed it.

use vstd::prelude::*;
use crate::consts::RAWPOSIX_CAGEID;
use crate::table::{resolve, resolve_failure, resolves_to, HandlerTable, ResolveError};

verus! {

/// One argument of a call: its value, and the unit in whose address space
/// the value is to be read.
#[derive(Clone, Copy, Debug, PartialEq, Eq, Structural)]
pub struct ArgPair {
    pub value: u64,
    pub owner: u64,
}

/// Where a resolved call goes.
#[derive(Clone, Copy, Debug, PartialEq, Eq, Structural)]
pub enum Route {
    /// To the emulation layer's own implementation at `addr`, on the calling
    /// thread.
    Native { addr: u64 },
    /// Into unit `unit`, to its handler at `addr`.
    Grate { unit: u64, addr: u64 },
}

/// The unit and address that a route stands for.
pub open spec fn route_pair(route: Route) -> (u64, u64) {
    match route {
        Route::Native { addr } => (RAWPOSIX_CAGEID, addr),
        Route::Grate { unit, addr } => (unit, addr),
    }
}

/// Sorts a resolved (unit, address) into the two kinds of route: the
/// emulation layer's id means a native call, any other id a grate.
pub fn route_of(unit: u64, addr: u64) -> (route: Route)
    ensures
        route_pair(route) == (unit, addr),
        route is Native <==> unit == RAWPOSIX_CAGEID,
{
    if unit == RAWPOSIX_CAGEID {
        Route::Native { addr }
    } else {
        Route::Grate { unit, addr }
    }
}

/// Decides where a call goes: looks the handler up and sorts the answer.
/// Fails exactly where the lookup fails, with its error.
pub fn route_syscall(table: &HandlerTable, caller: u64, callnum: u64, target: u64) -> (routed: Result<
    Route,
    ResolveError,
>)
    ensures
        match routed {
            Ok(route) => {
                &&& resolves_to(
                    table@,
                    caller,
                    callnum,
                    target,
                    route_pair(route).0,
                    route_pair(route).1,
                )
                &&& route is Native <==> route_pair(route).0 == RAWPOSIX_CAGEID
            },
            Err(e) => resolve_failure(table@, caller, callnum, target) == Some(e),
        },
{
    match resolve(table, caller, callnum, target) {
        Ok((unit, addr)) => Ok(route_of(unit, addr)),
        Err(e) => Err(e),
    }
}

/// The argument list with which a grate's entry point is called: the
/// handler's address, the calling unit, then the six arguments in order,
/// each value followed by its owner.
pub open spec fn spec_invocation(addr: u64, caller: u64, args: Seq<ArgPair>) -> Seq<u64> {
    Seq::new(
        14,
        |i: int|
            if i == 0 {
                addr
            } else if i == 1 {
                caller
            } else if i % 2 == 0 {
                args[i / 2 - 1].value
            } else {
                args[i / 2 - 1].owner
            },
    )
}

/// Lays a call out for the grate's entry point.
pub fn invocation_words(addr: u64, caller: u64, args: &[ArgPair; 6]) -> (words: [u64; 14])
    ensures
        words@ == spec_invocation(addr, caller, args@),
{
    let words = [
        addr,
        caller,
        args[0].value,
        args[0].owner,
        args[1].value,
        args[1].owner,
        args[2].value,
        args[2].owner,
        args[3].value,
        args[3].owner,
        args[4].value,
        args[4].owner,
        args[5].value,
        args[5].owner,
    ];
    assert(words@ =~= spec_invocation(addr, caller, args@));
    words
}

} // verus!
