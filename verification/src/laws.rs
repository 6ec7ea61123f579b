//! What holds of the handler table's operations, stated over the table as a
//! mathematical map and proved from the operations' definitions.

use vstd::prelude::*;
use crate::consts::{RAWPOSIX_CAGEID, THREEI_DEREGISTER};
use crate::table::{
    entry, pruned, resolve_failure, resolves_to, spec_copy, spec_purge_target, spec_register,
    ResolveError, Rows,
};

verus! {

/// One call of `register_handler_impl`, as a value.
pub struct Registration {
    pub caller: u64,
    pub callnum: u64,
    pub target: u64,
    pub addr: u64,
}

/// The table after a run of registrations, first to last.
pub open spec fn register_all(rows: Rows, calls: Seq<Registration>) -> Rows
    decreases calls.len(),
{
    if calls.len() == 0 {
        rows
    } else {
        let r = calls.last();
        spec_register(register_all(rows, calls.drop_last()), r.caller, r.callnum, r.target, r.addr)
    }
}

/// Whether a registration leaves the entry under (caller, callnum, target)
/// as it finds it: it speaks of another (caller, call number), or it enters
/// another target without being a withdrawal and the entry is not the
/// emulation layer's.
pub open spec fn leaves_alone(r: Registration, caller: u64, callnum: u64, target: u64) -> bool {
    r.caller != caller || r.callnum != callnum || (r.target != target && r.target
        != THREEI_DEREGISTER && target != RAWPOSIX_CAGEID)
}

/// A call aimed at another unit is answered by that unit's entry and by
/// nothing else, and fails exactly where that entry is missing.
pub proof fn law_exact_resolution(rows: Rows, caller: u64, callnum: u64, target: u64, unit: u64, addr: u64)
    requires
        target != caller,
    ensures
        resolves_to(rows, caller, callnum, target, unit, addr) <==> unit == target && entry(
            rows,
            caller,
            callnum,
            target,
        ) == Some(addr),
        resolve_failure(rows, caller, callnum, target) is None <==> entry(
            rows,
            caller,
            callnum,
            target,
        ) is Some,
{
}

/// Every entry after a registration, in terms of the entries before it.
///
/// A withdrawal empties its (caller, call number) and touches nothing else.
/// A registration sets the address under its own key, removes the emulation
/// layer's entry under its (caller, call number) unless that is the key it
/// sets, and leaves every other entry, other grates' entries under the same
/// (caller, call number) among them, as it was.
pub proof fn law_register_entries(rows: Rows, r: Registration, caller: u64, callnum: u64, target: u64)
    ensures
        entry(spec_register(rows, r.caller, r.callnum, r.target, r.addr), caller, callnum, target)
            == if r.caller != caller || r.callnum != callnum {
            entry(rows, caller, callnum, target)
        } else if r.target == THREEI_DEREGISTER {
            None
        } else if r.target == target {
            Some(r.addr)
        } else if target == RAWPOSIX_CAGEID {
            None
        } else {
            entry(rows, caller, callnum, target)
        },
{
    let after = spec_register(rows, r.caller, r.callnum, r.target, r.addr);
    if r.target == THREEI_DEREGISTER && rows.contains_key(r.caller) {
        let rest = rows[r.caller].remove(r.callnum);
        if rest.is_empty() && caller == r.caller && callnum != r.callnum {
            assert(!rest.dom().contains(callnum));
        }
    }
}

/// After any run of registrations, a call aimed at another unit is answered
/// with the address most recently registered under its exact key, provided
/// nothing later withdrew or displaced that entry.
pub proof fn law_latest_registration_resolves(
    rows: Rows,
    calls: Seq<Registration>,
    i: int,
    unit: u64,
    addr: u64,
)
    requires
        0 <= i < calls.len(),
        calls[i].target != THREEI_DEREGISTER,
        forall|j: int|
            i < j < calls.len() ==> leaves_alone(
                #[trigger] calls[j],
                calls[i].caller,
                calls[i].callnum,
                calls[i].target,
            ),
    ensures
        entry(register_all(rows, calls), calls[i].caller, calls[i].callnum, calls[i].target)
            == Some(calls[i].addr),
        calls[i].target != calls[i].caller ==> resolve_failure(
            register_all(rows, calls),
            calls[i].caller,
            calls[i].callnum,
            calls[i].target,
        ) is None,
        calls[i].target != calls[i].caller && resolves_to(
            register_all(rows, calls),
            calls[i].caller,
            calls[i].callnum,
            calls[i].target,
            unit,
            addr,
        ) ==> unit == calls[i].target && addr == calls[i].addr,
    decreases calls.len(),
{
    let r = calls[i];
    let before = register_all(rows, calls.drop_last());
    if i < calls.len() - 1 {
        assert forall|j: int| i < j < calls.drop_last().len() implies leaves_alone(
            #[trigger] calls.drop_last()[j],
            r.caller,
            r.callnum,
            r.target,
        ) by {
            assert(calls.drop_last()[j] == calls[j]);
        }
        assert(calls.drop_last()[i] == r);
        law_latest_registration_resolves(rows, calls.drop_last(), i, unit, addr);
        assert(leaves_alone(calls[calls.len() - 1], r.caller, r.callnum, r.target));
    }
    law_register_entries(before, calls.last(), r.caller, r.callnum, r.target);
    if r.target != r.caller {
        law_exact_resolution(register_all(rows, calls), r.caller, r.callnum, r.target, unit, addr);
    }
}

/// When a call that a unit aims at itself has one possible answer only: the
/// emulation layer's entry, where there is one, is the answer; and where the
/// call number holds a single target, that target is.
pub proof fn law_self_resolution_is_determined(
    rows: Rows,
    caller: u64,
    callnum: u64,
    unit: u64,
    addr: u64,
    sole: u64,
)
    requires
        resolves_to(rows, caller, callnum, caller, unit, addr),
    ensures
        entry(rows, caller, callnum, RAWPOSIX_CAGEID) is Some ==> unit == RAWPOSIX_CAGEID && Some(
            addr,
        ) == entry(rows, caller, callnum, RAWPOSIX_CAGEID),
        (forall|t: u64| #[trigger] rows[caller][callnum].contains_key(t) ==> t == sole) ==> unit
            == sole && Some(addr) == entry(rows, caller, callnum, sole),
{
}

/// A grate that registers where at most the emulation layer was registered
/// takes over the calls that the caller aims at itself.
pub proof fn law_first_grate_takes_self_calls(
    rows: Rows,
    caller: u64,
    callnum: u64,
    target: u64,
    addr: u64,
    unit: u64,
    found: u64,
)
    requires
        target != THREEI_DEREGISTER,
        forall|t: u64| #[trigger] entry(rows, caller, callnum, t) is Some ==> t == RAWPOSIX_CAGEID,
        resolves_to(
            spec_register(rows, caller, callnum, target, addr),
            caller,
            callnum,
            caller,
            unit,
            found,
        ),
    ensures
        unit == target,
        found == addr,
{
    let after = spec_register(rows, caller, callnum, target, addr);
    assert forall|t: u64| #[trigger] after[caller][callnum].contains_key(t) implies t == target by {
        if t != target {
            assert(entry(rows, caller, callnum, t) is Some);
        }
    }
    law_self_resolution_is_determined(after, caller, callnum, unit, found, target);
}

/// Registering the same handler twice is the same as registering it once,
/// and so is withdrawing twice.
pub proof fn law_register_is_idempotent(rows: Rows, r: Registration)
    ensures
        spec_register(
            spec_register(rows, r.caller, r.callnum, r.target, r.addr),
            r.caller,
            r.callnum,
            r.target,
            r.addr,
        ) == spec_register(rows, r.caller, r.callnum, r.target, r.addr),
{
    let once = spec_register(rows, r.caller, r.callnum, r.target, r.addr);
    let twice = spec_register(once, r.caller, r.callnum, r.target, r.addr);
    if r.target == THREEI_DEREGISTER {
        if rows.contains_key(r.caller) {
            let rest = rows[r.caller].remove(r.callnum);
            if !rest.is_empty() {
                assert(once[r.caller].remove(r.callnum) =~= rest);
            }
        }
        assert(twice =~= once);
    } else {
        let targets = once[r.caller][r.callnum];
        assert(targets.remove(RAWPOSIX_CAGEID).insert(r.target, r.addr) =~= targets);
        assert(once[r.caller].insert(r.callnum, targets) =~= once[r.caller]);
        assert(twice =~= once);
    }
}

/// Registering a grate's handler removes the emulation layer's entry under
/// the same (caller, call number), and no other grate's.
pub proof fn law_register_displaces_only_default(
    rows: Rows,
    caller: u64,
    callnum: u64,
    target: u64,
    addr: u64,
    other: u64,
)
    requires
        target != THREEI_DEREGISTER,
        target != RAWPOSIX_CAGEID,
    ensures
        entry(spec_register(rows, caller, callnum, target, addr), caller, callnum, RAWPOSIX_CAGEID)
            is None,
        other != target && other != RAWPOSIX_CAGEID ==> entry(
            spec_register(rows, caller, callnum, target, addr),
            caller,
            callnum,
            other,
        ) == entry(rows, caller, callnum, other),
{
    let r = Registration { caller, callnum, target, addr };
    law_register_entries(rows, r, caller, callnum, RAWPOSIX_CAGEID);
    law_register_entries(rows, r, caller, callnum, other);
}

/// A withdrawal removes every target under its (caller, call number). Where
/// the caller held no other call number, its row is gone too, and every
/// later lookup by that caller fails for want of a row, whatever it asks.
pub proof fn law_deregister_clears_pair(
    rows: Rows,
    caller: u64,
    callnum: u64,
    addr: u64,
    any_target: u64,
    any_callnum: u64,
)
    ensures
        entry(
            spec_register(rows, caller, callnum, THREEI_DEREGISTER, addr),
            caller,
            callnum,
            any_target,
        ) is None,
        (forall|n: u64| rows.contains_key(caller) && #[trigger] rows[caller].contains_key(n) ==> n == callnum)
            ==> !spec_register(rows, caller, callnum, THREEI_DEREGISTER, addr).contains_key(caller)
            && resolve_failure(
            spec_register(rows, caller, callnum, THREEI_DEREGISTER, addr),
            caller,
            any_callnum,
            any_target,
        ) == Some(ResolveError::NoTableForCaller),
{
    if rows.contains_key(caller) {
        let rest = rows[caller].remove(callnum);
        if forall|n: u64| #[trigger] rows[caller].contains_key(n) ==> n == callnum {
            assert(rest.dom() =~= Set::empty());
        }
    }
}

/// A copy never replaces what the receiving unit holds: under each (call
/// number, target) the receiver keeps its own address where it has one and
/// takes the source's where it has none. No other unit's row changes.
pub proof fn law_copy_entries(rows: Rows, src: u64, dst: u64, caller: u64, callnum: u64, target: u64)
    requires
        rows.contains_key(src),
    ensures
        entry(spec_copy(rows, src, dst), caller, callnum, target) == if caller != dst {
            entry(rows, caller, callnum, target)
        } else if entry(rows, dst, callnum, target) is Some {
            entry(rows, dst, callnum, target)
        } else {
            entry(rows, src, callnum, target)
        },
{
}

/// A unit without a row that receives a copy ends up with the source's row
/// as it stands: a forked unit starts with exactly its parent's handlers,
/// and a call that it aims at itself is answered as the parent's would be.
pub proof fn law_copy_to_new_unit(rows: Rows, src: u64, dst: u64, callnum: u64, unit: u64, addr: u64)
    requires
        rows.contains_key(src),
        !rows.contains_key(dst),
    ensures
        spec_copy(rows, src, dst)[dst] == rows[src],
        resolves_to(spec_copy(rows, src, dst), dst, callnum, dst, unit, addr) <==> resolves_to(
            rows,
            src,
            callnum,
            src,
            unit,
            addr,
        ),
        resolve_failure(spec_copy(rows, src, dst), dst, callnum, dst) == resolve_failure(
            rows,
            src,
            callnum,
            src,
        ),
{
    let after = spec_copy(rows, src, dst);
    assert forall|n: u64| rows[src].contains_key(n) implies #[trigger] after[dst][n] == rows[src][n] by {
        assert(after[dst][n] =~= rows[src][n]);
    }
    assert(after[dst] =~= rows[src]);
}

/// Purging a unit as a target removes every entry that targets it, for
/// every caller, and leaves every entry that targets another unit.
pub proof fn law_purge_target_entries(rows: Rows, unit: u64, caller: u64, callnum: u64, target: u64)
    ensures
        entry(spec_purge_target(rows, unit), caller, callnum, target) == if target == unit {
            None
        } else {
            entry(rows, caller, callnum, target)
        },
{
}

/// Once a unit is purged as a target, no lookup is answered with it.
pub proof fn law_purged_target_is_never_resolved(
    rows: Rows,
    unit: u64,
    caller: u64,
    callnum: u64,
    target: u64,
    addr: u64,
)
    ensures
        !resolves_to(spec_purge_target(rows, unit), caller, callnum, target, unit, addr),
{
    law_purge_target_entries(rows, unit, caller, callnum, unit);
}

/// Removing a caller's row removes all of its entries and no entry of
/// another caller, those that target the removed unit included.
pub proof fn law_purge_caller_entries(rows: Rows, unit: u64, caller: u64, callnum: u64, target: u64)
    ensures
        !rows.remove(unit).contains_key(unit),
        entry(rows.remove(unit), caller, callnum, target) == if caller == unit {
            None
        } else {
            entry(rows, caller, callnum, target)
        },
{
}

/// No operation leaves a caller with an empty row behind.
pub proof fn law_rows_stay_pruned(rows: Rows, r: Registration, src: u64, dst: u64, unit: u64)
    requires
        pruned(rows),
    ensures
        pruned(spec_register(rows, r.caller, r.callnum, r.target, r.addr)),
        rows.contains_key(src) ==> pruned(spec_copy(rows, src, dst)),
        pruned(spec_purge_target(rows, unit)),
        pruned(rows.remove(unit)),
{
    let a = spec_register(rows, r.caller, r.callnum, r.target, r.addr);
    assert forall|c: u64| #[trigger] a.contains_key(c) implies !a[c].is_empty() by {
        if c == r.caller && r.target != THREEI_DEREGISTER {
            assert(a[c].dom().contains(r.callnum));
        }
    }
    if rows.contains_key(src) {
        let b = spec_copy(rows, src, dst);
        assert forall|c: u64| #[trigger] b.contains_key(c) implies !b[c].is_empty() by {
            if c == dst {
                let n = choose|n: u64| rows[src].dom().contains(n);
                assert(rows[src].dom().contains(n));
                assert(b[c].dom().contains(n));
            }
        }
    }
    let p = spec_purge_target(rows, unit);
    assert forall|c: u64| #[trigger] p.contains_key(c) implies !p[c].is_empty() by {
        let n = choose|n: u64| rows[c].dom().contains(n);
        assert(rows[c].dom().contains(n));
        assert(p[c].dom().contains(n));
    }
}

} // verus!
