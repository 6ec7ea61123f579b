//! The handler table: which handler serves a call, keyed by calling unit,
//! call number and target unit.

use std::collections::HashMap;
use vstd::prelude::*;
use vstd::std_specs::hash::*;
use vstd::std_specs::iter::IteratorSpec;
use crate::consts::{ELINDAPIABORTED, RAWPOSIX_CAGEID, THREEI_DEREGISTER};
use crate::laws::{law_rows_stay_pruned, Registration};

verus! {

broadcast use vstd::std_specs::hash::group_hash_axioms;

/// Handlers registered under one (caller, call number): target unit to
/// handler address.
pub type Targets = Map<u64, u64>;

/// One caller's row: call number to its targets.
pub type Calls = Map<u64, Targets>;

/// The whole table as a mathematical map: caller to its row.
pub type Rows = Map<u64, Calls>;

type TargetCageMap = HashMap<u64, u64>;

type CallnumMap = HashMap<u64, TargetCageMap>;

type CageHandlerTable = HashMap<u64, CallnumMap>;

/// What a caller's row of hash maps stands for.
spec fn calls_of(row: CallnumMap) -> Calls {
    Map::new(|n: u64| row@.contains_key(n), |n: u64| row@[n]@)
}

/// What the nested hash maps stand for.
spec fn rows_of(table: CageHandlerTable) -> Rows {
    Map::new(|c: u64| table@.contains_key(c), |c: u64| calls_of(table@[c]))
}

/// Why a lookup found no handler.
#[derive(Clone, Copy, Debug, PartialEq, Eq, Structural)]
pub enum ResolveError {
    /// The calling unit has no row in the table.
    NoTableForCaller,
    /// The calling unit has a row, but none for the call number, or the call
    /// was aimed at the caller itself and the call number's row holds no
    /// target at all.
    NoHandlerForCall,
    /// The call was aimed at another unit, and that unit holds no handler
    /// for it.
    HandlerNotFound,
}

/// The routing table: calling unit, then call number, then target unit, to
/// the handler's address inside the target.
pub struct HandlerTable {
    rows: CageHandlerTable,
}

impl View for HandlerTable {
    type V = Rows;

    closed spec fn view(&self) -> Rows {
        rows_of(self.rows)
    }
}

/// The address registered under an exact key, if there is one.
pub open spec fn entry(rows: Rows, caller: u64, callnum: u64, target: u64) -> Option<u64> {
    if rows.contains_key(caller) && rows[caller].contains_key(callnum)
        && rows[caller][callnum].contains_key(target) {
        Some(rows[caller][callnum][target])
    } else {
        None
    }
}

/// No caller's row is empty: a row that loses its last call number is
/// dropped, so that a caller without handlers is told apart from a caller
/// without this handler.
pub open spec fn pruned(rows: Rows) -> bool {
    forall|c: u64| #[trigger] rows.contains_key(c) ==> !rows[c].is_empty()
}

/// The table after `register_handler_impl`.
///
/// With `target` the deregistration mark, the call number's whole row
/// leaves, and the caller's row with it when nothing else is in it.
/// Otherwise the handler is entered under (caller, callnum, target),
/// replacing an earlier address there, and an entry for the emulation layer
/// under the same (caller, callnum) leaves.
pub open spec fn spec_register(rows: Rows, caller: u64, callnum: u64, target: u64, addr: u64) -> Rows {
    if target == THREEI_DEREGISTER {
        if rows.contains_key(caller) {
            let rest = rows[caller].remove(callnum);
            if rest.is_empty() {
                rows.remove(caller)
            } else {
                rows.insert(caller, rest)
            }
        } else {
            rows
        }
    } else {
        let calls = if rows.contains_key(caller) {
            rows[caller]
        } else {
            Map::empty()
        };
        let targets = targets_or_none(calls, callnum).remove(RAWPOSIX_CAGEID).insert(target, addr);
        rows.insert(caller, calls.insert(callnum, targets))
    }
}

/// Why `resolve` fails on these arguments, or `None` where it succeeds.
pub open spec fn resolve_failure(rows: Rows, caller: u64, callnum: u64, target: u64) -> Option<
    ResolveError,
> {
    if !rows.contains_key(caller) {
        Some(ResolveError::NoTableForCaller)
    } else if !rows[caller].contains_key(callnum) {
        Some(ResolveError::NoHandlerForCall)
    } else if target == caller {
        if rows[caller][callnum].is_empty() {
            Some(ResolveError::NoHandlerForCall)
        } else {
            None
        }
    } else if !rows[caller][callnum].contains_key(target) {
        Some(ResolveError::HandlerNotFound)
    } else {
        None
    }
}

/// Whether `(unit, addr)` is an answer that `resolve` may give.
///
/// A call aimed at another unit is answered by that unit's entry alone. A
/// call aimed at the caller itself is answered by the emulation layer's
/// entry where there is one, and else by any entry under the call number.
pub open spec fn resolves_to(
    rows: Rows,
    caller: u64,
    callnum: u64,
    target: u64,
    unit: u64,
    addr: u64,
) -> bool {
    &&& resolve_failure(rows, caller, callnum, target) is None
    &&& entry(rows, caller, callnum, unit) == Some(addr)
    &&& if target != caller {
        unit == target
    } else {
        rows[caller][callnum].contains_key(RAWPOSIX_CAGEID) ==> unit == RAWPOSIX_CAGEID
    }
}

/// The table after `copy_handler_table_to_cage_impl` from a caller that has
/// a row: `dst` gains every entry of `src` whose (call number, target) it
/// lacks, and keeps its own.
pub open spec fn spec_copy(rows: Rows, src: u64, dst: u64) -> Rows {
    let mine = if rows.contains_key(dst) {
        rows[dst]
    } else {
        Map::empty()
    };
    rows.insert(dst, merge_calls(mine, rows[src]))
}

/// A caller's row without the entries that target `unit`.
pub open spec fn calls_without_target(calls: Calls, unit: u64) -> Calls {
    Map::new(|n: u64| calls.contains_key(n), |n: u64| calls[n].remove(unit))
}

/// The table after `_rm_grate_from_handler`: every entry that targets `unit`
/// is gone, in every row; the rows themselves stay.
pub open spec fn spec_purge_target(rows: Rows, unit: u64) -> Rows {
    Map::new(|c: u64| rows.contains_key(c), |c: u64| calls_without_target(rows[c], unit))
}

/// `dst` filled up from `src`: every target of `src` that `dst` lacks is
/// added, and nothing that `dst` holds is changed.
pub open spec fn merge_targets(dst: Targets, src: Targets) -> Targets {
    src.union_prefer_right(dst)
}

/// Adds to `dst` the targets of `src` that it lacks.
fn fill_targets(dst: &mut TargetCageMap, src: &TargetCageMap)
    ensures
        final(dst)@ == merge_targets(old(dst)@, src@),
{
    let ghost before = dst@;
    for (target, addr) in it: src.iter()
        invariant
            forall|t: u64| #[trigger] dst@.contains_key(t) ==> before.contains_key(t) || src@.contains_key(t),
            forall|t: u64| #[trigger] before.contains_key(t) ==> dst@.contains_key(t) && dst@[t] == before[t],
            forall|t: u64| #[trigger] dst@.contains_key(t) && !before.contains_key(t) ==> dst@[t] == src@[t],
            forall|i: int| 0 <= i < it.index() ==> dst@.contains_key(*(#[trigger] it.seq()[i]).0),
            it.seq() == src.iter().remaining(),
    {
        if !dst.contains_key(target) {
            dst.insert(*target, *addr);
        }
    }
    proof {
        assert forall|t: u64| src@.contains_key(t) implies dst@.contains_key(t) by {
            let v = src.iter().remaining();
            assert(v.contains((&t, &src@[t])));
        }
        assert(dst@ =~= merge_targets(before, src@));
    }
}

/// A caller's row filled up from another's: call numbers that only `src` has
/// are taken over, and under a call number that both have, `dst` gains the
/// targets it lacks and keeps its own.
pub open spec fn merge_calls(dst: Calls, src: Calls) -> Calls {
    Map::new(
        |n: u64| dst.contains_key(n) || src.contains_key(n),
        |n: u64|
            if src.contains_key(n) {
                merge_targets(targets_or_none(dst, n), src[n])
            } else {
                dst[n]
            },
    )
}

/// The targets under call number `n`, empty where the row has no such number.
pub open spec fn targets_or_none(calls: Calls, n: u64) -> Targets {
    if calls.contains_key(n) {
        calls[n]
    } else {
        Map::empty()
    }
}

/// Adds to the row `dst` the entries of the row `src` that it lacks.
fn fill_calls(dst: &mut CallnumMap, src: &CallnumMap)
    ensures
        calls_of(*final(dst)) == merge_calls(calls_of(*old(dst)), calls_of(*src)),
{
    let ghost before = calls_of(*dst);
    for (callnum, targets) in it: src.iter()
        invariant
            it.seq() == src.iter().remaining(),
            it.seq().no_duplicates(),
            forall|n: u64|
                !src@.contains_key(n) ==> (#[trigger] dst@.contains_key(n) <==> before.contains_key(n)),
            forall|n: u64|
                !src@.contains_key(n) && #[trigger] dst@.contains_key(n) ==> dst@[n]@ == before[n],
            forall|j: int|
                it.index() <= j < it.seq().len() ==> (dst@.contains_key(*(#[trigger] it.seq()[j]).0)
                    <==> before.contains_key(*it.seq()[j].0)),
            forall|j: int|
                it.index() <= j < it.seq().len() && dst@.contains_key(*(#[trigger] it.seq()[j]).0)
                    ==> dst@[*it.seq()[j].0]@ == before[*it.seq()[j].0],
            forall|i: int|
                0 <= i < it.index() ==> dst@.contains_key(*(#[trigger] it.seq()[i]).0) && dst@[*it.seq()[i].0]@
                    == merge_targets(
                    targets_or_none(before, *it.seq()[i].0),
                    src@[*it.seq()[i].0]@,
                ),
    {
        let ghost at = it.index();
        proof {
            let v = src.iter().remaining();
            assert(v[at] == (callnum, targets));
            assert forall|j: int| 0 <= j < v.len() && j != at implies *(#[trigger] v[j]).0
                != *callnum by {
                if *v[j].0 == *callnum {
                    assert(src@[*v[j].0] == *v[j].1);
                    assert(src@[*v[at].0] == *v[at].1);
                    assert(v[j] == v[at]);
                }
            }
        }
        let mut mine = match dst.remove(callnum) {
            Some(m) => m,
            None => HashMap::new(),
        };
        fill_targets(&mut mine, targets);
        dst.insert(*callnum, mine);
    }
    proof {
        assert forall|n: u64| src@.contains_key(n) implies dst@.contains_key(n) && dst@[n]@
            == merge_targets(targets_or_none(before, n), src@[n]@) by {
            let v = src.iter().remaining();
            assert(v.contains((&n, &src@[n])));
        }
        assert(calls_of(*dst) =~= merge_calls(before, calls_of(*src)));
    }
}

/// The keys of a map, each once, in the order in which the map yields them.
fn keys_of<V>(m: &HashMap<u64, V>) -> (keys: Vec<u64>)
    ensures
        forall|k: u64| m@.contains_key(k) <==> keys@.contains(k),
        keys@.no_duplicates(),
{
    let mut keys: Vec<u64> = Vec::new();
    for k in it: m.keys()
        invariant
            it.seq() == m.keys().remaining(),
            keys@.len() == it.index(),
            forall|i: int| 0 <= i < it.index() ==> keys@[i] == *(#[trigger] it.seq()[i]),
    {
        keys.push(*k);
    }
    proof {
        let v = m.keys().remaining();
        assert(v.unref().to_set() == m@.dom());
        assert forall|i: int, j: int| 0 <= i < keys@.len() && 0 <= j < keys@.len() && i != j implies keys@[i]
            != keys@[j] by {
            assert(v[i] != v[j]);
        }
        assert forall|k: u64| m@.contains_key(k) <==> keys@.contains(k) by {
            if m@.contains_key(k) {
                assert(v.unref().to_set().contains(k));
                let i = choose|i: int| 0 <= i < v.unref().len() && v.unref()[i] == k;
                assert(keys@[i] == k);
            }
            if keys@.contains(k) {
                let i = choose|i: int| 0 <= i < keys@.len() && keys@[i] == k;
                assert(v.unref()[i] == k);
                assert(v.unref().to_set().contains(k));
            }
        }
    }
    keys
}

/// Removes `unit` as a target under every call number of a row.
fn drop_target(calls: &mut CallnumMap, unit: u64)
    ensures
        calls_of(*final(calls)) == calls_without_target(calls_of(*old(calls)), unit),
{
    let ghost before = calls_of(*calls);
    let keys = keys_of(calls);
    let mut i: usize = 0;
    while i < keys.len()
        invariant
            i <= keys.len(),
            forall|n: u64| keys@.contains(n) ==> before.contains_key(n),
            forall|n: u64| #[trigger] calls@.contains_key(n) <==> before.contains_key(n),
            forall|n: u64| #[trigger]
                calls@.contains_key(n) ==> calls@[n]@ == before[n] || calls@[n]@ == before[n].remove(unit),
            forall|j: int|
                0 <= j < i ==> calls@.contains_key(#[trigger] keys@[j]) && calls@[keys@[j]]@
                    == before[keys@[j]].remove(unit),
        decreases keys.len() - i,
    {
        let callnum = keys[i];
        assert(keys@.contains(callnum));
        match calls.remove(&callnum) {
            Some(mut targets) => {
                targets.remove(&unit);
                assert(targets@ =~= before[callnum].remove(unit));
                calls.insert(callnum, targets);
            },
            None => {},
        }
        i += 1;
    }
    proof {
        assert forall|n: u64| calls@.contains_key(n) implies calls@[n]@ == before[n].remove(
            unit,
        ) by {
            assert(keys@.contains(n));
        }
        assert(calls_of(*calls) =~= calls_without_target(before, unit));
    }
}

impl HandlerTable {
    /// A table without any row.
    pub fn new() -> (table: Self)
        ensures
            table@ == Map::<u64, Calls>::empty(),
            pruned(table@),
    {
        let table = HandlerTable { rows: HashMap::new() };
        assert(table@ =~= Map::<u64, Calls>::empty());
        table
    }
}

/// The units that have a row, each once, in no particular order.
pub fn callers(table: &HandlerTable) -> (units: Vec<u64>)
    ensures
        units@.no_duplicates(),
        forall|c: u64| units@.contains(c) <==> table@.contains_key(c),
{
    keys_of(&table.rows)
}

/// The call numbers in a unit's row, each once, in no particular order;
/// none where the unit has no row.
pub fn callnums(table: &HandlerTable, caller: u64) -> (numbers: Vec<u64>)
    ensures
        numbers@.no_duplicates(),
        forall|n: u64|
            numbers@.contains(n) <==> table@.contains_key(caller) && table@[caller].contains_key(n),
{
    match table.rows.get(&caller) {
        Some(call_map) => keys_of(call_map),
        None => Vec::new(),
    }
}

/// The targets registered under (caller, call number), each once with its
/// handler's address, in no particular order; none where there is no such
/// row.
pub fn targets(table: &HandlerTable, caller: u64, callnum: u64) -> (pairs: Vec<(u64, u64)>)
    ensures
        pairs@.no_duplicates(),
        forall|t: u64, a: u64|
            pairs@.contains((t, a)) <==> entry(table@, caller, callnum, t) == Some(a),
{
    let call_map = match table.rows.get(&caller) {
        Some(m) => m,
        None => {
            return Vec::new();
        },
    };
    let target_map = match call_map.get(&callnum) {
        Some(m) => m,
        None => {
            return Vec::new();
        },
    };
    assert(table@[caller][callnum] == target_map@);
    let mut pairs: Vec<(u64, u64)> = Vec::new();
    for (target, addr) in it: target_map.iter()
        invariant
            it.seq() == target_map.iter().remaining(),
            it.seq().no_duplicates(),
            pairs@.len() == it.index(),
            forall|i: int|
                0 <= i < it.index() ==> pairs@[i] == (*(#[trigger] it.seq()[i]).0, *it.seq()[i].1),
    {
        pairs.push((*target, *addr));
    }
    proof {
        let v = target_map.iter().remaining();
        assert forall|i: int, j: int| 0 <= i < pairs@.len() && 0 <= j < pairs@.len() && i != j implies pairs@[i]
            != pairs@[j] by {
            assert(v[i] != v[j]);
        }
        assert forall|t: u64, a: u64| pairs@.contains((t, a)) <==> entry(table@, caller, callnum, t)
            == Some(a) by {
            if pairs@.contains((t, a)) {
                let i = choose|i: int| 0 <= i < pairs@.len() && pairs@[i] == (t, a);
                assert(target_map@.contains_key(*v[i].0) && target_map@[*v[i].0] == *v[i].1);
            }
            if entry(table@, caller, callnum, t) == Some(a) {
                assert(v.contains((&t, &target_map@[t])));
                let i = choose|i: int| 0 <= i < v.len() && v[i] == (&t, &target_map@[t]);
                assert(pairs@[i] == (t, a));
            }
        }
    }
    pairs
}

/// Whether the unit has a row, that is, at least one registered handler.
pub fn _check_cage_handler_exists(table: &HandlerTable, cageid: u64) -> (found: bool)
    ensures
        found == table@.contains_key(cageid),
{
    table.rows.contains_key(&cageid)
}

/// Removes the unit's whole row. Entries in other rows that target the unit
/// stay.
pub fn _rm_cage_from_handler(table: &mut HandlerTable, cageid: u64)
    ensures
        final(table)@ == old(table)@.remove(cageid),
        pruned(old(table)@) ==> pruned(final(table)@),
{
    table.rows.remove(&cageid);
    assert(table@ =~= old(table)@.remove(cageid));
}

/// Removes every entry that targets the unit, in every caller's row.
pub fn _rm_grate_from_handler(table: &mut HandlerTable, grateid: u64)
    ensures
        final(table)@ == spec_purge_target(old(table)@, grateid),
        pruned(old(table)@) ==> pruned(final(table)@),
{
    let ghost before = table@;
    let keys = keys_of(&table.rows);
    let mut i: usize = 0;
    while i < keys.len()
        invariant
            i <= keys.len(),
            forall|c: u64| keys@.contains(c) ==> before.contains_key(c),
            forall|c: u64| #[trigger] table.rows@.contains_key(c) <==> before.contains_key(c),
            forall|c: u64| #[trigger]
                table.rows@.contains_key(c) ==> calls_of(table.rows@[c]) == before[c] || calls_of(table.rows@[c])
                    == calls_without_target(before[c], grateid),
            forall|j: int|
                0 <= j < i ==> table.rows@.contains_key(#[trigger] keys@[j]) && calls_of(table.rows@[keys@[j]])
                    == calls_without_target(before[keys@[j]], grateid),
        decreases keys.len() - i,
    {
        let cage = keys[i];
        assert(keys@.contains(cage));
        match table.rows.remove(&cage) {
            Some(mut calls) => {
                drop_target(&mut calls, grateid);
                assert(calls_of(calls) =~~= calls_without_target(before[cage], grateid));
                table.rows.insert(cage, calls);
            },
            None => {},
        }
        i += 1;
    }
    proof {
        assert forall|c: u64| table.rows@.contains_key(c) implies calls_of(table.rows@[c])
            == calls_without_target(before[c], grateid) by {
            assert(keys@.contains(c));
        }
        assert(table@ =~= spec_purge_target(before, grateid));
        if pruned(before) {
            law_rows_stay_pruned(
                before,
                Registration { caller: 0, callnum: 0, target: 0, addr: 0 },
                0,
                0,
                grateid,
            );
        }
    }
}

/// Enters, replaces or withdraws handlers for one (caller, call number).
///
/// With `handlefunccage` the deregistration mark, every target registered
/// under the pair is withdrawn, and the caller's row is dropped when this
/// leaves it empty. With any other target, the handler is entered under the
/// exact key, in place of an earlier address there, and the emulation
/// layer's entry under the same pair is withdrawn. Always returns 0.
pub fn register_handler_impl(
    table: &mut HandlerTable,
    srccage: u64,
    targetcallnum: u64,
    handlefunccage: u64,
    in_grate_fn_ptr_u64: u64,
) -> (status: i32)
    ensures
        status == 0,
        final(table)@ == spec_register(
            old(table)@,
            srccage,
            targetcallnum,
            handlefunccage,
            in_grate_fn_ptr_u64,
        ),
        pruned(old(table)@) ==> pruned(final(table)@),
{
    let ghost before = table@;
    proof {
        if pruned(before) {
            law_rows_stay_pruned(
                before,
                Registration {
                    caller: srccage,
                    callnum: targetcallnum,
                    target: handlefunccage,
                    addr: in_grate_fn_ptr_u64,
                },
                0,
                0,
                0,
            );
        }
    }
    if handlefunccage == THREEI_DEREGISTER {
        match table.rows.remove(&srccage) {
            Some(mut call_map) => {
                call_map.remove(&targetcallnum);
                assert(calls_of(call_map) =~= before[srccage].remove(targetcallnum));
                assert(calls_of(call_map).dom() =~= call_map@.dom());
                if !call_map.is_empty() {
                    table.rows.insert(srccage, call_map);
                    assert(table@ =~= before.insert(srccage, before[srccage].remove(targetcallnum)));
                } else {
                    assert(table@ =~= before.remove(srccage));
                }
            },
            None => {
                assert(table@ =~= before);
            },
        }
        return 0;
    }
    let mut call_map = match table.rows.remove(&srccage) {
        Some(m) => m,
        None => HashMap::new(),
    };
    let ghost calls = if before.contains_key(srccage) {
        before[srccage]
    } else {
        Map::empty()
    };
    assert(calls_of(call_map) =~= calls);
    let mut target_map = match call_map.remove(&targetcallnum) {
        Some(m) => m,
        None => HashMap::new(),
    };
    if target_map.contains_key(&RAWPOSIX_CAGEID) {
        target_map.remove(&RAWPOSIX_CAGEID);
    }
    target_map.insert(handlefunccage, in_grate_fn_ptr_u64);
    assert(target_map@ =~= targets_or_none(calls, targetcallnum).remove(RAWPOSIX_CAGEID).insert(
        handlefunccage,
        in_grate_fn_ptr_u64,
    ));
    call_map.insert(targetcallnum, target_map);
    assert(calls_of(call_map) =~= calls.insert(targetcallnum, target_map@));
    table.rows.insert(srccage, call_map);
    assert(table@ =~= before.insert(srccage, calls.insert(targetcallnum, target_map@)));
    0
}

/// Gives `targetcage` the handlers of `srccage`: every entry of the source's
/// row is entered in the target's row unless the target already has one
/// under the same (call number, target unit), which then stays as it is.
///
/// Returns 0, or `ELINDAPIABORTED` with the table unchanged where the source
/// has no row.
pub fn copy_handler_table_to_cage_impl(table: &mut HandlerTable, srccage: u64, targetcage: u64) -> (status: u64)
    ensures
        old(table)@.contains_key(srccage) ==> status == 0 && final(table)@ == spec_copy(
            old(table)@,
            srccage,
            targetcage,
        ),
        !old(table)@.contains_key(srccage) ==> status == ELINDAPIABORTED && final(table)@ == old(
            table,
        )@,
        pruned(old(table)@) ==> pruned(final(table)@),
{
    let ghost before = table@;
    proof {
        if pruned(before) {
            law_rows_stay_pruned(
                before,
                Registration { caller: 0, callnum: 0, target: 0, addr: 0 },
                srccage,
                targetcage,
                0,
            );
        }
    }
    let src_entry = match table.rows.get(&srccage) {
        Some(entry) => entry.clone(),
        None => {
            return ELINDAPIABORTED;
        },
    };
    assert(calls_of(src_entry) =~= before[srccage]);
    let mut target_entry = match table.rows.remove(&targetcage) {
        Some(m) => m,
        None => HashMap::new(),
    };
    let ghost mine = if before.contains_key(targetcage) {
        before[targetcage]
    } else {
        Map::empty()
    };
    assert(calls_of(target_entry) =~= mine);
    fill_calls(&mut target_entry, &src_entry);
    table.rows.insert(targetcage, target_entry);
    assert(table@ =~= spec_copy(before, srccage, targetcage));
    0
}

/// Finds the handler for a call.
///
/// A call aimed at another unit needs that unit's own entry. A call aimed at
/// the caller itself takes the emulation layer's entry where one is
/// registered, and otherwise whichever entry the call number's row yields
/// first; which one that is, where several stand, is not fixed.
pub fn resolve(table: &HandlerTable, caller: u64, callnum: u64, target: u64) -> (found: Result<
    (u64, u64),
    ResolveError,
>)
    ensures
        match found {
            Ok((unit, addr)) => resolves_to(table@, caller, callnum, target, unit, addr),
            Err(e) => resolve_failure(table@, caller, callnum, target) == Some(e),
        },
{
    let call_map = match table.rows.get(&caller) {
        Some(m) => m,
        None => {
            return Err(ResolveError::NoTableForCaller);
        },
    };
    let target_map = match call_map.get(&callnum) {
        Some(m) => m,
        None => {
            return Err(ResolveError::NoHandlerForCall);
        },
    };
    assert(table@[caller][callnum] == target_map@);
    if target == caller {
        match target_map.get(&RAWPOSIX_CAGEID) {
            Some(addr) => {
                return Ok((RAWPOSIX_CAGEID, *addr));
            },
            None => {},
        }
        for (grateid, addr) in any: target_map.iter()
            invariant
                any.seq() == target_map.iter().remaining(),
                any.index() == 0,
                target == caller,
                table@.contains_key(caller),
                table@[caller].contains_key(callnum),
                table@[caller][callnum] == target_map@,
                !target_map@.contains_key(RAWPOSIX_CAGEID),
        {
            assert(any.seq()[0] == (grateid, addr));
            assert(target_map@.contains_key(*any.seq()[0].0) && target_map@[*any.seq()[0].0]
                == *any.seq()[0].1);
            assert(target_map@.dom().contains(*grateid));
            assert(!target_map@.is_empty());
            return Ok((*grateid, *addr));
        }
        assert(target_map@.dom().len() == 0);
        assert(target_map@.is_empty());
        return Err(ResolveError::NoHandlerForCall);
    }
    match target_map.get(&target) {
        Some(addr) => Ok((target, *addr)),
        None => Err(ResolveError::HandlerNotFound),
    }
}

/// `resolve` for callers that have kept the registration protocol: the
/// caller has a row, the call number has one under it, and a call aimed at
/// another unit has that unit's entry.
///
/// Returns `None` only for a call aimed at the caller itself whose call
/// number holds no target.
pub fn _get_handler(table: &HandlerTable, self_cageid: u64, syscall_num: u64, target_cageid: u64) -> (found: Option<
    (u64, u64),
>)
    requires
        table@.contains_key(self_cageid),
        table@[self_cageid].contains_key(syscall_num),
        target_cageid != self_cageid ==> table@[self_cageid][syscall_num].contains_key(target_cageid),
    ensures
        match found {
            Some((unit, addr)) => resolves_to(
                table@,
                self_cageid,
                syscall_num,
                target_cageid,
                unit,
                addr,
            ),
            None => target_cageid == self_cageid && table@[self_cageid][syscall_num].is_empty(),
        },
{
    match resolve(table, self_cageid, syscall_num, target_cageid) {
        Ok(pair) => Some(pair),
        Err(_) => None,
    }
}

} // verus!
