//! What a unit's exit does to the handler table.
//!
//! A forked unit inherits its parent's handlers through
//! `copy_handler_table_to_cage_impl`, called before the child runs. An
//! exiting unit loses its row, and, where it served as a grate, every entry
//! that points at it.

use vstd::prelude::*;
use crate::table::{
    entry, pruned, spec_copy, spec_purge_target, HandlerTable, Rows, _rm_cage_from_handler,
    _rm_grate_from_handler,
};

verus! {

/// The table after unit `unit` has exited.
pub open spec fn spec_exit(rows: Rows, unit: u64, was_grate: bool) -> Rows {
    if was_grate {
        spec_purge_target(rows.remove(unit), unit)
    } else {
        rows.remove(unit)
    }
}

/// Clears an exiting unit out of the table: its own row always, and the
/// entries that target it where it was a grate.
pub fn propagate_exit(table: &mut HandlerTable, unit: u64, was_grate: bool)
    ensures
        final(table)@ == spec_exit(old(table)@, unit, was_grate),
        pruned(old(table)@) ==> pruned(final(table)@),
{
    _rm_cage_from_handler(table, unit);
    if was_grate {
        _rm_grate_from_handler(table, unit);
    }
}

/// After a grate's exit no entry is left under it or pointing at it, and
/// every entry between other units stands as before.
pub proof fn law_exit_leaves_nothing_dangling(rows: Rows, unit: u64, caller: u64, callnum: u64, target: u64)
    ensures
        entry(spec_exit(rows, unit, true), caller, callnum, target) == if caller == unit || target
            == unit {
            None
        } else {
            entry(rows, caller, callnum, target)
        },
        entry(spec_exit(rows, unit, false), caller, callnum, target) == if caller == unit {
            None
        } else {
            entry(rows, caller, callnum, target)
        },
{
}

/// A child that is forked and exits without having served as a grate
/// leaves the table as it was before the fork.
pub proof fn law_fork_then_exit_restores(rows: Rows, parent: u64, child: u64)
    requires
        rows.contains_key(parent),
        !rows.contains_key(child),
    ensures
        spec_exit(spec_copy(rows, parent, child), child, false) == rows,
{
    assert(spec_exit(spec_copy(rows, parent, child), child, false) =~= rows);
}

} // verus!
