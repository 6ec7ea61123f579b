use threei::consts::{ELINDAPIABORTED, RAWPOSIX_CAGEID, THREEI_DEREGISTER};
use threei::table::{
    _check_cage_handler_exists, _get_handler, _rm_cage_from_handler, _rm_grate_from_handler,
    copy_handler_table_to_cage_impl, register_handler_impl, resolve, HandlerTable, ResolveError,
};

#[test]
fn default_entry_is_displaced_by_a_grate() {
    let mut t = HandlerTable::new();
    assert_eq!(register_handler_impl(&mut t, 5, 3, RAWPOSIX_CAGEID, 0), 0);
    assert_eq!(register_handler_impl(&mut t, 5, 3, 9, 1000), 0);
    assert_eq!(resolve(&t, 5, 3, 5), Ok((9, 1000)));
    assert_eq!(
        resolve(&t, 5, 3, RAWPOSIX_CAGEID),
        Err(ResolveError::HandlerNotFound)
    );
}

#[test]
fn default_entry_answers_a_call_to_self() {
    let mut t = HandlerTable::new();
    register_handler_impl(&mut t, 5, 3, RAWPOSIX_CAGEID, 7);
    assert_eq!(resolve(&t, 5, 3, 5), Ok((RAWPOSIX_CAGEID, 7)));
    assert_eq!(_get_handler(&t, 5, 3, 5), Some((RAWPOSIX_CAGEID, 7)));
}

#[test]
fn call_to_an_unregistered_unit_is_not_found() {
    let mut t = HandlerTable::new();
    register_handler_impl(&mut t, 5, 3, RAWPOSIX_CAGEID, 7);
    assert_eq!(resolve(&t, 5, 3, 7), Err(ResolveError::HandlerNotFound));
}

#[test]
fn forked_unit_inherits_its_parents_handlers() {
    let mut t = HandlerTable::new();
    register_handler_impl(&mut t, 1, 3, 9, 1000);
    assert_eq!(copy_handler_table_to_cage_impl(&mut t, 1, 2), 0);
    assert_eq!(resolve(&t, 2, 3, 2), Ok((9, 1000)));
    assert_eq!(resolve(&t, 1, 3, 1), Ok((9, 1000)));
}

#[test]
fn lookup_failures_are_told_apart() {
    let mut t = HandlerTable::new();
    assert_eq!(resolve(&t, 5, 3, 5), Err(ResolveError::NoTableForCaller));
    assert_eq!(resolve(&t, 5, 3, 6), Err(ResolveError::NoTableForCaller));
    register_handler_impl(&mut t, 5, 3, 9, 1000);
    assert_eq!(resolve(&t, 5, 4, 5), Err(ResolveError::NoHandlerForCall));
    assert_eq!(resolve(&t, 5, 4, 9), Err(ResolveError::NoHandlerForCall));
    assert_eq!(resolve(&t, 5, 3, 8), Err(ResolveError::HandlerNotFound));
    assert_eq!(resolve(&t, 5, 3, 9), Ok((9, 1000)));
}

#[test]
fn latest_registration_wins() {
    let mut t = HandlerTable::new();
    register_handler_impl(&mut t, 5, 3, 9, 1000);
    register_handler_impl(&mut t, 5, 4, 9, 1500);
    register_handler_impl(&mut t, 6, 3, 9, 1600);
    register_handler_impl(&mut t, 5, 3, 9, 2000);
    register_handler_impl(&mut t, 5, 3, 8, 3000);
    assert_eq!(resolve(&t, 5, 3, 9), Ok((9, 2000)));
    assert_eq!(resolve(&t, 5, 3, 8), Ok((8, 3000)));
    assert_eq!(resolve(&t, 5, 4, 9), Ok((9, 1500)));
    assert_eq!(resolve(&t, 6, 3, 9), Ok((9, 1600)));
}

#[test]
fn registration_is_idempotent() {
    let mut t = HandlerTable::new();
    register_handler_impl(&mut t, 5, 3, 9, 1000);
    register_handler_impl(&mut t, 5, 3, 9, 1000);
    assert_eq!(resolve(&t, 5, 3, 9), Ok((9, 1000)));
    assert_eq!(resolve(&t, 5, 3, 5), Ok((9, 1000)));
}

#[test]
fn grate_registration_keeps_other_grates() {
    let mut t = HandlerTable::new();
    register_handler_impl(&mut t, 5, 3, RAWPOSIX_CAGEID, 7);
    register_handler_impl(&mut t, 5, 3, 9, 1000);
    register_handler_impl(&mut t, 5, 3, 8, 2000);
    assert_eq!(resolve(&t, 5, 3, 9), Ok((9, 1000)));
    assert_eq!(resolve(&t, 5, 3, 8), Ok((8, 2000)));
    let any = resolve(&t, 5, 3, 5);
    assert!(any == Ok((9, 1000)) || any == Ok((8, 2000)));
}

#[test]
fn default_registered_after_a_grate_is_preferred() {
    let mut t = HandlerTable::new();
    register_handler_impl(&mut t, 5, 3, 9, 1000);
    register_handler_impl(&mut t, 5, 3, RAWPOSIX_CAGEID, 7);
    assert_eq!(resolve(&t, 5, 3, 5), Ok((RAWPOSIX_CAGEID, 7)));
    assert_eq!(resolve(&t, 5, 3, 9), Ok((9, 1000)));
}

#[test]
fn deregistration_clears_every_target() {
    let mut t = HandlerTable::new();
    register_handler_impl(&mut t, 5, 3, 9, 1000);
    register_handler_impl(&mut t, 5, 3, 8, 2000);
    register_handler_impl(&mut t, 5, 4, 9, 3000);
    assert_eq!(register_handler_impl(&mut t, 5, 3, THREEI_DEREGISTER, 0), 0);
    assert_eq!(resolve(&t, 5, 3, 9), Err(ResolveError::NoHandlerForCall));
    assert_eq!(resolve(&t, 5, 3, 8), Err(ResolveError::NoHandlerForCall));
    assert_eq!(resolve(&t, 5, 3, 5), Err(ResolveError::NoHandlerForCall));
    assert_eq!(resolve(&t, 5, 4, 9), Ok((9, 3000)));
    assert!(_check_cage_handler_exists(&t, 5));
}

#[test]
fn deregistering_the_last_row_drops_the_caller() {
    let mut t = HandlerTable::new();
    register_handler_impl(&mut t, 5, 3, 9, 1000);
    register_handler_impl(&mut t, 5, 3, THREEI_DEREGISTER, 0);
    assert!(!_check_cage_handler_exists(&t, 5));
    assert_eq!(resolve(&t, 5, 3, 5), Err(ResolveError::NoTableForCaller));
    assert_eq!(resolve(&t, 5, 11, 5), Err(ResolveError::NoTableForCaller));
}

#[test]
fn deregistering_for_an_unknown_caller_changes_nothing() {
    let mut t = HandlerTable::new();
    register_handler_impl(&mut t, 5, 3, 9, 1000);
    assert_eq!(register_handler_impl(&mut t, 6, 3, THREEI_DEREGISTER, 0), 0);
    assert_eq!(register_handler_impl(&mut t, 5, 4, THREEI_DEREGISTER, 0), 0);
    assert!(!_check_cage_handler_exists(&t, 6));
    assert_eq!(resolve(&t, 5, 3, 9), Ok((9, 1000)));
}

#[test]
fn copy_never_overwrites() {
    let mut t = HandlerTable::new();
    register_handler_impl(&mut t, 1, 3, 9, 1000);
    register_handler_impl(&mut t, 1, 4, 9, 1100);
    register_handler_impl(&mut t, 1, 3, 8, 1200);
    register_handler_impl(&mut t, 2, 3, 9, 2000);
    assert_eq!(copy_handler_table_to_cage_impl(&mut t, 1, 2), 0);
    assert_eq!(resolve(&t, 2, 3, 9), Ok((9, 2000)));
    assert_eq!(resolve(&t, 2, 3, 8), Ok((8, 1200)));
    assert_eq!(resolve(&t, 2, 4, 9), Ok((9, 1100)));
    assert_eq!(resolve(&t, 1, 3, 9), Ok((9, 1000)));
}

#[test]
fn copy_from_a_unit_without_a_row_fails() {
    let mut t = HandlerTable::new();
    register_handler_impl(&mut t, 2, 3, 9, 2000);
    assert_eq!(copy_handler_table_to_cage_impl(&mut t, 1, 2), ELINDAPIABORTED);
    assert_eq!(ELINDAPIABORTED, 0xE001_0001);
    assert_eq!(resolve(&t, 2, 3, 9), Ok((9, 2000)));
    assert!(!_check_cage_handler_exists(&t, 1));
    assert_eq!(copy_handler_table_to_cage_impl(&mut t, 1, 7), ELINDAPIABORTED);
    assert!(!_check_cage_handler_exists(&t, 7));
}

#[test]
fn copy_onto_itself_changes_nothing() {
    let mut t = HandlerTable::new();
    register_handler_impl(&mut t, 1, 3, 9, 1000);
    assert_eq!(copy_handler_table_to_cage_impl(&mut t, 1, 1), 0);
    assert_eq!(resolve(&t, 1, 3, 9), Ok((9, 1000)));
}

#[test]
fn purging_a_target_spares_other_targets() {
    let mut t = HandlerTable::new();
    register_handler_impl(&mut t, 1, 3, 9, 1000);
    register_handler_impl(&mut t, 1, 3, 8, 1200);
    register_handler_impl(&mut t, 2, 3, 9, 2000);
    register_handler_impl(&mut t, 2, 4, 8, 2200);
    _rm_grate_from_handler(&mut t, 9);
    assert_eq!(resolve(&t, 1, 3, 9), Err(ResolveError::HandlerNotFound));
    assert_eq!(resolve(&t, 1, 3, 8), Ok((8, 1200)));
    assert_eq!(resolve(&t, 2, 3, 9), Err(ResolveError::HandlerNotFound));
    assert_eq!(resolve(&t, 2, 4, 8), Ok((8, 2200)));
}

#[test]
fn purged_row_without_targets_has_no_handler_for_self() {
    let mut t = HandlerTable::new();
    register_handler_impl(&mut t, 2, 3, 9, 2000);
    _rm_grate_from_handler(&mut t, 9);
    assert!(_check_cage_handler_exists(&t, 2));
    assert_eq!(resolve(&t, 2, 3, 2), Err(ResolveError::NoHandlerForCall));
    assert_eq!(_get_handler(&t, 2, 3, 2), None);
    assert_eq!(resolve(&t, 2, 3, 9), Err(ResolveError::HandlerNotFound));
}

#[test]
fn purging_a_caller_spares_entries_that_target_it() {
    let mut t = HandlerTable::new();
    register_handler_impl(&mut t, 9, 3, RAWPOSIX_CAGEID, 7);
    register_handler_impl(&mut t, 1, 3, 9, 1000);
    _rm_cage_from_handler(&mut t, 9);
    assert!(!_check_cage_handler_exists(&t, 9));
    assert_eq!(resolve(&t, 9, 3, 9), Err(ResolveError::NoTableForCaller));
    assert_eq!(resolve(&t, 1, 3, 9), Ok((9, 1000)));
    _rm_cage_from_handler(&mut t, 42);
    assert_eq!(resolve(&t, 1, 3, 9), Ok((9, 1000)));
}

#[test]
fn reserved_ids_are_distinct() {
    assert_ne!(RAWPOSIX_CAGEID, THREEI_DEREGISTER);
    let mut t = HandlerTable::new();
    register_handler_impl(&mut t, RAWPOSIX_CAGEID, 3, RAWPOSIX_CAGEID, 7);
    assert_eq!(
        resolve(&t, RAWPOSIX_CAGEID, 3, RAWPOSIX_CAGEID),
        Ok((RAWPOSIX_CAGEID, 7))
    );
}

#[test]
fn listings_show_rows_and_entries() {
    let mut t = HandlerTable::new();
    assert!(threei::table::callers(&t).is_empty());
    register_handler_impl(&mut t, 1, 3, 9, 1000);
    register_handler_impl(&mut t, 1, 3, 8, 1200);
    register_handler_impl(&mut t, 1, 4, 9, 1300);
    register_handler_impl(&mut t, 2, 3, 9, 2000);
    let mut units = threei::table::callers(&t);
    units.sort();
    assert_eq!(units, vec![1, 2]);
    let mut numbers = threei::table::callnums(&t, 1);
    numbers.sort();
    assert_eq!(numbers, vec![3, 4]);
    assert!(threei::table::callnums(&t, 7).is_empty());
    let mut pairs = threei::table::targets(&t, 1, 3);
    pairs.sort();
    assert_eq!(pairs, vec![(8, 1200), (9, 1000)]);
    assert!(threei::table::targets(&t, 1, 5).is_empty());
    assert!(threei::table::targets(&t, 7, 3).is_empty());
    _rm_grate_from_handler(&mut t, 9);
    assert_eq!(threei::table::targets(&t, 2, 3), vec![]);
    assert_eq!(threei::table::callnums(&t, 2), vec![3]);
}
