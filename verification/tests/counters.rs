use threei::perf::{
    all_counter_names, default_timer_kind, enable_name, enable_only, header_padding, report,
    reset_all, set_timer, set_timer_source, timer_of_source, Counter, Scope, TimerKind,
    HEADER_WIDTH,
};

#[test]
fn timer_names_and_units() {
    assert_eq!(TimerKind::Rdtsc.name(), "RdtscTimer");
    assert_eq!(TimerKind::Clock.name(), "ClockTimer");
    assert_eq!(TimerKind::Rdtsc.unit(), "cycles");
    assert_eq!(TimerKind::Clock.unit(), "ns");
    assert_eq!(default_timer_kind(), TimerKind::Clock);
}

#[test]
fn new_counter_is_disabled_and_empty() {
    let c = Counter::new("site");
    assert_eq!(c.name, "site");
    assert_eq!(c.cycles, 0);
    assert_eq!(c.calls, 0);
    assert!(!c.enabled);
    assert_eq!(c.timer_kind(), TimerKind::Clock);
    let d = Counter::new_with_timer("other", TimerKind::Rdtsc);
    assert_eq!(d.name, "other");
    assert_eq!(d.timer_kind(), TimerKind::Rdtsc);
    assert!(!d.enabled);
}

#[test]
fn disabled_counter_marks_and_records_nothing() {
    let mut c = Counter::new("site");
    assert_eq!(c.start(500), 0);
    c.record(0, 900);
    assert_eq!(c.cycles, 0);
    assert_eq!(c.calls, 0);
    assert_eq!(c.scope(500).start, 0);
}

#[test]
fn enabled_counter_adds_elapsed_time() {
    let mut c = Counter::new("site");
    c.enable();
    assert!(c.enabled);
    let mark = c.start(500);
    assert_eq!(mark, 500);
    c.record(mark, 740);
    assert_eq!(c.cycles, 240);
    assert_eq!(c.calls, 1);
    c.record(1000, 1010);
    assert_eq!(c.cycles, 250);
    assert_eq!(c.calls, 2);
    c.disable();
    assert!(!c.enabled);
    c.record(0, 100);
    assert_eq!(c.cycles, 250);
    assert_eq!(c.calls, 2);
}

#[test]
fn clock_running_backwards_counts_as_no_time() {
    let mut c = Counter::new("site");
    c.enable();
    c.record(900, 500);
    assert_eq!(c.cycles, 0);
    assert_eq!(c.calls, 1);
}

#[test]
fn totals_wrap_around() {
    let mut c = Counter::new("site");
    c.enable();
    c.cycles = u64::MAX - 1;
    c.calls = u64::MAX;
    c.record(10, 15);
    assert_eq!(c.cycles, 3);
    assert_eq!(c.calls, 0);
}

#[test]
fn scope_records_on_finish() {
    let mut c = Counter::new("site");
    c.enable();
    let pass: Scope = c.scope(100);
    assert_eq!(pass.start, 100);
    pass.finish(&mut c, 130);
    assert_eq!(c.cycles, 30);
    assert_eq!(c.calls, 1);
}

#[test]
fn reset_keeps_name_flag_and_timer() {
    let mut c = Counter::new_with_timer("site", TimerKind::Rdtsc);
    c.enable();
    c.record(0, 77);
    c.reset();
    assert_eq!(c.cycles, 0);
    assert_eq!(c.calls, 0);
    assert!(c.enabled);
    assert_eq!(c.name, "site");
    assert_eq!(c.timer_kind(), TimerKind::Rdtsc);
}

#[test]
fn set_timer_kind_keeps_totals() {
    let mut c = Counter::new("site");
    c.enable();
    c.record(0, 77);
    c.set_timer_kind(TimerKind::Rdtsc);
    assert_eq!(c.timer_kind(), TimerKind::Rdtsc);
    assert_eq!(c.cycles, 77);
    assert_eq!(c.calls, 1);
    assert!(c.enabled);
}

fn group() -> Vec<Counter> {
    vec![Counter::new("a"), Counter::new("b"), Counter::new("a"), Counter::new("c")]
}

#[test]
fn enable_name_enables_only_the_named() {
    let mut g = group();
    g[1].enable();
    enable_name(&mut g, "a");
    let flags: Vec<bool> = g.iter().map(|c| c.enabled).collect();
    assert_eq!(flags, vec![true, false, true, false]);
    enable_name(&mut g, "zz");
    assert!(g.iter().all(|c| !c.enabled));
}

#[test]
fn enable_only_reports_whether_found() {
    let mut g = group();
    assert!(enable_only(&mut g, "c"));
    let flags: Vec<bool> = g.iter().map(|c| c.enabled).collect();
    assert_eq!(flags, vec![false, false, false, true]);
    assert!(!enable_only(&mut g, "cc"));
    assert!(g.iter().all(|c| !c.enabled));
    let mut none: Vec<Counter> = Vec::new();
    assert!(!enable_only(&mut none, "a"));
}

#[test]
fn reset_all_empties_every_total() {
    let mut g = group();
    enable_name(&mut g, "a");
    g[0].record(0, 10);
    g[2].record(0, 20);
    reset_all(&mut g);
    assert!(g.iter().all(|c| c.cycles == 0 && c.calls == 0));
    assert!(g[0].enabled && g[2].enabled && !g[1].enabled);
    assert_eq!(all_counter_names(&g), vec!["a", "b", "a", "c"]);
}

#[test]
fn set_timer_reaches_every_counter() {
    let mut g = group();
    set_timer(&mut g, TimerKind::Rdtsc);
    assert!(g.iter().all(|c| c.timer_kind() == TimerKind::Rdtsc));
    set_timer_source(&mut g, 0);
    assert!(g.iter().all(|c| c.timer_kind() == TimerKind::Clock));
    set_timer_source(&mut g, 1);
    assert!(g.iter().all(|c| c.timer_kind() == TimerKind::Rdtsc));
    set_timer_source(&mut g, 2);
    assert!(g.iter().all(|c| c.timer_kind() == TimerKind::Clock));
    assert_eq!(timer_of_source(1), TimerKind::Rdtsc);
    assert_eq!(timer_of_source(-1), TimerKind::Clock);
}

#[test]
fn report_skips_counters_without_calls() {
    let mut g = group();
    assert!(report(&g).is_empty());
    enable_name(&mut g, "a");
    g[2].record(0, 10);
    g[2].record(0, 15);
    g[2].record(0, 0);
    g[0].record(5, 12);
    let rows = report(&g);
    assert_eq!(rows.len(), 2);
    assert_eq!(rows[0].name, "a");
    assert_eq!(rows[0].calls, 1);
    assert_eq!(rows[0].total, 7);
    assert_eq!(rows[0].average, 7);
    assert_eq!(rows[1].calls, 3);
    assert_eq!(rows[1].total, 25);
    assert_eq!(rows[1].average, 8);
    assert_eq!(rows[1].timer, TimerKind::Clock);
}

#[test]
fn header_padding_centres_the_title() {
    assert_eq!(HEADER_WIDTH, 97);
    assert_eq!(header_padding(9), (44, 44));
    assert_eq!(header_padding(8), (44, 45));
    assert_eq!(header_padding(0), (48, 49));
    assert_eq!(header_padding(97), (0, 0));
    assert_eq!(header_padding(96), (0, 1));
}
