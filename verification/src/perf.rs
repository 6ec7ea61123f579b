//! Counters that time call sites.
//!
//! A counter adds up the time spent between a start mark and the matching
//! record, and counts the records. It reads no clock itself: the caller
//! passes the reading of the timer that the counter is set to, in that
//! timer's unit.

use vstd::prelude::*;

verus! {

/// The timer behind a counter.
#[derive(Copy, Clone, Debug, PartialEq, Eq, Structural)]
pub enum TimerKind {
    /// The processor's time-stamp counter; readings are in cycles.
    Rdtsc,
    /// The raw monotonic clock; readings are in nanoseconds.
    Clock,
}

impl TimerKind {
    /// The timer's name as reports show it.
    pub fn name(self) -> (name: &'static str)
        ensures
            name@ == (match self {
                TimerKind::Rdtsc => "RdtscTimer"@,
                TimerKind::Clock => "ClockTimer"@,
            }),
    {
        match self {
            TimerKind::Rdtsc => "RdtscTimer",
            TimerKind::Clock => "ClockTimer",
        }
    }

    /// The unit of the timer's readings.
    pub fn unit(self) -> (unit: &'static str)
        ensures
            unit@ == (match self {
                TimerKind::Rdtsc => "cycles"@,
                TimerKind::Clock => "ns"@,
            }),
    {
        match self {
            TimerKind::Rdtsc => "cycles",
            TimerKind::Clock => "ns",
        }
    }
}

/// The timer that a new counter uses.
pub fn default_timer_kind() -> (kind: TimerKind)
    ensures
        kind == TimerKind::Clock,
{
    TimerKind::Clock
}

/// The timer that a numeric source selects: 1 the time-stamp counter, any
/// other number the clock.
pub open spec fn spec_timer_of_source(source: i32) -> TimerKind {
    if source == 1 {
        TimerKind::Rdtsc
    } else {
        TimerKind::Clock
    }
}

/// Time elapsed from `start` to `now`, zero where the timer ran backwards.
pub open spec fn spec_elapsed(start: u64, now: u64) -> int {
    if now >= start {
        now - start
    } else {
        0
    }
}

/// The sum of a total and an addition as a 64-bit counter holds it: past
/// the largest value it starts again from zero.
pub open spec fn spec_wrapped(total: u64, more: int) -> int {
    (total + more) % 0x1_0000_0000_0000_0000
}

/// The totals of one call site.
#[derive(Copy, Clone, Debug)]
pub struct Counter {
    /// Time spent in the site, in the timer's unit.
    pub cycles: u64,
    /// Number of recorded passes through the site.
    pub calls: u64,
    pub name: &'static str,
    /// A counter that is not enabled marks and records nothing.
    pub enabled: bool,
    /// The timer whose readings the counter is fed.
    pub timer: TimerKind,
}

/// A pass through a call site that has begun and not yet been recorded.
#[derive(Copy, Clone, Debug)]
pub struct Scope {
    /// The start mark taken when the pass began.
    pub start: u64,
}

impl Scope {
    /// Ends the pass: records it on `counter` with the reading `now`.
    pub fn finish(self, counter: &mut Counter, now: u64)
        ensures
            *final(counter) == old(counter).spec_record(self.start, now),
    {
        counter.record(self.start, now);
    }
}

impl Counter {
    /// The start mark for a pass that begins at reading `now`: the reading
    /// itself, or 0 where the counter is disabled.
    pub open spec fn spec_start(&self, now: u64) -> u64 {
        if self.enabled {
            now
        } else {
            0
        }
    }

    /// The counter after a pass from mark `start` to reading `now` has been
    /// recorded: unchanged where it is disabled, and else one call more and
    /// the elapsed time added.
    pub open spec fn spec_record(&self, start: u64, now: u64) -> Counter {
        if self.enabled {
            Counter {
                cycles: spec_wrapped(self.cycles, spec_elapsed(start, now)) as u64,
                calls: spec_wrapped(self.calls, 1) as u64,
                ..*self
            }
        } else {
            *self
        }
    }

    /// The counter with empty totals.
    pub open spec fn spec_reset(&self) -> Counter {
        Counter { cycles: 0, calls: 0, ..*self }
    }

    /// A disabled counter with empty totals, on the default timer.
    pub fn new(name: &'static str) -> (counter: Self)
        ensures
            counter == (Counter {
                cycles: 0,
                calls: 0,
                name,
                enabled: false,
                timer: TimerKind::Clock,
            }),
    {
        Self::new_with_timer(name, default_timer_kind())
    }

    /// A disabled counter with empty totals, on the given timer.
    pub fn new_with_timer(name: &'static str, timer: TimerKind) -> (counter: Self)
        ensures
            counter == (Counter { cycles: 0, calls: 0, name, enabled: false, timer }),
    {
        Counter { cycles: 0, calls: 0, name, enabled: false, timer }
    }

    /// The start mark for a pass that begins at reading `now`.
    pub fn start(&self, now: u64) -> (mark: u64)
        ensures
            mark == self.spec_start(now),
    {
        if self.enabled {
            now
        } else {
            0
        }
    }

    /// Records a pass that began at mark `start` and ends at reading `now`.
    /// Does nothing where the counter is disabled.
    pub fn record(&mut self, start: u64, now: u64)
        ensures
            *final(self) == old(self).spec_record(start, now),
    {
        if self.enabled {
            let elapsed = now.saturating_sub(start);
            self.cycles = self.cycles.wrapping_add(elapsed);
            self.calls = self.calls.wrapping_add(1);
        }
    }

    /// Begins a pass at reading `now`.
    pub fn scope(&self, now: u64) -> (pass: Scope)
        ensures
            pass.start == self.spec_start(now),
    {
        Scope { start: self.start(now) }
    }

    /// Enables the counter.
    pub fn enable(&mut self)
        ensures
            *final(self) == (Counter { enabled: true, ..*old(self) }),
    {
        self.enabled = true;
    }

    /// Disables the counter.
    pub fn disable(&mut self)
        ensures
            *final(self) == (Counter { enabled: false, ..*old(self) }),
    {
        self.enabled = false;
    }

    /// Empties the totals.
    pub fn reset(&mut self)
        ensures
            *final(self) == old(self).spec_reset(),
    {
        self.cycles = 0;
        self.calls = 0;
    }

    /// Sets the timer. The totals stay as they are.
    pub fn set_timer_kind(&mut self, kind: TimerKind)
        ensures
            *final(self) == (Counter { timer: kind, ..*old(self) }),
    {
        self.timer = kind;
    }

    /// The timer that the counter is set to.
    pub fn timer_kind(&self) -> (kind: TimerKind)
        ensures
            kind == self.timer,
    {
        self.timer
    }
}

/// Whether two names are the same text.
fn same_name(a: &str, b: &str) -> (same: bool)
    ensures
        same == (a@ == b@),
{
    let x = a.to_owned();
    let y = b.to_owned();
    x == y
}

/// Empties the totals of every counter of a group.
pub fn reset_all(counters: &mut Vec<Counter>)
    ensures
        final(counters)@ == old(counters)@.map_values(|c: Counter| c.spec_reset()),
{
    let ghost before = counters@;
    let mut i: usize = 0;
    while i < counters.len()
        invariant
            i <= counters.len(),
            counters@.len() == before.len(),
            forall|j: int| 0 <= j < i ==> counters@[j] == before[j].spec_reset(),
            forall|j: int| i <= j < before.len() ==> counters@[j] == before[j],
        decreases counters.len() - i,
    {
        let mut c = counters[i];
        c.reset();
        counters.set(i, c);
        i += 1;
    }
    assert(counters@ =~= before.map_values(|c: Counter| c.spec_reset()));
}

/// Sets the timer of every counter of a group. The totals stay.
pub fn set_timer(counters: &mut Vec<Counter>, kind: TimerKind)
    ensures
        final(counters)@ == old(counters)@.map_values(|c: Counter| Counter { timer: kind, ..c }),
{
    let ghost before = counters@;
    let mut i: usize = 0;
    while i < counters.len()
        invariant
            i <= counters.len(),
            counters@.len() == before.len(),
            forall|j: int| 0 <= j < i ==> counters@[j] == (Counter { timer: kind, ..before[j] }),
            forall|j: int| i <= j < before.len() ==> counters@[j] == before[j],
        decreases counters.len() - i,
    {
        let mut c = counters[i];
        c.set_timer_kind(kind);
        counters.set(i, c);
        i += 1;
    }
    assert(counters@ =~= before.map_values(|c: Counter| Counter { timer: kind, ..c }));
}

/// The timer that a numeric source selects.
pub fn timer_of_source(source: i32) -> (kind: TimerKind)
    ensures
        kind == spec_timer_of_source(source),
{
    if source == 1 {
        TimerKind::Rdtsc
    } else {
        TimerKind::Clock
    }
}

/// Sets every counter of a group to the timer that `source` selects.
pub fn set_timer_source(counters: &mut Vec<Counter>, source: i32)
    ensures
        final(counters)@ == old(counters)@.map_values(
            |c: Counter| Counter { timer: spec_timer_of_source(source), ..c },
        ),
{
    set_timer(counters, timer_of_source(source));
}

/// Enables the counters of a group that bear `name`, and disables all
/// others.
pub fn enable_name(counters: &mut Vec<Counter>, name: &str)
    ensures
        final(counters)@ == old(counters)@.map_values(
            |c: Counter| Counter { enabled: c.name@ == name@, ..c },
        ),
{
    let _ = enable_only(counters, name);
}

/// Enables the counters of a group that bear `name`, disables all others,
/// and says whether any bears it.
pub fn enable_only(counters: &mut Vec<Counter>, name: &str) -> (found: bool)
    ensures
        final(counters)@ == old(counters)@.map_values(
            |c: Counter| Counter { enabled: c.name@ == name@, ..c },
        ),
        found <==> exists|j: int| 0 <= j < old(counters)@.len() && old(counters)@[j].name@ == name@,
{
    let ghost before = counters@;
    let mut found = false;
    let mut i: usize = 0;
    while i < counters.len()
        invariant
            i <= counters.len(),
            counters@.len() == before.len(),
            forall|j: int|
                0 <= j < i ==> counters@[j] == (Counter {
                    enabled: before[j].name@ == name@,
                    ..before[j]
                }),
            forall|j: int| i <= j < before.len() ==> counters@[j] == before[j],
            found <==> exists|j: int| 0 <= j < i && before[j].name@ == name@,
        decreases counters.len() - i,
    {
        let mut c = counters[i];
        if same_name(c.name, name) {
            c.enable();
            found = true;
        } else {
            c.disable();
        }
        counters.set(i, c);
        i += 1;
    }
    assert(counters@ =~= before.map_values(
        |c: Counter| Counter { enabled: c.name@ == name@, ..c },
    ));
    found
}

/// The names of a group's counters, in the group's order.
pub fn all_counter_names(counters: &Vec<Counter>) -> (names: Vec<&'static str>)
    ensures
        names@ == counters@.map_values(|c: Counter| c.name),
{
    let mut names: Vec<&'static str> = Vec::new();
    let mut i: usize = 0;
    while i < counters.len()
        invariant
            i <= counters.len(),
            names@.len() == i,
            forall|j: int| 0 <= j < i ==> names@[j] == counters@[j].name,
        decreases counters.len() - i,
    {
        names.push(counters[i].name);
        i += 1;
    }
    assert(names@ =~= counters@.map_values(|c: Counter| c.name));
    names
}

/// Width of a report's header line, in columns.
pub const HEADER_WIDTH: usize = 97;

/// The padding that centres a title of `title_len` columns in a header line:
/// how many pad characters go before it and how many after. Where the rest
/// is odd, the extra one goes after.
pub fn header_padding(title_len: usize) -> (pads: (usize, usize))
    requires
        title_len <= HEADER_WIDTH,
    ensures
        pads.0 == (HEADER_WIDTH - title_len) / 2,
        pads.0 + title_len + pads.1 == HEADER_WIDTH,
{
    let total = HEADER_WIDTH - title_len;
    let left = total / 2;
    (left, total - left)
}

/// One line of a report: a counter that recorded at least one call.
#[derive(Copy, Clone, Debug)]
pub struct ReportRow {
    pub name: &'static str,
    pub calls: u64,
    /// Time spent in all calls together.
    pub total: u64,
    /// Time spent per call, rounded down.
    pub average: u64,
    /// The timer, which gives the unit of `total` and `average`.
    pub timer: TimerKind,
}

/// The report line of a counter that has recorded calls.
pub open spec fn spec_row(c: Counter) -> ReportRow
    recommends
        c.calls != 0,
{
    ReportRow {
        name: c.name,
        calls: c.calls,
        total: c.cycles,
        average: (c.cycles / c.calls) as u64,
        timer: c.timer,
    }
}

/// The report of a group: the lines of the counters that recorded a call,
/// in the group's order.
pub open spec fn spec_report(counters: Seq<Counter>) -> Seq<ReportRow>
    decreases counters.len(),
{
    if counters.len() == 0 {
        Seq::empty()
    } else if counters.last().calls == 0 {
        spec_report(counters.drop_last())
    } else {
        spec_report(counters.drop_last()).push(spec_row(counters.last()))
    }
}

/// Draws up the report of a group. Counters without a call are left out.
pub fn report(counters: &Vec<Counter>) -> (rows: Vec<ReportRow>)
    ensures
        rows@ == spec_report(counters@),
{
    let mut rows: Vec<ReportRow> = Vec::new();
    let mut i: usize = 0;
    while i < counters.len()
        invariant
            i <= counters.len(),
            rows@ == spec_report(counters@.take(i as int)),
        decreases counters.len() - i,
    {
        let c = counters[i];
        proof {
            let upto = counters@.take(i + 1);
            assert(upto.drop_last() =~= counters@.take(i as int));
            assert(upto.last() == c);
        }
        if c.calls != 0 {
            rows.push(
                ReportRow {
                    name: c.name,
                    calls: c.calls,
                    total: c.cycles,
                    average: c.cycles / c.calls,
                    timer: c.timer,
                },
            );
        }
        i += 1;
    }
    assert(counters@.take(counters@.len() as int) =~= counters@);
    rows
}

} // verus!
