use std::time::Duration;
use std::time::Instant;
use vstd::prelude::*;

verus! {

/// The standard library's `std::time::Instant`, which is carried through
/// and never looked into.
#[verifier::external_type_specification]
#[verifier::external_body]
pub struct ExInstant(Instant);

/// Reads the clock, with `Instant::now`. Nothing is said of the moment.
#[verifier::external_body]
fn now() -> (t: Instant) {
    Instant::now()
}

/// The time that has passed since `start`, with `Instant::elapsed`. Nothing
/// is said of its length.
#[verifier::external_body]
fn elapsed_since(start: &Instant) -> (d: Duration) {
    start.elapsed()
}

/// Makes a duration with `Duration::new(0, 0)`. Nothing is said of it here,
/// as a duration is never looked into.
#[verifier::external_body]
fn no_time() -> (d: Duration) {
    Duration::new(0, 0)
}

/// The counters of a run.
#[derive(Debug)]
pub struct Stats {
    pub instruction_count: isize,
    pub cycle_count: usize,
    pub start_time: Instant,
    pub exec_total_time: Duration,
}

/// Starts the counters for a core of `pipeline_stages` stages. The
/// instruction count starts at `-(pipeline_stages - 1) + 1`: below zero by
/// the cycles in which a pipeline fills, so that the cycles per
/// instruction of a long run are those of the steady state.
pub fn new(pipeline_stages: usize) -> (s: Stats)
    requires
        pipeline_stages <= isize::MAX,
    ensures
        s.instruction_count == -(pipeline_stages - 1) + 1,
        s.cycle_count == 0,
{
    Stats {
        instruction_count: 2 - (pipeline_stages as isize),
        cycle_count: 0,
        start_time: now(),
        exec_total_time: no_time(),
    }
}

impl Stats {
    /// Counts one cycle.
    pub fn cycle_incr(&mut self)
        requires
            old(self).cycle_count < usize::MAX,
        ensures
            *final(self) == (Stats { cycle_count: (old(self).cycle_count + 1) as usize, ..*old(self) }),
    {
        self.cycle_count += 1;
    }

    /// Counts one instruction.
    pub fn instr_incr(&mut self)
        requires
            old(self).instruction_count < isize::MAX,
        ensures
            *final(self) == (Stats {
                instruction_count: (old(self).instruction_count + 1) as isize,
                ..*old(self)
            }),
    {
        self.instruction_count += 1;
    }

    /// Records the time that has passed since the start as the total, and
    /// returns it.
    pub fn mark_finished(&mut self) -> (d: Duration)
        ensures
            d == final(self).exec_total_time,
            final(self).instruction_count == old(self).instruction_count,
            final(self).cycle_count == old(self).cycle_count,
            final(self).start_time == old(self).start_time,
    {
        self.exec_total_time = elapsed_since(&self.start_time);
        self.exec_total_time
    }

    /// The total recorded by `mark_finished`.
    pub fn exec_total_time(&self) -> (d: Duration)
        ensures
            d == self.exec_total_time,
    {
        self.exec_total_time
    }
}

} // verus!
