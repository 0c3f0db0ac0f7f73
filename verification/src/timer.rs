//! The countdown engine for one phase. One tick stands for 10 ms of wall
//! time, so elapsed time moves in hundredths of a second; progress is kept
//! in ten-thousandths of the whole phase.

use vstd::arithmetic::div_mod::{lemma_div_by_multiple, lemma_div_is_ordered};
use vstd::arithmetic::mul::lemma_mul_inequality;
use vstd::prelude::*;

use crate::app::Event;

verus! {

/// Unit tag for a phase duration; nothing but a conversion factor to seconds.
#[allow(non_camel_case_types)]
#[derive(Clone, Copy, Debug, PartialEq, Eq, Structural)]
pub enum TimeUnit {
    SECONDS,
    MINUTES,
    HOURS,
}

/// Conversion factor to seconds: 1, 60 or 3600.
pub open spec fn unit_factor(unit: TimeUnit) -> nat {
    match unit {
        TimeUnit::SECONDS => 1,
        TimeUnit::MINUTES => 60,
        TimeUnit::HOURS => 3600,
    }
}

/// Progress of `elapsed` out of `total`, in ten-thousandths (0 ..= 10000).
pub open spec fn progress_permyriad_of(elapsed: nat, total: nat) -> nat {
    if total == 0 {
        0
    } else {
        elapsed * 10000 / total
    }
}

/// One tick of the countdown: while not paused and not finished, elapsed
/// advances by one hundredth of a second; otherwise nothing moves.
pub open spec fn ticked_elapsed(elapsed: nat, total: nat, paused: bool) -> nat {
    if paused || elapsed >= total {
        elapsed
    } else {
        elapsed + 1
    }
}

/// Elapsed time after `n` ticks, all taken with the same pause flag.
pub open spec fn elapsed_after_ticks(elapsed: nat, total: nat, paused: bool, n: nat) -> nat
    decreases n,
{
    if n == 0 {
        elapsed
    } else {
        elapsed_after_ticks(ticked_elapsed(elapsed, total, paused), total, paused, (n - 1) as nat)
    }
}

/// The sample emitted by a tick that moved elapsed to `elapsed` out of `total`.
pub open spec fn progress_event(elapsed: nat, total: nat) -> Event {
    Event::Progress {
        progress: progress_permyriad_of(elapsed, total) as u64,
        remaining_centis: (total - elapsed) as u64,
    }
}

/// Mathematical state of a [`Timer`].
pub struct TimerView {
    pub name: Seq<char>,
    pub duration: nat,
    pub unit: TimeUnit,
    pub elapsed_centis: nat,
    pub paused: bool,
}

impl TimerView {
    /// The whole countdown, in hundredths of a second.
    pub open spec fn total_centis(self) -> nat {
        self.duration * unit_factor(self.unit) * 100
    }

    /// A countdown that can run: positive length that fits the counter, and
    /// elapsed time never past the end.
    pub open spec fn wf(self) -> bool {
        &&& 1 <= self.duration
        &&& self.total_centis() <= u64::MAX
        &&& self.elapsed_centis <= self.total_centis()
    }
}

/// Countdown engine for a single phase run; constructed fresh per phase and
/// discarded once the countdown ends.
#[derive(Debug)]
pub struct Timer {
    name: String,
    duration: u64,
    unit: TimeUnit,
    elapsed_centis: u64,
    paused: bool,
}

impl View for Timer {
    type V = TimerView;

    closed spec fn view(&self) -> TimerView {
        TimerView {
            name: self.name@,
            duration: self.duration as nat,
            unit: self.unit,
            elapsed_centis: self.elapsed_centis as nat,
            paused: self.paused,
        }
    }
}

impl Timer {
    /// A countdown over `dur` `time_unit`s, not yet started and not paused.
    pub fn new(name: String, dur: u64, time_unit: TimeUnit) -> (timer: Timer)
        requires
            1 <= dur,
            dur * unit_factor(time_unit) * 100 <= u64::MAX,
        ensures
            timer@ == (TimerView {
                name: name@,
                duration: dur as nat,
                unit: time_unit,
                elapsed_centis: 0,
                paused: false,
            }),
    {
        Timer { name, duration: dur, unit: time_unit, elapsed_centis: 0, paused: false }
    }

    /// Freezes the countdown; elapsed time stops moving until `resume`.
    pub fn pause(&mut self)
        ensures
            final(self)@ == (TimerView { paused: true, ..old(self)@ }),
    {
        self.paused = true;
    }

    /// Lets a paused countdown move again.
    pub fn resume(&mut self)
        ensures
            final(self)@ == (TimerView { paused: false, ..old(self)@ }),
    {
        self.paused = false;
    }

    /// `duration` `unit`s expressed in seconds.
    pub fn seconds_from(duration: u64, unit: TimeUnit) -> (secs: u64)
        requires
            duration * unit_factor(unit) <= u64::MAX,
        ensures
            secs == duration * unit_factor(unit),
    {
        match unit {
            TimeUnit::SECONDS => duration,
            TimeUnit::MINUTES => duration * 60,
            TimeUnit::HOURS => duration * 3600,
        }
    }

    fn as_seconds(&self) -> (secs: u64)
        requires
            self@.wf(),
        ensures
            secs == self@.duration * unit_factor(self@.unit),
    {
        Timer::seconds_from(self.duration, self.unit)
    }

    /// The whole countdown in hundredths of a second.
    pub fn total_centis(&self) -> (total: u64)
        requires
            self@.wf(),
        ensures
            total == self@.total_centis(),
    {
        self.as_seconds() * 100
    }

    pub fn elapsed_centis(&self) -> (elapsed: u64)
        ensures
            elapsed == self@.elapsed_centis,
    {
        self.elapsed_centis
    }

    pub fn is_paused(&self) -> (p: bool)
        ensures
            p == self@.paused,
    {
        self.paused
    }

    /// Has the countdown reached the end of the phase?
    pub fn is_done(&self) -> (done: bool)
        requires
            self@.wf(),
        ensures
            done == (self@.elapsed_centis == self@.total_centis()),
    {
        self.elapsed_centis >= self.total_centis()
    }

    /// Progress so far, in ten-thousandths of the whole phase.
    pub fn progress_permyriad(&self) -> (p: u64)
        requires
            self@.wf(),
        ensures
            p == progress_permyriad_of(self@.elapsed_centis, self@.total_centis()),
    {
        let total: u64 = self.total_centis();
        progress_value(self.elapsed_centis, total)
    }

    /// One tick of the countdown, 10 ms of wall time. While not paused and
    /// not finished it advances elapsed time by one hundredth of a second
    /// and hands back the progress sample to emit; otherwise it changes
    /// nothing and emits nothing.
    pub fn tick(&mut self) -> (ev: Option<Event>)
        requires
            old(self)@.wf(),
        ensures
            final(self)@.wf(),
            final(self)@.name == old(self)@.name,
            final(self)@.duration == old(self)@.duration,
            final(self)@.unit == old(self)@.unit,
            final(self)@.paused == old(self)@.paused,
            final(self)@.elapsed_centis == ticked_elapsed(
                old(self)@.elapsed_centis,
                old(self)@.total_centis(),
                old(self)@.paused,
            ),
            (old(self)@.paused || old(self)@.elapsed_centis == old(self)@.total_centis()) ==> ev
                is None,
            (!old(self)@.paused && old(self)@.elapsed_centis < old(self)@.total_centis()) ==> ev
                == Some(progress_event(final(self)@.elapsed_centis, final(self)@.total_centis())),
    {
        let total: u64 = self.total_centis();
        if self.paused || self.elapsed_centis >= total {
            None
        } else {
            self.elapsed_centis = self.elapsed_centis + 1;
            let progress: u64 = progress_value(self.elapsed_centis, total);
            Some(Event::Progress { progress, remaining_centis: total - self.elapsed_centis })
        }
    }
}

/// Progress of `elapsed` out of `total` hundredths, in ten-thousandths.
fn progress_value(elapsed: u64, total: u64) -> (p: u64)
    requires
        elapsed <= total,
    ensures
        p == progress_permyriad_of(elapsed as nat, total as nat),
{
    if total == 0 {
        0
    } else {
        let wide: u128 = (elapsed as u128) * 10000 / (total as u128);
        proof {
            lemma_mul_inequality(elapsed as int, total as int, 10000);
            lemma_div_is_ordered(elapsed as int * 10000, total as int * 10000, total as int);
            lemma_div_by_multiple(10000, total as int);
        }
        wide as u64
    }
}

/// While paused, no number of ticks moves elapsed time.
pub proof fn lemma_paused_ticks_freeze_elapsed(elapsed: nat, total: nat, n: nat)
    ensures
        elapsed_after_ticks(elapsed, total, true, n) == elapsed,
    decreases n,
{
    if n > 0 {
        lemma_paused_ticks_freeze_elapsed(elapsed, total, (n - 1) as nat);
    }
}

/// Over an unpaused run, elapsed time never falls back, never passes the
/// end of the phase, and grows by at most one hundredth per tick.
pub proof fn lemma_unpaused_ticks_bounds(elapsed: nat, total: nat, n: nat)
    requires
        elapsed <= total,
    ensures
        elapsed <= elapsed_after_ticks(elapsed, total, false, n),
        elapsed_after_ticks(elapsed, total, false, n) <= total,
        elapsed_after_ticks(elapsed, total, false, n) <= elapsed + n,
    decreases n,
{
    if n > 0 {
        lemma_unpaused_ticks_bounds(
            ticked_elapsed(elapsed, total, false),
            total,
            (n - 1) as nat,
        );
    }
}

/// An unpaused run of at least `total - elapsed` ticks reaches the end of
/// the phase exactly.
pub proof fn lemma_unpaused_run_completes(elapsed: nat, total: nat, n: nat)
    requires
        elapsed <= total,
        total - elapsed <= n,
    ensures
        elapsed_after_ticks(elapsed, total, false, n) == total,
    decreases n,
{
    if n > 0 {
        lemma_unpaused_run_completes(ticked_elapsed(elapsed, total, false), total, (n - 1) as nat);
    }
}

/// More unpaused ticks never mean less elapsed time.
pub proof fn lemma_elapsed_monotone_in_ticks(elapsed: nat, total: nat, n1: nat, n2: nat)
    requires
        n1 <= n2,
    ensures
        elapsed_after_ticks(elapsed, total, false, n1) <= elapsed_after_ticks(
            elapsed,
            total,
            false,
            n2,
        ),
    decreases n1,
{
    if n1 > 0 {
        lemma_elapsed_monotone_in_ticks(
            ticked_elapsed(elapsed, total, false),
            total,
            (n1 - 1) as nat,
            (n2 - 1) as nat,
        );
    } else {
        lemma_ticks_never_decrease_elapsed(elapsed, total, n2);
    }
}

/// Any number of unpaused ticks leaves elapsed time at least where it was.
pub proof fn lemma_ticks_never_decrease_elapsed(elapsed: nat, total: nat, n: nat)
    ensures
        elapsed <= elapsed_after_ticks(elapsed, total, false, n),
    decreases n,
{
    if n > 0 {
        lemma_ticks_never_decrease_elapsed(ticked_elapsed(elapsed, total, false), total, (n
            - 1) as nat);
    }
}

/// Progress grows with elapsed time.
pub proof fn lemma_progress_monotone_in_elapsed(e1: nat, e2: nat, total: nat)
    requires
        e1 <= e2,
    ensures
        progress_permyriad_of(e1, total) <= progress_permyriad_of(e2, total),
{
    if total > 0 {
        lemma_mul_inequality(e1 as int, e2 as int, 10000);
        lemma_div_is_ordered(e1 as int * 10000, e2 as int * 10000, total as int);
    }
}

/// Progress over one unpaused phase run is monotonically non-decreasing:
/// a later tick never reports less progress than an earlier one.
pub proof fn lemma_progress_monotone(elapsed: nat, total: nat, n1: nat, n2: nat)
    requires
        n1 <= n2,
    ensures
        progress_permyriad_of(elapsed_after_ticks(elapsed, total, false, n1), total)
            <= progress_permyriad_of(elapsed_after_ticks(elapsed, total, false, n2), total),
{
    lemma_elapsed_monotone_in_ticks(elapsed, total, n1, n2);
    lemma_progress_monotone_in_elapsed(
        elapsed_after_ticks(elapsed, total, false, n1),
        elapsed_after_ticks(elapsed, total, false, n2),
        total,
    );
}

/// Elapsed time after a run of ticks, one pause flag per tick.
pub open spec fn elapsed_after_run(elapsed: nat, total: nat, flags: Seq<bool>) -> nat
    decreases flags.len(),
{
    if flags.len() == 0 {
        elapsed
    } else {
        elapsed_after_run(ticked_elapsed(elapsed, total, flags[0]), total, flags.drop_first())
    }
}

/// Over any run, with pauses and resumes falling wherever they may,
/// elapsed time never falls back.
pub proof fn lemma_run_elapsed_nondecreasing(elapsed: nat, total: nat, flags: Seq<bool>)
    ensures
        elapsed <= elapsed_after_run(elapsed, total, flags),
    decreases flags.len(),
{
    if flags.len() > 0 {
        lemma_run_elapsed_nondecreasing(
            ticked_elapsed(elapsed, total, flags[0]),
            total,
            flags.drop_first(),
        );
    }
}

/// Over any run, with pauses and resumes falling wherever they may,
/// progress never falls back.
pub proof fn lemma_run_progress_monotone(elapsed: nat, total: nat, flags: Seq<bool>)
    ensures
        progress_permyriad_of(elapsed, total) <= progress_permyriad_of(
            elapsed_after_run(elapsed, total, flags),
            total,
        ),
{
    lemma_run_elapsed_nondecreasing(elapsed, total, flags);
    lemma_progress_monotone_in_elapsed(
        elapsed,
        elapsed_after_run(elapsed, total, flags),
        total,
    );
}

/// A countdown that has reached the end of the phase reports full progress:
/// the sample emitted by the tick that reached the end carries exactly
/// 10000 ten-thousandths and no remaining time.
pub proof fn lemma_completed_progress_full(total: nat)
    requires
        0 < total,
        total <= u64::MAX,
    ensures
        progress_permyriad_of(total, total) == 10000,
        progress_event(total, total) == (Event::Progress { progress: 10000u64, remaining_centis: 0u64 }),
{
    lemma_div_by_multiple(10000, total as int);
}

} // verus!
