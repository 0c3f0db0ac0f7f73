//! Controller state: the event and command unions, the phase description,
//! the display snapshot the renderer reads, and the `mm:ss` time formatting.

use vstd::prelude::*;
use vstd::string::StringExecFns;

use crate::scheduler::PhaseScheduler;
use crate::timer::{unit_factor, TimeUnit, Timer};

verus! {

/// Display color tag for a phase's progress bar.
#[derive(Clone, Copy, Debug, PartialEq, Eq, Structural)]
pub enum Color {
    Red,
    Blue,
}

/// The part of a key press that the controller reads.
#[derive(Clone, Copy, Debug, PartialEq, Eq, Structural)]
pub enum KeyCode {
    Char(char),
    Other,
}

/// One keyboard event: which key, and whether this is the press edge
/// (as opposed to a release or repeat).
#[derive(Clone, Copy, Debug, PartialEq, Eq, Structural)]
pub struct KeyEvent {
    pub code: KeyCode,
    pub press: bool,
}

/// A named countdown phase: a positive duration in `unit`s and a bar color.
#[derive(Debug)]
pub struct TimerType {
    pub name: String,
    pub duration: u64,
    pub unit: TimeUnit,
    pub color: Color,
}

impl TimerType {
    /// The phase length in whole seconds: `duration` times the unit's factor.
    pub open spec fn spec_total_seconds(&self) -> nat {
        self.duration as nat * unit_factor(self.unit)
    }

    /// A phase the countdown engine can run: positive, and short enough that
    /// its length in hundredths of a second fits the counter.
    pub open spec fn wf(&self) -> bool {
        &&& 1 <= self.duration
        &&& self.spec_total_seconds() * 100 <= u64::MAX
    }

    pub fn total_seconds(&self) -> (secs: u64)
        requires
            self.spec_total_seconds() <= u64::MAX,
        ensures
            secs == self.spec_total_seconds(),
    {
        Timer::seconds_from(self.duration, self.unit)
    }
}

impl Clone for TimerType {
    fn clone(&self) -> (other: Self)
        ensures
            other == *self,
    {
        TimerType {
            name: self.name.clone(),
            duration: self.duration,
            unit: self.unit,
            color: self.color,
        }
    }
}

/// Events consumed by the controller, pushed by the input listener
/// (`Input`) and the timer worker (`Progress`, `TimerDone`).
#[derive(Clone, Copy, Debug)]
pub enum Event {
    Input(KeyEvent),
    /// A sample from the running countdown: `progress` in ten-thousandths of
    /// the whole phase (0 ..= 10000), `remaining_centis` in hundredths of a
    /// second.
    Progress { progress: u64, remaining_centis: u64 },
    TimerDone(bool),
}

/// Commands consumed by the timer worker.
#[derive(Debug)]
pub enum TimerCommand {
    Phase(TimerType),
}

/// Does this key ask the program to quit?
pub open spec fn is_quit_key(key: KeyEvent) -> bool {
    key.press && (key.code == KeyCode::Char('q') || key.code == KeyCode::Char('Q'))
}

/// The character for one decimal digit.
pub open spec fn digit_char(d: nat) -> char {
    if d == 0 {
        '0'
    } else if d == 1 {
        '1'
    } else if d == 2 {
        '2'
    } else if d == 3 {
        '3'
    } else if d == 4 {
        '4'
    } else if d == 5 {
        '5'
    } else if d == 6 {
        '6'
    } else if d == 7 {
        '7'
    } else if d == 8 {
        '8'
    } else {
        '9'
    }
}

/// The decimal digits of `n`, most significant first, no leading zeros.
pub open spec fn dec_rep(n: nat) -> Seq<char>
    decreases n,
{
    if n < 10 {
        seq![digit_char(n)]
    } else {
        dec_rep(n / 10).push(digit_char(n % 10))
    }
}

/// The decimal digits of `n`, padded with a zero to at least two places.
pub open spec fn padded2(n: nat) -> Seq<char> {
    if n < 10 {
        seq!['0'] + dec_rep(n)
    } else {
        dec_rep(n)
    }
}

/// `secs` rendered as `mm:ss`: whole minutes, a colon, leftover seconds,
/// each padded to two places and with no rollover of minutes into hours.
pub open spec fn format_time_spec(secs: nat) -> Seq<char> {
    padded2(secs / 60) + seq![':'] + padded2(secs % 60)
}

/// The display snapshot owned by the controller; the renderer only reads it.
pub struct AppView {
    pub exit: bool,
    pub prog_bar_color: Color,
    pub timer_progress: nat,
    pub timer_name: Seq<char>,
    pub remaining_centis: nat,
    pub total_centis: nat,
}

/// Display state after switching to `phase`: the bar resets and the name,
/// color and length are taken from the phase; the exit flag is kept.
pub open spec fn phase_applied(prior: AppView, phase: TimerType) -> AppView {
    AppView {
        exit: prior.exit,
        prog_bar_color: phase.color,
        timer_progress: 0,
        timer_name: phase.name@,
        remaining_centis: phase.spec_total_seconds() * 100,
        total_centis: phase.spec_total_seconds() * 100,
    }
}

/// Controller: sole owner of the display state and of the exit flag.
#[derive(Debug)]
pub struct App {
    exit: bool,
    prog_bar_color: Color,
    timer_progress: u64,
    timer_name: String,
    remaining_centis: u64,
    total_centis: u64,
}

impl View for App {
    type V = AppView;

    closed spec fn view(&self) -> AppView {
        AppView {
            exit: self.exit,
            prog_bar_color: self.prog_bar_color,
            timer_progress: self.timer_progress as nat,
            timer_name: self.timer_name@,
            remaining_centis: self.remaining_centis as nat,
            total_centis: self.total_centis as nat,
        }
    }
}

impl App {
    /// Fresh display state: red bar, name "Work", nothing elapsed, no exit
    /// requested.
    pub fn new() -> (app: App)
        ensures
            app@ == (AppView {
                exit: false,
                prog_bar_color: Color::Red,
                timer_progress: 0,
                timer_name: "Work"@,
                remaining_centis: 0,
                total_centis: 0,
            }),
    {
        App {
            exit: false,
            prog_bar_color: Color::Red,
            timer_progress: 0,
            timer_name: "Work".to_owned(),
            remaining_centis: 0,
            total_centis: 0,
        }
    }

    /// Sets the exit flag on a quit key; every other key leaves the state as
    /// it was.
    pub fn handle_key_event(&mut self, key_event: KeyEvent)
        ensures
            final(self)@ == (AppView { exit: old(self)@.exit || is_quit_key(key_event), ..old(self)@ }),
    {
        if key_event.press {
            if key_event.code == KeyCode::Char('q') || key_event.code == KeyCode::Char('Q') {
                self.exit = true;
            }
        }
    }

    /// Resets the display state to the start of `phase`.
    pub fn apply_phase(&mut self, phase: &TimerType)
        requires
            phase.wf(),
        ensures
            final(self)@ == phase_applied(old(self)@, *phase),
    {
        self.timer_name = phase.name.clone();
        self.total_centis = phase.total_seconds() * 100;
        self.remaining_centis = self.total_centis;
        self.timer_progress = 0;
        self.prog_bar_color = phase.color;
    }

    /// Applies the scheduler's current phase and returns the command that
    /// starts its countdown.
    pub fn start_current(&mut self, scheduler: &PhaseScheduler) -> (cmd: TimerCommand)
        requires
            scheduler@.wf(),
        ensures
            final(self)@ == phase_applied(old(self)@, scheduler@.phases[scheduler@.index]),
            cmd == TimerCommand::Phase(scheduler@.phases[scheduler@.index]),
    {
        let phase = scheduler.current().clone();
        self.apply_phase(&phase);
        TimerCommand::Phase(phase)
    }

    /// One step of the controller: consumes one event and updates the
    /// display state. A key press may set the exit flag; a progress sample
    /// is copied in verbatim; a finished countdown advances the scheduler,
    /// resets the display to the new phase, and yields the command that
    /// starts it.
    pub fn handle_event(&mut self, event: Event, scheduler: &mut PhaseScheduler) -> (cmd: Option<
        TimerCommand,
    >)
        requires
            old(scheduler)@.wf(),
        ensures
            final(scheduler)@.wf(),
            final(scheduler)@.phases == old(scheduler)@.phases,
            event matches Event::Input(key) ==> final(scheduler)@ == old(scheduler)@
                && final(self)@ == (AppView {
                exit: old(self)@.exit || is_quit_key(key),
                ..old(self)@
            }) && cmd is None,
            event matches Event::Progress { progress, remaining_centis } ==> final(scheduler)@
                == old(scheduler)@ && final(self)@ == (AppView {
                timer_progress: progress as nat,
                remaining_centis: remaining_centis as nat,
                ..old(self)@
            }) && cmd is None,
            event matches Event::TimerDone(_) ==> {
                &&& final(scheduler)@.index == (old(scheduler)@.index + 1) % (
                old(scheduler)@.phases.len() as int)
                &&& final(self)@ == phase_applied(
                    old(self)@,
                    final(scheduler)@.phases[final(scheduler)@.index],
                )
                &&& cmd == Some(
                    TimerCommand::Phase(final(scheduler)@.phases[final(scheduler)@.index]),
                )
            },
    {
        match event {
            Event::Input(key_event) => {
                self.handle_key_event(key_event);
                None
            },
            Event::Progress { progress, remaining_centis } => {
                self.timer_progress = progress;
                self.remaining_centis = remaining_centis;
                None
            },
            Event::TimerDone(_) => {
                let phase = scheduler.advance();
                self.apply_phase(&phase);
                Some(TimerCommand::Phase(phase))
            },
        }
    }

    pub fn should_exit(&self) -> (b: bool)
        ensures
            b == self@.exit,
    {
        self.exit
    }

    pub fn timer_name(&self) -> (name: &String)
        ensures
            name@ == self@.timer_name,
    {
        &self.timer_name
    }

    pub fn timer_progress(&self) -> (p: u64)
        ensures
            p == self@.timer_progress,
    {
        self.timer_progress
    }

    pub fn remaining_centis(&self) -> (r: u64)
        ensures
            r == self@.remaining_centis,
    {
        self.remaining_centis
    }

    pub fn total_centis(&self) -> (t: u64)
        ensures
            t == self@.total_centis,
    {
        self.total_centis
    }

    pub fn bar_color(&self) -> (c: Color)
        ensures
            c == self@.prog_bar_color,
    {
        self.prog_bar_color
    }

    /// `secs` rendered as `mm:ss`: minutes and leftover seconds, each padded
    /// to two places; minutes do not roll over into hours.
    pub fn format_time(secs: u64) -> (s: String)
        ensures
            s@ == format_time_spec(secs as nat),
    {
        let minutes: u64 = secs / 60;
        let seconds: u64 = secs % 60;
        let mut out: String = String::new();
        if minutes < 10 {
            out.append("0");
        }
        push_dec(&mut out, minutes);
        out.append(":");
        if seconds < 10 {
            out.append("0");
        }
        push_dec(&mut out, seconds);
        proof {
            reveal_strlit("0");
            reveal_strlit(":");
            assert(out@ =~= format_time_spec(secs as nat));
        }
        out
    }
}

/// The one-character string for a decimal digit.
fn digit_str(d: u64) -> (s: &'static str)
    requires
        d < 10,
    ensures
        s@ == seq![digit_char(d as nat)],
{
    if d == 0 {
        proof {
            reveal_strlit("0");
            assert("0"@ =~= seq![digit_char(0)]);
        }
        "0"
    } else if d == 1 {
        proof {
            reveal_strlit("1");
            assert("1"@ =~= seq![digit_char(1)]);
        }
        "1"
    } else if d == 2 {
        proof {
            reveal_strlit("2");
            assert("2"@ =~= seq![digit_char(2)]);
        }
        "2"
    } else if d == 3 {
        proof {
            reveal_strlit("3");
            assert("3"@ =~= seq![digit_char(3)]);
        }
        "3"
    } else if d == 4 {
        proof {
            reveal_strlit("4");
            assert("4"@ =~= seq![digit_char(4)]);
        }
        "4"
    } else if d == 5 {
        proof {
            reveal_strlit("5");
            assert("5"@ =~= seq![digit_char(5)]);
        }
        "5"
    } else if d == 6 {
        proof {
            reveal_strlit("6");
            assert("6"@ =~= seq![digit_char(6)]);
        }
        "6"
    } else if d == 7 {
        proof {
            reveal_strlit("7");
            assert("7"@ =~= seq![digit_char(7)]);
        }
        "7"
    } else if d == 8 {
        proof {
            reveal_strlit("8");
            assert("8"@ =~= seq![digit_char(8)]);
        }
        "8"
    } else {
        proof {
            reveal_strlit("9");
            assert("9"@ =~= seq![digit_char(9)]);
        }
        "9"
    }
}

/// Appends the decimal digits of `n` to `out`.
fn push_dec(out: &mut String, n: u64)
    ensures
        final(out)@ == old(out)@ + dec_rep(n as nat),
    decreases n,
{
    if n < 10 {
        let d: &'static str = digit_str(n);
        out.append(d);
        proof {
            assert(old(out)@ + d@ =~= old(out)@ + dec_rep(n as nat));
        }
    } else {
        push_dec(out, n / 10);
        let d: &'static str = digit_str(n % 10);
        out.append(d);
        proof {
            assert((old(out)@ + dec_rep((n / 10) as nat)) + d@ =~= old(out)@ + dec_rep(n as nat));
        }
    }
}

/// The gauge ratio for a progress value: clamped strictly below full scale,
/// so a finished bar renders just under completely full.
pub fn display_ratio_permyriad(progress: u64) -> (ratio: u64)
    ensures
        progress < 10000 ==> ratio == progress,
        progress >= 10000 ==> ratio == 9999,
        ratio < 10000,
{
    if progress >= 10000 {
        9999
    } else {
        progress
    }
}

/// Whole seconds shown for a time in hundredths of a second, rounded to the
/// nearest second.
pub fn centis_to_secs(centis: u64) -> (secs: u64)
    requires
        centis + 50 <= u64::MAX,
    ensures
        secs == (centis + 50) / 100,
{
    (centis + 50) / 100
}

} // verus!
