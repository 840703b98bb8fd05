//! The state of the timer window that is not drawing: the timer itself, the
//! loop switch, whether the stage editor is open, the name being edited, and
//! the text of the clock.
use vstd::prelude::*;
use vstd::string::StringExecFns;

use crate::stages::{Stage, StageView, Stages, StagesView};
use crate::timer::{RunState, Timer, TimerView};

verus! {

/// Milliseconds between redraws while the clock runs.
pub const FAST_REPAINT_MS: u64 = 64;

/// Milliseconds between redraws otherwise.
pub const SLOW_REPAINT_MS: u64 = 256;

/// The character of the decimal digit `d`.
pub open spec fn digit_char(d: nat) -> char {
    seq!['0', '1', '2', '3', '4', '5', '6', '7', '8', '9'][d as int]
}

/// `n` written in decimal, without leading zeros.
pub open spec fn decimal(n: nat) -> Seq<char>
    decreases n,
{
    if n < 10 {
        seq![digit_char(n)]
    } else {
        decimal(n / 10).push(digit_char(n % 10))
    }
}

/// `n` in decimal, with a leading zero when it has a single digit.
pub open spec fn two_digits(n: nat) -> Seq<char> {
    if n < 10 {
        seq!['0'] + decimal(n)
    } else {
        decimal(n)
    }
}

/// `secs` seconds shown as minutes and seconds, `mm:ss`.
pub open spec fn clock_text(secs: nat) -> Seq<char> {
    two_digits(secs / 60) + seq![':'] + two_digits(secs % 60)
}

/// The text of one decimal digit.
fn digit_str(d: u32) -> (r: &'static str)
    requires
        d < 10,
    ensures
        r@ == seq![digit_char(d as nat)],
{
    proof {
        reveal_strlit("0");
        reveal_strlit("1");
        reveal_strlit("2");
        reveal_strlit("3");
        reveal_strlit("4");
        reveal_strlit("5");
        reveal_strlit("6");
        reveal_strlit("7");
        reveal_strlit("8");
        reveal_strlit("9");
    }
    match d {
        0 => "0",
        1 => "1",
        2 => "2",
        3 => "3",
        4 => "4",
        5 => "5",
        6 => "6",
        7 => "7",
        8 => "8",
        _ => "9",
    }
}

/// Appends `n` in decimal to `out`.
fn push_decimal(out: &mut String, n: u32)
    ensures
        final(out)@ == old(out)@ + decimal(n as nat),
    decreases n,
{
    if n >= 10 {
        push_decimal(out, n / 10);
    }
    out.append(digit_str(n % 10));
    proof {
        assert(old(out)@ + decimal(n as nat) =~= old(out)@ + (if n >= 10 {
            decimal((n / 10) as nat)
        } else {
            Seq::empty()
        }) + seq![digit_char((n % 10) as nat)]);
    }
}

/// Appends `n` in decimal to `out`, with a leading zero below ten.
fn push_two_digits(out: &mut String, n: u32)
    ensures
        final(out)@ == old(out)@ + two_digits(n as nat),
{
    if n < 10 {
        proof {
            reveal_strlit("0");
        }
        out.append("0");
    }
    push_decimal(out, n);
    proof {
        if n < 10 {
            assert(old(out)@ + two_digits(n as nat) =~= old(out)@ + seq!['0'] + decimal(n as nat));
        }
    }
}

/// `secs` seconds as `mm:ss`; minutes past 99 take as many digits as they need.
pub fn format_time(secs: u32) -> (r: String)
    ensures
        r@ == clock_text(secs as nat),
{
    let mut out = String::new();
    push_two_digits(&mut out, secs / 60);
    proof {
        reveal_strlit(":");
    }
    out.append(":");
    push_two_digits(&mut out, secs % 60);
    proof {
        assert(out@ =~= clock_text(secs as nat));
    }
    out
}

/// The timer window's state.
pub struct TimerApp {
    pub timer: Timer,
    pub show_config: bool,
    pub loop_is_enabled: bool,
    /// The stage whose name is being edited, if any.
    pub editing_stage_name: Option<usize>,
    /// The name being typed for that stage.
    pub editing_text: String,
}

impl TimerApp {
    /// A window over `stages`: timer stopped, no loop, editor closed.
    pub fn new(stages: Stages) -> (r: TimerApp)
        ensures
            r.timer@ == (TimerView { stages: stages@, state: RunState::NotStarted }),
            !r.show_config,
            !r.loop_is_enabled,
            r.editing_stage_name is None,
            r.editing_text@ == Seq::<char>::empty(),
    {
        TimerApp {
            timer: Timer::new(stages),
            show_config: false,
            loop_is_enabled: false,
            editing_stage_name: None,
            editing_text: String::new(),
        }
    }

    /// One refresh at the clock reading `now`: checks the timer's progress
    /// under the loop switch. Returns whether a stage just ended.
    pub fn tick(&mut self, now: u64) -> (finished: bool)
        ensures
            finished == (old(self).timer@.time_left_at(now) == 0),
            final(self).timer@ == old(self).timer@.progressed(old(self).loop_is_enabled, now),
            final(self).loop_is_enabled == old(self).loop_is_enabled,
            final(self).show_config == old(self).show_config,
            final(self).editing_stage_name == old(self).editing_stage_name,
            final(self).editing_text@ == old(self).editing_text@,
    {
        self.timer.check_progress(self.loop_is_enabled, now)
    }

    /// Whether the play control shows "play" (stopped or paused) rather than
    /// "pause".
    pub fn shows_play(&self) -> (r: bool)
        ensures
            r == !(self.timer@.state is Running),
    {
        !self.timer.has_stared() || self.timer.is_paused()
    }

    /// Milliseconds to wait before the next redraw: short while the clock
    /// runs, longer otherwise.
    pub fn repaint_after_ms(&self) -> (r: u64)
        ensures
            r == if self.timer@.state is Running {
                FAST_REPAINT_MS
            } else {
                SLOW_REPAINT_MS
            },
    {
        if !self.timer.is_paused() && self.timer.has_stared() {
            FAST_REPAINT_MS
        } else {
            SLOW_REPAINT_MS
        }
    }

    /// Opens the name of stage `index` for editing, starting from its current
    /// name. Does nothing when there is no such stage.
    pub fn begin_edit(&mut self, index: usize)
        ensures
            final(self).timer@ == old(self).timer@,
            final(self).loop_is_enabled == old(self).loop_is_enabled,
            final(self).show_config == old(self).show_config,
            index < old(self).timer@.stages.stages.len() ==> {
                &&& final(self).editing_stage_name == Some(index)
                &&& final(self).editing_text@ == old(self).timer@.stages.stages[index as int].name
            },
            index >= old(self).timer@.stages.stages.len() ==> {
                &&& final(self).editing_stage_name == old(self).editing_stage_name
                &&& final(self).editing_text@ == old(self).editing_text@
            },
    {
        match self.timer.stages.get_mut(index) {
            Some(s) => {
                self.editing_text = s.name.clone();
                self.editing_stage_name = Some(index);
                proof {
                    assert(old(self).timer@.stages.stages.update(index as int, s@)
                        =~= old(self).timer@.stages.stages);
                }
            },
            None => {},
        }
    }

    /// Gives the stage being edited the typed name and closes the edit. The
    /// stages stay as they are when no edit is open or its stage is gone.
    pub fn commit_edit(&mut self)
        ensures
            final(self).editing_stage_name is None,
            final(self).editing_text@ == Seq::<char>::empty(),
            final(self).loop_is_enabled == old(self).loop_is_enabled,
            final(self).show_config == old(self).show_config,
            final(self).timer@.state == old(self).timer@.state,
            final(self).timer@.stages == match old(self).editing_stage_name {
                Some(i) => if i < old(self).timer@.stages.stages.len() {
                    StagesView {
                        stages: old(self).timer@.stages.stages.update(
                            i as int,
                            StageView {
                                name: old(self).editing_text@,
                                duration: old(self).timer@.stages.stages[i as int].duration,
                            },
                        ),
                        cursor: old(self).timer@.stages.cursor,
                    }
                } else {
                    old(self).timer@.stages
                },
                None => old(self).timer@.stages,
            },
    {
        match self.editing_stage_name {
            Some(i) => match self.timer.stages.get_mut(i) {
                Some(s) => {
                    s.name = self.editing_text.clone();
                },
                None => {},
            },
            None => {},
        }
        self.editing_stage_name = None;
        self.editing_text = String::new();
    }

    /// Sets stage `index` to last `mins` whole minutes. Does nothing when there
    /// is no such stage.
    pub fn set_stage_minutes(&mut self, index: usize, mins: u64)
        requires
            mins * 60 <= u64::MAX,
        ensures
            final(self).timer@.state == old(self).timer@.state,
            final(self).timer@.stages == if index < old(self).timer@.stages.stages.len() {
                StagesView {
                    stages: old(self).timer@.stages.stages.update(
                        index as int,
                        StageView {
                            name: old(self).timer@.stages.stages[index as int].name,
                            duration: (mins * 60) as u64,
                        },
                    ),
                    cursor: old(self).timer@.stages.cursor,
                }
            } else {
                old(self).timer@.stages
            },
    {
        match self.timer.stages.get_mut(index) {
            Some(s) => {
                s.duration = mins * 60;
            },
            None => {},
        }
    }

    /// Appends a default stage ("stage", zero seconds) to the list.
    pub fn add_stage(&mut self)
        ensures
            final(self).timer@.state == old(self).timer@.state,
            final(self).timer@.stages == (StagesView {
                stages: old(self).timer@.stages.stages.push(
                    StageView { name: "stage"@, duration: 0 },
                ),
                cursor: old(self).timer@.stages.cursor,
            }),
    {
        self.timer.stages.add(Stage::default());
    }
}

} // verus!
