//! Play / pause / reset bookkeeping over the stage list. Time is read by the
//! caller from a monotonic clock, in milliseconds, and handed to each call
//! that needs it.
use vstd::prelude::*;

use crate::stages::{StageView, Stages, StagesView};

verus! {

/// Where the clock of the current stage stands.
#[derive(Clone, Copy, Debug, PartialEq, Eq, Structural)]
pub enum RunState {
    /// The clock has not been started; nothing has elapsed.
    NotStarted,
    /// Running since the instant `since`, with `banked` milliseconds already
    /// run before that instant.
    Running { since: u64, banked: u64 },
    /// Frozen with `elapsed` milliseconds run.
    Paused { elapsed: u64 },
}

/// `x` capped at the largest `u64`.
pub open spec fn cap_u64(x: int) -> u64 {
    if x > u64::MAX {
        u64::MAX
    } else if x < 0 {
        0
    } else {
        x as u64
    }
}

/// Milliseconds run on the current stage at the clock reading `now`. A
/// reading earlier than the start of a run counts that run as zero.
pub open spec fn elapsed_ms(state: RunState, now: u64) -> u64 {
    match state {
        RunState::NotStarted => 0,
        RunState::Running { since, banked } => cap_u64(
            banked + if now >= since { now - since } else { 0 },
        ),
        RunState::Paused { elapsed } => elapsed,
    }
}

/// Milliseconds left of `stage` once `elapsed` have run: never below zero, and
/// zero when there is no stage.
pub open spec fn remaining_ms(stage: Option<StageView>, elapsed: u64) -> int {
    match stage {
        Some(s) => if s.duration * 1000 > elapsed {
            s.duration * 1000 - elapsed
        } else {
            0
        },
        None => 0,
    }
}

/// The mathematical value of a `Timer`.
pub struct TimerView {
    pub stages: StagesView,
    pub state: RunState,
}

impl TimerView {
    /// Milliseconds run on the current stage at `now`.
    pub open spec fn elapsed_at(self, now: u64) -> u64 {
        elapsed_ms(self.state, now)
    }

    /// Milliseconds left of the current stage at `now`.
    pub open spec fn time_left_at(self, now: u64) -> int {
        remaining_ms(self.stages.current(), self.elapsed_at(now))
    }

    /// Play / pause pressed at `now`: a stopped clock starts from zero, a
    /// running one freezes what it has run, a frozen one runs on from there.
    pub open spec fn toggled(self, now: u64) -> TimerView {
        TimerView {
            stages: self.stages,
            state: match self.state {
                RunState::NotStarted => RunState::Running { since: now, banked: 0 },
                RunState::Running { .. } => RunState::Paused { elapsed: self.elapsed_at(now) },
                RunState::Paused { elapsed } => RunState::Running { since: now, banked: elapsed },
            },
        }
    }

    /// The clock stopped and cleared; the cursor back on the first stage too
    /// when `reset_all`.
    pub open spec fn after_reset(self, reset_all: bool) -> TimerView {
        TimerView {
            stages: if reset_all { self.stages.rewound() } else { self.stages },
            state: RunState::NotStarted,
        }
    }

    /// One progress check at `now`. While time is left nothing changes. When
    /// none is: the next stage starts if there is one; else, with
    /// `loop_enabled`, the first stage starts again; else everything is reset.
    pub open spec fn progressed(self, loop_enabled: bool, now: u64) -> TimerView {
        if self.time_left_at(now) != 0 {
            self
        } else if self.stages.has_next() {
            TimerView {
                stages: self.stages.advanced(),
                state: RunState::Running { since: now, banked: 0 },
            }
        } else if loop_enabled {
            TimerView {
                stages: self.stages.rewound(),
                state: RunState::Running { since: now, banked: 0 },
            }
        } else {
            self.after_reset(true)
        }
    }
}

/// The stage list together with the clock of its current stage.
pub struct Timer {
    pub stages: Stages,
    pub state: RunState,
}

impl View for Timer {
    type V = TimerView;

    open spec fn view(&self) -> TimerView {
        TimerView { stages: self.stages@, state: self.state }
    }
}

impl Timer {
    /// A stopped timer over `stages`.
    pub fn new(stages: Stages) -> (r: Timer)
        ensures
            r@ == (TimerView { stages: stages@, state: RunState::NotStarted }),
    {
        Timer { stages, state: RunState::NotStarted }
    }

    /// Whether the clock is running: false before the first start, after a
    /// reset and while paused.
    pub fn has_stared(&self) -> (r: bool)
        ensures
            r == (self@.state is Running),
    {
        matches!(self.state, RunState::Running { .. })
    }

    /// Whether the clock is paused.
    pub fn is_paused(&self) -> (r: bool)
        ensures
            r == (self@.state is Paused),
    {
        matches!(self.state, RunState::Paused { .. })
    }

    /// Milliseconds run on the current stage at the clock reading `now`.
    fn current_elapsed(&self, now: u64) -> (r: u64)
        ensures
            r == self@.elapsed_at(now),
    {
        match self.state {
            RunState::NotStarted => 0,
            RunState::Running { since, banked } => banked.saturating_add(now.saturating_sub(since)),
            RunState::Paused { elapsed } => elapsed,
        }
    }

    /// Milliseconds left of the current stage at `now`; zero when there is no
    /// current stage.
    pub fn time_left(&self, now: u64) -> (r: u128)
        ensures
            r == self@.time_left_at(now),
    {
        match self.stages.get_current() {
            Some(s) => {
                let total = (s.duration as u128) * 1000;
                let run = self.current_elapsed(now) as u128;
                if total > run {
                    total - run
                } else {
                    0
                }
            },
            None => 0,
        }
    }

    /// Starts, pauses or resumes the clock at `now`.
    pub fn toggle_play(&mut self, now: u64)
        ensures
            final(self)@ == old(self)@.toggled(now),
    {
        let next = match self.state {
            RunState::NotStarted => RunState::Running { since: now, banked: 0 },
            RunState::Running { .. } => RunState::Paused { elapsed: self.current_elapsed(now) },
            RunState::Paused { elapsed } => RunState::Running { since: now, banked: elapsed },
        };
        self.state = next;
    }

    /// Stops and clears the clock; with `reset_all` the cursor also goes back
    /// to the first stage.
    pub fn reset(&mut self, reset_all: bool)
        ensures
            final(self)@ == old(self)@.after_reset(reset_all),
    {
        self.state = RunState::NotStarted;
        if reset_all {
            self.stages.reset();
        }
    }

    /// Checks at `now` whether the current stage is over and, if so, moves
    /// on (see `TimerView::progressed`). Returns whether it was over, which is
    /// when the alarm is due.
    pub fn check_progress(&mut self, loop_enabled: bool, now: u64) -> (finished: bool)
        ensures
            finished == (old(self)@.time_left_at(now) == 0),
            final(self)@ == old(self)@.progressed(loop_enabled, now),
    {
        if self.time_left(now) != 0 {
            return false;
        }
        if self.stages.has_next() {
            let _ = self.stages.next();
            self.state = RunState::Running { since: now, banked: 0 };
        } else if loop_enabled {
            self.stages.reset();
            self.state = RunState::Running { since: now, banked: 0 };
        } else {
            self.reset(true);
        }
        true
    }
}

/// Time left never goes up as the clock moves on while running, stays put
/// while paused, and is never negative.
pub proof fn lemma_time_left_monotone(t: TimerView, a: u64, b: u64)
    requires
        a <= b,
    ensures
        t.time_left_at(a) >= 0,
        t.time_left_at(b) >= 0,
        t.state is Running ==> t.time_left_at(b) <= t.time_left_at(a),
        t.state is Paused ==> t.time_left_at(b) == t.time_left_at(a),
{
}

/// Pausing and resuming keeps what had run: `d` milliseconds after the resume
/// the clock shows what it would have shown `d` milliseconds after the pause
/// had there been none, however long the pause lasted.
pub proof fn lemma_pause_keeps_elapsed(
    t: TimerView,
    pause_at: u64,
    resume_at: u64,
    d: u64,
)
    requires
        t.state matches RunState::Running { since, .. } && since <= pause_at,
        pause_at as int + d <= u64::MAX,
        resume_at as int + d <= u64::MAX,
    ensures
        t.toggled(pause_at).toggled(resume_at).elapsed_at((resume_at + d) as u64) == t.elapsed_at(
            (pause_at + d) as u64,
        ),
        t.toggled(pause_at).toggled(resume_at).time_left_at((resume_at + d) as u64)
            == t.time_left_at((pause_at + d) as u64),
{
}

} // verus!
