//! The timer model: a run of named segments, an attempt counter, and a timer
//! that walks the segments of that run.
//!
//! Times are plain milliseconds supplied by the caller's clock. Starting a
//! not-running timer begins a new attempt at the first segment; splitting a
//! running timer records the elapsed time for the current segment and either
//! advances to the next segment or ends the run; resetting clears the recorded
//! segment times, and clearing the history also clears the attempt counter.

use vstd::prelude::*;

verus! {

/// The phase of a timer: not yet started, running, or finished.
#[derive(Clone, Copy, PartialEq, Eq, Structural, Debug)]
pub enum TimerPhase {
    NotRunning,
    Running,
    Ended,
}

/// The semantic color of a timer display.
#[derive(Clone, Copy, PartialEq, Eq, Structural, Debug)]
pub enum TimerColor {
    Default,
    AheadGainingTime,
    AheadLosingTime,
    BehindGainingTime,
    BehindLosingTime,
    BestSegment,
    NotRunning,
    Paused,
    PersonalBest,
}

/// One segment of a run: its name, the split time recorded in the current
/// attempt, and the comparison (personal best) time, all in milliseconds.
#[derive(Clone)]
pub struct Segment {
    pub name: String,
    pub split_time: Option<u64>,
    pub pb_time: Option<u64>,
}

/// The mathematical value of a [`Segment`].
pub struct SegmentView {
    pub name: Seq<char>,
    pub split_time: Option<u64>,
    pub pb_time: Option<u64>,
}

impl View for Segment {
    type V = SegmentView;

    open spec fn view(&self) -> SegmentView {
        SegmentView { name: self.name@, split_time: self.split_time, pb_time: self.pb_time }
    }
}

/// A run definition: game and category labels, the attempt counter, and the
/// ordered segments.
#[derive(Clone)]
pub struct Run {
    pub game_name: String,
    pub category_name: String,
    pub attempt_count: u64,
    pub segments: Vec<Segment>,
}

/// A timer over a run: the run itself, the phase, the index of the segment the
/// timer is currently on, and the moment the attempt started.
#[derive(Clone)]
pub struct Timer {
    pub run: Run,
    pub phase: TimerPhase,
    pub current_split_index: usize,
    pub start_ms: u64,
}

/// The mathematical value of a [`Timer`].
pub struct TimerView {
    pub game: Seq<char>,
    pub category: Seq<char>,
    pub attempts: u64,
    pub segments: Seq<SegmentView>,
    pub phase: TimerPhase,
    pub current: int,
    pub start_ms: u64,
}

impl View for Timer {
    type V = TimerView;

    open spec fn view(&self) -> TimerView {
        TimerView {
            game: self.run.game_name@,
            category: self.run.category_name@,
            attempts: self.run.attempt_count,
            segments: self.run.segments@.map_values(|s: Segment| s@),
            phase: self.phase,
            current: self.current_split_index as int,
            start_ms: self.start_ms,
        }
    }
}

impl TimerView {
    /// A well-formed timer has at least one segment, and while running it
    /// stands on one of them.
    pub open spec fn wf(self) -> bool {
        &&& self.segments.len() >= 1
        &&& (self.phase == TimerPhase::Running ==> 0 <= self.current < self.segments.len())
    }

    /// The time elapsed since the attempt started, never negative.
    pub open spec fn elapsed(self, now_ms: u64) -> u64 {
        if now_ms >= self.start_ms {
            (now_ms - self.start_ms) as u64
        } else {
            0
        }
    }

    /// What starting the timer does: a not-running timer begins a new attempt
    /// at the first segment; otherwise nothing changes.
    pub open spec fn spec_start(self, now_ms: u64) -> TimerView {
        if self.phase == TimerPhase::NotRunning {
            TimerView {
                phase: TimerPhase::Running,
                current: 0,
                start_ms: now_ms,
                attempts: if self.attempts == u64::MAX {
                    self.attempts
                } else {
                    (self.attempts + 1) as u64
                },
                ..self
            }
        } else {
            self
        }
    }

    /// What splitting does: a running timer records the elapsed time for the
    /// current segment and either advances or ends; otherwise nothing changes.
    pub open spec fn spec_split(self, now_ms: u64) -> TimerView {
        if self.phase == TimerPhase::Running && 0 <= self.current < self.segments.len() {
            let seg = self.segments[self.current];
            let segs = self.segments.update(
                self.current,
                SegmentView { split_time: Some(self.elapsed(now_ms)), ..seg },
            );
            if self.current + 1 == self.segments.len() {
                TimerView { segments: segs, phase: TimerPhase::Ended, ..self }
            } else {
                TimerView { segments: segs, current: self.current + 1, ..self }
            }
        } else {
            self
        }
    }

    /// What resetting does: the timer stops, every recorded split time is
    /// cleared, and clearing the history also clears the attempt counter.
    pub open spec fn spec_reset(self, clear_history: bool) -> TimerView {
        TimerView {
            phase: TimerPhase::NotRunning,
            current: 0,
            start_ms: 0,
            attempts: if clear_history {
                0
            } else {
                self.attempts
            },
            segments: self.segments.map_values(
                |s: SegmentView| SegmentView { split_time: None, ..s },
            ),
            ..self
        }
    }
}

impl Timer {
    /// A fresh, not-running timer over the given run.
    pub fn new(run: Run) -> (t: Timer)
        requires
            run.segments@.len() >= 1,
        ensures
            t@.wf(),
            t@.game == run.game_name@,
            t@.category == run.category_name@,
            t@.attempts == run.attempt_count,
            t@.segments == run.segments@.map_values(|s: Segment| s@),
            t@.phase == TimerPhase::NotRunning,
            t@.current == 0,
            t@.start_ms == 0,
    {
        Timer { run, phase: TimerPhase::NotRunning, current_split_index: 0, start_ms: 0 }
    }

    /// Start the timer, as [`TimerView::spec_start`] says.
    pub fn start(&mut self, now_ms: u64)
        requires
            old(self)@.wf(),
        ensures
            final(self)@ == old(self)@.spec_start(now_ms),
            final(self)@.wf(),
    {
        if self.phase == TimerPhase::NotRunning {
            self.phase = TimerPhase::Running;
            self.current_split_index = 0;
            self.start_ms = now_ms;
            if self.run.attempt_count < u64::MAX {
                self.run.attempt_count = self.run.attempt_count + 1;
            }
        }
    }

    /// Split the timer, as [`TimerView::spec_split`] says.
    pub fn split(&mut self, now_ms: u64)
        requires
            old(self)@.wf(),
        ensures
            final(self)@ == old(self)@.spec_split(now_ms),
            final(self)@.wf(),
    {
        if self.phase == TimerPhase::Running {
            let i = self.current_split_index;
            let elapsed: u64 = if now_ms >= self.start_ms {
                now_ms - self.start_ms
            } else {
                0
            };
            let n = self.run.segments.len();
            self.run.segments[i].split_time = Some(elapsed);
            if n - i == 1 {
                self.phase = TimerPhase::Ended;
            } else {
                self.current_split_index = i + 1;
            }
            assert(self@.segments =~= old(self)@.spec_split(now_ms).segments);
        }
    }

    /// Reset the timer, as [`TimerView::spec_reset`] says.
    pub fn reset(&mut self, clear_history: bool)
        requires
            old(self)@.wf(),
        ensures
            final(self)@ == old(self)@.spec_reset(clear_history),
            final(self)@.wf(),
    {
        self.phase = TimerPhase::NotRunning;
        self.current_split_index = 0;
        self.start_ms = 0;
        if clear_history {
            self.run.attempt_count = 0;
        }
        let n = self.run.segments.len();
        let mut i: usize = 0;
        while i < n
            invariant
                n == self.run.segments@.len(),
                i <= n,
                self.run.game_name == old(self).run.game_name,
                self.run.category_name == old(self).run.category_name,
                self.run.attempt_count == if clear_history { 0u64 } else {
                    old(self).run.attempt_count
                },
                self.phase == TimerPhase::NotRunning,
                self.current_split_index == 0,
                self.start_ms == 0,
                forall|k: int|
                    0 <= k < i ==> self.run.segments@[k]@ == (SegmentView {
                        split_time: None,
                        ..old(self).run.segments@[k]@
                    }),
                forall|k: int| i <= k < n ==> self.run.segments@[k] == old(self).run.segments@[k],
            decreases n - i,
        {
            self.run.segments[i].split_time = None;
            i = i + 1;
        }
        assert(self@.segments =~= old(self)@.spec_reset(clear_history).segments);
        assert(self@ == old(self)@.spec_reset(clear_history));
    }
}

} // verus!
