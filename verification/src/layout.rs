//! The layout projection: a pure rendering of a timer into an ordered
//! aggregate of presentation sections. Each section is produced by one
//! stateless component; the bundle of components is created once per user.
//!
//! The projection owns the shape and the order of the result: segment rows
//! come out in run-definition order, and each section is a plain function of
//! the timer value (and, for the clock section, of the current time).

use vstd::prelude::*;

use crate::timing::{Segment, SegmentView, Timer, TimerColor, TimerPhase, TimerView};

verus! {

/// Title section: the run's labels and the attempt counter.
pub struct TitleState {
    pub game: String,
    pub category: String,
    pub attempts: u64,
}

/// The mathematical value of a [`TitleState`].
pub struct TitleView {
    pub game: Seq<char>,
    pub category: Seq<char>,
    pub attempts: u64,
}

impl View for TitleState {
    type V = TitleView;

    open spec fn view(&self) -> TitleView {
        TitleView { game: self.game@, category: self.category@, attempts: self.attempts }
    }
}

/// One row of the splits section: segment name, delta against the comparison,
/// and the recorded time.
pub struct SegmentRow {
    pub name: String,
    pub delta: Option<i64>,
    pub time: Option<u64>,
}

/// The mathematical value of a [`SegmentRow`].
pub struct SegmentRowView {
    pub name: Seq<char>,
    pub delta: Option<i64>,
    pub time: Option<u64>,
}

impl View for SegmentRow {
    type V = SegmentRowView;

    open spec fn view(&self) -> SegmentRowView {
        SegmentRowView { name: self.name@, delta: self.delta, time: self.time }
    }
}

/// Splits section: one row per segment, in run-definition order.
pub struct SplitsState {
    pub splits: Vec<SegmentRow>,
}

impl View for SplitsState {
    type V = Seq<SegmentRowView>;

    open spec fn view(&self) -> Seq<SegmentRowView> {
        self.splits@.map_values(|r: SegmentRow| r@)
    }
}

/// Clock section: the displayed time, split into whole seconds and the
/// fractional milliseconds, with its semantic color.
#[derive(Clone, Copy, PartialEq, Eq, Structural, Debug)]
pub struct TimerState {
    pub seconds: u64,
    pub fraction_ms: u64,
    pub color: TimerColor,
}

/// Previous-segment section: the delta of the most recently completed segment.
#[derive(Clone, Copy, PartialEq, Eq, Structural, Debug)]
pub struct PreviousSegmentState {
    pub delta: Option<i64>,
}

/// Sum-of-best section: the sum of every comparison time, when all are known
/// and the sum fits.
#[derive(Clone, Copy, PartialEq, Eq, Structural, Debug)]
pub struct SumOfBestState {
    pub time: Option<u64>,
}

/// Possible-time-save section: the comparison time of the segment the timer is
/// currently on.
#[derive(Clone, Copy, PartialEq, Eq, Structural, Debug)]
pub struct PossibleTimeSaveState {
    pub time: Option<u64>,
}

/// The rendered projection of one user's timer, produced fresh on every
/// request and never cached.
pub struct Layout {
    pub title: TitleState,
    pub splits: SplitsState,
    pub timer: TimerState,
    pub previous_segment: PreviousSegmentState,
    pub sum_of_best: SumOfBestState,
    pub possible_time_save: PossibleTimeSaveState,
}

/// The mathematical value of a [`Layout`].
pub struct LayoutView {
    pub title: TitleView,
    pub splits: Seq<SegmentRowView>,
    pub timer: TimerState,
    pub previous_segment: PreviousSegmentState,
    pub sum_of_best: SumOfBestState,
    pub possible_time_save: PossibleTimeSaveState,
}

impl View for Layout {
    type V = LayoutView;

    open spec fn view(&self) -> LayoutView {
        LayoutView {
            title: self.title@,
            splits: self.splits@,
            timer: self.timer,
            previous_segment: self.previous_segment,
            sum_of_best: self.sum_of_best,
            possible_time_save: self.possible_time_save,
        }
    }
}

/// The delta of a segment: recorded time minus comparison time, when both are
/// known and both fit a signed time.
pub open spec fn delta_of(s: SegmentView) -> Option<i64> {
    match (s.split_time, s.pb_time) {
        (Some(t), Some(p)) => if t <= i64::MAX as u64 && p <= i64::MAX as u64 {
            Some((t - p) as i64)
        } else {
            None
        },
        _ => None,
    }
}

/// The milliseconds the clock section displays: the elapsed time while
/// running, the final segment's recorded time after the run ended, zero
/// otherwise.
pub open spec fn display_ms(t: TimerView, now_ms: u64) -> u64 {
    match t.phase {
        TimerPhase::Running => t.elapsed(now_ms),
        TimerPhase::Ended => if t.segments.len() > 0 {
            match t.segments.last().split_time {
                Some(ms) => ms,
                None => 0,
            }
        } else {
            0
        },
        TimerPhase::NotRunning => 0,
    }
}

/// The clock color: not-running and finished runs have their own colors; a
/// running timer is colored by the delta of the last completed segment.
pub open spec fn color_of(t: TimerView) -> TimerColor {
    match t.phase {
        TimerPhase::NotRunning => TimerColor::NotRunning,
        TimerPhase::Ended => TimerColor::PersonalBest,
        TimerPhase::Running => if t.current > 0 {
            match delta_of(t.segments[t.current - 1]) {
                Some(d) => if d <= 0 {
                    TimerColor::AheadGainingTime
                } else {
                    TimerColor::BehindLosingTime
                },
                None => TimerColor::Default,
            }
        } else {
            TimerColor::Default
        },
    }
}

/// The sum of the comparison times of the first `i` segments, or nothing if
/// one of them is unknown.
pub open spec fn sob_upto(segs: Seq<SegmentView>, i: int) -> Option<int>
    decreases i,
{
    if i <= 0 {
        Some(0)
    } else {
        match (sob_upto(segs, i - 1), segs[i - 1].pb_time) {
            (Some(acc), Some(p)) => Some(acc + p),
            _ => None,
        }
    }
}

/// The sum of all comparison times of a timer's segments.
pub open spec fn sob_sum(t: TimerView) -> Option<int> {
    sob_upto(t.segments, t.segments.len() as int)
}

/// Every defined partial sum of comparison times is bounded by a defined total.
pub proof fn lemma_sob_monotone(segs: Seq<SegmentView>, i: int, n: int, total: int)
    requires
        0 <= i <= n,
        sob_upto(segs, n) == Some(total),
    ensures
        exists|s: int| sob_upto(segs, i) == Some(s) && s <= total,
    decreases n - i,
{
    if i == n {
        assert(sob_upto(segs, i) == Some(total));
    } else {
        match sob_upto(segs, n - 1) {
            Some(acc) => {
                lemma_sob_monotone(segs, i, n - 1, acc);
                assert(acc <= total);
            },
            None => {
                assert(sob_upto(segs, n) == None::<int>);
            },
        }
    }
}

/// An undefined partial sum makes every longer sum undefined.
pub proof fn lemma_sob_none(segs: Seq<SegmentView>, i: int, n: int)
    requires
        0 <= i <= n,
        sob_upto(segs, i) == None::<int>,
    ensures
        sob_upto(segs, n) == None::<int>,
    decreases n - i,
{
    if i < n {
        lemma_sob_none(segs, i, n - 1);
    }
}

/// What the title component produces.
pub open spec fn spec_title(t: TimerView) -> TitleView {
    TitleView { game: t.game, category: t.category, attempts: t.attempts }
}

/// What one splits row holds for one segment.
pub open spec fn spec_row(s: SegmentView) -> SegmentRowView {
    SegmentRowView { name: s.name, delta: delta_of(s), time: s.split_time }
}

/// What the splits component produces: one row per segment, order kept.
pub open spec fn spec_rows(t: TimerView) -> Seq<SegmentRowView> {
    t.segments.map_values(|s: SegmentView| spec_row(s))
}

/// What the clock component produces.
pub open spec fn spec_timer_state(t: TimerView, now_ms: u64) -> TimerState {
    TimerState {
        seconds: (display_ms(t, now_ms) / 1000) as u64,
        fraction_ms: (display_ms(t, now_ms) % 1000) as u64,
        color: color_of(t),
    }
}

/// What the previous-segment component produces.
pub open spec fn spec_previous_segment(t: TimerView) -> PreviousSegmentState {
    PreviousSegmentState {
        delta: match t.phase {
            TimerPhase::Running => if t.current > 0 {
                delta_of(t.segments[t.current - 1])
            } else {
                None
            },
            TimerPhase::Ended => if t.segments.len() > 0 {
                delta_of(t.segments.last())
            } else {
                None
            },
            TimerPhase::NotRunning => None,
        },
    }
}

/// What the sum-of-best component produces.
pub open spec fn spec_sum_of_best(t: TimerView) -> SumOfBestState {
    SumOfBestState {
        time: match sob_sum(t) {
            Some(s) => if s <= u64::MAX {
                Some(s as u64)
            } else {
                None
            },
            None => None,
        },
    }
}

/// What the possible-time-save component produces.
pub open spec fn spec_possible_time_save(t: TimerView) -> PossibleTimeSaveState {
    PossibleTimeSaveState {
        time: if t.phase == TimerPhase::Running && 0 <= t.current < t.segments.len() {
            t.segments[t.current].pb_time
        } else {
            None
        },
    }
}

/// The whole projection of a timer.
pub open spec fn spec_layout(t: TimerView, now_ms: u64) -> LayoutView {
    LayoutView {
        title: spec_title(t),
        splits: spec_rows(t),
        timer: spec_timer_state(t, now_ms),
        previous_segment: spec_previous_segment(t),
        sum_of_best: spec_sum_of_best(t),
        possible_time_save: spec_possible_time_save(t),
    }
}

/// The delta of a segment, as [`delta_of`] says.
fn delta_exec(s: &Segment) -> (d: Option<i64>)
    ensures
        d == delta_of(s@),
{
    match (s.split_time, s.pb_time) {
        (Some(t), Some(p)) => if t <= i64::MAX as u64 && p <= i64::MAX as u64 {
            Some(t as i64 - p as i64)
        } else {
            None
        },
        _ => None,
    }
}

/// Produces the title section.
#[derive(Clone)]
pub struct TitleComponent {}

impl TitleComponent {
    pub fn new() -> (c: TitleComponent) {
        TitleComponent {  }
    }

    /// Project the title section, as [`spec_title`] says.
    pub fn state(&self, t: &Timer) -> (s: TitleState)
        ensures
            s@ == spec_title(t@),
    {
        TitleState {
            game: t.run.game_name.clone(),
            category: t.run.category_name.clone(),
            attempts: t.run.attempt_count,
        }
    }
}

/// Produces the splits section.
#[derive(Clone)]
pub struct SplitsComponent {}

impl SplitsComponent {
    pub fn new() -> (c: SplitsComponent) {
        SplitsComponent {  }
    }

    /// Project the splits rows in run-definition order, as [`spec_rows`] says.
    pub fn state(&self, t: &Timer) -> (s: SplitsState)
        ensures
            s@ == spec_rows(t@),
    {
        let n = t.run.segments.len();
        let mut rows: Vec<SegmentRow> = Vec::new();
        let mut i: usize = 0;
        while i < n
            invariant
                n == t.run.segments@.len(),
                i <= n,
                rows@.len() == i,
                forall|k: int| 0 <= k < i ==> rows@[k]@ == spec_row(t.run.segments@[k]@),
            decreases n - i,
        {
            let seg = &t.run.segments[i];
            let delta = delta_exec(seg);
            rows.push(SegmentRow { name: seg.name.clone(), delta, time: seg.split_time });
            i = i + 1;
        }
        let s = SplitsState { splits: rows };
        assert(s@ =~= spec_rows(t@));
        s
    }
}

/// Produces the clock section.
#[derive(Clone)]
pub struct TimerComponent {}

impl TimerComponent {
    pub fn new() -> (c: TimerComponent) {
        TimerComponent {  }
    }

    /// Project the clock section for the given moment, as
    /// [`spec_timer_state`] says.
    pub fn state(&self, t: &Timer, now_ms: u64) -> (s: TimerState)
        requires
            t@.wf(),
        ensures
            s == spec_timer_state(t@, now_ms),
    {
        let ms: u64 = match t.phase {
            TimerPhase::Running => if now_ms >= t.start_ms {
                now_ms - t.start_ms
            } else {
                0
            },
            TimerPhase::Ended => {
                let n = t.run.segments.len();
                match t.run.segments[n - 1].split_time {
                    Some(v) => v,
                    None => 0,
                }
            },
            TimerPhase::NotRunning => 0,
        };
        let color = match t.phase {
            TimerPhase::NotRunning => TimerColor::NotRunning,
            TimerPhase::Ended => TimerColor::PersonalBest,
            TimerPhase::Running => {
                let cur = t.current_split_index;
                if cur > 0 {
                    match delta_exec(&t.run.segments[cur - 1]) {
                        Some(d) => if d <= 0 {
                            TimerColor::AheadGainingTime
                        } else {
                            TimerColor::BehindLosingTime
                        },
                        None => TimerColor::Default,
                    }
                } else {
                    TimerColor::Default
                }
            },
        };
        TimerState { seconds: ms / 1000, fraction_ms: ms % 1000, color }
    }
}

/// Produces the previous-segment section.
#[derive(Clone)]
pub struct PreviousSegmentComponent {}

impl PreviousSegmentComponent {
    pub fn new() -> (c: PreviousSegmentComponent) {
        PreviousSegmentComponent {  }
    }

    /// Project the previous-segment section, as [`spec_previous_segment`]
    /// says.
    pub fn state(&self, t: &Timer) -> (s: PreviousSegmentState)
        requires
            t@.wf(),
        ensures
            s == spec_previous_segment(t@),
    {
        let delta = match t.phase {
            TimerPhase::Running => {
                let cur = t.current_split_index;
                if cur > 0 {
                    delta_exec(&t.run.segments[cur - 1])
                } else {
                    None
                }
            },
            TimerPhase::Ended => {
                let n = t.run.segments.len();
                delta_exec(&t.run.segments[n - 1])
            },
            TimerPhase::NotRunning => None,
        };
        PreviousSegmentState { delta }
    }
}

/// Produces the sum-of-best section.
#[derive(Clone)]
pub struct SumOfBestComponent {}

impl SumOfBestComponent {
    pub fn new() -> (c: SumOfBestComponent) {
        SumOfBestComponent {  }
    }

    /// Project the sum-of-best section, as [`spec_sum_of_best`] says.
    pub fn state(&self, t: &Timer) -> (s: SumOfBestState)
        ensures
            s == spec_sum_of_best(t@),
    {
        let n = t.run.segments.len();
        let ghost segs = t@.segments;
        let mut acc: u64 = 0;
        let mut i: usize = 0;
        while i < n
            invariant
                n == t.run.segments@.len(),
                segs == t@.segments,
                segs.len() == n,
                i <= n,
                sob_upto(segs, i as int) == Some(acc as int),
            decreases n - i,
        {
            match t.run.segments[i].pb_time {
                Some(p) => {
                    if acc <= u64::MAX - p {
                        acc = acc + p;
                    } else {
                        proof {
                            lemma_sob_bound_fails(segs, i as int, n as int, acc as int + p);
                        }
                        return SumOfBestState { time: None };
                    }
                },
                None => {
                    proof {
                        lemma_sob_none(segs, (i + 1) as int, n as int);
                    }
                    return SumOfBestState { time: None };
                },
            }
            i = i + 1;
        }
        SumOfBestState { time: Some(acc) }
    }
}

/// A total sum that extends a partial sum already above the representable
/// bound cannot itself be represented.
proof fn lemma_sob_bound_fails(segs: Seq<SegmentView>, i: int, n: int, partial: int)
    requires
        0 <= i < n,
        partial > u64::MAX,
        sob_upto(segs, i + 1) == Some(partial),
    ensures
        sob_upto(segs, n) matches Some(s) ==> s > u64::MAX,
{
    if let Some(s) = sob_upto(segs, n) {
        lemma_sob_monotone(segs, i + 1, n, s);
    }
}

/// Produces the possible-time-save section.
#[derive(Clone)]
pub struct PossibleTimeSaveComponent {}

impl PossibleTimeSaveComponent {
    pub fn new() -> (c: PossibleTimeSaveComponent) {
        PossibleTimeSaveComponent {  }
    }

    /// Project the possible-time-save section, as
    /// [`spec_possible_time_save`] says.
    pub fn state(&self, t: &Timer) -> (s: PossibleTimeSaveState)
        requires
            t@.wf(),
        ensures
            s == spec_possible_time_save(t@),
    {
        let time = match t.phase {
            TimerPhase::Running => t.run.segments[t.current_split_index].pb_time,
            TimerPhase::Ended => None,
            TimerPhase::NotRunning => None,
        };
        PossibleTimeSaveState { time }
    }
}

/// The RGB color a rendered reply uses for each timer color.
pub fn color_rgb(c: TimerColor) -> (r: (u8, u8, u8))
    ensures
        c == TimerColor::AheadGainingTime ==> r == (0x00u8, 0xccu8, 0x4bu8),
        c == TimerColor::AheadLosingTime ==> r == (0x5cu8, 0xd6u8, 0x89u8),
        c == TimerColor::BehindGainingTime ==> r == (0xd6u8, 0x5cu8, 0x5cu8),
        c == TimerColor::BehindLosingTime ==> r == (0xccu8, 0x00u8, 0x00u8),
        c == TimerColor::BestSegment ==> r == (0xffu8, 0xd4u8, 0x00u8),
        (c == TimerColor::NotRunning || c == TimerColor::Default) ==> r == (
            0x99u8,
            0x99u8,
            0x99u8,
        ),
        c == TimerColor::Paused ==> r == (0x66u8, 0x66u8, 0x66u8),
        c == TimerColor::PersonalBest ==> r == (0x4du8, 0xa6u8, 0xffu8),
{
    match c {
        TimerColor::AheadGainingTime => (0x00, 0xcc, 0x4b),
        TimerColor::AheadLosingTime => (0x5c, 0xd6, 0x89),
        TimerColor::BehindGainingTime => (0xd6, 0x5c, 0x5c),
        TimerColor::BehindLosingTime => (0xcc, 0x00, 0x00),
        TimerColor::BestSegment => (0xff, 0xd4, 0x00),
        TimerColor::NotRunning => (0x99, 0x99, 0x99),
        TimerColor::Default => (0x99, 0x99, 0x99),
        TimerColor::Paused => (0x66, 0x66, 0x66),
        TimerColor::PersonalBest => (0x4d, 0xa6, 0xff),
    }
}

/// The fixed, ordered bundle of presentation components bound one-to-one with
/// the fields of a rendered layout; created once per user and reused.
#[derive(Clone)]
pub struct Components {
    pub title: TitleComponent,
    pub splits: SplitsComponent,
    pub timer: TimerComponent,
    pub previous_segment: PreviousSegmentComponent,
    pub sum_of_best: SumOfBestComponent,
    pub possible_time_save: PossibleTimeSaveComponent,
}

impl Components {
    pub fn new() -> (c: Components) {
        Components {
            title: TitleComponent::new(),
            splits: SplitsComponent::new(),
            timer: TimerComponent::new(),
            previous_segment: PreviousSegmentComponent::new(),
            sum_of_best: SumOfBestComponent::new(),
            possible_time_save: PossibleTimeSaveComponent::new(),
        }
    }

    /// Assemble the whole projection, section by section, in the fixed order,
    /// as [`spec_layout`] says.
    pub fn eval_layout(&self, t: &Timer, now_ms: u64) -> (l: Layout)
        requires
            t@.wf(),
        ensures
            l@ == spec_layout(t@, now_ms),
    {
        Layout {
            title: self.title.state(t),
            splits: self.splits.state(t),
            timer: self.timer.state(t, now_ms),
            previous_segment: self.previous_segment.state(t),
            sum_of_best: self.sum_of_best.state(t),
            possible_time_save: self.possible_time_save.state(t),
        }
    }
}

} // verus!
