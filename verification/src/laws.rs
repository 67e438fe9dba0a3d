//! The library's laws: properties that relate several operations, stated over
//! the same spec functions the operations' own contracts use.

use vstd::prelude::*;

use crate::layout::spec_layout;
use crate::race::all_entrants_ready;
use crate::store::{
    entrants_text, get_or_create_map_post, is_fresh_user, starter_timer_view, LSState, User,
};
use crate::timing::{TimerPhase, TimerView};

verus! {

/// Of any sequence of get-or-create accesses with one id, exactly the first
/// constructs a user: a later access returns the registry exactly as it was,
/// so every caller observes the one user made on the first miss, and the name
/// given by later callers is ignored.
pub proof fn lemma_get_or_create_once(
    m0: Map<u64, User>,
    m1: Map<u64, User>,
    m2: Map<u64, User>,
    id: u64,
    n1: Seq<char>,
    n2: Seq<char>,
)
    requires
        get_or_create_map_post(m0, id, n1, m1),
        get_or_create_map_post(m1, id, n2, m2),
    ensures
        m2 =~= m1,
        !m0.dom().contains(id) ==> is_fresh_user(m1[id], n1),
{
    assert(m2.dom() =~= m1.dom());
    assert forall|k: u64| #[trigger] m1.dom().contains(k) implies m2[k] == m1[k] by {
        if k == id {
            assert(m1.dom().contains(id));
        }
    }
}

/// Resetting a timer with its history cleared and then projecting it yields a
/// layout of a fully cleared run: the attempt count is zero and no segment
/// row shows a recorded time or a delta.
pub proof fn lemma_reset_clears_layout(t: TimerView, now_ms: u64)
    requires
        t.wf(),
    ensures
        spec_layout(t.spec_reset(true), now_ms).title.attempts == 0,
        spec_layout(t.spec_reset(true), now_ms).splits.len() == t.segments.len(),
        forall|i: int|
            0 <= i < t.segments.len() ==> (#[trigger] spec_layout(
                t.spec_reset(true),
                now_ms,
            ).splits[i]).time is None,
        forall|i: int|
            0 <= i < t.segments.len() ==> (#[trigger] spec_layout(
                t.spec_reset(true),
                now_ms,
            ).splits[i]).delta is None,
{
    let t2 = t.spec_reset(true);
    assert forall|i: int| 0 <= i < t.segments.len() implies (#[trigger] t2.segments[i]).split_time
        is None by {}
}

/// The split command (a split, then a start) on the fresh default user starts
/// its timer running at the first segment; a second split command advances it
/// to the second segment. Segment positions count from zero here.
pub proof fn lemma_split_starts_fresh_timer(now1: u64, now2: u64)
    ensures
        starter_timer_view().spec_split(now1).spec_start(now1).phase == TimerPhase::Running,
        starter_timer_view().spec_split(now1).spec_start(now1).current == 0,
        starter_timer_view().spec_split(now1).spec_start(now1).spec_split(now2).spec_start(
            now2,
        ).phase == TimerPhase::Running,
        starter_timer_view().spec_split(now1).spec_start(now1).spec_split(now2).spec_start(
            now2,
        ).current == 1,
{
}

/// Once every entrant is ready, a later ready call cannot be the triggering
/// one: whoever calls is either already ready or never entered, so exactly the
/// call that flipped the last outstanding flag announces the start.
pub proof fn lemma_ready_triggers_once(e: Seq<(u64, bool)>, id: u64)
    requires
        all_entrants_ready(e),
    ensures
        forall|i: int| 0 <= i < e.len() && (#[trigger] e[i]).0 == id ==> e[i].1,
{
}

/// The entrants listing is a pure read: its text is a function of the state
/// alone, so any number of calls on one unchanged state yield one identical
/// listing.
pub proof fn lemma_entrants_pure(s: LSState, r1: Seq<char>, r2: Seq<char>)
    requires
        r1 == entrants_text(s),
        r2 == entrants_text(s),
    ensures
        r1 == r2,
{
}

} // verus!
