//! The shared service state: a concurrent user registry with lazy get-or-create
//! semantics, and the race state machine that coordinates a synchronized start
//! across many users' timers.

use vstd::prelude::*;

use chashmap::CHashMap;

use crate::layout::{spec_layout, Components, Layout};
use crate::race::{
    all_entrants_ready, collect_ids, distinct_ids, entrant_ids, entrants_all_ready, find_entrant,
    race_ids, race_wf, Race,
};
use crate::text::push_str;
use crate::timing::{Run, Segment, Timer, TimerPhase, TimerView};

verus! {

/// One user of the service: the display name set at creation, the fixed
/// bundle of presentation components, and the exclusively owned timer.
#[derive(Clone)]
pub struct User {
    pub name: String,
    pub components: Components,
    pub timer: Timer,
}

impl User {
    /// A user is well formed when its timer is.
    pub open spec fn wf(self) -> bool {
        self.timer@.wf()
    }

    /// Project this user's timer into a fresh layout, as [`spec_layout`] says.
    pub fn eval_layout(&self, now_ms: u64) -> (l: Layout)
        requires
            self.wf(),
        ensures
            l@ == spec_layout(self.timer@, now_ms),
    {
        self.components.eval_layout(&self.timer, now_ms)
    }
}

/// The concurrent user registry. The underlying map serializes accesses per
/// key, so operations on different users never block each other; here it is
/// held behind a mutable handle and described by the entries it holds.
#[verifier::external_body]
pub struct UserMap {
    inner: CHashMap<u64, User>,
}

/// The entries a registry holds.
pub uninterp spec fn users_of(m: UserMap) -> Map<u64, User>;

impl UserMap {
    /// Relies on `chashmap::CHashMap::new`: the new map holds no entries.
    #[verifier::external_body]
    pub fn new() -> (m: UserMap)
        ensures
            users_of(m).dom() == Set::<u64>::empty(),
    {
        UserMap { inner: CHashMap::new() }
    }

    /// Relies on `chashmap::CHashMap::get`: the entry for the key, if any,
    /// cloned out of its read guard.
    #[verifier::external_body]
    pub fn get_cloned(&self, id: u64) -> (r: Option<User>)
        ensures
            r == if users_of(*self).dom().contains(id) {
                Some(users_of(*self)[id])
            } else {
                None::<User>
            },
    {
        self.inner.get(&id).map(|guard| (*guard).clone())
    }

    /// Relies on `chashmap::CHashMap::insert`: the entry is added, replacing
    /// any previous entry for the key.
    #[verifier::external_body]
    pub fn put(&mut self, id: u64, user: User)
        ensures
            users_of(*final(self)) == users_of(*old(self)).insert(id, user),
    {
        self.inner.insert(id, user);
    }

    /// Relies on `chashmap::CHashMap::remove`: the entry for the key, if any,
    /// leaves the map and is returned.
    #[verifier::external_body]
    pub fn take(&mut self, id: u64) -> (r: Option<User>)
        ensures
            users_of(*final(self)) == users_of(*old(self)).remove(id),
            r == if users_of(*old(self)).dom().contains(id) {
                Some(users_of(*old(self))[id])
            } else {
                None::<User>
            },
    {
        self.inner.remove(&id)
    }
}

/// The timer every new user starts with: a fixed default run of four named
/// segments under fixed game and category labels, not yet running.
pub open spec fn starter_timer_view() -> TimerView {
    TimerView {
        game: "Wind Waker"@,
        category: "Any%"@,
        attempts: 0,
        segments: seq![
            crate::timing::SegmentView { name: "First"@, split_time: None, pb_time: None },
            crate::timing::SegmentView { name: "Second"@, split_time: None, pb_time: None },
            crate::timing::SegmentView { name: "Third"@, split_time: None, pb_time: None },
            crate::timing::SegmentView { name: "End"@, split_time: None, pb_time: None },
        ],
        phase: TimerPhase::NotRunning,
        current: 0,
        start_ms: 0,
    }
}

/// A user as `get-or-create` makes it on a miss: the given name and the
/// default starter timer.
pub open spec fn is_fresh_user(u: User, name: Seq<char>) -> bool {
    &&& u.name@ == name
    &&& u.timer@ == starter_timer_view()
}

/// Build the fixed default user for a name.
fn starter_user(name: &str) -> (u: User)
    ensures
        is_fresh_user(u, name@),
        u.wf(),
{
    let mut segments: Vec<Segment> = Vec::new();
    segments.push(Segment { name: "First".to_owned(), split_time: None, pb_time: None });
    segments.push(Segment { name: "Second".to_owned(), split_time: None, pb_time: None });
    segments.push(Segment { name: "Third".to_owned(), split_time: None, pb_time: None });
    segments.push(Segment { name: "End".to_owned(), split_time: None, pb_time: None });
    let run = Run {
        game_name: "Wind Waker".to_owned(),
        category_name: "Any%".to_owned(),
        attempt_count: 0,
        segments,
    };
    let timer = Timer::new(run);
    assert(timer@.segments =~= starter_timer_view().segments);
    assert(timer@ == starter_timer_view());
    User { name: name.to_owned(), components: Components::new(), timer }
}

/// What a get-or-create access does to the registry: the key now has an
/// entry, every other entry is untouched, and on a miss the new entry is the
/// fresh default user under the given name.
pub open spec fn get_or_create_map_post(
    pre: Map<u64, User>,
    id: u64,
    name: Seq<char>,
    post: Map<u64, User>,
) -> bool {
    &&& post.dom() == pre.dom().insert(id)
    &&& (forall|k: u64| k != id && pre.dom().contains(k) ==> post[k] == pre[k])
    &&& (if pre.dom().contains(id) {
        post[id] == pre[id]
    } else {
        is_fresh_user(post[id], name)
    })
}

/// What a user-mutating command does to the registry: a get-or-create for the
/// caller, whose timer is then transformed by `f` (a fresh user's timer being
/// the starter timer), with the name and components kept.
pub open spec fn user_command_post(
    pre: Map<u64, User>,
    id: u64,
    name: Seq<char>,
    post: Map<u64, User>,
    f: spec_fn(TimerView) -> TimerView,
) -> bool {
    &&& post.dom() == pre.dom().insert(id)
    &&& (forall|k: u64| k != id && pre.dom().contains(k) ==> post[k] == pre[k])
    &&& post[id].name@ == (if pre.dom().contains(id) {
        pre[id].name@
    } else {
        name
    })
    &&& post[id].timer@ == f(
        if pre.dom().contains(id) {
            pre[id].timer@
        } else {
            starter_timer_view()
        },
    )
}

/// The whole shared state: the user registry and the single race value.
pub struct LSState {
    pub users: UserMap,
    pub race: Race,
}

impl LSState {
    /// The registry's entries.
    pub open spec fn users_view(self) -> Map<u64, User> {
        users_of(self.users)
    }

    /// The state invariant: the race is well formed, every registered user is
    /// well formed, and every race entrant is a registered user.
    pub open spec fn wf(self) -> bool {
        &&& race_wf(self.race)
        &&& (forall|k: u64|
            #[trigger] self.users_view().dom().contains(k) ==> self.users_view()[k].wf())
        &&& (forall|i: int|
            0 <= i < race_ids(self.race).len() ==> self.users_view().dom().contains(
                #[trigger] race_ids(self.race)[i],
            ))
    }

    /// A fresh state: an empty registry and no race.
    pub fn new() -> (s: LSState)
        ensures
            s.wf(),
            s.users_view() == Map::<u64, User>::empty(),
            s.race matches Race::NoRace,
    {
        let s = LSState { users: UserMap::new(), race: Race::NoRace };
        assert(race_ids(s.race).len() == 0);
        s
    }

    /// Get-or-create: return the user under `id`, constructing and inserting
    /// the fresh default user under `name` first if the id is new. An existing
    /// entry is never replaced, so of any sequence of calls with one id,
    /// exactly the first constructs the user.
    pub fn user(&mut self, id: u64, name: &str) -> (u: User)
        requires
            old(self).wf(),
        ensures
            final(self).wf(),
            final(self).race == old(self).race,
            get_or_create_map_post(
                old(self).users_view(),
                id,
                name@,
                final(self).users_view(),
            ),
            final(self).users_view().dom().contains(id),
            u == final(self).users_view()[id],
    {
        match self.users.get_cloned(id) {
            Some(u) => {
                assert(self.users_view().dom() =~= old(self).users_view().dom().insert(id));
                u
            },
            None => {
                let u = starter_user(name);
                self.users.put(id, u);
                proof {
                    let pre = old(self).users_view();
                    let post = self.users_view();
                    assert(post.dom() =~= pre.dom().insert(id));
                    assert forall|k: u64| #[trigger] post.dom().contains(k) implies post[k].wf()
                    by {
                        if k != id {
                            assert(pre.dom().contains(k));
                        }
                    }
                    assert forall|i: int|
                        0 <= i < race_ids(self.race).len() implies post.dom().contains(
                        #[trigger] race_ids(self.race)[i],
                    ) by {
                        assert(pre.dom().contains(race_ids(old(self).race)[i]));
                    }
                }
                match self.users.get_cloned(id) {
                    Some(v) => v,
                    None => vstd::pervasive::unreached(),
                }
            },
        }
    }

    /// Take the caller's user out of the registry, or make the fresh default
    /// user on a miss; the registry ends without an entry for `id`.
    fn take_or_fresh(&mut self, id: u64, name: &str) -> (u: User)
        requires
            old(self).wf(),
        ensures
            final(self).race == old(self).race,
            final(self).users_view() == old(self).users_view().remove(id),
            u.wf(),
            u.name@ == (if old(self).users_view().dom().contains(id) {
                old(self).users_view()[id].name@
            } else {
                name@
            }),
            u.timer@ == (if old(self).users_view().dom().contains(id) {
                old(self).users_view()[id].timer@
            } else {
                starter_timer_view()
            }),
            old(self).users_view().dom().contains(id) ==> u == old(self).users_view()[id],
    {
        match self.users.take(id) {
            Some(u) => u,
            None => {
                let u = starter_user(name);
                assert(self.users_view() =~= old(self).users_view().remove(id));
                u
            },
        }
    }

    /// Put the caller's mutated user back and re-establish the invariant.
    fn give_back(&mut self, id: u64, u: User, ghost_pre: Ghost<LSState>)
        requires
            old(self).race == ghost_pre@.race,
            old(self).users_view() == ghost_pre@.users_view().remove(id),
            ghost_pre@.wf(),
            u.wf(),
        ensures
            final(self).race == old(self).race,
            final(self).wf(),
            final(self).users_view() == ghost_pre@.users_view().insert(id, u),
    {
        self.users.put(id, u);
        proof {
            let pre = ghost_pre@.users_view();
            let post = self.users_view();
            assert(post =~= pre.insert(id, u));
            assert(post.dom() =~= pre.dom().insert(id));
            assert forall|k: u64| #[trigger] post.dom().contains(k) implies post[k].wf() by {
                if k != id {
                    assert(pre.dom().contains(k));
                }
            }
            assert forall|i: int|
                0 <= i < race_ids(self.race).len() implies post.dom().contains(
                #[trigger] race_ids(self.race)[i],
            ) by {
                assert(pre.dom().contains(race_ids(ghost_pre@.race)[i]));
            }
        }
    }

    /// The split command: a split followed by a start on the caller's timer
    /// (creating the user first if need be), and the fresh layout after it.
    pub fn split_command(&mut self, id: u64, name: &str, now_ms: u64) -> (l: Layout)
        requires
            old(self).wf(),
        ensures
            final(self).wf(),
            final(self).race == old(self).race,
            user_command_post(
                old(self).users_view(),
                id,
                name@,
                final(self).users_view(),
                |t: TimerView| t.spec_split(now_ms).spec_start(now_ms),
            ),
            l@ == spec_layout(final(self).users_view()[id].timer@, now_ms),
    {
        let ghost pre = *old(self);
        let mut u = self.take_or_fresh(id, name);
        u.timer.split(now_ms);
        u.timer.start(now_ms);
        let l = u.eval_layout(now_ms);
        self.give_back(id, u, Ghost(pre));
        l
    }

    /// The reset command: the caller's timer is reset with its history
    /// cleared, and the fresh layout after it.
    pub fn reset_command(&mut self, id: u64, name: &str, now_ms: u64) -> (l: Layout)
        requires
            old(self).wf(),
        ensures
            final(self).wf(),
            final(self).race == old(self).race,
            user_command_post(
                old(self).users_view(),
                id,
                name@,
                final(self).users_view(),
                |t: TimerView| t.spec_reset(true),
            ),
            l@ == spec_layout(final(self).users_view()[id].timer@, now_ms),
    {
        let ghost pre = *old(self);
        let mut u = self.take_or_fresh(id, name);
        u.timer.reset(true);
        let l = u.eval_layout(now_ms);
        self.give_back(id, u, Ghost(pre));
        l
    }

    /// The state command: a pure read of the caller's layout (creating the
    /// user first if need be); the timer itself is left as it was.
    pub fn state_command(&mut self, id: u64, name: &str, now_ms: u64) -> (l: Layout)
        requires
            old(self).wf(),
        ensures
            final(self).wf(),
            final(self).race == old(self).race,
            user_command_post(
                old(self).users_view(),
                id,
                name@,
                final(self).users_view(),
                |t: TimerView| t,
            ),
            l@ == spec_layout(final(self).users_view()[id].timer@, now_ms),
    {
        let ghost pre = *old(self);
        let u = self.take_or_fresh(id, name);
        let l = u.eval_layout(now_ms);
        self.give_back(id, u, Ghost(pre));
        l
    }

    /// The load-splits command: when a parsed run arrives and is usable (it
    /// has at least one segment), the caller's timer is replaced by a fresh
    /// timer over it; otherwise the prior timer is left untouched. Either way
    /// the fresh layout after the command comes back.
    pub fn load_splits_command(
        &mut self,
        id: u64,
        name: &str,
        parsed: Option<Run>,
        now_ms: u64,
    ) -> (l: Layout)
        requires
            old(self).wf(),
        ensures
            final(self).wf(),
            final(self).race == old(self).race,
            user_command_post(
                old(self).users_view(),
                id,
                name@,
                final(self).users_view(),
                |t: TimerView| match parsed {
                    Some(run) => if run.segments@.len() >= 1 {
                        loaded_timer_view(run)
                    } else {
                        t
                    },
                    None => t,
                },
            ),
            l@ == spec_layout(final(self).users_view()[id].timer@, now_ms),
    {
        let ghost pre = *old(self);
        let mut u = self.take_or_fresh(id, name);
        match parsed {
            Some(run) => {
                if run.segments.len() >= 1 {
                    let t = Timer::new(run);
                    assert(t@ =~= loaded_timer_view(run));
                    u.timer = t;
                }
            },
            None => {},
        }
        let l = u.eval_layout(now_ms);
        self.give_back(id, u, Ghost(pre));
        l
    }
}

/// The timer a freshly loaded run yields: the run's own labels, counter and
/// segments, not yet running.
pub open spec fn loaded_timer_view(run: Run) -> TimerView {
    TimerView {
        game: run.game_name@,
        category: run.category_name@,
        attempts: run.attempt_count,
        segments: run.segments@.map_values(|s: Segment| s@),
        phase: TimerPhase::NotRunning,
        current: 0,
        start_ms: 0,
    }
}

/// The outcome of the create-race command.
#[derive(Clone, Copy, PartialEq, Eq, Structural, Debug)]
pub enum CreateRaceStatus {
    Created,
    RaceAlreadyActive,
}

/// The outcome of the enter command.
#[derive(Clone, Copy, PartialEq, Eq, Structural, Debug)]
pub enum EnterStatus {
    Entered,
    AlreadyEntered,
    NoActiveRace,
    RaceAlreadyInProgress,
}

/// The outcome of the ready command. `AllReady` means this very call flipped
/// the last outstanding flag, so this caller, and no other, must run the
/// countdown and the go step.
#[derive(Clone, Copy, PartialEq, Eq, Structural, Debug)]
pub enum ReadyStatus {
    NowReady,
    AllReady,
    AlreadyReady,
    NotEntered,
    NoActiveRace,
    RaceAlreadyInProgress,
}

impl LSState {
    /// The create-race command: with no race active, the caller's user is
    /// ensured to exist and a race enters setup with the caller as its only,
    /// not yet ready, entrant; an active race is reported and left untouched.
    pub fn create_race(&mut self, id: u64, name: &str) -> (st: CreateRaceStatus)
        requires
            old(self).wf(),
        ensures
            final(self).wf(),
            old(self).race matches Race::NoRace ==> {
                &&& st == CreateRaceStatus::Created
                &&& final(self).race matches Race::Setup(e) && e@ == seq![(id, false)]
                &&& get_or_create_map_post(
                    old(self).users_view(),
                    id,
                    name@,
                    final(self).users_view(),
                )
            },
            !(old(self).race matches Race::NoRace) ==> {
                &&& st == CreateRaceStatus::RaceAlreadyActive
                &&& final(self).race == old(self).race
                &&& final(self).users_view() == old(self).users_view()
            },
    {
        if matches!(self.race, Race::NoRace) {
            let _ = self.user(id, name);
            let mut e: Vec<(u64, bool)> = Vec::new();
            e.push((id, false));
            self.race = Race::Setup(e);
            proof {
                assert(entrant_ids(seq![(id, false)]) =~= seq![id]);
                assert(race_ids(self.race) =~= seq![id]);
            }
            CreateRaceStatus::Created
        } else {
            CreateRaceStatus::RaceAlreadyActive
        }
    }

    /// The enter command: during setup a caller who has not yet entered is
    /// ensured to exist as a user and is appended, not yet ready, to the
    /// entrant list; every other case is reported and leaves the race as it
    /// was.
    pub fn enter(&mut self, id: u64, name: &str) -> (st: EnterStatus)
        requires
            old(self).wf(),
        ensures
            final(self).wf(),
            old(self).race matches Race::NoRace ==> st == EnterStatus::NoActiveRace
                && unchanged_state(*old(self), *final(self)),
            old(self).race matches Race::InProgress(v) ==> st == EnterStatus::RaceAlreadyInProgress
                && unchanged_state(*old(self), *final(self)),
            old(self).race matches Race::Setup(e) ==> {
                if entrant_ids(e@).contains(id) {
                    st == EnterStatus::AlreadyEntered && unchanged_state(*old(self), *final(self))
                } else {
                    &&& st == EnterStatus::Entered
                    &&& final(self).race matches Race::Setup(e2) && e2@ == e@.push((id, false))
                    &&& get_or_create_map_post(
                        old(self).users_view(),
                        id,
                        name@,
                        final(self).users_view(),
                    )
                }
            },
    {
        let mut prev = Race::NoRace;
        core::mem::swap(&mut prev, &mut self.race);
        match prev {
            Race::NoRace => {
                self.race = Race::NoRace;
                EnterStatus::NoActiveRace
            },
            Race::InProgress(v) => {
                self.race = Race::InProgress(v);
                EnterStatus::RaceAlreadyInProgress
            },
            Race::Setup(mut e) => {
                match find_entrant(&e, id) {
                    Some(i) => {
                        proof {
                            assert(entrant_ids(e@)[i as int] == id);
                        }
                        self.race = Race::Setup(e);
                        EnterStatus::AlreadyEntered
                    },
                    None => {
                        proof {
                            assert(race_ids(self.race) =~= Seq::<u64>::empty());
                            assert(race_wf(self.race));
                            assert(self.users_view() == old(self).users_view());
                            assert(forall|k: u64|
                                #[trigger] self.users_view().dom().contains(k)
                                    ==> self.users_view()[k].wf());
                            assert(self.wf());
                        }
                        let _ = self.user(id, name);
                        let ghost e0 = e@;
                        e.push((id, false));
                        self.race = Race::Setup(e);
                        proof {
                            let ids0 = entrant_ids(e0);
                            let ids = entrant_ids(e@);
                            assert(ids =~= ids0.push(id));
                            assert forall|a: int, b: int|
                                0 <= a < b < ids.len() implies ids[a] != ids[b] by {
                                if b == ids.len() - 1 {
                                    assert(ids0[a] != id);
                                }
                            }
                            assert(race_ids(self.race) == ids);
                        }
                        EnterStatus::Entered
                    },
                }
            },
        }
    }

    /// The ready command: during setup an entrant who was not yet ready is
    /// marked ready; the outcome is `AllReady` exactly when that flip left no
    /// entrant unready. Every other case is reported and changes nothing.
    pub fn ready(&mut self, id: u64) -> (st: ReadyStatus)
        requires
            old(self).wf(),
        ensures
            final(self).wf(),
            final(self).users_view() == old(self).users_view(),
            old(self).race matches Race::NoRace ==> st == ReadyStatus::NoActiveRace
                && final(self).race == old(self).race,
            old(self).race matches Race::InProgress(v) ==> st == ReadyStatus::RaceAlreadyInProgress
                && final(self).race == old(self).race,
            old(self).race matches Race::Setup(e) ==> {
                &&& (forall|i: int| 0 <= i < e@.len() ==> (#[trigger] e@[i]).0 != id) ==> st
                    == ReadyStatus::NotEntered && final(self).race == old(self).race
                &&& (forall|i: int|
                    0 <= i < e@.len() && (#[trigger] e@[i]).0 == id ==> {
                        if e@[i].1 {
                            st == ReadyStatus::AlreadyReady && final(self).race == old(self).race
                        } else {
                            &&& final(self).race matches Race::Setup(e2) && e2@ == e@.update(
                                i,
                                (id, true),
                            )
                            &&& st == (if all_entrants_ready(e@.update(i, (id, true))) {
                                ReadyStatus::AllReady
                            } else {
                                ReadyStatus::NowReady
                            })
                        }
                    })
            },
    {
        let mut prev = Race::NoRace;
        core::mem::swap(&mut prev, &mut self.race);
        match prev {
            Race::NoRace => {
                self.race = Race::NoRace;
                ReadyStatus::NoActiveRace
            },
            Race::InProgress(v) => {
                self.race = Race::InProgress(v);
                ReadyStatus::RaceAlreadyInProgress
            },
            Race::Setup(mut e) => {
                match find_entrant(&e, id) {
                    None => {
                        self.race = Race::Setup(e);
                        ReadyStatus::NotEntered
                    },
                    Some(i) => {
                        proof {
                            let ids = entrant_ids(e@);
                            assert forall|j: int|
                                0 <= j < e@.len() && (#[trigger] e@[j]).0 == id implies j
                                == i as int by {
                                if j != i as int {
                                    assert(ids[j] == id && ids[i as int] == id);
                                }
                            }
                        }
                        if e[i].1 {
                            self.race = Race::Setup(e);
                            ReadyStatus::AlreadyReady
                        } else {
                            let ghost e0 = e@;
                            e[i] = (id, true);
                            let all = entrants_all_ready(&e);
                            self.race = Race::Setup(e);
                            proof {
                                assert(entrant_ids(e@) =~= entrant_ids(e0));
                            }
                            if all {
                                ReadyStatus::AllReady
                            } else {
                                ReadyStatus::NowReady
                            }
                        }
                    },
                }
            },
        }
    }
}

impl CreateRaceStatus {
    /// The reply the command boundary sends for this outcome.
    pub fn text(&self) -> (r: &'static str)
        ensures
            *self == CreateRaceStatus::Created ==> r@ == "Created a new race!"@,
            *self == CreateRaceStatus::RaceAlreadyActive ==> r@
                == "There already is an active race!"@,
    {
        match self {
            CreateRaceStatus::Created => "Created a new race!",
            CreateRaceStatus::RaceAlreadyActive => "There already is an active race!",
        }
    }
}

impl EnterStatus {
    /// The reply the command boundary sends for this outcome.
    pub fn text(&self) -> (r: &'static str)
        ensures
            *self == EnterStatus::Entered ==> r@ == "You successfully entered the race!"@,
            *self == EnterStatus::AlreadyEntered ==> r@ == "You already entered the race!"@,
            *self == EnterStatus::NoActiveRace ==> r@ == "There is no race!"@,
            *self == EnterStatus::RaceAlreadyInProgress ==> r@
                == "The Race is already in Progress!"@,
    {
        match self {
            EnterStatus::Entered => "You successfully entered the race!",
            EnterStatus::AlreadyEntered => "You already entered the race!",
            EnterStatus::NoActiveRace => "There is no race!",
            EnterStatus::RaceAlreadyInProgress => "The Race is already in Progress!",
        }
    }
}

impl ReadyStatus {
    /// The reply the command boundary sends for this outcome. The call that
    /// completes all-readiness replies as a plain readiness first; the
    /// countdown follows separately.
    pub fn text(&self) -> (r: &'static str)
        ensures
            (*self == ReadyStatus::NowReady || *self == ReadyStatus::AllReady) ==> r@
                == "You are now ready for the race!"@,
            *self == ReadyStatus::AlreadyReady ==> r@ == "You are already ready!"@,
            *self == ReadyStatus::NotEntered ==> r@ == "You didn't enter the race!"@,
            *self == ReadyStatus::NoActiveRace ==> r@ == "There is no race!"@,
            *self == ReadyStatus::RaceAlreadyInProgress ==> r@
                == "The Race is already in Progress!"@,
    {
        match self {
            ReadyStatus::NowReady => "You are now ready for the race!",
            ReadyStatus::AllReady => "You are now ready for the race!",
            ReadyStatus::AlreadyReady => "You are already ready!",
            ReadyStatus::NotEntered => "You didn't enter the race!",
            ReadyStatus::NoActiveRace => "There is no race!",
            ReadyStatus::RaceAlreadyInProgress => "The Race is already in Progress!",
        }
    }
}

/// Neither the registry nor the race changed.
pub open spec fn unchanged_state(pre: LSState, post: LSState) -> bool {
    &&& post.race == pre.race
    &&& post.users_view() == pre.users_view()
}

/// Why the go step did not run.
#[derive(Clone, Copy, PartialEq, Eq, Structural, Debug)]
pub enum GoError {
    NoActiveRace,
    RaceAlreadyInProgress,
    NotAllReady,
    UserNotFound,
}

/// The go step hit this user: a split followed by a start on their timer,
/// with everything else kept.
pub open spec fn started_user(pre: User, post: User, now_ms: u64) -> bool {
    &&& post.name == pre.name
    &&& post.components == pre.components
    &&& post.timer@ == pre.timer@.spec_split(now_ms).spec_start(now_ms)
}

/// What the go step does to the registry: every entrant's timer is split and
/// started, every other user is untouched.
pub open spec fn go_post(
    pre: Map<u64, User>,
    post: Map<u64, User>,
    ids: Seq<u64>,
    now_ms: u64,
) -> bool {
    &&& post.dom() == pre.dom()
    &&& (forall|k: u64|
        pre.dom().contains(k) && !ids.contains(k) ==> #[trigger] post[k] == pre[k])
    &&& (forall|j: int|
        0 <= j < ids.len() && pre.dom().contains(ids[j]) ==> started_user(
            pre[ids[j]],
            #[trigger] post[ids[j]],
            now_ms,
        ))
}

impl LSState {
    /// The go step of the all-ready transition: with a race in setup whose
    /// every entrant is ready, each entrant's timer is split and then started,
    /// in the frozen join order, and only then is the race committed as in
    /// progress with that snapshot of entrants. In every other state the step
    /// reports why it did not run and changes nothing.
    ///
    /// Policy for a registry miss during the walk: the walk stops, entrants
    /// already reached keep their started timers, the race stays in setup and
    /// the miss is reported; since entering a race creates the user and users
    /// are never removed, a well-formed state cannot reach that branch.
    pub fn begin_race(&mut self, now_ms: u64) -> (r: Result<Vec<u64>, GoError>)
        requires
            old(self).wf(),
        ensures
            final(self).wf(),
            old(self).race matches Race::NoRace ==> r == Err::<Vec<u64>, GoError>(
                GoError::NoActiveRace,
            ) && unchanged_state(*old(self), *final(self)),
            old(self).race matches Race::InProgress(v) ==> r == Err::<Vec<u64>, GoError>(
                GoError::RaceAlreadyInProgress,
            ) && unchanged_state(*old(self), *final(self)),
            old(self).race matches Race::Setup(e) ==> if !all_entrants_ready(e@) {
                r == Err::<Vec<u64>, GoError>(GoError::NotAllReady) && unchanged_state(
                    *old(self),
                    *final(self),
                )
            } else {
                &&& r matches Ok(ids) && ids@ == entrant_ids(e@)
                &&& final(self).race matches Race::InProgress(v2) && v2@ == entrant_ids(e@)
                &&& go_post(
                    old(self).users_view(),
                    final(self).users_view(),
                    entrant_ids(e@),
                    now_ms,
                )
            },
    {
        let mut prev = Race::NoRace;
        core::mem::swap(&mut prev, &mut self.race);
        match prev {
            Race::NoRace => {
                self.race = Race::NoRace;
                Err(GoError::NoActiveRace)
            },
            Race::InProgress(v) => {
                self.race = Race::InProgress(v);
                Err(GoError::RaceAlreadyInProgress)
            },
            Race::Setup(e) => {
                if !entrants_all_ready(&e) {
                    self.race = Race::Setup(e);
                    return Err(GoError::NotAllReady);
                }
                let ids = collect_ids(&e);
                let ghost pre = old(self).users_view();
                let ghost idseq = ids@;
                let n = ids.len();
                let mut j: usize = 0;
                while j < n
                    invariant
                        n == idseq.len(),
                        j <= n,
                        ids@ == idseq,
                        idseq == entrant_ids(e@),
                        distinct_ids(idseq),
                        forall|t: int|
                            0 <= t < idseq.len() ==> pre.dom().contains(#[trigger] idseq[t]),
                        forall|k: u64| #[trigger] pre.dom().contains(k) ==> pre[k].wf(),
                        self.users_view().dom() == pre.dom(),
                        forall|k: u64|
                            pre.dom().contains(k) && !idseq.contains(k)
                                ==> #[trigger] self.users_view()[k] == pre[k],
                        forall|t: int|
                            j <= t < idseq.len() ==> #[trigger] self.users_view()[idseq[t]]
                                == pre[idseq[t]],
                        forall|t: int|
                            0 <= t < j ==> started_user(
                                pre[idseq[t]],
                                #[trigger] self.users_view()[idseq[t]],
                                now_ms,
                            ),
                        forall|k: u64|
                            #[trigger] self.users_view().dom().contains(k)
                                ==> self.users_view()[k].wf(),
                    decreases n - j,
                {
                    let id = ids[j];
                    let ghost mid = self.users_view();
                    match self.users.take(id) {
                        Some(mut u) => {
                            u.timer.split(now_ms);
                            u.timer.start(now_ms);
                            self.users.put(id, u);
                            proof {
                                assert(self.users_view() =~= mid.insert(id, u));
                                assert(self.users_view().dom() =~= pre.dom());
                            }
                        },
                        None => {
                            proof {
                                assert(false);
                            }
                            self.race = Race::Setup(e);
                            return Err(GoError::UserNotFound);
                        },
                    }
                    j = j + 1;
                }
                let snapshot = collect_ids(&e);
                self.race = Race::InProgress(snapshot);
                proof {
                    assert(race_ids(self.race) == idseq);
                }
                Ok(ids)
            },
        }
    }
}

/// Why the load-race-splits command failed.
#[derive(Clone, Copy, PartialEq, Eq, Structural, Debug)]
pub enum LoadRaceSplitsError {
    NoActiveRace,
    RaceAlreadyInProgress,
    UserNotFound,
}

/// Why the entrants listing failed.
#[derive(Clone, Copy, PartialEq, Eq, Structural, Debug)]
pub enum EntrantsError {
    UserNotFound,
}

/// One setup-listing entry: the entrant's name with its readiness.
pub open spec fn setup_entry_text(users: Map<u64, User>, p: (u64, bool)) -> Seq<char> {
    users[p.0].name@ + (if p.1 {
        " (Ready)"@
    } else {
        " (Not Ready)"@
    })
}

/// The setup listing over the first `i` entrants: a header before the first
/// entry, a comma between the rest.
pub open spec fn setup_listing(users: Map<u64, User>, e: Seq<(u64, bool)>, i: int) -> Seq<char>
    decreases i,
{
    if i <= 0 {
        Seq::empty()
    } else {
        setup_listing(users, e, i - 1) + (if i == 1 {
            "Entrants: "@
        } else {
            ", "@
        }) + setup_entry_text(users, e[i - 1])
    }
}

/// The in-progress listing over the first `i` entrants: names only.
pub open spec fn progress_listing(users: Map<u64, User>, ids: Seq<u64>, i: int) -> Seq<char>
    decreases i,
{
    if i <= 0 {
        Seq::empty()
    } else {
        progress_listing(users, ids, i - 1) + (if i == 1 {
            "Entrants: "@
        } else {
            ", "@
        }) + users[ids[i - 1]].name@
    }
}

/// The whole entrants listing of a state: a fixed sentence with no race, and
/// the entrant names in join order otherwise.
pub open spec fn entrants_text(s: LSState) -> Seq<char> {
    match s.race {
        Race::NoRace => "There is no race!"@,
        Race::Setup(e) => setup_listing(s.users_view(), e@, e@.len() as int),
        Race::InProgress(ids) => progress_listing(s.users_view(), ids@, ids@.len() as int),
    }
}

impl LSState {
    /// The load-race-splits command: with a race in setup, the caller's timer
    /// is replaced by a copy of the first entrant's timer (creating the
    /// caller's user first if need be), and the fresh layout after it comes
    /// back; otherwise the failure is reported and nothing changes.
    pub fn load_race_splits_command(&mut self, id: u64, name: &str, now_ms: u64) -> (r: Result<
        Layout,
        LoadRaceSplitsError,
    >)
        requires
            old(self).wf(),
        ensures
            final(self).wf(),
            final(self).race == old(self).race,
            old(self).race matches Race::NoRace ==> r == Err::<Layout, LoadRaceSplitsError>(
                LoadRaceSplitsError::NoActiveRace,
            ) && unchanged_state(*old(self), *final(self)),
            old(self).race matches Race::InProgress(v) ==> r == Err::<Layout, LoadRaceSplitsError>(
                LoadRaceSplitsError::RaceAlreadyInProgress,
            ) && unchanged_state(*old(self), *final(self)),
            old(self).race matches Race::Setup(e) ==> {
                &&& user_command_post(
                    old(self).users_view(),
                    id,
                    name@,
                    final(self).users_view(),
                    |t: TimerView| old(self).users_view()[e@[0].0].timer@,
                )
                &&& r matches Ok(l) && l@ == spec_layout(
                    final(self).users_view()[id].timer@,
                    now_ms,
                )
            },
    {
        let ghost pre = *old(self);
        let master_id = match &self.race {
            Race::NoRace => {
                return Err(LoadRaceSplitsError::NoActiveRace);
            },
            Race::InProgress(_) => {
                return Err(LoadRaceSplitsError::RaceAlreadyInProgress);
            },
            Race::Setup(e) => e[0].0,
        };
        proof {
            assert(race_ids(self.race)[0] == master_id);
        }
        let master = match self.users.get_cloned(master_id) {
            Some(m) => m,
            None => {
                proof {
                    assert(false);
                }
                return Err(LoadRaceSplitsError::UserNotFound);
            },
        };
        let mut u = self.take_or_fresh(id, name);
        u.timer = master.timer;
        let l = u.eval_layout(now_ms);
        self.give_back(id, u, Ghost(pre));
        Ok(l)
    }

    /// The entrants command: a pure read. With no race it is a fixed sentence;
    /// during setup it lists every entrant's name with its readiness, in join
    /// order; in progress it lists the names alone. The result is a function
    /// of the state, so repeated calls with no mutation between them return
    /// the identical listing.
    pub fn entrants(&self) -> (r: Result<String, EntrantsError>)
        requires
            self.wf(),
        ensures
            r matches Ok(s) && s@ == entrants_text(*self),
    {
        match &self.race {
            Race::NoRace => Ok("There is no race!".to_owned()),
            Race::Setup(e) => {
                let n = e.len();
                let mut msg = String::new();
                let mut i: usize = 0;
                while i < n
                    invariant
                        self.wf(),
                        self.race matches Race::Setup(e2) && e2@ == e@,
                        n == e@.len(),
                        i <= n,
                        msg@ == setup_listing(self.users_view(), e@, i as int),
                    decreases n - i,
                {
                    let entry = e[i];
                    proof {
                        assert(race_ids(self.race)[i as int] == entry.0);
                    }
                    match self.users.get_cloned(entry.0) {
                        Some(u) => {
                            if i == 0 {
                                push_str(&mut msg, "Entrants: ");
                            } else {
                                push_str(&mut msg, ", ");
                            }
                            push_str(&mut msg, u.name.as_str());
                            if entry.1 {
                                push_str(&mut msg, " (Ready)");
                            } else {
                                push_str(&mut msg, " (Not Ready)");
                            }
                            proof {
                                assert(msg@ =~= setup_listing(
                                    self.users_view(),
                                    e@,
                                    i as int + 1,
                                ));
                            }
                        },
                        None => {
                            proof {
                                assert(false);
                            }
                            return Err(EntrantsError::UserNotFound);
                        },
                    }
                    i = i + 1;
                }
                Ok(msg)
            },
            Race::InProgress(ids) => {
                let n = ids.len();
                let mut msg = String::new();
                let mut i: usize = 0;
                while i < n
                    invariant
                        self.wf(),
                        self.race matches Race::InProgress(v2) && v2@ == ids@,
                        n == ids@.len(),
                        i <= n,
                        msg@ == progress_listing(self.users_view(), ids@, i as int),
                    decreases n - i,
                {
                    let eid = ids[i];
                    proof {
                        assert(race_ids(self.race)[i as int] == eid);
                    }
                    match self.users.get_cloned(eid) {
                        Some(u) => {
                            if i == 0 {
                                push_str(&mut msg, "Entrants: ");
                            } else {
                                push_str(&mut msg, ", ");
                            }
                            push_str(&mut msg, u.name.as_str());
                            proof {
                                assert(msg@ =~= progress_listing(
                                    self.users_view(),
                                    ids@,
                                    i as int + 1,
                                ));
                            }
                        },
                        None => {
                            proof {
                                assert(false);
                            }
                            return Err(EntrantsError::UserNotFound);
                        },
                    }
                    i = i + 1;
                }
                Ok(msg)
            },
        }
    }
}

} // verus!
