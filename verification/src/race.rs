//! The race value: a single shared state machine that is either inactive, in
//! setup with an ordered entrant list, or in progress.

use vstd::prelude::*;

verus! {

/// The shared race state. In `Setup`, each entrant is a user id with its
/// readiness flag, in join order; in `InProgress`, readiness is no longer
/// tracked and only the frozen entrant order remains.
pub enum Race {
    NoRace,
    Setup(Vec<(u64, bool)>),
    InProgress(Vec<u64>),
}

/// The ids of an entrant list, in join order.
pub open spec fn entrant_ids(e: Seq<(u64, bool)>) -> Seq<u64> {
    e.map_values(|p: (u64, bool)| p.0)
}

/// No id occurs twice.
pub open spec fn distinct_ids(ids: Seq<u64>) -> bool {
    forall|i: int, j: int| 0 <= i < j < ids.len() ==> ids[i] != ids[j]
}

/// Every entrant of a setup-state list is ready.
pub open spec fn all_entrants_ready(e: Seq<(u64, bool)>) -> bool {
    forall|i: int| 0 <= i < e.len() ==> e[i].1
}

/// The ids the race currently involves, in order.
pub open spec fn race_ids(r: Race) -> Seq<u64> {
    match r {
        Race::NoRace => Seq::empty(),
        Race::Setup(e) => entrant_ids(e@),
        Race::InProgress(ids) => ids@,
    }
}

/// A well-formed race never lists an id twice, and an active race has at
/// least one entrant (a race is created by its first entrant).
pub open spec fn race_wf(r: Race) -> bool {
    &&& distinct_ids(race_ids(r))
    &&& (match r {
        Race::NoRace => true,
        Race::Setup(e) => e@.len() >= 1,
        Race::InProgress(ids) => ids@.len() >= 1,
    })
}

/// Find an entrant by id, returning the first position that holds it.
pub fn find_entrant(e: &Vec<(u64, bool)>, id: u64) -> (r: Option<usize>)
    ensures
        match r {
            Some(i) => i < e@.len() && e@[i as int].0 == id,
            None => forall|i: int| 0 <= i < e@.len() ==> e@[i].0 != id,
        },
{
    let n = e.len();
    let mut i: usize = 0;
    while i < n
        invariant
            n == e@.len(),
            i <= n,
            forall|k: int| 0 <= k < i ==> e@[k].0 != id,
        decreases n - i,
    {
        if e[i].0 == id {
            return Some(i);
        }
        i = i + 1;
    }
    None
}

/// Whether every entrant is ready.
pub fn entrants_all_ready(e: &Vec<(u64, bool)>) -> (r: bool)
    ensures
        r == all_entrants_ready(e@),
{
    let n = e.len();
    let mut i: usize = 0;
    while i < n
        invariant
            n == e@.len(),
            i <= n,
            forall|k: int| 0 <= k < i ==> e@[k].1,
        decreases n - i,
    {
        if !e[i].1 {
            return false;
        }
        i = i + 1;
    }
    true
}

/// Copy the ids out of an entrant list, keeping the join order.
pub fn collect_ids(e: &Vec<(u64, bool)>) -> (ids: Vec<u64>)
    ensures
        ids@ == entrant_ids(e@),
{
    let n = e.len();
    let mut ids: Vec<u64> = Vec::new();
    let mut i: usize = 0;
    while i < n
        invariant
            n == e@.len(),
            i <= n,
            ids@.len() == i,
            forall|k: int| 0 <= k < i ==> ids@[k] == e@[k].0,
        decreases n - i,
    {
        ids.push(e[i].0);
        i = i + 1;
    }
    assert(ids@ =~= entrant_ids(e@));
    ids
}

} // verus!
