//! The ordered priority list of candidate actions: the first entry that
//! is ready and whose preconditions hold wins.

use crate::actor::action::Action;
use crate::actor::active_combos::ActiveCombos;
use crate::actor::recast_expirations::RecastExpirations;
use crate::sim::SimTime;
use vstd::prelude::*;

verus! {

/// A precondition on an entry, evaluated against the pending combo
/// markers.
pub trait Check {
    spec fn check_spec(&self, active_combos: Set<u32>) -> bool;

    fn check(&self, active_combos: &ActiveCombos) -> (r: bool)
        ensures
            r == self.check_spec(active_combos.spec_set()),
    ;
}

/// Holds when the given combo marker is pending.
#[derive(Copy, Clone, Debug)]
pub struct CheckCombo(pub u32);

impl Check for CheckCombo {
    open spec fn check_spec(&self, active_combos: Set<u32>) -> bool {
        active_combos.contains(self.0)
    }

    fn check(&self, active_combos: &ActiveCombos) -> (r: bool) {
        active_combos.has_action(&self.0)
    }
}

#[derive(Clone)]
pub struct RotationEntry {
    pub action_id: u32,
    pub ogcd: bool,
    pub conditions: Vec<CheckCombo>,
}

impl RotationEntry {
    pub fn new(action: &Action) -> (r: Self)
        ensures
            r.action_id == action.id,
            r.ogcd == action.ogcd,
            r.conditions@ == Seq::<CheckCombo>::empty(),
    {
        RotationEntry { action_id: action.id, ogcd: action.ogcd, conditions: Vec::new() }
    }

    pub fn with_condition(self, condition: CheckCombo) -> (r: Self)
        ensures
            r.action_id == self.action_id,
            r.ogcd == self.ogcd,
            r.conditions@ == self.conditions@.push(condition),
    {
        let mut s = self;
        s.conditions.push(condition);
        s
    }
}

impl Default for RotationEntry {
    fn default() -> (r: Self)
        ensures
            r.action_id == 0,
            !r.ogcd,
            r.conditions@ == Seq::<CheckCombo>::empty(),
    {
        RotationEntry { action_id: 0, ogcd: false, conditions: Vec::new() }
    }
}

/// An entry qualifies when its action is ready under the recast and
/// global-cooldown gates and every one of its preconditions holds.
pub open spec fn entry_eligible(
    entry: RotationEntry,
    recasts: RecastExpirations,
    combos: Set<u32>,
    sim_time: SimTime,
) -> bool {
    &&& recasts.ready_spec(entry.action_id, entry.ogcd, sim_time)
    &&& forall|k: int|
        0 <= k < entry.conditions@.len() ==> combos.contains((#[trigger] entry.conditions@[k]).0)
}

/// First match wins: the id of the first qualifying entry, or nothing
/// when no entry qualifies (an idle tick).
pub open spec fn next_action_spec(
    entries: Seq<RotationEntry>,
    recasts: RecastExpirations,
    combos: Set<u32>,
    sim_time: SimTime,
) -> Option<u32>
    decreases entries.len(),
{
    if entries.len() == 0 {
        None
    } else if entry_eligible(entries[0], recasts, combos, sim_time) {
        Some(entries[0].action_id)
    } else {
        next_action_spec(entries.drop_first(), recasts, combos, sim_time)
    }
}

pub struct Rotation(pub Vec<RotationEntry>);

impl Rotation {
    pub fn add(&mut self, entry: RotationEntry)
        ensures
            final(self).0@ == old(self).0@.push(entry),
    {
        self.0.push(entry);
    }

    /// Scan the list in declared order and return the first entry whose
    /// action is ready and whose preconditions all hold.
    pub fn get_next_action_id(
        &self,
        sim_time: SimTime,
        recast_expirations: &RecastExpirations,
        active_combos: &ActiveCombos,
    ) -> (r: Option<u32>)
        ensures
            r == next_action_spec(
                self.0@,
                *recast_expirations,
                active_combos.spec_set(),
                sim_time,
            ),
    {
        let ghost combos = active_combos.spec_set();
        let ghost full = next_action_spec(self.0@, *recast_expirations, combos, sim_time);
        proof {
            assert(self.0@.skip(0) =~= self.0@);
        }
        let mut i: usize = 0;
        while i < self.0.len()
            invariant
                i <= self.0@.len(),
                combos == active_combos.spec_set(),
                full == next_action_spec(self.0@, *recast_expirations, combos, sim_time),
                full == next_action_spec(
                    self.0@.skip(i as int),
                    *recast_expirations,
                    combos,
                    sim_time,
                ),
            decreases self.0@.len() - i,
        {
            let entry = &self.0[i];
            let ready = recast_expirations.check_ready(entry.action_id, entry.ogcd, sim_time);
            let mut all_hold = true;
            let mut k: usize = 0;
            while k < entry.conditions.len()
                invariant
                    k <= entry.conditions@.len(),
                    combos == active_combos.spec_set(),
                    all_hold == (forall|m: int|
                        0 <= m < k ==> combos.contains((#[trigger] entry.conditions@[m]).0)),
                decreases entry.conditions@.len() - k,
            {
                let holds = entry.conditions[k].check(active_combos);
                all_hold = all_hold && holds;
                k = k + 1;
            }
            proof {
                assert(self.0@.skip(i as int)[0] == self.0@[i as int]);
                assert((ready && all_hold) == entry_eligible(
                    self.0@[i as int],
                    *recast_expirations,
                    combos,
                    sim_time,
                ));
            }
            if ready && all_hold {
                return Some(entry.action_id);
            }
            proof {
                assert(self.0@.skip(i as int).drop_first() =~= self.0@.skip(i as int + 1));
            }
            i = i + 1;
        }
        None
    }
}

impl Default for Rotation {
    fn default() -> (r: Self)
        ensures
            r.0@ == Seq::<RotationEntry>::empty(),
    {
        Rotation(Vec::new())
    }
}

/// An action whose recast timer has not yet expired is never the chosen
/// one, whichever entries carry its id: every such entry fails the
/// readiness gate.
pub proof fn lemma_recast_blocks_selection(
    entries: Seq<RotationEntry>,
    recasts: RecastExpirations,
    combos: Set<u32>,
    id: u32,
    sim_time: SimTime,
)
    requires
        recasts.actions@.contains_key(id),
        sim_time < recasts.actions@[id],
    ensures
        next_action_spec(entries, recasts, combos, sim_time) != Some(id),
    decreases entries.len(),
{
    if entries.len() > 0 {
        if entry_eligible(entries[0], recasts, combos, sim_time) {
            assert(entries[0].action_id != id);
        } else {
            lemma_recast_blocks_selection(entries.drop_first(), recasts, combos, id, sim_time);
        }
    }
}

/// Once the recast has expired, an entry for the action is eligible
/// again as soon as no other gate blocks it: the global cooldown does
/// not bind it and its preconditions hold.
pub proof fn lemma_recast_expiry_restores(
    e: RotationEntry,
    recasts: RecastExpirations,
    combos: Set<u32>,
    sim_time: SimTime,
)
    requires
        recasts.actions@.contains_key(e.action_id) ==> recasts.actions@[e.action_id] <= sim_time,
        e.ogcd || recasts.gcd_expiration <= sim_time,
        forall|k: int|
            0 <= k < e.conditions@.len() ==> combos.contains((#[trigger] e.conditions@[k]).0),
    ensures
        entry_eligible(e, recasts, combos, sim_time),
{
}

/// Rotation priority is first-match-wins: with two entries of which only
/// the second qualifies, the second's action is chosen; with two entries
/// that both qualify, the first's action is chosen.
pub proof fn lemma_rotation_priority(
    a: RotationEntry,
    b: RotationEntry,
    recasts: RecastExpirations,
    combos: Set<u32>,
    sim_time: SimTime,
)
    ensures
        !entry_eligible(a, recasts, combos, sim_time) && entry_eligible(b, recasts, combos, sim_time)
            ==> next_action_spec(seq![a, b], recasts, combos, sim_time) == Some(b.action_id),
        entry_eligible(a, recasts, combos, sim_time) ==> next_action_spec(
            seq![a, b],
            recasts,
            combos,
            sim_time,
        ) == Some(a.action_id),
{
    let s = seq![a, b];
    assert(s.drop_first() =~= seq![b]);
    assert(seq![b].drop_first() =~= Seq::<RotationEntry>::empty());
    reveal_with_fuel(next_action_spec, 3);
}

} // verus!
