//! The closed set of effects that actions and statuses apply, and the
//! application of each against the world.

use crate::actor::active_combos::ActiveCombos;
use crate::actor::calc::{
    check_damage_inputs, damage_inputs_ok, direct_damage, direct_damage_spec, AttackType,
};
use crate::actor::stat::{SpecialStat, Stat};
use crate::actor::status_effect::status::{
    ModifySpecialStat, ModifyStat, SetCombo, Status, StatusFlag, StatusFlags,
};
use crate::actor::status_effect::{flag_expired_entry, StatusEffect};
use crate::actor::{actors_frame, wf_actors, Actor};
use crate::arith::{sat_add_u64, sat_i64, sat_u64};
use crate::sim::{SimRng, SimState, SimTime};
use vstd::prelude::*;

verus! {

/// Deals direct damage from the performer to the receiver.  If the
/// declared combo marker is pending on the performer, it is consumed and
/// the elevated combo potency is used instead of the base potency.
#[derive(Copy, Clone, Debug)]
pub struct DoDirectDamage {
    pub potency: i64,
    pub combo_action_id: Option<u32>,
    pub combo_potency: Option<i64>,
    pub attack_type: AttackType,
}

impl Default for DoDirectDamage {
    fn default() -> (r: Self)
        ensures
            r.potency == 0,
            r.combo_action_id is None,
            r.combo_potency is None,
            r.attack_type == AttackType::PHYSICAL,
    {
        DoDirectDamage {
            potency: 0,
            combo_action_id: None,
            combo_potency: None,
            attack_type: AttackType::PHYSICAL,
        }
    }
}

/// Starts the performer's action-specific recast timer.
#[derive(Copy, Clone, Debug)]
pub struct StartRecast {
    pub action_id: u32,
    pub duration: SimTime,
}

/// Grants a status, identified by its id in the world's status-definition
/// table, to the performer or to the receiver.
#[derive(Copy, Clone, Debug)]
pub struct GiveStatusEffect {
    pub status: u32,
    pub target_source: bool,
}

/// Starts the performer's global cooldown.
#[derive(Copy, Clone, Debug)]
pub struct StartGcd {
    pub base_duration: SimTime,
}

impl StartGcd {
    pub fn new(duration: SimTime) -> (r: Self)
        ensures
            r.base_duration == duration,
    {
        StartGcd { base_duration: duration }
    }
}

impl Default for StartGcd {
    fn default() -> (r: Self)
        ensures
            r.base_duration == 2500,
    {
        StartGcd::new(2500)
    }
}

/// Grants the performer a one-tick combo window for the given marker.
#[derive(Copy, Clone, Debug)]
pub struct ApplyCombo(pub u32);

/// One effect of the closed set.  Each is applied against the pair of the
/// performing actor and the receiving actor.
#[derive(Copy, Clone, Debug)]
pub enum Effect {
    DoDirectDamage(DoDirectDamage),
    StartRecast(StartRecast),
    GiveStatusEffect(GiveStatusEffect),
    StartGcd(StartGcd),
    ApplyCombo(ApplyCombo),
    ModifyStat(ModifyStat),
    ModifySpecialStat(ModifySpecialStat),
    SetCombo(SetCombo),
}

impl Effect {
    /// A direct-damage effect that declares a combo marker must also
    /// declare the elevated potency to use when that marker is consumed.
    pub open spec fn wf(self) -> bool {
        match self {
            Effect::DoDirectDamage(e) => e.combo_action_id is Some ==> e.combo_potency is Some,
            _ => true,
        }
    }
}

/// What `ModifyStat::apply` does to the arena.
pub open spec fn modify_stat_rel(e: ModifyStat, pre: Seq<Actor>, post: Seq<Actor>, target: int) -> bool {
    &&& post.len() == pre.len()
    &&& 0 <= target < pre.len()
    &&& forall|j: int| 0 <= j < pre.len() && j != target ==> post[j] == pre[j]
    &&& ({
        let a = post[target];
        let a0 = pre[target];
        &&& a.damage == a0.damage
        &&& a.recast_expirations == a0.recast_expirations
        &&& a.status_effects == a0.status_effects
        &&& a.active_combos == a0.active_combos
        &&& a.stats.delta_at(e.stat) == sat_i64(a0.stats.delta_at(e.stat) + e.amount)
        &&& forall|s: Stat| s != e.stat ==> a.stats.delta_at(s) == a0.stats.delta_at(s)
        &&& forall|s: Stat| a.stats.base_at(s) == a0.stats.base_at(s)
        &&& a.stats.special_spec() == a0.stats.special_spec()
    })
}

impl ModifyStat {
    /// Add the amount to the transient part of the receiver's stat.
    pub fn apply(&self, actors: &mut Vec<Actor>, target: usize)
        requires
            wf_actors(old(actors)@),
            target < old(actors)@.len(),
        ensures
            wf_actors(final(actors)@),
            actors_frame(old(actors)@, final(actors)@),
            modify_stat_rel(*self, old(actors)@, final(actors)@, target as int),
    {
        let a = &mut actors[target];
        a.stats.add(self.stat, self.amount);
    }
}

/// What `ModifySpecialStat::apply` does to the arena.
pub open spec fn modify_special_stat_rel(
    e: ModifySpecialStat,
    pre: Seq<Actor>,
    post: Seq<Actor>,
    target: int,
) -> bool {
    &&& post.len() == pre.len()
    &&& 0 <= target < pre.len()
    &&& forall|j: int| 0 <= j < pre.len() && j != target ==> post[j] == pre[j]
    &&& ({
        let a = post[target];
        let a0 = pre[target];
        &&& a.damage == a0.damage
        &&& a.recast_expirations == a0.recast_expirations
        &&& a.status_effects == a0.status_effects
        &&& a.active_combos == a0.active_combos
        &&& match e.stat {
            SpecialStat::CriticalHitPercentOverride => a.stats.special_spec() == Some(e.amount),
        }
        &&& forall|s: Stat| a.stats.delta_at(s) == a0.stats.delta_at(s)
        &&& forall|s: Stat| a.stats.base_at(s) == a0.stats.base_at(s)
    })
}

impl ModifySpecialStat {
    /// Set the receiver's transient special override.
    pub fn apply(&self, actors: &mut Vec<Actor>, target: usize)
        requires
            wf_actors(old(actors)@),
            target < old(actors)@.len(),
        ensures
            wf_actors(final(actors)@),
            actors_frame(old(actors)@, final(actors)@),
            modify_special_stat_rel(*self, old(actors)@, final(actors)@, target as int),
    {
        let a = &mut actors[target];
        a.stats.set_special(self.stat, self.amount);
    }
}

/// What `SetCombo::apply` does to the arena.
pub open spec fn set_combo_rel(e: SetCombo, pre: Seq<Actor>, post: Seq<Actor>, source: int) -> bool {
    &&& post.len() == pre.len()
    &&& 0 <= source < pre.len()
    &&& forall|j: int| 0 <= j < pre.len() && j != source ==> post[j] == pre[j]
    &&& ({
        let a = post[source];
        let a0 = pre[source];
        &&& a.damage == a0.damage
        &&& a.recast_expirations == a0.recast_expirations
        &&& a.status_effects == a0.status_effects
        &&& a.stats == a0.stats
        &&& a.active_combos.spec_set() == a0.active_combos.spec_set().insert(e.0)
    })
}

impl SetCombo {
    /// Add the pending combo marker on the performer.
    pub fn apply(&self, actors: &mut Vec<Actor>, source: usize)
        requires
            wf_actors(old(actors)@),
            source < old(actors)@.len(),
        ensures
            wf_actors(final(actors)@),
            actors_frame(old(actors)@, final(actors)@),
            set_combo_rel(*self, old(actors)@, final(actors)@, source as int),
    {
        let a = &mut actors[source];
        a.active_combos.add_action(self.0);
    }
}

/// What `StartRecast::apply` does to the arena at time `now`.
pub open spec fn start_recast_rel(
    e: StartRecast,
    now: SimTime,
    pre: Seq<Actor>,
    post: Seq<Actor>,
    source: int,
) -> bool {
    &&& post.len() == pre.len()
    &&& 0 <= source < pre.len()
    &&& forall|j: int| 0 <= j < pre.len() && j != source ==> post[j] == pre[j]
    &&& ({
        let a = post[source];
        let a0 = pre[source];
        &&& a.damage == a0.damage
        &&& a.status_effects == a0.status_effects
        &&& a.stats == a0.stats
        &&& a.active_combos == a0.active_combos
        &&& a.recast_expirations.actions@ == a0.recast_expirations.actions@.insert(
            e.action_id,
            sat_u64(now + e.duration) as u64,
        )
        &&& a.recast_expirations.gcd_expiration == a0.recast_expirations.gcd_expiration
    })
}

impl StartRecast {
    /// Start the performer's recast timer for the action: it expires at
    /// the current time plus the declared duration.
    pub fn apply<R: SimRng>(&self, sim: &SimState<R>, actors: &mut Vec<Actor>, source: usize)
        requires
            wf_actors(old(actors)@),
            source < old(actors)@.len(),
        ensures
            wf_actors(final(actors)@),
            actors_frame(old(actors)@, final(actors)@),
            start_recast_rel(
                *self,
                sim.milliseconds,
                old(actors)@,
                final(actors)@,
                source as int,
            ),
    {
        let expiration = sat_add_u64(sim.now(), self.duration);
        let a = &mut actors[source];
        a.recast_expirations.set(self.action_id, expiration);
    }
}

/// What `StartGcd::apply` does to the arena at time `now`.
pub open spec fn start_gcd_rel(
    e: StartGcd,
    now: SimTime,
    pre: Seq<Actor>,
    post: Seq<Actor>,
    source: int,
) -> bool {
    &&& post.len() == pre.len()
    &&& 0 <= source < pre.len()
    &&& forall|j: int| 0 <= j < pre.len() && j != source ==> post[j] == pre[j]
    &&& ({
        let a = post[source];
        let a0 = pre[source];
        &&& a.damage == a0.damage
        &&& a.status_effects == a0.status_effects
        &&& a.stats == a0.stats
        &&& a.active_combos == a0.active_combos
        &&& a.recast_expirations.actions@ == a0.recast_expirations.actions@
        &&& a.recast_expirations.gcd_expiration == sat_u64(now + e.base_duration)
    })
}

impl StartGcd {
    /// Start the performer's global cooldown: it expires at the current
    /// time plus the base duration.
    pub fn apply<R: SimRng>(&self, sim: &SimState<R>, actors: &mut Vec<Actor>, source: usize)
        requires
            wf_actors(old(actors)@),
            source < old(actors)@.len(),
        ensures
            wf_actors(final(actors)@),
            actors_frame(old(actors)@, final(actors)@),
            start_gcd_rel(*self, sim.milliseconds, old(actors)@, final(actors)@, source as int),
    {
        let expiration = sat_add_u64(sim.now(), self.base_duration);
        let a = &mut actors[source];
        a.recast_expirations.set_gcd(expiration);
    }
}

/// The status that a combo grant carries: it lives one cleanup window,
/// leaves early when its holder deals direct damage, and re-arms the
/// combo marker on every tick it survives.
pub open spec fn combo_status_spec(st: Status, combo_id: u32) -> bool {
    &&& st.duration == 15000
    &&& st.effects@ == seq![Effect::SetCombo(SetCombo(combo_id))]
    &&& st.flags.0@ == seq![StatusFlag::ExpireOnDirectDamage]
}

/// What `ApplyCombo::apply` does to the arena at time `now`.
pub open spec fn apply_combo_rel(
    e: ApplyCombo,
    now: SimTime,
    pre: Seq<Actor>,
    post: Seq<Actor>,
    source: int,
) -> bool {
    &&& post.len() == pre.len()
    &&& 0 <= source < pre.len()
    &&& forall|j: int| 0 <= j < pre.len() && j != source ==> post[j] == pre[j]
    &&& ({
        let a = post[source];
        let a0 = pre[source];
        &&& a.damage == a0.damage
        &&& a.recast_expirations == a0.recast_expirations
        &&& a.stats == a0.stats
        &&& a.active_combos == a0.active_combos
        &&& a.status_effects.0@.len() == a0.status_effects.0@.len() + 1
        &&& forall|i: int|
            0 <= i < a0.status_effects.0@.len() ==> a.status_effects.0@[i]
                == a0.status_effects.0@[i]
        &&& ({
            let granted = a.status_effects.0@.last();
            &&& granted.expiration == sat_u64(now + 15000)
            &&& granted.source == source
            &&& !granted.force_expired
            &&& combo_status_spec(granted.status, e.0)
        })
    })
}

impl ApplyCombo {
    /// Grant the performer the pending-combo status for this marker.
    pub fn apply<R: SimRng>(&self, sim: &SimState<R>, actors: &mut Vec<Actor>, source: usize)
        requires
            wf_actors(old(actors)@),
            source < old(actors)@.len(),
        ensures
            wf_actors(final(actors)@),
            actors_frame(old(actors)@, final(actors)@),
            apply_combo_rel(*self, sim.milliseconds, old(actors)@, final(actors)@, source as int),
    {
        let mut flag_vec: Vec<StatusFlag> = Vec::new();
        flag_vec.push(StatusFlag::ExpireOnDirectDamage);
        let mut effect_vec: Vec<Effect> = Vec::new();
        effect_vec.push(Effect::SetCombo(SetCombo(self.0)));
        proof {
            assert(flag_vec@ =~= seq![StatusFlag::ExpireOnDirectDamage]);
            assert(effect_vec@ =~= seq![Effect::SetCombo(SetCombo(self.0))]);
        }
        let set_combo = Status {
            name: combo_name(),
            duration: 15000,
            flags: StatusFlags(flag_vec),
            effects: effect_vec,
        };
        let entry = StatusEffect::new(set_combo, source, sim.now());
        let a = &mut actors[source];
        a.status_effects.add(entry);
    }
}

/// Setup consistency of the world's status-definition table.
pub open spec fn wf_defs(defs: Seq<Status>) -> bool {
    forall|i: int| 0 <= i < defs.len() ==> (#[trigger] defs[i]).wf()
}

/// What `GiveStatusEffect::apply` does to the arena at time `now`,
/// against the definition table.
pub open spec fn give_status_rel(
    e: GiveStatusEffect,
    now: SimTime,
    defs: Seq<Status>,
    pre: Seq<Actor>,
    post: Seq<Actor>,
    source: int,
    target: int,
) -> bool {
    &&& post.len() == pre.len()
    &&& 0 <= source < pre.len()
    &&& 0 <= target < pre.len()
    &&& ({
        let receiver: int = if e.target_source {
            source
        } else {
            target
        };
        if e.status < defs.len() {
            &&& forall|j: int| 0 <= j < pre.len() && j != receiver ==> post[j] == pre[j]
            &&& ({
                let a = post[receiver];
                let a0 = pre[receiver];
                &&& a.damage == a0.damage
                &&& a.recast_expirations == a0.recast_expirations
                &&& a.stats == a0.stats
                &&& a.active_combos == a0.active_combos
                &&& a.status_effects.0@.len() == a0.status_effects.0@.len() + 1
                &&& forall|i: int|
                    0 <= i < a0.status_effects.0@.len() ==> a.status_effects.0@[i]
                        == a0.status_effects.0@[i]
                &&& ({
                    let granted = a.status_effects.0@.last();
                    &&& granted.expiration == sat_u64(now + defs[e.status as int].duration)
                    &&& granted.source == source
                    &&& !granted.force_expired
                    &&& granted.status.equiv(defs[e.status as int])
                })
            })
        } else {
            post == pre
        }
    })
}

impl GiveStatusEffect {
    /// Grant the referenced status to the performer or the receiver,
    /// stamped with the current time plus the definition's duration.  A
    /// reference to no definition is a configuration error and is
    /// silently skipped.
    pub fn apply<R: SimRng>(
        &self,
        sim: &SimState<R>,
        status_defs: &Vec<Status>,
        actors: &mut Vec<Actor>,
        source: usize,
        target: usize,
    )
        requires
            wf_actors(old(actors)@),
            wf_defs(status_defs@),
            source < old(actors)@.len(),
            target < old(actors)@.len(),
        ensures
            wf_actors(final(actors)@),
            actors_frame(old(actors)@, final(actors)@),
            give_status_rel(
                *self,
                sim.milliseconds,
                status_defs@,
                old(actors)@,
                final(actors)@,
                source as int,
                target as int,
            ),
    {
        let receiver = if self.target_source {
            source
        } else {
            target
        };
        let idx = self.status as usize;
        if idx < status_defs.len() {
            let st = status_defs[idx].duplicate();
            let entry = StatusEffect::new(st, source, sim.now());
            let a = &mut actors[receiver];
            a.status_effects.add(entry);
        }
    }
}

/// Whether a direct-damage effect finds its declared combo marker
/// pending.
pub open spec fn combo_consumed_spec(e: DoDirectDamage, combos: Set<u32>) -> bool {
    match e.combo_action_id {
        Some(id) => combos.contains(id),
        None => false,
    }
}

/// The potency the damage pipeline runs on: the elevated combo potency
/// exactly when the marker is consumed, the base potency otherwise.
pub open spec fn used_potency_spec(e: DoDirectDamage, combos: Set<u32>) -> int {
    if combo_consumed_spec(e, combos) {
        match e.combo_potency {
            Some(p) => p as int,
            None => 0,
        }
    } else {
        e.potency as int
    }
}

/// The pending markers after the combo decision: the declared marker is
/// removed exactly when it was consumed.
pub open spec fn combos_after_spec(e: DoDirectDamage, combos: Set<u32>) -> Set<u32> {
    if combo_consumed_spec(e, combos) {
        match e.combo_action_id {
            Some(id) => combos.remove(id),
            None => combos,
        }
    } else {
        combos
    }
}

/// Combo consumption is exactly-once: with the marker pending, the first
/// decision consumes it, and a second decision on the resulting marker
/// set no longer finds it.
pub proof fn lemma_combo_consumed_once(e: DoDirectDamage, combos: Set<u32>, k: u32)
    requires
        e.combo_action_id == Some(k),
        combos.contains(k),
    ensures
        combo_consumed_spec(e, combos),
        combos_after_spec(e, combos) == combos.remove(k),
        !combo_consumed_spec(e, combos_after_spec(e, combos)),
        combos_after_spec(e, combos_after_spec(e, combos)) == combos_after_spec(e, combos),
{
}

/// What a successful `DoDirectDamage::apply` does to the arena: the
/// combo is decided on the performer, the damage — the pipeline run on
/// the performer's stats and the decided potency, for some admissible
/// rolls — is added to the receiver's counter, and the performer's
/// on-direct-damage statuses are force-expired.
pub open spec fn do_direct_damage_rel(
    e: DoDirectDamage,
    pre: Seq<Actor>,
    post: Seq<Actor>,
    source: int,
    target: int,
) -> bool {
    &&& post.len() == pre.len()
    &&& 0 <= source < pre.len()
    &&& 0 <= target < pre.len()
    &&& ({
        let s0 = pre[source];
        let combos0 = s0.active_combos.spec_set();
        let used = used_potency_spec(e, combos0);
        &&& damage_inputs_ok(used, s0.job, s0.stats)
        &&& forall|j: int| 0 <= j < pre.len() && j != source && j != target ==> post[j] == pre[j]
        &&& ({
            let sa = post[source];
            &&& sa.active_combos.spec_set() == combos_after_spec(e, combos0)
            &&& sa.status_effects.0@.len() == s0.status_effects.0@.len()
            &&& forall|i: int|
                0 <= i < s0.status_effects.0@.len() ==> flag_expired_entry(
                    s0.status_effects.0@[i],
                    #[trigger] sa.status_effects.0@[i],
                    StatusFlag::ExpireOnDirectDamage,
                )
            &&& sa.recast_expirations == s0.recast_expirations
            &&& sa.stats == s0.stats
        })
        &&& (source != target ==> post[source].damage == s0.damage)
        &&& (source != target ==> ({
            let ta = post[target];
            let t0 = pre[target];
            &&& ta.active_combos == t0.active_combos
            &&& ta.status_effects == t0.status_effects
            &&& ta.recast_expirations == t0.recast_expirations
            &&& ta.stats == t0.stats
        }))
        &&& exists|c: int, d: int, v: int|
            0 <= c < 1000 && 0 <= d < 1000 && 95 <= v < 106 && post[target].damage.0 == sat_i64(
                pre[target].damage.0 + direct_damage_spec(
                    used,
                    s0.job,
                    s0.stats,
                    e.attack_type,
                    c,
                    d,
                    v,
                    Seq::<u32>::empty(),
                ),
            )
    })
}

impl DoDirectDamage {
    /// Decide the combo: if the declared marker is pending, remove it
    /// and report that the elevated potency applies.
    pub fn consume_combo(&self, active_combos: &mut ActiveCombos) -> (r: bool)
        ensures
            r == combo_consumed_spec(*self, old(active_combos).spec_set()),
            final(active_combos).spec_set() == combos_after_spec(
                *self,
                old(active_combos).spec_set(),
            ),
    {
        if let Some(action_id) = self.combo_action_id {
            if active_combos.has_action(&action_id) {
                active_combos.remove_action(&action_id);
                return true;
            }
        }
        false
    }

    /// Deal the damage: decide the combo on the performer, run the
    /// pipeline on the performer's stats, expire the performer's
    /// on-direct-damage statuses, and add the result to the receiver's
    /// damage counter.  Inputs outside the pipeline's domain are a setup
    /// inconsistency: nothing is changed and the error is returned.
    pub fn apply<R: SimRng>(
        &self,
        sim: &SimState<R>,
        actors: &mut Vec<Actor>,
        source: usize,
        target: usize,
    ) -> (res: Result<(), SimError>)
        requires
            wf_actors(old(actors)@),
            source < old(actors)@.len(),
            target < old(actors)@.len(),
            self.combo_action_id is Some ==> self.combo_potency is Some,
        ensures
            wf_actors(final(actors)@),
            actors_frame(old(actors)@, final(actors)@),
            ({
                let s0 = old(actors)@[source as int];
                let used = used_potency_spec(*self, s0.active_combos.spec_set());
                res is Err ==> final(actors)@ == old(actors)@ && !damage_inputs_ok(
                    used,
                    s0.job,
                    s0.stats,
                )
            }),
            res is Ok ==> do_direct_damage_rel(
                *self,
                old(actors)@,
                final(actors)@,
                source as int,
                target as int,
            ),
    {
        let will_consume = match self.combo_action_id {
            Some(id) => actors[source].active_combos.has_action(&id),
            None => false,
        };
        let potency = if will_consume {
            match self.combo_potency {
                Some(p) => p,
                None => 0,
            }
        } else {
            self.potency
        };
        let inputs_ok = {
            let src = &actors[source];
            check_damage_inputs(potency, src.job, &src.stats)
        };
        if !inputs_ok {
            return Err(SimError::DamageOutOfRange);
        }
        {
            let a = &mut actors[source];
            self.consume_combo(&mut a.active_combos);
        }
        let dmg = {
            let src = &actors[source];
            direct_damage(sim, potency, src.job, &src.stats, self.attack_type, Vec::new())
        };
        {
            let a = &mut actors[source];
            a.status_effects.expire_with_flag(StatusFlag::ExpireOnDirectDamage);
        }
        {
            let a = &mut actors[target];
            a.damage.add(dmg);
        }
        proof {
            let s0 = old(actors)@[source as int];
            let combos0 = s0.active_combos.spec_set();
            let used = used_potency_spec(*self, combos0);
            assert(potency as int == used);
            let (c, d, v) = choose|c: int, d: int, v: int|
                0 <= c < 1000 && 0 <= d < 1000 && 95 <= v < 106 && dmg as int
                    == direct_damage_spec(
                    potency as int,
                    s0.job,
                    s0.stats,
                    self.attack_type,
                    c,
                    d,
                    v,
                    Seq::<u32>::empty(),
                );
            assert(final(actors)@[target as int].damage.0 == sat_i64(
                old(actors)@[target as int].damage.0 + direct_damage_spec(
                    used,
                    s0.job,
                    s0.stats,
                    self.attack_type,
                    c,
                    d,
                    v,
                    Seq::<u32>::empty(),
                ),
            ));
        }
        Ok(())
    }
}

/// What applying one effect does to the arena, by kind.
pub open spec fn effect_rel(
    e: Effect,
    now: SimTime,
    defs: Seq<Status>,
    pre: Seq<Actor>,
    post: Seq<Actor>,
    source: int,
    target: int,
) -> bool {
    match e {
        Effect::DoDirectDamage(x) => do_direct_damage_rel(x, pre, post, source, target),
        Effect::StartRecast(x) => start_recast_rel(x, now, pre, post, source),
        Effect::GiveStatusEffect(x) => give_status_rel(x, now, defs, pre, post, source, target),
        Effect::StartGcd(x) => start_gcd_rel(x, now, pre, post, source),
        Effect::ApplyCombo(x) => apply_combo_rel(x, now, pre, post, source),
        Effect::ModifyStat(x) => modify_stat_rel(x, pre, post, target),
        Effect::ModifySpecialStat(x) => modify_special_stat_rel(x, pre, post, target),
        Effect::SetCombo(x) => set_combo_rel(x, pre, post, source),
    }
}

/// Applying a list of effects sequentially, in declared order: each
/// step's resulting arena feeds the next step.
pub open spec fn effects_rel(
    effects: Seq<Effect>,
    now: SimTime,
    defs: Seq<Status>,
    pre: Seq<Actor>,
    post: Seq<Actor>,
    source: int,
    target: int,
) -> bool
    decreases effects.len(),
{
    if effects.len() == 0 {
        post == pre
    } else {
        exists|mid: Seq<Actor>|
            #[trigger] effect_rel(effects[0], now, defs, pre, mid, source, target) && effects_rel(
                effects.drop_first(),
                now,
                defs,
                mid,
                post,
                source,
                target,
            )
    }
}

/// A failing effect: only direct damage can fail, and it fails exactly
/// when the performer's decided potency, job or stats leave the
/// formula's domain.
pub open spec fn effect_fails(e: Effect, arena: Seq<Actor>, source: int) -> bool {
    match e {
        Effect::DoDirectDamage(x) => 0 <= source < arena.len() && !damage_inputs_ok(
            used_potency_spec(x, arena[source].active_combos.spec_set()),
            arena[source].job,
            arena[source].stats,
        ),
        _ => false,
    }
}

/// A failed run of an effect list: some prefix applied in order, then
/// the next effect's damage inputs failed the check, and nothing
/// further ran.
pub open spec fn effects_err_rel(
    effects: Seq<Effect>,
    now: SimTime,
    defs: Seq<Status>,
    pre: Seq<Actor>,
    post: Seq<Actor>,
    source: int,
    target: int,
) -> bool {
    exists|k: int, mid: Seq<Actor>|
        0 <= k < effects.len() && #[trigger] effects_rel(
            effects.take(k),
            now,
            defs,
            pre,
            mid,
            source,
            target,
        ) && effect_fails(effects[k], mid, source) && post == mid
}

/// Extending an applied list by one more applied effect.
pub proof fn lemma_effects_rel_snoc(
    effects: Seq<Effect>,
    e: Effect,
    now: SimTime,
    defs: Seq<Status>,
    pre: Seq<Actor>,
    mid: Seq<Actor>,
    post: Seq<Actor>,
    source: int,
    target: int,
)
    requires
        effects_rel(effects, now, defs, pre, mid, source, target),
        effect_rel(e, now, defs, mid, post, source, target),
    ensures
        effects_rel(effects.push(e), now, defs, pre, post, source, target),
    decreases effects.len(),
{
    if effects.len() == 0 {
        assert(mid == pre);
        assert(effects.push(e)[0] == e);
        assert(effects.push(e).drop_first() =~= Seq::<Effect>::empty());
        assert(effect_rel(e, now, defs, pre, post, source, target));
        assert(effects_rel(
            effects.push(e).drop_first(),
            now,
            defs,
            post,
            post,
            source,
            target,
        ));
    } else {
        let m1 = choose|m: Seq<Actor>|
            #[trigger] effect_rel(effects[0], now, defs, pre, m, source, target) && effects_rel(
                effects.drop_first(),
                now,
                defs,
                m,
                mid,
                source,
                target,
            );
        lemma_effects_rel_snoc(
            effects.drop_first(),
            e,
            now,
            defs,
            m1,
            mid,
            post,
            source,
            target,
        );
        assert(effects.push(e)[0] == effects[0]);
        assert(effects.push(e).drop_first() =~= effects.drop_first().push(e));
        assert(effect_rel(effects.push(e)[0], now, defs, pre, m1, source, target));
        assert(effects_rel(effects.push(e).drop_first(), now, defs, m1, post, source, target));
    }
}

impl Effect {
    /// Apply one effect with `source` as the performing actor and
    /// `target` as the receiving actor.
    pub fn apply<R: SimRng>(
        &self,
        sim: &SimState<R>,
        status_defs: &Vec<Status>,
        actors: &mut Vec<Actor>,
        source: usize,
        target: usize,
    ) -> (res: Result<(), SimError>)
        requires
            wf_actors(old(actors)@),
            wf_defs(status_defs@),
            source < old(actors)@.len(),
            target < old(actors)@.len(),
            self.wf(),
        ensures
            wf_actors(final(actors)@),
            actors_frame(old(actors)@, final(actors)@),
            res is Err ==> final(actors)@ == old(actors)@ && effect_fails(
                *self,
                old(actors)@,
                source as int,
            ),
            res is Ok ==> effect_rel(
                *self,
                sim.milliseconds,
                status_defs@,
                old(actors)@,
                final(actors)@,
                source as int,
                target as int,
            ),
    {
        match self {
            Effect::DoDirectDamage(e) => e.apply(sim, actors, source, target),
            Effect::StartRecast(e) => {
                e.apply(sim, actors, source);
                Ok(())
            },
            Effect::GiveStatusEffect(e) => {
                e.apply(sim, status_defs, actors, source, target);
                Ok(())
            },
            Effect::StartGcd(e) => {
                e.apply(sim, actors, source);
                Ok(())
            },
            Effect::ApplyCombo(e) => {
                e.apply(sim, actors, source);
                Ok(())
            },
            Effect::ModifyStat(e) => {
                e.apply(actors, target);
                Ok(())
            },
            Effect::ModifySpecialStat(e) => {
                e.apply(actors, target);
                Ok(())
            },
            Effect::SetCombo(e) => {
                e.apply(actors, source);
                Ok(())
            },
        }
    }
}

impl StatusEffect {
    /// Apply the status's effect list, in declared order, with the
    /// granting actor as performer and the holder as receiver.  A setup
    /// error stops the list and is handed up.
    pub fn apply<R: SimRng>(
        &self,
        sim: &SimState<R>,
        status_defs: &Vec<Status>,
        actors: &mut Vec<Actor>,
        source: usize,
        target: usize,
    ) -> (res: Result<(), SimError>)
        requires
            wf_actors(old(actors)@),
            wf_defs(status_defs@),
            source < old(actors)@.len(),
            target < old(actors)@.len(),
            self.status.wf(),
        ensures
            wf_actors(final(actors)@),
            actors_frame(old(actors)@, final(actors)@),
            res is Ok ==> effects_rel(
                self.status.effects@,
                sim.milliseconds,
                status_defs@,
                old(actors)@,
                final(actors)@,
                source as int,
                target as int,
            ),
            res is Err ==> effects_err_rel(
                self.status.effects@,
                sim.milliseconds,
                status_defs@,
                old(actors)@,
                final(actors)@,
                source as int,
                target as int,
            ),
    {
        let ghost orig = actors@;
        proof {
            assert(self.status.effects@.take(0) =~= Seq::<Effect>::empty());
        }
        let mut i: usize = 0;
        while i < self.status.effects.len()
            invariant
                orig == old(actors)@,
                wf_defs(status_defs@),
                wf_actors(actors@),
                actors_frame(orig, actors@),
                source < actors@.len(),
                target < actors@.len(),
                self.status.wf(),
                i <= self.status.effects@.len(),
                effects_rel(
                    self.status.effects@.take(i as int),
                    sim.milliseconds,
                    status_defs@,
                    orig,
                    actors@,
                    source as int,
                    target as int,
                ),
            decreases self.status.effects@.len() - i,
        {
            let e = self.status.effects[i];
            let ghost pre = actors@;
            let r = e.apply(sim, status_defs, actors, source, target);
            proof {
                crate::actor::lemma_actors_frame_trans(orig, pre, actors@);
            }
            if let Err(err) = r {
                proof {
                    assert(effects_rel(
                        self.status.effects@.take(i as int),
                        sim.milliseconds,
                        status_defs@,
                        orig,
                        actors@,
                        source as int,
                        target as int,
                    ));
                    assert(effect_fails(self.status.effects@[i as int], actors@, source as int));
                }
                return Err(err);
            }
            proof {
                lemma_effects_rel_snoc(
                    self.status.effects@.take(i as int),
                    e,
                    sim.milliseconds,
                    status_defs@,
                    orig,
                    pre,
                    actors@,
                    source as int,
                    target as int,
                );
                assert(self.status.effects@.take(i as int).push(e) =~= self.status.effects@.take(
                    i as int + 1,
                ));
            }
            i = i + 1;
        }
        proof {
            assert(self.status.effects@.take(self.status.effects@.len() as int)
                =~= self.status.effects@);
        }
        Ok(())
    }
}

/// The display name given to a combo-window status.
fn combo_name() -> (r: String) {
    let s: &str = "Combo";
    s.to_owned()
}

/// A verified elementwise copy of an effect list.
pub fn copy_effects(v: &Vec<Effect>) -> (r: Vec<Effect>)
    ensures
        r@ == v@,
{
    let mut out: Vec<Effect> = Vec::new();
    let mut i: usize = 0;
    while i < v.len()
        invariant
            i <= v@.len(),
            out@ == v@.take(i as int),
        decreases v@.len() - i,
    {
        proof {
            assert(v@.take(i + 1) =~= v@.take(i as int).push(v@[i as int]));
        }
        out.push(v[i]);
        i = i + 1;
    }
    proof {
        assert(v@.take(v@.len() as int) =~= v@);
    }
    out
}

/// An unrecoverable setup inconsistency found while applying an effect;
/// the run terminates on it.
#[derive(PartialEq, Eq, Structural, Copy, Clone, Debug)]
pub enum SimError {
    /// Damage was to be dealt by an actor whose job is unknown or whose
    /// stats or potency are outside the range the formula is defined on.
    DamageOutOfRange,
}

} // verus!
