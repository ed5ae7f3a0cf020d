//! The actor aggregate and its component state.

pub mod action;
pub mod active_combos;
pub mod apply;
pub mod calc;
pub mod damage;
pub mod gcd;
pub mod recast_expirations;
pub mod rotation;
pub mod stat;
pub mod status_effect;

use action::Actions;
use active_combos::ActiveCombos;
use calc::lookup::Job;
use damage::Damage;
use recast_expirations::RecastExpirations;
use rotation::Rotation;
use stat::Stats;
use status_effect::StatusEffects;
use vstd::prelude::*;

verus! {

/// Marker for the one actor that receives the source actors' offensive
/// actions.
pub struct Target {}

impl Default for Target {
    fn default() -> (r: Self) {
        Target {  }
    }
}

/// One participant of the simulation, owning all of its component
/// state.  Actors are created at setup time and live for the whole run.
pub struct Actor {
    pub job: Job,
    pub actions: Actions,
    pub rotation: Rotation,
    pub recast_expirations: RecastExpirations,
    pub damage: Damage,
    pub status_effects: StatusEffects,
    pub stats: Stats,
    pub active_combos: ActiveCombos,
    /// Present on the one actor that receives offensive actions.
    pub target: Option<Target>,
}

impl Actor {
    /// Setup consistency: the stat tables are complete, and every effect
    /// reachable from the catalog or the status ledger is well-formed.
    pub open spec fn wf(self) -> bool {
        &&& self.stats.wf()
        &&& forall|k: u32|
            self.actions.0@.contains_key(k) ==> (#[trigger] self.actions.0@[k]).wf()
        &&& forall|i: int|
            0 <= i < self.status_effects.0@.len() ==> (
            #[trigger] self.status_effects.0@[i]).status.wf()
    }

    pub open spec fn is_target(self) -> bool {
        self.target is Some
    }

    /// A fresh actor of the given job with empty component state.
    pub fn new(job: Job) -> (r: Actor)
        ensures
            r.wf(),
            r.job == job,
            r.actions.0@ == Map::<u32, action::Action>::empty(),
            r.rotation.0@ == Seq::<rotation::RotationEntry>::empty(),
            r.recast_expirations.actions@ == Map::<u32, crate::sim::SimTime>::empty(),
            r.recast_expirations.gcd_expiration == 0,
            r.damage.0 == 0,
            r.status_effects.0@ == Seq::<status_effect::StatusEffect>::empty(),
            forall|s: stat::Stat| r.stats.base_at(s) == 0 && r.stats.delta_at(s) == 0,
            r.stats.special_spec() is None,
            r.active_combos.spec_set() == Set::<u32>::empty(),
            !r.is_target(),
    {
        Actor {
            job,
            actions: Actions::default(),
            rotation: Rotation::default(),
            recast_expirations: RecastExpirations::default(),
            damage: Damage::default(),
            status_effects: StatusEffects::default(),
            stats: Stats::new(),
            active_combos: ActiveCombos::default(),
            target: None,
        }
    }
}

/// What every effect application leaves untouched on every actor: the
/// definitions (job, catalog, rotation), the target marker, and the
/// permanent part of the stats.
pub open spec fn actor_frame(a0: Actor, a: Actor) -> bool {
    &&& a.job == a0.job
    &&& a.actions == a0.actions
    &&& a.rotation == a0.rotation
    &&& a.target == a0.target
    &&& a.stats.base == a0.stats.base
}

/// `actor_frame` across a whole actor arena.
pub open spec fn actors_frame(pre: Seq<Actor>, post: Seq<Actor>) -> bool {
    &&& post.len() == pre.len()
    &&& forall|i: int| 0 <= i < pre.len() ==> actor_frame(pre[i], #[trigger] post[i])
}

pub open spec fn wf_actors(actors: Seq<Actor>) -> bool {
    forall|i: int| 0 <= i < actors.len() ==> (#[trigger] actors[i]).wf()
}

pub proof fn lemma_actors_frame_trans(a: Seq<Actor>, b: Seq<Actor>, c: Seq<Actor>)
    requires
        actors_frame(a, b),
        actors_frame(b, c),
    ensures
        actors_frame(a, c),
{
}

} // verus!
