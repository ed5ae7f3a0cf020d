//! The world: the clock, the status-definition table and the actor
//! arena, with the fixed-order tick pipeline that drives them.

use crate::actor::action::Action;
use crate::actor::apply::{effects_err_rel, effects_rel, wf_defs, Effect, SimError};
use crate::actor::rotation::next_action_spec;
use crate::actor::stat::Stat;
use crate::actor::status_effect::status::Status;
use crate::actor::status_effect::StatusEffect;
use crate::actor::{actors_frame, wf_actors, Actor};
use crate::sim::{SimRng, SimState, SimTime, MS_PER_TICK};
use vstd::prelude::*;

verus! {

/// The whole simulation state: actors are addressed by their stable
/// index in the arena.
pub struct World<R: SimRng> {
    pub sim: SimState<R>,
    /// The shared read-only table of status definitions that
    /// status-granting effects reference by id.
    pub status_defs: Vec<Status>,
    pub actors: Vec<Actor>,
}

/// Actor `i` is the one target of the world.
pub open spec fn is_unique_target(actors: Seq<Actor>, i: int) -> bool {
    &&& 0 <= i < actors.len()
    &&& actors[i].is_target()
    &&& forall|j: int| 0 <= j < actors.len() && (#[trigger] actors[j]).is_target() ==> j == i
}

impl<R: SimRng> World<R> {
    /// Setup consistency: every actor and every status definition is
    /// well-formed.
    pub open spec fn wf(self) -> bool {
        &&& wf_actors(self.actors@)
        &&& wf_defs(self.status_defs@)
    }

    /// Exactly one actor carries the target marker.
    pub open spec fn has_unique_target(self) -> bool {
        exists|i: int| is_unique_target(self.actors@, i)
    }

    pub fn new(sim: SimState<R>) -> (r: Self)
        ensures
            r.wf(),
            r.sim == sim,
            r.status_defs@ == Seq::<Status>::empty(),
            r.actors@ == Seq::<Actor>::empty(),
    {
        World { sim, status_defs: Vec::new(), actors: Vec::new() }
    }

    /// Register an actor; its arena index is returned and stays stable
    /// for the whole run.
    pub fn add_actor(&mut self, actor: Actor) -> (idx: usize)
        requires
            old(self).wf(),
            actor.wf(),
        ensures
            final(self).wf(),
            final(self).sim == old(self).sim,
            final(self).status_defs == old(self).status_defs,
            final(self).actors@ == old(self).actors@.push(actor),
            idx == old(self).actors@.len(),
    {
        let idx = self.actors.len();
        self.actors.push(actor);
        idx
    }

    /// Register a status definition; status-granting effects refer to it
    /// by the returned id.
    pub fn add_status_def(&mut self, status: Status) -> (id: u32)
        requires
            old(self).wf(),
            status.wf(),
            old(self).status_defs@.len() < u32::MAX,
        ensures
            final(self).wf(),
            final(self).sim == old(self).sim,
            final(self).actors == old(self).actors,
            final(self).status_defs@ == old(self).status_defs@.push(status),
            id == old(self).status_defs@.len(),
    {
        let id = self.status_defs.len() as u32;
        self.status_defs.push(status);
        id
    }

    /// Read the current time without advancing it.
    pub fn now(&self) -> (r: SimTime)
        ensures
            r == self.sim.milliseconds,
    {
        self.sim.now()
    }
}

/// How one actor changes under the transient reset: the delta and
/// special stats are cleared, so every stat reads as exactly its base
/// value; everything else is untouched.
pub open spec fn stats_reset_actor(a0: Actor, a: Actor) -> bool {
    &&& a.job == a0.job
    &&& a.actions == a0.actions
    &&& a.rotation == a0.rotation
    &&& a.target == a0.target
    &&& a.recast_expirations == a0.recast_expirations
    &&& a.damage == a0.damage
    &&& a.status_effects == a0.status_effects
    &&& a.active_combos == a0.active_combos
    &&& a.stats.base == a0.stats.base
    &&& forall|s: Stat| a.stats.delta_at(s) == 0
    &&& a.stats.special_spec() is None
    &&& forall|s: Stat| a.stats.spec_get(s) == a0.stats.base_at(s)
}

/// How one actor changes under the combo reset: the pending markers are
/// cleared; everything else is untouched.
pub open spec fn combos_reset_actor(a0: Actor, a: Actor) -> bool {
    &&& a.job == a0.job
    &&& a.actions == a0.actions
    &&& a.rotation == a0.rotation
    &&& a.target == a0.target
    &&& a.recast_expirations == a0.recast_expirations
    &&& a.damage == a0.damage
    &&& a.status_effects == a0.status_effects
    &&& a.stats == a0.stats
    &&& a.active_combos.spec_set() == Set::<u32>::empty()
}

/// How one actor changes under the expiry sweep: expired ledger entries
/// are dropped, survivors keep their order; everything else is
/// untouched.
pub open spec fn expired_swept_actor(a0: Actor, a: Actor, now: SimTime) -> bool {
    &&& a.job == a0.job
    &&& a.actions == a0.actions
    &&& a.rotation == a0.rotation
    &&& a.target == a0.target
    &&& a.recast_expirations == a0.recast_expirations
    &&& a.damage == a0.damage
    &&& a.stats == a0.stats
    &&& a.active_combos == a0.active_combos
    &&& a.status_effects.0@ == a0.status_effects.0@.filter(
        |e: StatusEffect| !e.is_expired_spec(now),
    )
}

/// The transient-stat reset applied to every actor.
pub open spec fn stats_reset_pass(pre: Seq<Actor>, post: Seq<Actor>) -> bool {
    &&& post.len() == pre.len()
    &&& forall|i: int| 0 <= i < pre.len() ==> stats_reset_actor(pre[i], #[trigger] post[i])
}

/// The combo-marker reset applied to every actor.
pub open spec fn combos_reset_pass(pre: Seq<Actor>, post: Seq<Actor>) -> bool {
    &&& post.len() == pre.len()
    &&& forall|i: int| 0 <= i < pre.len() ==> combos_reset_actor(pre[i], #[trigger] post[i])
}

/// The expiry sweep applied to every actor's ledger at the given time.
pub open spec fn expired_sweep_pass(pre: Seq<Actor>, post: Seq<Actor>, now: SimTime) -> bool {
    &&& post.len() == pre.len()
    &&& forall|i: int| 0 <= i < pre.len() ==> expired_swept_actor(pre[i], #[trigger] post[i], now)
}

/// Every element of a filtered sequence comes from the sequence it was
/// filtered out of.
proof fn lemma_filter_sub<A>(s: Seq<A>, pred: spec_fn(A) -> bool)
    ensures
        forall|i: int| 0 <= i < s.filter(pred).len() ==> s.contains(#[trigger] s.filter(pred)[i]),
    decreases s.len(),
{
    reveal_with_fuel(Seq::filter, 2);
    if s.len() == 0 {
    } else {
        lemma_filter_sub(s.drop_last(), pred);
        assert forall|i: int| 0 <= i < s.filter(pred).len() implies s.contains(
            #[trigger] s.filter(pred)[i],
        ) by {
            let sub = s.drop_last().filter(pred);
            if i < sub.len() {
                let x = sub[i];
                let k = choose|k: int| 0 <= k < s.drop_last().len() && s.drop_last()[k] == x;
                assert(s[k] == x);
            } else {
                assert(s.filter(pred)[i] == s.last());
                assert(s[s.len() - 1] == s.last());
            }
        }
    }
}

impl<R: SimRng> World<R> {
    /// Clear every actor's transient stats: afterwards each stat reads
    /// as exactly its base value.
    pub fn reset_stats(&mut self)
        requires
            old(self).wf(),
        ensures
            final(self).wf(),
            final(self).sim == old(self).sim,
            final(self).status_defs == old(self).status_defs,
            actors_frame(old(self).actors@, final(self).actors@),
            stats_reset_pass(old(self).actors@, final(self).actors@),
    {
        let ghost orig = self.actors@;
        let mut i: usize = 0;
        while i < self.actors.len()
            invariant
                orig == old(self).actors@,
                self.sim == old(self).sim,
                self.status_defs == old(self).status_defs,
                self.actors@.len() == orig.len(),
                i <= orig.len(),
                wf_actors(self.actors@),
                wf_defs(self.status_defs@),
                forall|j: int|
                    0 <= j < i ==> stats_reset_actor(orig[j], #[trigger] self.actors@[j]),
                forall|j: int| i <= j < orig.len() ==> self.actors@[j] == orig[j],
            decreases orig.len() - i,
        {
            let a = &mut self.actors[i];
            a.stats.reset();
            i = i + 1;
        }
    }

    /// Clear every actor's pending combo markers.
    pub fn reset_active_combos(&mut self)
        requires
            old(self).wf(),
        ensures
            final(self).wf(),
            final(self).sim == old(self).sim,
            final(self).status_defs == old(self).status_defs,
            actors_frame(old(self).actors@, final(self).actors@),
            combos_reset_pass(old(self).actors@, final(self).actors@),
    {
        let ghost orig = self.actors@;
        let mut i: usize = 0;
        while i < self.actors.len()
            invariant
                orig == old(self).actors@,
                self.sim == old(self).sim,
                self.status_defs == old(self).status_defs,
                self.actors@.len() == orig.len(),
                i <= orig.len(),
                wf_actors(self.actors@),
                wf_defs(self.status_defs@),
                forall|j: int|
                    0 <= j < i ==> combos_reset_actor(orig[j], #[trigger] self.actors@[j]),
                forall|j: int| i <= j < orig.len() ==> self.actors@[j] == orig[j],
            decreases orig.len() - i,
        {
            let a = &mut self.actors[i];
            a.active_combos.reset();
            i = i + 1;
        }
    }

    /// Drop every status-effect instance that is expired at the current
    /// time, on every actor.
    pub fn remove_expired_status_effects(&mut self)
        requires
            old(self).wf(),
        ensures
            final(self).wf(),
            final(self).sim == old(self).sim,
            final(self).status_defs == old(self).status_defs,
            actors_frame(old(self).actors@, final(self).actors@),
            expired_sweep_pass(old(self).actors@, final(self).actors@, old(self).sim.milliseconds),
    {
        let sim_time = self.sim.now();
        let ghost orig = self.actors@;
        let mut i: usize = 0;
        while i < self.actors.len()
            invariant
                orig == old(self).actors@,
                self.sim == old(self).sim,
                sim_time == old(self).sim.milliseconds,
                self.status_defs == old(self).status_defs,
                self.actors@.len() == orig.len(),
                i <= orig.len(),
                wf_actors(self.actors@),
                wf_defs(self.status_defs@),
                forall|j: int|
                    0 <= j < i ==> expired_swept_actor(
                        orig[j],
                        #[trigger] self.actors@[j],
                        sim_time,
                    ),
                forall|j: int| i <= j < orig.len() ==> self.actors@[j] == orig[j],
            decreases orig.len() - i,
        {
            let ghost ledger0 = self.actors@[i as int].status_effects.0@;
            let a = &mut self.actors[i];
            a.status_effects.remove_expired(sim_time);
            proof {
                lemma_filter_sub(ledger0, |e: StatusEffect| !e.is_expired_spec(sim_time));
                assert forall|k: int|
                    0 <= k < self.actors@[i as int].status_effects.0@.len() implies (
                #[trigger] self.actors@[i as int].status_effects.0@[k]).status.wf() by {
                    let e = self.actors@[i as int].status_effects.0@[k];
                    assert(ledger0.contains(e));
                    let m = choose|m: int| 0 <= m < ledger0.len() && ledger0[m] == e;
                }
            }
            i = i + 1;
        }
    }
}

/// The frame every effect application respects keeps each actor's
/// target marker, so a world with one unique target keeps it.
proof fn lemma_frame_preserves_target(pre: Seq<Actor>, post: Seq<Actor>, i: int)
    requires
        actors_frame(pre, post),
        is_unique_target(pre, i),
    ensures
        is_unique_target(post, i),
{
    assert forall|j: int|
        0 <= j < post.len() && (#[trigger] post[j]).is_target() implies j == i by {
        assert(pre[j].target == post[j].target);
    }
}

/// A ledger, each entry tagged with its holder's arena index.
pub open spec fn tagged_ledger(ledger: Seq<StatusEffect>, holder: int) -> Seq<(StatusEffect, int)> {
    Seq::new(ledger.len(), |k: int| (ledger[k], holder))
}

/// The status phase's snapshot: the first `upto` actors' ledgers,
/// flattened in arena-then-ledger order.
pub open spec fn ledger_snapshot(actors: Seq<Actor>, upto: int) -> Seq<(StatusEffect, int)>
    decreases upto,
{
    if upto <= 0 {
        Seq::empty()
    } else {
        ledger_snapshot(actors, upto - 1) + tagged_ledger(
            actors[upto - 1].status_effects.0@,
            upto - 1,
        )
    }
}

/// What applying one snapshot entry does: its status's effect list runs
/// once, with the granting actor as performer and the holder as
/// receiver; an entry whose granter is no longer a valid index is
/// skipped.
pub open spec fn status_step(
    entry: StatusEffect,
    holder: int,
    now: SimTime,
    defs: Seq<Status>,
    pre: Seq<Actor>,
    post: Seq<Actor>,
) -> bool {
    if (entry.source as int) < pre.len() {
        effects_rel(entry.status.effects@, now, defs, pre, post, entry.source as int, holder)
    } else {
        post == pre
    }
}

/// A snapshot entry whose application stopped on a failing
/// damage-inputs check.
pub open spec fn status_step_err(
    entry: StatusEffect,
    holder: int,
    now: SimTime,
    defs: Seq<Status>,
    pre: Seq<Actor>,
    post: Seq<Actor>,
) -> bool {
    &&& (entry.source as int) < pre.len()
    &&& effects_err_rel(entry.status.effects@, now, defs, pre, post, entry.source as int, holder)
}

/// The snapshot entries applied sequentially, in order: each step's
/// resulting arena feeds the next.
pub open spec fn status_pass(
    snapshot: Seq<(StatusEffect, int)>,
    now: SimTime,
    defs: Seq<Status>,
    pre: Seq<Actor>,
    post: Seq<Actor>,
) -> bool
    decreases snapshot.len(),
{
    if snapshot.len() == 0 {
        post == pre
    } else {
        exists|mid: Seq<Actor>|
            #[trigger] status_step(snapshot[0].0, snapshot[0].1, now, defs, pre, mid)
                && status_pass(snapshot.drop_first(), now, defs, mid, post)
    }
}

/// Extending a pass by one more applied snapshot entry.
proof fn lemma_status_pass_snoc(
    snapshot: Seq<(StatusEffect, int)>,
    entry: (StatusEffect, int),
    now: SimTime,
    defs: Seq<Status>,
    pre: Seq<Actor>,
    mid: Seq<Actor>,
    post: Seq<Actor>,
)
    requires
        status_pass(snapshot, now, defs, pre, mid),
        status_step(entry.0, entry.1, now, defs, mid, post),
    ensures
        status_pass(snapshot.push(entry), now, defs, pre, post),
    decreases snapshot.len(),
{
    if snapshot.len() == 0 {
        assert(mid == pre);
        assert(snapshot.push(entry)[0] == entry);
        assert(snapshot.push(entry).drop_first() =~= Seq::<(StatusEffect, int)>::empty());
        assert(status_step(entry.0, entry.1, now, defs, pre, post));
        assert(status_pass(snapshot.push(entry).drop_first(), now, defs, post, post));
    } else {
        let m1 = choose|m: Seq<Actor>|
            #[trigger] status_step(snapshot[0].0, snapshot[0].1, now, defs, pre, m)
                && status_pass(snapshot.drop_first(), now, defs, m, mid);
        lemma_status_pass_snoc(snapshot.drop_first(), entry, now, defs, m1, mid, post);
        assert(snapshot.push(entry)[0] == snapshot[0]);
        assert(snapshot.push(entry).drop_first() =~= snapshot.drop_first().push(entry));
        assert(status_step(snapshot.push(entry)[0].0, snapshot.push(entry)[0].1, now, defs, pre, m1));
        assert(status_pass(snapshot.push(entry).drop_first(), now, defs, m1, post));
    }
}

/// The action an actor's rotation chooses at this time.
pub open spec fn chosen_action_spec(a: Actor, now: SimTime) -> Option<u32> {
    next_action_spec(a.rotation.0@, a.recast_expirations, a.active_combos.spec_set(), now)
}

/// Whether actor `i` performs an action this phase: it is a source
/// actor (not the target) whose rotation chose an id present in its
/// catalog.
pub open spec fn performs_spec(orig: Seq<Actor>, i: int, now: SimTime) -> bool {
    &&& 0 <= i < orig.len()
    &&& !orig[i].is_target()
    &&& match chosen_action_spec(orig[i], now) {
        Some(id) => orig[i].actions.0@.contains_key(id),
        None => false,
    }
}

/// The effect list of the action actor `j` performs, judged against the
/// phase-start arena.
pub open spec fn chosen_results(orig: Seq<Actor>, j: int, now: SimTime) -> Seq<Effect> {
    match chosen_action_spec(orig[j], now) {
        Some(id) => orig[j].actions.0@[id].results@,
        None => Seq::empty(),
    }
}

/// What the action phase does for actor `i`: the target initiates
/// nothing; an idle actor, or one whose chosen id is missing from its
/// catalog, is skipped; otherwise the chosen action's effect list runs
/// with `i` as performer and the world's target as receiver.
pub open spec fn action_step(
    orig: Seq<Actor>,
    i: int,
    target: int,
    now: SimTime,
    defs: Seq<Status>,
    pre: Seq<Actor>,
    post: Seq<Actor>,
) -> bool {
    if performs_spec(orig, i, now) {
        effects_rel(chosen_results(orig, i, now), now, defs, pre, post, i, target)
    } else {
        post == pre
    }
}

/// Actor `i`'s action stopped on a failing damage-inputs check.
pub open spec fn action_step_err(
    orig: Seq<Actor>,
    i: int,
    target: int,
    now: SimTime,
    defs: Seq<Status>,
    pre: Seq<Actor>,
    post: Seq<Actor>,
) -> bool {
    &&& performs_spec(orig, i, now)
    &&& effects_err_rel(chosen_results(orig, i, now), now, defs, pre, post, i, target)
}

/// The arena indices `0, 1, …, n-1` in declared order.
pub open spec fn arena_order(n: int) -> Seq<int> {
    Seq::new(n as nat, |i: int| i)
}

/// The action steps of the listed actors taken sequentially, in order:
/// each step's resulting arena feeds the next.
pub open spec fn actions_pass(
    orig: Seq<Actor>,
    idxs: Seq<int>,
    target: int,
    now: SimTime,
    defs: Seq<Status>,
    pre: Seq<Actor>,
    post: Seq<Actor>,
) -> bool
    decreases idxs.len(),
{
    if idxs.len() == 0 {
        post == pre
    } else {
        exists|mid: Seq<Actor>|
            #[trigger] action_step(orig, idxs[0], target, now, defs, pre, mid) && actions_pass(
                orig,
                idxs.drop_first(),
                target,
                now,
                defs,
                mid,
                post,
            )
    }
}

/// Extending a pass by one more actor's step.
proof fn lemma_actions_pass_snoc(
    orig: Seq<Actor>,
    idxs: Seq<int>,
    i: int,
    target: int,
    now: SimTime,
    defs: Seq<Status>,
    pre: Seq<Actor>,
    mid: Seq<Actor>,
    post: Seq<Actor>,
)
    requires
        actions_pass(orig, idxs, target, now, defs, pre, mid),
        action_step(orig, i, target, now, defs, mid, post),
    ensures
        actions_pass(orig, idxs.push(i), target, now, defs, pre, post),
    decreases idxs.len(),
{
    if idxs.len() == 0 {
        assert(mid == pre);
        assert(idxs.push(i)[0] == i);
        assert(idxs.push(i).drop_first() =~= Seq::<int>::empty());
        assert(action_step(orig, i, target, now, defs, pre, post));
        assert(actions_pass(orig, idxs.push(i).drop_first(), target, now, defs, post, post));
    } else {
        let m1 = choose|m: Seq<Actor>|
            #[trigger] action_step(orig, idxs[0], target, now, defs, pre, m) && actions_pass(
                orig,
                idxs.drop_first(),
                target,
                now,
                defs,
                m,
                mid,
            );
        lemma_actions_pass_snoc(orig, idxs.drop_first(), i, target, now, defs, m1, mid, post);
        assert(idxs.push(i)[0] == idxs[0]);
        assert(idxs.push(i).drop_first() =~= idxs.drop_first().push(i));
        assert(action_step(orig, idxs.push(i)[0], target, now, defs, pre, m1));
        assert(actions_pass(orig, idxs.push(i).drop_first(), target, now, defs, m1, post));
    }
}

/// Actors that perform nothing extend a pass without changing the
/// arena.
proof fn lemma_actions_pass_idle_extend(
    orig: Seq<Actor>,
    lo: int,
    hi: int,
    target: int,
    now: SimTime,
    defs: Seq<Status>,
    pre: Seq<Actor>,
    cur: Seq<Actor>,
)
    requires
        0 <= lo <= hi <= orig.len(),
        actions_pass(orig, arena_order(orig.len() as int).take(lo), target, now, defs, pre, cur),
        forall|j: int| lo <= j < hi ==> !performs_spec(orig, j, now),
    ensures
        actions_pass(orig, arena_order(orig.len() as int).take(hi), target, now, defs, pre, cur),
    decreases hi - lo,
{
    if lo < hi {
        let ord = arena_order(orig.len() as int);
        assert(!performs_spec(orig, lo, now));
        assert(action_step(orig, lo, target, now, defs, cur, cur));
        lemma_actions_pass_snoc(orig, ord.take(lo), lo, target, now, defs, pre, cur, cur);
        assert(ord.take(lo).push(lo) =~= ord.take(lo + 1));
        lemma_actions_pass_idle_extend(orig, lo + 1, hi, target, now, defs, pre, cur);
    }
}

/// The status phase succeeded: the phase-start snapshot was applied in
/// order.
pub open spec fn status_phase_ok(
    pre: Seq<Actor>,
    post: Seq<Actor>,
    now: SimTime,
    defs: Seq<Status>,
) -> bool {
    status_pass(ledger_snapshot(pre, pre.len() as int), now, defs, pre, post)
}

/// The status phase stopped on a failing damage-inputs check: a prefix
/// of the snapshot was applied, then one entry's list stopped.
pub open spec fn status_phase_err(
    pre: Seq<Actor>,
    post: Seq<Actor>,
    now: SimTime,
    defs: Seq<Status>,
) -> bool {
    let snap = ledger_snapshot(pre, pre.len() as int);
    exists|b: int, mid: Seq<Actor>|
        0 <= b < snap.len() && #[trigger] status_pass(snap.take(b), now, defs, pre, mid)
            && status_step_err(snap[b].0, snap[b].1, now, defs, mid, post)
}

/// The action phase succeeded: every source actor's step ran in arena
/// order against the unique target.
pub open spec fn action_phase_ok(
    pre: Seq<Actor>,
    post: Seq<Actor>,
    now: SimTime,
    defs: Seq<Status>,
) -> bool {
    exists|t: int|
        is_unique_target(pre, t) && #[trigger] actions_pass(
            pre,
            arena_order(pre.len() as int),
            t,
            now,
            defs,
            pre,
            post,
        )
}

/// The action phase stopped on a failing damage-inputs check: the
/// earlier actors' steps ran, then one actor's action stopped.
pub open spec fn action_phase_err(
    pre: Seq<Actor>,
    post: Seq<Actor>,
    now: SimTime,
    defs: Seq<Status>,
) -> bool {
    exists|t: int, i: int, mid: Seq<Actor>|
        is_unique_target(pre, t) && 0 <= i < pre.len() && #[trigger] actions_pass(
            pre,
            arena_order(pre.len() as int).take(i),
            t,
            now,
            defs,
            pre,
            mid,
        ) && action_step_err(pre, i, t, now, defs, mid, post)
}

/// One whole tick: with the clock already advanced to `now_after`, the
/// arenas thread the transient reset, the combo clear, the expiry
/// sweep, the status application and the action resolution, in that
/// order.
pub open spec fn tick_pass(
    pre: Seq<Actor>,
    post: Seq<Actor>,
    now_after: SimTime,
    defs: Seq<Status>,
) -> bool {
    exists|a1: Seq<Actor>, a2: Seq<Actor>, a3: Seq<Actor>, a4: Seq<Actor>|
        #![trigger stats_reset_pass(pre, a1), combos_reset_pass(a1, a2), expired_sweep_pass(a2, a3, now_after), status_phase_ok(a3, a4, now_after, defs)]
        {
            &&& stats_reset_pass(pre, a1)
            &&& combos_reset_pass(a1, a2)
            &&& expired_sweep_pass(a2, a3, now_after)
            &&& status_phase_ok(a3, a4, now_after, defs)
            &&& action_phase_ok(a4, post, now_after, defs)
        }
}

/// A tick that stopped on a failing damage-inputs check: the resets and
/// the sweep ran, then one of the two effect phases stopped.
pub open spec fn tick_pass_err(
    pre: Seq<Actor>,
    post: Seq<Actor>,
    now_after: SimTime,
    defs: Seq<Status>,
) -> bool {
    exists|a1: Seq<Actor>, a2: Seq<Actor>, a3: Seq<Actor>|
        #![trigger stats_reset_pass(pre, a1), combos_reset_pass(a1, a2), expired_sweep_pass(a2, a3, now_after)]
        {
            &&& stats_reset_pass(pre, a1)
            &&& combos_reset_pass(a1, a2)
            &&& expired_sweep_pass(a2, a3, now_after)
            &&& (status_phase_err(a3, post, now_after, defs) || exists|a4: Seq<Actor>|
                #[trigger] status_phase_ok(a3, a4, now_after, defs) && action_phase_err(
                    a4,
                    post,
                    now_after,
                    defs,
                ))
        }
}

/// An executable bundle carries the fields of a snapshot entry that its
/// application depends on.
pub open spec fn bundle_matches(b: (StatusEffect, usize), s: (StatusEffect, int)) -> bool {
    &&& b.1 as int == s.1
    &&& b.0.source == s.0.source
    &&& b.0.status.effects@ == s.0.status.effects@
    &&& b.0.status.wf()
}

impl<R: SimRng> World<R> {
    /// For every actor, apply every status instance on its ledger, with
    /// the granting actor as performer and the holder as receiver.  The
    /// ledgers are snapshotted first, so effects that grant further
    /// statuses influence later ticks, not this pass.  An instance whose
    /// granting actor is no longer a valid index is skipped.
    pub fn process_status_effects(&mut self) -> (res: Result<(), SimError>)
        requires
            old(self).wf(),
        ensures
            final(self).wf(),
            final(self).sim == old(self).sim,
            final(self).status_defs == old(self).status_defs,
            actors_frame(old(self).actors@, final(self).actors@),
            res is Ok ==> status_phase_ok(
                old(self).actors@,
                final(self).actors@,
                old(self).sim.milliseconds,
                old(self).status_defs@,
            ),
            res is Err ==> status_phase_err(
                old(self).actors@,
                final(self).actors@,
                old(self).sim.milliseconds,
                old(self).status_defs@,
            ),
    {
        let mut bundles: Vec<(StatusEffect, usize)> = Vec::new();
        let mut i: usize = 0;
        while i < self.actors.len()
            invariant
                *self == *old(self),
                self.wf(),
                i <= self.actors@.len(),
                bundles@.len() == ledger_snapshot(old(self).actors@, i as int).len(),
                forall|m: int|
                    0 <= m < bundles@.len() ==> bundle_matches(
                        #[trigger] bundles@[m],
                        ledger_snapshot(old(self).actors@, i as int)[m],
                    ) && bundles@[m].1 < self.actors@.len(),
            decreases self.actors@.len() - i,
        {
            let ghost prev = ledger_snapshot(old(self).actors@, i as int);
            let n = self.actors[i].status_effects.len();
            let mut k: usize = 0;
            while k < n
                invariant
                    *self == *old(self),
                    self.wf(),
                    i < self.actors@.len(),
                    k <= n,
                    n == self.actors@[i as int].status_effects.0@.len(),
                    prev == ledger_snapshot(old(self).actors@, i as int),
                    bundles@.len() == prev.len() + k,
                    forall|m: int|
                        0 <= m < prev.len() ==> bundle_matches(#[trigger] bundles@[m], prev[m])
                            && bundles@[m].1 < self.actors@.len(),
                    forall|m: int|
                        0 <= m < k ==> bundle_matches(
                            #[trigger] bundles@[prev.len() + m],
                            (self.actors@[i as int].status_effects.0@[m], i as int),
                        ) && bundles@[prev.len() + m].1 < self.actors@.len(),
                decreases n - k,
            {
                let entry = self.actors[i].status_effects.get(k).duplicate();
                bundles.push((entry, i));
                k = k + 1;
            }
            proof {
                let next = ledger_snapshot(old(self).actors@, i as int + 1);
                assert(next == prev + tagged_ledger(
                    self.actors@[i as int].status_effects.0@,
                    i as int,
                ));
                assert(next.len() == prev.len() + n);
                assert forall|m: int| 0 <= m < bundles@.len() implies bundle_matches(
                    #[trigger] bundles@[m],
                    next[m],
                ) by {
                    if m < prev.len() {
                        assert(next[m] == prev[m]);
                        assert(bundle_matches(bundles@[m], prev[m]));
                    } else {
                        let t = m - prev.len();
                        assert(next[m] == tagged_ledger(
                            self.actors@[i as int].status_effects.0@,
                            i as int,
                        )[t]);
                        assert(tagged_ledger(self.actors@[i as int].status_effects.0@, i as int)[t]
                            == (self.actors@[i as int].status_effects.0@[t], i as int));
                        assert(bundle_matches(
                            bundles@[prev.len() + t],
                            (self.actors@[i as int].status_effects.0@[t], i as int),
                        ));
                    }
                }
            }
            i = i + 1;
        }
        let ghost snap = ledger_snapshot(old(self).actors@, old(self).actors@.len() as int);
        let ghost orig = self.actors@;
        let mut b: usize = 0;
        while b < bundles.len()
            invariant
                orig == old(self).actors@,
                self.sim == old(self).sim,
                self.status_defs == old(self).status_defs,
                wf_actors(self.actors@),
                wf_defs(self.status_defs@),
                actors_frame(orig, self.actors@),
                snap == ledger_snapshot(old(self).actors@, old(self).actors@.len() as int),
                bundles@.len() == snap.len(),
                b <= bundles@.len(),
                forall|m: int|
                    0 <= m < bundles@.len() ==> bundle_matches(#[trigger] bundles@[m], snap[m])
                        && bundles@[m].1 < orig.len(),
                status_pass(
                    snap.take(b as int),
                    old(self).sim.milliseconds,
                    old(self).status_defs@,
                    orig,
                    self.actors@,
                ),
            decreases bundles@.len() - b,
        {
            let entry = &bundles[b];
            let holder = entry.1;
            let granter = entry.0.source;
            let ghost pre = self.actors@;
            if granter < self.actors.len() {
                let r = entry.0.apply(
                    &self.sim,
                    &self.status_defs,
                    &mut self.actors,
                    granter,
                    holder,
                );
                proof {
                    crate::actor::lemma_actors_frame_trans(orig, pre, self.actors@);
                }
                if let Err(err) = r {
                    proof {
                        assert(status_pass(
                            snap.take(b as int),
                            old(self).sim.milliseconds,
                            old(self).status_defs@,
                            orig,
                            pre,
                        ));
                        assert(status_step_err(
                            snap[b as int].0,
                            snap[b as int].1,
                            old(self).sim.milliseconds,
                            old(self).status_defs@,
                            pre,
                            self.actors@,
                        ));
                    }
                    return Err(err);
                }
                proof {
                    assert(status_step(
                        snap[b as int].0,
                        snap[b as int].1,
                        old(self).sim.milliseconds,
                        old(self).status_defs@,
                        pre,
                        self.actors@,
                    ));
                }
            } else {
                proof {
                    assert(status_step(
                        snap[b as int].0,
                        snap[b as int].1,
                        old(self).sim.milliseconds,
                        old(self).status_defs@,
                        pre,
                        self.actors@,
                    ));
                }
            }
            proof {
                lemma_status_pass_snoc(
                    snap.take(b as int),
                    snap[b as int],
                    old(self).sim.milliseconds,
                    old(self).status_defs@,
                    orig,
                    pre,
                    self.actors@,
                );
                assert(snap.take(b as int).push(snap[b as int]) =~= snap.take(b as int + 1));
            }
            b = b + 1;
        }
        proof {
            assert(snap.take(snap.len() as int) =~= snap);
        }
        Ok(())
    }

    /// For every source actor, in arena order, ask its rotation for the
    /// next eligible action against the phase-start state and perform it
    /// with the world's target as receiver.  The target initiates
    /// nothing; an actor whose rotation yields nothing, or whose chosen
    /// id is missing from its catalog, is skipped for this tick.
    pub fn perform_actions(&mut self) -> (res: Result<(), SimError>)
        requires
            old(self).wf(),
            old(self).has_unique_target(),
        ensures
            final(self).wf(),
            final(self).has_unique_target(),
            final(self).sim == old(self).sim,
            final(self).status_defs == old(self).status_defs,
            actors_frame(old(self).actors@, final(self).actors@),
            res is Ok ==> action_phase_ok(
                old(self).actors@,
                final(self).actors@,
                old(self).sim.milliseconds,
                old(self).status_defs@,
            ),
            res is Err ==> action_phase_err(
                old(self).actors@,
                final(self).actors@,
                old(self).sim.milliseconds,
                old(self).status_defs@,
            ),
    {
        let ghost witness = choose|w: int| is_unique_target(old(self).actors@, w);
        let ghost now0 = old(self).sim.milliseconds;
        let ghost defs0 = old(self).status_defs@;
        let ghost ord = arena_order(old(self).actors@.len() as int);
        let mut target: usize = 0;
        let mut found = false;
        let mut t: usize = 0;
        while t < self.actors.len()
            invariant
                *self == *old(self),
                is_unique_target(self.actors@, witness),
                t <= self.actors@.len(),
                !found ==> forall|j: int| 0 <= j < t ==> !(#[trigger] self.actors@[j]).is_target(),
                found ==> target < self.actors@.len() && self.actors@[target as int].is_target(),
            decreases self.actors@.len() - t,
        {
            if !found && self.actors[t].target.is_some() {
                target = t;
                found = true;
            }
            t = t + 1;
        }
        proof {
            assert(found);
            assert(target as int == witness);
        }
        let now = self.sim.now();
        let mut bundles: Vec<(Action, usize)> = Vec::new();
        let mut i: usize = 0;
        while i < self.actors.len()
            invariant
                *self == *old(self),
                self.wf(),
                i <= self.actors@.len(),
                target < self.actors@.len(),
                now == now0,
                now0 == old(self).sim.milliseconds,
                forall|m: int|
                    0 <= m < bundles@.len() ==> ({
                        let j = (#[trigger] bundles@[m]).1 as int;
                        &&& j < i
                        &&& performs_spec(old(self).actors@, j, now0)
                        &&& bundles@[m].0.wf()
                        &&& bundles@[m].0.results@ == chosen_results(old(self).actors@, j, now0)
                    }),
                forall|m1: int, m2: int|
                    0 <= m1 < m2 < bundles@.len() ==> (#[trigger] bundles@[m1]).1 < (
                    #[trigger] bundles@[m2]).1,
                forall|j: int|
                    0 <= j < i && performs_spec(old(self).actors@, j, now0) ==> exists|m: int|
                        0 <= m < bundles@.len() && (#[trigger] bundles@[m]).1 == j,
            decreases self.actors@.len() - i,
        {
            let actor = &self.actors[i];
            if actor.target.is_none() {
                let next = actor.rotation.get_next_action_id(
                    now,
                    &actor.recast_expirations,
                    &actor.active_combos,
                );
                match next {
                    Some(action_id) => match actor.actions.get(&action_id) {
                        Some(action) => {
                            let ghost before = bundles@;
                            bundles.push((action.duplicate(), i));
                            proof {
                                assert(performs_spec(old(self).actors@, i as int, now0));
                                assert(bundles@[bundles@.len() - 1].1 == i as int);
                                assert forall|j: int|
                                    0 <= j < i as int + 1 && performs_spec(
                                        old(self).actors@,
                                        j,
                                        now0,
                                    ) implies exists|m: int|
                                    0 <= m < bundles@.len() && (#[trigger] bundles@[m]).1
                                        == j by {
                                    if j < i as int {
                                        let m = choose|m: int|
                                            0 <= m < before.len() && (#[trigger] before[m]).1 == j;
                                        assert(bundles@[m] == before[m]);
                                    } else {
                                        assert(bundles@[bundles@.len() - 1].1 == j);
                                    }
                                }
                            }
                        },
                        None => {
                            proof {
                                assert(!performs_spec(old(self).actors@, i as int, now0));
                            }
                        },
                    },
                    None => {
                        proof {
                            assert(!performs_spec(old(self).actors@, i as int, now0));
                        }
                    },
                }
            } else {
                proof {
                    assert(!performs_spec(old(self).actors@, i as int, now0));
                }
            }
            i = i + 1;
        }
        let ghost orig = self.actors@;
        let ghost mut cursor: int = 0;
        let mut b: usize = 0;
        proof {
            assert(ord.take(0) =~= Seq::<int>::empty());
        }
        while b < bundles.len()
            invariant
                orig == old(self).actors@,
                is_unique_target(orig, witness),
                now0 == old(self).sim.milliseconds,
                defs0 == old(self).status_defs@,
                ord == arena_order(orig.len() as int),
                self.sim == old(self).sim,
                self.status_defs == old(self).status_defs,
                wf_actors(self.actors@),
                wf_defs(self.status_defs@),
                actors_frame(orig, self.actors@),
                target < self.actors@.len(),
                target as int == witness,
                b <= bundles@.len(),
                0 <= cursor <= orig.len(),
                actions_pass(orig, ord.take(cursor), witness, now0, defs0, orig, self.actors@),
                b < bundles@.len() ==> cursor <= bundles@[b as int].1,
                forall|m: int|
                    0 <= m < bundles@.len() ==> ({
                        let j = (#[trigger] bundles@[m]).1 as int;
                        &&& j < orig.len()
                        &&& performs_spec(orig, j, now0)
                        &&& bundles@[m].0.wf()
                        &&& bundles@[m].0.results@ == chosen_results(orig, j, now0)
                    }),
                forall|m1: int, m2: int|
                    0 <= m1 < m2 < bundles@.len() ==> (#[trigger] bundles@[m1]).1 < (
                    #[trigger] bundles@[m2]).1,
                forall|j: int|
                    cursor <= j < orig.len() && performs_spec(orig, j, now0) ==> exists|m: int|
                        b <= m < bundles@.len() && (#[trigger] bundles@[m]).1 == j,
            decreases bundles@.len() - b,
        {
            let entry = &bundles[b];
            let source = entry.1;
            proof {
                assert forall|j: int| cursor <= j < source as int implies !performs_spec(
                    orig,
                    j,
                    now0,
                ) by {
                    if performs_spec(orig, j, now0) {
                        let m = choose|m: int|
                            b <= m < bundles@.len() && (#[trigger] bundles@[m]).1 == j;
                        if m > b {
                            assert(bundles@[b as int].1 < bundles@[m].1);
                        }
                    }
                }
                lemma_actions_pass_idle_extend(
                    orig,
                    cursor,
                    source as int,
                    witness,
                    now0,
                    defs0,
                    orig,
                    self.actors@,
                );
                cursor = source as int;
            }
            let ghost pre = self.actors@;
            let r = entry.0.perform(&self.sim, &self.status_defs, &mut self.actors, source, target);
            proof {
                crate::actor::lemma_actors_frame_trans(orig, pre, self.actors@);
            }
            if let Err(err) = r {
                proof {
                    lemma_frame_preserves_target(orig, self.actors@, witness);
                    assert(action_step_err(
                        orig,
                        source as int,
                        witness,
                        now0,
                        defs0,
                        pre,
                        self.actors@,
                    ));
                    assert(actions_pass(
                        orig,
                        ord.take(source as int),
                        witness,
                        now0,
                        defs0,
                        orig,
                        pre,
                    ));
                }
                return Err(err);
            }
            proof {
                assert(action_step(orig, source as int, witness, now0, defs0, pre, self.actors@));
                lemma_actions_pass_snoc(
                    orig,
                    ord.take(source as int),
                    source as int,
                    witness,
                    now0,
                    defs0,
                    orig,
                    pre,
                    self.actors@,
                );
                assert(ord.take(source as int).push(source as int) =~= ord.take(
                    source as int + 1,
                ));
                cursor = source as int + 1;
            }
            b = b + 1;
        }
        proof {
            assert forall|j: int| cursor <= j < orig.len() implies !performs_spec(
                orig,
                j,
                now0,
            ) by {
                if performs_spec(orig, j, now0) {
                    let m = choose|m: int|
                        b <= m < bundles@.len() && (#[trigger] bundles@[m]).1 == j;
                }
            }
            lemma_actions_pass_idle_extend(
                orig,
                cursor,
                orig.len() as int,
                witness,
                now0,
                defs0,
                orig,
                self.actors@,
            );
            assert(ord.take(orig.len() as int) =~= ord);
            lemma_frame_preserves_target(orig, self.actors@, witness);
        }
        Ok(())
    }

    /// Execute one simulation step in the fixed phase order: advance the
    /// clock, clear transient stats and combo markers, drop expired
    /// statuses, apply the surviving statuses, then resolve and perform
    /// each source actor's next action.  Returns the new time, or the
    /// setup error that aborted the run.
    pub fn run_tick(&mut self) -> (res: Result<SimTime, SimError>)
        requires
            old(self).wf(),
            old(self).has_unique_target(),
            old(self).sim.milliseconds + MS_PER_TICK <= u64::MAX,
        ensures
            final(self).wf(),
            final(self).has_unique_target(),
            final(self).sim.milliseconds == old(self).sim.milliseconds + MS_PER_TICK,
            final(self).status_defs == old(self).status_defs,
            actors_frame(old(self).actors@, final(self).actors@),
            res is Ok ==> res == Ok::<SimTime, SimError>(final(self).sim.milliseconds),
            res is Ok ==> tick_pass(
                old(self).actors@,
                final(self).actors@,
                final(self).sim.milliseconds,
                old(self).status_defs@,
            ),
            res is Err ==> tick_pass_err(
                old(self).actors@,
                final(self).actors@,
                final(self).sim.milliseconds,
                old(self).status_defs@,
            ),
    {
        let ghost witness = choose|w: int| is_unique_target(old(self).actors@, w);
        let ghost defs0 = old(self).status_defs@;
        let ghost a0 = self.actors@;
        let now = self.sim.tick();
        self.reset_stats();
        let ghost a1 = self.actors@;
        self.reset_active_combos();
        let ghost a2 = self.actors@;
        proof {
            crate::actor::lemma_actors_frame_trans(a0, a1, a2);
        }
        self.remove_expired_status_effects();
        let ghost a3 = self.actors@;
        proof {
            crate::actor::lemma_actors_frame_trans(a0, a2, a3);
            assert(stats_reset_pass(a0, a1));
            assert(combos_reset_pass(a1, a2));
            assert(expired_sweep_pass(a2, a3, now));
        }
        let r1 = self.process_status_effects();
        let ghost a4 = self.actors@;
        proof {
            crate::actor::lemma_actors_frame_trans(a0, a3, a4);
            lemma_frame_preserves_target(a0, a4, witness);
        }
        if let Err(e) = r1 {
            proof {
                assert(status_phase_err(a3, a4, now, defs0));
            }
            return Err(e);
        }
        let r2 = self.perform_actions();
        let ghost a5 = self.actors@;
        proof {
            crate::actor::lemma_actors_frame_trans(a0, a4, a5);
            assert(status_phase_ok(a3, a4, now, defs0));
        }
        match r2 {
            Ok(()) => {
                proof {
                    assert(action_phase_ok(a4, a5, now, defs0));
                    assert(tick_pass(a0, a5, now, defs0));
                }
                Ok(now)
            },
            Err(e) => {
                proof {
                    assert(action_phase_err(a4, a5, now, defs0));
                    assert(tick_pass_err(a0, a5, now, defs0));
                }
                Err(e)
            },
        }
    }
}

} // verus!
