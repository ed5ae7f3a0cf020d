//! Action definitions and the per-actor action catalog.

use crate::actor::apply;
use crate::actor::apply::{copy_effects, wf_defs, Effect, SimError};
use crate::actor::status_effect::status::Status;
use crate::actor::{actors_frame, wf_actors, Actor};
use crate::sim::{SimRng, SimState};
use std::collections::HashMap;
use vstd::prelude::*;

verus! {

/// An immutable action definition: a unique id, a display name, whether
/// the action is off the global cooldown, and the ordered effects it
/// applies when performed.
#[derive(Clone)]
pub struct Action {
    pub id: u32,
    pub name: String,
    pub ogcd: bool,
    pub results: Vec<Effect>,
}

impl Action {
    pub open spec fn wf(self) -> bool {
        forall|i: int| 0 <= i < self.results@.len() ==> (#[trigger] self.results@[i]).wf()
    }

    /// Apply the action's effect list, in declared order, against the
    /// designated receiver.  A setup error stops the list and is handed
    /// up.
    pub fn perform<R: SimRng>(
        &self,
        sim: &SimState<R>,
        status_defs: &Vec<Status>,
        actors: &mut Vec<Actor>,
        source: usize,
        target: usize,
    ) -> (res: Result<(), SimError>)
        requires
            wf_actors(old(actors)@),
            wf_defs(status_defs@),
            source < old(actors)@.len(),
            target < old(actors)@.len(),
            self.wf(),
        ensures
            wf_actors(final(actors)@),
            actors_frame(old(actors)@, final(actors)@),
            res is Ok ==> apply::effects_rel(
                self.results@,
                sim.milliseconds,
                status_defs@,
                old(actors)@,
                final(actors)@,
                source as int,
                target as int,
            ),
            res is Err ==> apply::effects_err_rel(
                self.results@,
                sim.milliseconds,
                status_defs@,
                old(actors)@,
                final(actors)@,
                source as int,
                target as int,
            ),
    {
        let ghost orig = actors@;
        proof {
            assert(self.results@.take(0) =~= Seq::<Effect>::empty());
        }
        let mut i: usize = 0;
        while i < self.results.len()
            invariant
                orig == old(actors)@,
                wf_defs(status_defs@),
                wf_actors(actors@),
                actors_frame(orig, actors@),
                source < actors@.len(),
                target < actors@.len(),
                self.wf(),
                i <= self.results@.len(),
                apply::effects_rel(
                    self.results@.take(i as int),
                    sim.milliseconds,
                    status_defs@,
                    orig,
                    actors@,
                    source as int,
                    target as int,
                ),
            decreases self.results@.len() - i,
        {
            let e = self.results[i];
            let ghost pre = actors@;
            let r = e.apply(sim, status_defs, actors, source, target);
            proof {
                crate::actor::lemma_actors_frame_trans(orig, pre, actors@);
            }
            if let Err(err) = r {
                proof {
                    assert(apply::effects_rel(
                        self.results@.take(i as int),
                        sim.milliseconds,
                        status_defs@,
                        orig,
                        actors@,
                        source as int,
                        target as int,
                    ));
                    assert(apply::effect_fails(self.results@[i as int], actors@, source as int));
                }
                return Err(err);
            }
            proof {
                apply::lemma_effects_rel_snoc(
                    self.results@.take(i as int),
                    e,
                    sim.milliseconds,
                    status_defs@,
                    orig,
                    pre,
                    actors@,
                    source as int,
                    target as int,
                );
                assert(self.results@.take(i as int).push(e) =~= self.results@.take(i as int + 1));
            }
            i = i + 1;
        }
        proof {
            assert(self.results@.take(self.results@.len() as int) =~= self.results@);
        }
        Ok(())
    }

    /// A verified copy carrying the same definition.
    pub fn duplicate(&self) -> (r: Action)
        ensures
            r.id == self.id,
            r.name@ == self.name@,
            r.ogcd == self.ogcd,
            r.results@ == self.results@,
    {
        Action {
            id: self.id,
            name: self.name.clone(),
            ogcd: self.ogcd,
            results: copy_effects(&self.results),
        }
    }
}

impl Default for Action {
    fn default() -> (r: Self)
        ensures
            r.id == 0,
            r.name@ == Seq::<char>::empty(),
            !r.ogcd,
            r.results@ == Seq::<Effect>::empty(),
    {
        Action { id: 0, name: String::new(), ogcd: false, results: Vec::new() }
    }
}

/// The per-actor catalog: action id to definition.
pub struct Actions(pub HashMap<u32, Action>);

impl Actions {
    /// Register a definition under its own id.
    pub fn add(&mut self, action: Action)
        ensures
            final(self).0@ == old(self).0@.insert(action.id, action),
    {
        let id = action.id;
        self.0.insert(id, action);
    }

    pub fn get(&self, id: &u32) -> (r: Option<&Action>)
        ensures
            match r {
                Some(a) => self.0@.contains_key(*id) && *a == self.0@[*id],
                None => !self.0@.contains_key(*id),
            },
    {
        self.0.get(id)
    }
}

impl Default for Actions {
    fn default() -> (r: Self)
        ensures
            r.0@ == Map::<u32, Action>::empty(),
    {
        Actions(HashMap::new())
    }
}

} // verus!
