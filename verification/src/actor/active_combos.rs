//! The set of pending combo markers of one actor, cleared at the start
//! of every tick.

use std::collections::HashSet;
use vstd::prelude::*;

verus! {

pub struct ActiveCombos(pub HashSet<u32>);

impl ActiveCombos {
    /// The markers currently pending.
    pub open spec fn spec_set(self) -> Set<u32> {
        self.0@
    }

    pub fn has_action(&self, action_id: &u32) -> (r: bool)
        ensures
            r == self.spec_set().contains(*action_id),
    {
        self.0.contains(action_id)
    }

    pub fn add_action(&mut self, action_id: u32)
        ensures
            final(self).spec_set() == old(self).spec_set().insert(action_id),
    {
        self.0.insert(action_id);
    }

    pub fn remove_action(&mut self, action_id: &u32)
        ensures
            final(self).spec_set() == old(self).spec_set().remove(*action_id),
    {
        self.0.remove(action_id);
    }

    pub fn reset(&mut self)
        ensures
            final(self).spec_set() == Set::<u32>::empty(),
    {
        self.0.clear();
    }
}

impl Default for ActiveCombos {
    fn default() -> (r: Self)
        ensures
            r.spec_set() == Set::<u32>::empty(),
    {
        ActiveCombos(HashSet::new())
    }
}

} // verus!
