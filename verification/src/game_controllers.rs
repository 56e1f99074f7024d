//! The game controllers that are connected, by their instance ids.

use std::collections::HashMap;
use vstd::prelude::*;

verus! {

broadcast use vstd::std_specs::hash::group_hash_axioms;

/// Keeps the handle of each connected controller under the instance id that
/// the windowing layer gave it. Opening and closing a controller is the
/// host's work: it hands in what it opened and gets back what it is to
/// close.
pub struct GameControllerManager<C> {
    controllers: HashMap<u32, C>,
}

impl<C> View for GameControllerManager<C> {
    type V = Map<u32, C>;

    closed spec fn view(&self) -> Map<u32, C> {
        self.controllers@
    }
}

impl<C> GameControllerManager<C> {
    /// A manager without controllers.
    pub fn new() -> (manager: Self)
        ensures
            manager@ == Map::<u32, C>::empty(),
    {
        GameControllerManager { controllers: HashMap::new() }
    }

    /// Takes in a controller that was opened, under its instance id. A
    /// controller that was kept under that id before is handed back.
    pub fn added_controller(&mut self, instance_id: u32, controller: C) -> (replaced: Option<C>)
        ensures
            final(self)@ == old(self)@.insert(instance_id, controller),
            replaced == if old(self)@.contains_key(instance_id) {
                Some(old(self)@[instance_id])
            } else {
                None
            },
    {
        self.controllers.insert(instance_id, controller)
    }

    /// Takes out the controller with the instance id `which` and hands it
    /// back, to be closed.
    pub fn removed_controller(&mut self, which: u32) -> (removed: Option<C>)
        ensures
            final(self)@ == old(self)@.remove(which),
            removed == if old(self)@.contains_key(which) {
                Some(old(self)@[which])
            } else {
                None
            },
    {
        self.controllers.remove(&which)
    }

    /// The number of controllers kept.
    pub fn len(&self) -> (count: usize)
        ensures
            count == self@.len(),
    {
        self.controllers.len()
    }
}

impl<C> Default for GameControllerManager<C> {
    fn default() -> (manager: Self)
        ensures
            manager@ == Map::<u32, C>::empty(),
    {
        GameControllerManager::new()
    }
}

impl<C: Clone> GameControllerManager<C> {
    /// A copy of the controllers kept, for the input of one frame.
    pub fn snapshot(&self) -> (copy: HashMap<u32, C>)
        ensures
            copy@ == self@,
    {
        self.controllers.clone()
    }
}

} // verus!
