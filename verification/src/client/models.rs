//! Which models are alive.
use std::collections::HashSet;
use vstd::prelude::*;

verus! {

/// Identifies a model of the application.
pub type ModelId = u64;

/// The models that are alive. A weak handle names a model by its id, and can be upgraded for
/// as long as the model is registered here.
pub struct ModelRegistry {
    live: HashSet<ModelId>,
}

impl View for ModelRegistry {
    type V = Set<ModelId>;

    closed spec fn view(&self) -> Set<ModelId> {
        self.live@
    }
}

impl ModelRegistry {
    /// No model is alive.
    pub fn new() -> (r: Self)
        ensures
            r@ == Set::<ModelId>::empty(),
    {
        ModelRegistry { live: HashSet::new() }
    }

    /// A model comes to life.
    pub fn insert(&mut self, model: ModelId)
        ensures
            final(self)@ == old(self)@.insert(model),
    {
        broadcast use vstd::std_specs::hash::group_hash_axioms;

        self.live.insert(model);
    }

    /// The last strong handle to a model goes away.
    pub fn release(&mut self, model: ModelId)
        ensures
            final(self)@ == old(self)@.remove(model),
    {
        broadcast use vstd::std_specs::hash::group_hash_axioms;

        self.live.remove(&model);
    }

    /// A strong handle to a model, if it is alive.
    pub fn upgrade(&self, model: ModelId) -> (r: Option<ModelId>)
        ensures
            r == if self@.contains(model) {
                Some(model)
            } else {
                None
            },
    {
        broadcast use vstd::std_specs::hash::group_hash_axioms;

        if self.live.contains(&model) {
            Some(model)
        } else {
            None
        }
    }
}

}
