//! Systems: the logic that runs over all entities on each update.

pub mod movement_system;

use std::collections::HashMap;
use vstd::prelude::*;
use crate::ecs::components::{Component, Components};

verus! {

/// The entities by id, each as the map of its components.
pub open spec fn entities_view(entities: Map<u32, Components>) -> Map<u32, Map<Seq<char>, Component>> {
    entities.map_values(|c: Components| c@)
}

/// A piece of logic that runs over all entities, and may keep state of its
/// own from one run to the next.
pub trait System: Sized {
    /// The entities as they stand after this system has run once on `before`.
    spec fn apply(&self, before: Map<u32, Map<Seq<char>, Component>>) -> Map<
        u32,
        Map<Seq<char>, Component>,
    >;

    /// The system itself after it has run once on `before`.
    spec fn next(&self, before: Map<u32, Map<Seq<char>, Component>>) -> Self;

    /// Runs the system once over all entities.
    fn update(&mut self, entities: &mut HashMap<u32, Components>)
        ensures
            entities_view(final(entities)@) == old(self).apply(entities_view(old(entities)@)),
            *final(self) == old(self).next(entities_view(old(entities)@)),
    ;
}

} // verus!
