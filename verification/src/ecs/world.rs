//! The world: all entities with their components, and the systems that run
//! over them.

use std::collections::HashMap;
use vstd::prelude::*;
use crate::ecs::components::{Component, Components};
use crate::ecs::systems::{System, entities_view};
use crate::ecs::systems::movement_system::{MovementSystem, moved_entities};

verus! {

/// The entities after each of `systems` has run once, in order, starting
/// from `start`.
pub open spec fn run_systems<S: System>(
    systems: Seq<S>,
    start: Map<u32, Map<Seq<char>, Component>>,
) -> Map<u32, Map<Seq<char>, Component>>
    decreases systems.len(),
{
    if systems.len() == 0 {
        start
    } else {
        systems.last().apply(run_systems(systems.drop_last(), start))
    }
}

/// The systems after each of `systems` has run once, in order, starting
/// from the entities `start`: the same systems in the same order, each as
/// its own run left it, having seen the entities the systems before it left.
pub open spec fn systems_after<S: System>(
    systems: Seq<S>,
    start: Map<u32, Map<Seq<char>, Component>>,
) -> Seq<S> {
    Seq::new(systems.len(), |i: int| systems[i].next(run_systems(systems.take(i), start)))
}

/// All entities, each with its components, and the systems that update them.
pub struct ECSWorld<S: System> {
    entities: HashMap<u32, Components>,
    systems: Vec<S>,
}

impl<S: System> ECSWorld<S> {
    /// The entities by id, each as the map of its components.
    pub closed spec fn entities(&self) -> Map<u32, Map<Seq<char>, Component>> {
        entities_view(self.entities@)
    }

    /// The systems, in the order they run.
    pub closed spec fn systems(&self) -> Seq<S> {
        self.systems@
    }

    /// A world with no entities and no systems.
    pub fn new() -> (world: Self)
        ensures
            world.entities() == Map::<u32, Map<Seq<char>, Component>>::empty(),
            world.systems() == Seq::<S>::empty(),
    {
        let world = ECSWorld { entities: HashMap::new(), systems: Vec::new() };
        assert(world.entities() =~= Map::<u32, Map<Seq<char>, Component>>::empty());
        world
    }

    /// Puts the entity `entity_id` into the world with `components`,
    /// replacing an entity of that id.
    pub fn add_entity(&mut self, entity_id: u32, components: Components)
        ensures
            final(self).entities() == old(self).entities().insert(entity_id, components@),
            final(self).systems() == old(self).systems(),
    {
        broadcast use vstd::std_specs::hash::group_hash_axioms;

        self.entities.insert(entity_id, components);
        assert(final(self).entities() =~= old(self).entities().insert(entity_id, components@));
    }

    /// Adds `system` after the systems already in the world.
    pub fn add_system(&mut self, system: S)
        ensures
            final(self).systems() == old(self).systems().push(system),
            final(self).entities() == old(self).entities(),
    {
        self.systems.push(system);
    }

    /// Runs every system once over the entities, in the order the systems
    /// were added; the systems stay in that order, each as its run left it.
    pub fn update(&mut self)
        ensures
            final(self).entities() == run_systems(old(self).systems(), old(self).entities()),
            final(self).systems() == systems_after(old(self).systems(), old(self).entities()),
            final(self).systems().len() == old(self).systems().len(),
            forall|i: int|
                0 <= i < old(self).systems().len() ==> #[trigger] final(self).systems()[i] == old(
                    self,
                ).systems()[i].next(run_systems(old(self).systems().take(i), old(self).entities())),
    {
        let mut pending: Vec<S> = Vec::new();
        std::mem::swap(&mut pending, &mut self.systems);
        let ghost systems = pending@;
        let ghost start = entities_view(self.entities@);
        let mut done: Vec<S> = Vec::new();
        assert(systems.take(0) =~= Seq::<S>::empty());
        assert(pending@ =~= systems.subrange(0, systems.len() as int));
        while pending.len() > 0
            invariant
                done@.len() + pending@.len() == systems.len(),
                forall|j: int|
                    0 <= j < done@.len() ==> #[trigger] done@[j] == systems[j].next(
                        run_systems(systems.take(j), start),
                    ),
                pending@ == systems.subrange(done@.len() as int, systems.len() as int),
                entities_view(self.entities@) == run_systems(
                    systems.take(done@.len() as int),
                    start,
                ),
            decreases pending@.len(),
        {
            let ghost k = done@.len() as int;
            let mut system = pending.remove(0);
            assert(system == systems[k]);
            assert(entities_view(self.entities@) == run_systems(systems.take(k), start));
            system.update(&mut self.entities);
            done.push(system);
            assert(systems.take(k + 1).drop_last() =~= systems.take(k));
            assert(pending@ =~= systems.subrange(k + 1, systems.len() as int));
        }
        assert(systems.take(systems.len() as int) =~= systems);
        assert(done@ =~= systems_after(systems, start));
        self.systems = done;
    }

    /// The components of the entity `entity_id`, if the world has it.
    pub fn entity(&self, entity_id: u32) -> (result: Option<&Components>)
        ensures
            match result {
                Some(c) => self.entities().contains_key(entity_id) && c@ == self.entities()[entity_id],
                None => !self.entities().contains_key(entity_id),
            },
    {
        broadcast use vstd::std_specs::hash::group_hash_axioms;

        self.entities.get(&entity_id)
    }

    /// The number of entities.
    pub fn entity_count(&self) -> (result: usize)
        ensures
            result == self.entities().len(),
    {
        broadcast use vstd::std_specs::hash::group_hash_axioms;

        assert(self.entities().dom() =~= self.entities@.dom());
        self.entities.len()
    }

    /// The number of systems.
    pub fn system_count(&self) -> (result: usize)
        ensures
            result == self.systems().len(),
    {
        self.systems.len()
    }
}

} // verus!

verus! {

/// An update of a world without systems leaves its entities as they were.
pub proof fn lemma_update_without_systems<S: System>(start: Map<u32, Map<Seq<char>, Component>>)
    ensures
        run_systems(Seq::<S>::empty(), start) == start,
{
}

/// A system added after the others runs after them: updating with it is
/// updating with the others, then running it once.
pub proof fn lemma_update_runs_added_system_last<S: System>(
    systems: Seq<S>,
    added: S,
    start: Map<u32, Map<Seq<char>, Component>>,
)
    ensures
        run_systems(systems.push(added), start) == added.apply(run_systems(systems, start)),
{
    assert(systems.push(added).drop_last() =~= systems);
}

/// An entity reads back as it was added, and adding it leaves every other
/// entity as it was.
pub proof fn lemma_added_entity_reads_back(
    entities: Map<u32, Map<Seq<char>, Component>>,
    entity_id: u32,
    components: Map<Seq<char>, Component>,
    other: u32,
)
    ensures
        entities.insert(entity_id, components).contains_key(entity_id),
        entities.insert(entity_id, components)[entity_id] == components,
        other != entity_id ==> (entities.insert(entity_id, components).contains_key(other)
            <==> entities.contains_key(other)),
        other != entity_id && entities.contains_key(other) ==> entities.insert(
            entity_id,
            components,
        )[other] == entities[other],
{
}

} // verus!

verus! {

/// In a world whose one system is the movement system, an update advances
/// every entity that has a position and a velocity by one step.
pub proof fn lemma_movement_world_update(start: Map<u32, Map<Seq<char>, Component>>)
    ensures
        run_systems(seq![MovementSystem], start) == moved_entities(start),
{
    let systems = seq![MovementSystem];
    assert(systems.drop_last() =~= Seq::<MovementSystem>::empty());
    assert(run_systems(systems.drop_last(), start) == start);
    assert(systems.last().apply(start) == moved_entities(start));
}

} // verus!

verus! {

/// Every system runs once per update, duplicates included: a world with the
/// movement system added twice, updated once, holds the same entities as a
/// world with it added once, updated twice.
pub proof fn lemma_duplicate_system_runs_twice(start: Map<u32, Map<Seq<char>, Component>>)
    ensures
        run_systems(seq![MovementSystem, MovementSystem], start) == moved_entities(
            moved_entities(start),
        ),
        run_systems(
            systems_after(seq![MovementSystem], start),
            run_systems(seq![MovementSystem], start),
        ) == moved_entities(moved_entities(start)),
{
    let twice = seq![MovementSystem, MovementSystem];
    assert(twice.drop_last() =~= seq![MovementSystem]);
    lemma_movement_world_update(start);
    assert(run_systems(twice.drop_last(), start) == moved_entities(start));
    let after = systems_after(seq![MovementSystem], start);
    assert(after =~= seq![MovementSystem]);
    lemma_movement_world_update(moved_entities(start));
}

} // verus!

verus! {

/// After an update the systems keep their number and their order: the
/// `i`th system is the `i`th system before, as its own run left it, having
/// seen the entities that the systems before it left; and a system added
/// last stays last, having seen what all the others left.
pub proof fn lemma_systems_keep_their_order<S: System>(
    systems: Seq<S>,
    added: S,
    start: Map<u32, Map<Seq<char>, Component>>,
)
    ensures
        systems_after(systems, start).len() == systems.len(),
        forall|i: int|
            0 <= i < systems.len() ==> #[trigger] systems_after(systems, start)[i]
                == systems[i].next(run_systems(systems.take(i), start)),
        systems_after(systems.push(added), start) == systems_after(systems, start).push(
            added.next(run_systems(systems, start)),
        ),
{
    let longer = systems.push(added);
    assert forall|i: int| 0 <= i < systems.len() implies #[trigger] longer.take(i) == systems.take(
        i,
    ) by {
        assert(longer.take(i) =~= systems.take(i));
    }
    assert(longer.take(systems.len() as int) =~= systems);
    assert(systems_after(longer, start) =~= systems_after(systems, start).push(
        added.next(run_systems(systems, start)),
    ));
}

/// The entities' view keeps every id, and shows each entity as its
/// components' map.
pub proof fn lemma_entities_view(entities: Map<u32, Components>)
    ensures
        entities_view(entities).dom() == entities.dom(),
        forall|id: u32| #[trigger] entities.contains_key(id) ==> entities_view(entities)[id]
            == entities[id]@,
{
    assert(entities_view(entities).dom() =~= entities.dom());
}

} // verus!
