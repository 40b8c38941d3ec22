//! Moves every entity that has both a position and a velocity.

use std::collections::HashMap;
use vstd::prelude::*;
use vstd::std_specs::iter::IteratorSpec;
use crate::ecs::components::{
    Component, Components, Position, Velocity, position_key, velocity_key,
};
use super::{System, entities_view};

verus! {

/// Where an entity at `p` that moves with `v` stands after one step; each
/// coordinate wraps around at the bounds of `i64`.
pub open spec fn step(p: Position, v: Velocity) -> Position {
    Position { x: p.x.wrapping_add(v.dx), y: p.y.wrapping_add(v.dy) }
}

/// One entity's components after one movement step: if it keeps a
/// `Position` under the position name and a `Velocity` under the velocity
/// name, its position advances by its velocity; otherwise nothing changes.
pub open spec fn moved_components(c: Map<Seq<char>, Component>) -> Map<Seq<char>, Component> {
    if c.contains_key(position_key()) && c.contains_key(velocity_key()) {
        match (c[position_key()], c[velocity_key()]) {
            (Component::Position(p), Component::Velocity(v)) => c.insert(
                position_key(),
                Component::Position(step(p, v)),
            ),
            _ => c,
        }
    } else {
        c
    }
}

/// All entities after one movement step.
pub open spec fn moved_entities(e: Map<u32, Map<Seq<char>, Component>>) -> Map<
    u32,
    Map<Seq<char>, Component>,
> {
    e.map_values(|c: Map<Seq<char>, Component>| moved_components(c))
}

/// The system that advances each entity's position by its velocity.
pub struct MovementSystem;

impl MovementSystem {
    pub fn new() -> (result: Self)
        ensures
            result == MovementSystem,
    {
        MovementSystem
    }
}

/// Advances one entity's position by its velocity, where it has both.
fn move_entity(components: &mut Components)
    ensures
        final(components)@ == moved_components(old(components)@),
{
    let moved: Option<Position> = match (components.get("Position"), components.get("Velocity")) {
        (Some(Component::Position(p)), Some(Component::Velocity(v))) => Some(
            Position { x: p.x.wrapping_add(v.dx), y: p.y.wrapping_add(v.dy) },
        ),
        _ => None,
    };
    if let Some(p) = moved {
        components.insert("Position".to_owned(), Component::Position(p));
    }
}

impl System for MovementSystem {
    open spec fn apply(&self, before: Map<u32, Map<Seq<char>, Component>>) -> Map<
        u32,
        Map<Seq<char>, Component>,
    > {
        moved_entities(before)
    }

    open spec fn next(&self, before: Map<u32, Map<Seq<char>, Component>>) -> Self {
        MovementSystem
    }

    fn update(&mut self, entities: &mut HashMap<u32, Components>) {
        broadcast use vstd::std_specs::hash::group_hash_axioms;

        let ghost before = entities@;
        let ghost keys = vstd::std_specs::hash::spec_keys_iter(&*entities).remaining().unref();
        let mut ids: Vec<u32> = Vec::new();
        for id in it: entities.keys()
            invariant
                it.seq().unref() == keys,
                ids@.len() == it.index(),
                forall|j: int| 0 <= j < it.index() ==> ids@[j] == keys[j],
        {
            ids.push(*id);
        }
        assert(ids@ =~= keys);
        assert(ids@.no_duplicates());
        assert(ids@.to_set() == before.dom());

        let n = ids.len();
        let mut i: usize = 0;
        while i < n
            invariant
                n == ids@.len(),
                0 <= i <= n,
                ids@.no_duplicates(),
                ids@.to_set() == before.dom(),
                entities@.dom() == before.dom(),
                forall|j: int|
                    0 <= j < i ==> (#[trigger] entities@[ids@[j]])@ == moved_components(
                        before[ids@[j]]@,
                    ),
                forall|j: int| i <= j < n ==> #[trigger] entities@[ids@[j]] == before[ids@[j]],
            decreases n - i,
        {
            let id = ids[i];
            assert(ids@.to_set().contains(id));
            let removed = entities.remove(&id);
            if let Some(mut c) = removed {
                move_entity(&mut c);
                entities.insert(id, c);
            }
            assert forall|j: int| 0 <= j < n && j != i implies ids@[j] != id by {
                assert(ids@[j] != ids@[i as int]);
            }
            i += 1;
        }
        assert forall|k: u32| #[trigger] before.dom().contains(k) implies entities@[k]@
            == moved_components(before[k]@) by {
            assert(ids@.to_set().contains(k));
            let j = choose|j: int| 0 <= j < n && ids@[j] == k;
            assert(entities@[ids@[j]]@ == moved_components(before[ids@[j]]@));
        }
        assert(entities_view(entities@) =~= moved_entities(entities_view(before)));
    }
}

} // verus!

verus! {

/// Movement keeps every entity and adds none.
pub proof fn lemma_movement_keeps_entities(e: Map<u32, Map<Seq<char>, Component>>)
    ensures
        moved_entities(e).dom() == e.dom(),
        forall|id: u32| #[trigger] e.contains_key(id) ==> moved_entities(e)[id] == moved_components(e[id]),
{
    assert(moved_entities(e).dom() =~= e.dom());
}

/// Movement touches nothing but the position: every name keeps its place,
/// every component under another name stays as it was, and an entity that
/// lacks a position or a velocity stays as it was.
pub proof fn lemma_movement_touches_only_position(c: Map<Seq<char>, Component>, name: Seq<char>)
    ensures
        moved_components(c).dom() == c.dom(),
        name != position_key() && c.contains_key(name) ==> moved_components(c)[name] == c[name],
        !(c.contains_key(position_key()) && c[position_key()] is Position && c.contains_key(
            velocity_key(),
        ) && c[velocity_key()] is Velocity) ==> moved_components(c) == c,
        c.contains_key(position_key()) && c.contains_key(velocity_key()) ==> (
        match (c[position_key()], c[velocity_key()]) {
            (Component::Position(p), Component::Velocity(v)) => moved_components(c)[position_key()]
                == Component::Position(step(p, v)),
            _ => true,
        }),
{
    assert(moved_components(c).dom() =~= c.dom());
}

/// An entity whose velocity is zero stays where it is.
pub proof fn lemma_zero_velocity_rests(c: Map<Seq<char>, Component>)
    requires
        c.contains_key(velocity_key()),
        c[velocity_key()] == Component::Velocity(Velocity { dx: 0, dy: 0 }),
    ensures
        moved_components(c) == c,
{
    if c.contains_key(position_key()) {
        match c[position_key()] {
            Component::Position(p) => {
                assert(step(p, Velocity { dx: 0, dy: 0 }) == p);
                assert(moved_components(c) =~= c);
            },
            _ => {},
        }
    }
}

} // verus!

verus! {

/// Two steps with the same velocity move as one step with twice that
/// velocity, with the same wrap-around at the bounds of `i64`.
pub proof fn lemma_two_steps(p: Position, v: Velocity)
    ensures
        step(step(p, v), v) == step(
            p,
            Velocity { dx: v.dx.wrapping_add(v.dx), dy: v.dy.wrapping_add(v.dy) },
        ),
{
    let a = p.x;
    let b = v.dx;
    assert(a.wrapping_add(b).wrapping_add(b) == a.wrapping_add(b.wrapping_add(b))) by (bit_vector);
    let c = p.y;
    let d = v.dy;
    assert(c.wrapping_add(d).wrapping_add(d) == c.wrapping_add(d.wrapping_add(d))) by (bit_vector);
}

} // verus!

verus! {

/// Two movement steps add the velocity twice to the position and leave the
/// velocity as it was, where no coordinate leaves the range of `i64` on the
/// way.
pub proof fn lemma_two_steps_exact(c: Map<Seq<char>, Component>, p: Position, v: Velocity)
    requires
        c.contains_key(position_key()),
        c.contains_key(velocity_key()),
        c[position_key()] == Component::Position(p),
        c[velocity_key()] == Component::Velocity(v),
        i64::MIN <= p.x + v.dx <= i64::MAX,
        i64::MIN <= p.y + v.dy <= i64::MAX,
        i64::MIN <= p.x + v.dx + v.dx <= i64::MAX,
        i64::MIN <= p.y + v.dy + v.dy <= i64::MAX,
    ensures
        moved_components(moved_components(c))[position_key()] == Component::Position(
            Position { x: (p.x + v.dx + v.dx) as i64, y: (p.y + v.dy + v.dy) as i64 },
        ),
        moved_components(moved_components(c))[velocity_key()] == Component::Velocity(v),
{
    reveal_strlit("Position");
    reveal_strlit("Velocity");
    assert(position_key() != velocity_key()) by {
        assert(position_key()[0] != velocity_key()[0]);
    }
    let once = moved_components(c);
    assert(once[velocity_key()] == Component::Velocity(v));
    assert(once[position_key()] == Component::Position(step(p, v)));
    assert(step(p, v) == Position { x: (p.x + v.dx) as i64, y: (p.y + v.dy) as i64 });
}

} // verus!

verus! {

/// One movement step puts the position at the old position plus the
/// velocity, each coordinate wrapping at the bounds of `i64`, keeps the
/// velocity, and keeps every other component.
pub proof fn lemma_one_step(c: Map<Seq<char>, Component>, p: Position, v: Velocity, name: Seq<char>)
    requires
        c.contains_key(position_key()),
        c.contains_key(velocity_key()),
        c[position_key()] == Component::Position(p),
        c[velocity_key()] == Component::Velocity(v),
    ensures
        moved_components(c)[position_key()] == Component::Position(
            Position { x: p.x.wrapping_add(v.dx), y: p.y.wrapping_add(v.dy) },
        ),
        moved_components(c)[velocity_key()] == Component::Velocity(v),
        moved_components(c).dom() == c.dom(),
        name != position_key() && c.contains_key(name) ==> moved_components(c)[name] == c[name],
        i64::MIN <= p.x + v.dx <= i64::MAX && i64::MIN <= p.y + v.dy <= i64::MAX
            ==> moved_components(c)[position_key()] == Component::Position(
            Position { x: (p.x + v.dx) as i64, y: (p.y + v.dy) as i64 },
        ),
{
    reveal_strlit("Position");
    reveal_strlit("Velocity");
    assert(position_key() != velocity_key()) by {
        assert(position_key()[0] != velocity_key()[0]);
    }
    assert(moved_components(c).dom() =~= c.dom());
}

} // verus!
