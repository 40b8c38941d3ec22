use onion_engine::ecs::components::{Component, Components, Position, Velocity};
use onion_engine::ecs::systems::movement_system::MovementSystem;
use onion_engine::ecs::systems::System;
use onion_engine::ecs::world::ECSWorld;
use std::collections::HashMap;

fn mover(x: i64, y: i64, dx: i64, dy: i64) -> Components {
    let mut c = Components::new();
    c.insert("Position".to_string(), Component::Position(Position { x, y }));
    c.insert("Velocity".to_string(), Component::Velocity(Velocity { dx, dy }));
    c
}

fn position_of(world: &ECSWorld<MovementSystem>, id: u32) -> Option<Component> {
    world.entity(id).and_then(|c| c.get("Position").copied())
}

#[test]
fn new_world_is_empty() {
    let world: ECSWorld<MovementSystem> = ECSWorld::new();
    assert_eq!(world.entity_count(), 0);
    assert_eq!(world.system_count(), 0);
    assert!(world.entity(0).is_none());
}

#[test]
fn added_entity_reads_back() {
    let mut world: ECSWorld<MovementSystem> = ECSWorld::new();
    world.add_entity(7, mover(1, 2, 3, 4));
    assert_eq!(world.entity_count(), 1);
    let c = world.entity(7).unwrap();
    assert_eq!(c.len(), 2);
    assert_eq!(c.get("Position"), Some(&Component::Position(Position { x: 1, y: 2 })));
    assert_eq!(c.get("Velocity"), Some(&Component::Velocity(Velocity { dx: 3, dy: 4 })));
    assert!(world.entity(8).is_none());
}

#[test]
fn adding_an_entity_again_replaces_it() {
    let mut world: ECSWorld<MovementSystem> = ECSWorld::new();
    world.add_entity(1, mover(1, 1, 0, 0));
    world.add_entity(1, Components::new());
    assert_eq!(world.entity_count(), 1);
    assert_eq!(world.entity(1).unwrap().len(), 0);
}

#[test]
fn update_without_systems_changes_nothing() {
    let mut world: ECSWorld<MovementSystem> = ECSWorld::new();
    world.add_entity(3, mover(10, 20, 1, 1));
    world.update();
    assert_eq!(position_of(&world, 3), Some(Component::Position(Position { x: 10, y: 20 })));
}

#[test]
fn movement_advances_position_by_velocity() {
    let mut world: ECSWorld<MovementSystem> = ECSWorld::new();
    world.add_entity(1, mover(10, 20, 3, -5));
    world.add_system(MovementSystem::new());
    assert_eq!(world.system_count(), 1);
    world.update();
    assert_eq!(position_of(&world, 1), Some(Component::Position(Position { x: 13, y: 15 })));
    assert_eq!(
        world.entity(1).unwrap().get("Velocity"),
        Some(&Component::Velocity(Velocity { dx: 3, dy: -5 }))
    );
    world.update();
    assert_eq!(position_of(&world, 1), Some(Component::Position(Position { x: 16, y: 10 })));
}

#[test]
fn every_entity_moves_once_per_system() {
    let mut world: ECSWorld<MovementSystem> = ECSWorld::new();
    world.add_entity(1, mover(0, 0, 1, 2));
    world.add_entity(2, mover(100, 100, -10, 0));
    world.add_system(MovementSystem::new());
    world.add_system(MovementSystem::new());
    world.update();
    assert_eq!(position_of(&world, 1), Some(Component::Position(Position { x: 2, y: 4 })));
    assert_eq!(position_of(&world, 2), Some(Component::Position(Position { x: 80, y: 100 })));
    assert_eq!(world.entity_count(), 2);
}

#[test]
fn entity_without_velocity_stays() {
    let mut world: ECSWorld<MovementSystem> = ECSWorld::new();
    let mut c = Components::new();
    c.insert("Position".to_string(), Component::Position(Position { x: 5, y: 6 }));
    c.insert("Speed".to_string(), Component::Velocity(Velocity { dx: 1, dy: 1 }));
    world.add_entity(4, c);
    world.add_system(MovementSystem::new());
    world.update();
    assert_eq!(position_of(&world, 4), Some(Component::Position(Position { x: 5, y: 6 })));
}

#[test]
fn components_of_the_wrong_kind_are_left_alone() {
    let mut world: ECSWorld<MovementSystem> = ECSWorld::new();
    let mut c = Components::new();
    c.insert("Position".to_string(), Component::Opaque(9));
    c.insert("Velocity".to_string(), Component::Velocity(Velocity { dx: 1, dy: 1 }));
    world.add_entity(2, c);
    let mut d = Components::new();
    d.insert("Position".to_string(), Component::Position(Position { x: 1, y: 1 }));
    d.insert("Velocity".to_string(), Component::Position(Position { x: 5, y: 5 }));
    world.add_entity(3, d);
    world.add_system(MovementSystem::new());
    world.update();
    assert_eq!(position_of(&world, 2), Some(Component::Opaque(9)));
    assert_eq!(position_of(&world, 3), Some(Component::Position(Position { x: 1, y: 1 })));
}

#[test]
fn zero_velocity_rests() {
    let mut world: ECSWorld<MovementSystem> = ECSWorld::new();
    world.add_entity(1, mover(-7, 8, 0, 0));
    world.add_system(MovementSystem::new());
    world.update();
    assert_eq!(position_of(&world, 1), Some(Component::Position(Position { x: -7, y: 8 })));
}

#[test]
fn position_wraps_at_the_bounds() {
    let mut world: ECSWorld<MovementSystem> = ECSWorld::new();
    world.add_entity(1, mover(i64::MAX, i64::MIN, 1, -1));
    world.add_system(MovementSystem::new());
    world.update();
    assert_eq!(
        position_of(&world, 1),
        Some(Component::Position(Position { x: i64::MIN, y: i64::MAX }))
    );
}

#[test]
fn movement_system_runs_on_a_plain_map() {
    let mut entities: HashMap<u32, Components> = HashMap::new();
    entities.insert(1, mover(1, 1, 1, 1));
    entities.insert(2, Components::new());
    let mut system = MovementSystem::new();
    system.update(&mut entities);
    assert_eq!(entities.len(), 2);
    assert_eq!(
        entities[&1].get("Position"),
        Some(&Component::Position(Position { x: 2, y: 2 }))
    );
    assert_eq!(entities[&2].len(), 0);
}

#[test]
fn components_insert_replaces_by_name() {
    let mut c = Components::new();
    assert_eq!(c.len(), 0);
    assert_eq!(c.get("Position"), None);
    c.insert("Tag".to_string(), Component::Opaque(1));
    c.insert("Tag".to_string(), Component::Opaque(2));
    assert_eq!(c.len(), 1);
    assert_eq!(c.get("Tag"), Some(&Component::Opaque(2)));
}

#[test]
fn duplicate_system_matches_two_updates() {
    let mut twice: ECSWorld<MovementSystem> = ECSWorld::new();
    twice.add_entity(1, mover(3, -4, 7, 2));
    twice.add_system(MovementSystem::new());
    twice.add_system(MovementSystem::new());
    twice.update();
    let mut once: ECSWorld<MovementSystem> = ECSWorld::new();
    once.add_entity(1, mover(3, -4, 7, 2));
    once.add_system(MovementSystem::new());
    once.update();
    once.update();
    assert_eq!(position_of(&twice, 1), position_of(&once, 1));
    assert_eq!(position_of(&once, 1), Some(Component::Position(Position { x: 17, y: 0 })));
    assert_eq!(twice.system_count(), 2);
    assert_eq!(once.system_count(), 1);
    assert_eq!(
        once.entity(1).unwrap().get("Velocity"),
        Some(&Component::Velocity(Velocity { dx: 7, dy: 2 }))
    );
}
