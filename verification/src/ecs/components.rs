//! Components: the values an entity keeps, each under a name.

use vstd::prelude::*;
use vstd::hash_map::StringHashMap;

verus! {

/// The name under which an entity keeps its position.
pub open spec fn position_key() -> Seq<char> {
    "Position"@
}

/// The name under which an entity keeps its velocity.
pub open spec fn velocity_key() -> Seq<char> {
    "Velocity"@
}

/// Where an entity stands, in world units.
#[derive(Clone, Copy, Debug, PartialEq, Eq, Structural)]
pub struct Position {
    pub x: i64,
    pub y: i64,
}

/// How far an entity moves in one update, in world units.
#[derive(Clone, Copy, Debug, PartialEq, Eq, Structural)]
pub struct Velocity {
    pub dx: i64,
    pub dy: i64,
}

/// One component value. A component of a kind that no system of this
/// library reads is `Opaque`, carried by a number that identifies it.
#[derive(Clone, Copy, Debug, PartialEq, Eq, Structural)]
pub enum Component {
    Position(Position),
    Velocity(Velocity),
    Opaque(u64),
}

/// The components of one entity, each under its name.
pub struct Components {
    map: StringHashMap<Component>,
}

impl View for Components {
    type V = Map<Seq<char>, Component>;

    closed spec fn view(&self) -> Map<Seq<char>, Component> {
        self.map@
    }
}

impl Components {
    /// An entity with no components.
    pub fn new() -> (result: Self)
        ensures
            result@ == Map::<Seq<char>, Component>::empty(),
    {
        Components { map: StringHashMap::new() }
    }

    /// Puts `component` under `name`, replacing what was there.
    pub fn insert(&mut self, name: String, component: Component)
        ensures
            final(self)@ == old(self)@.insert(name@, component),
    {
        self.map.insert(name, component);
    }

    /// The component under `name`, if there is one.
    pub fn get(&self, name: &str) -> (result: Option<&Component>)
        ensures
            match result {
                Some(c) => self@.contains_key(name@) && *c == self@[name@],
                None => !self@.contains_key(name@),
            },
    {
        self.map.get(name)
    }

    /// The number of components.
    pub fn len(&self) -> (result: usize)
        ensures
            result == self@.len(),
    {
        self.map.len()
    }
}

} // verus!
