//! Entities, their named components, and the systems that update them.

pub mod components;
pub mod systems;
pub mod world;
