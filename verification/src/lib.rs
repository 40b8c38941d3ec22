//! The engine's verified core: an entity-component store with its systems,
//! the decisions that drive the window's event loop, and the layout of the
//! vertex data.

pub mod ecs;
pub mod graphics;
pub mod render;
