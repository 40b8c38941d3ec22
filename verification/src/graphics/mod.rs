//! What the engine hands the GPU about its vertex data.

pub mod gl;
