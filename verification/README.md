# onion_engine

The verified core of a small game engine.

- `src/ecs/` holds the entity-component store: `Components` (an entity's
  components by name), the `System` trait with the `MovementSystem`, and
  `ECSWorld`, which keeps the entities and runs the systems in the order they
  were added, keeping each system as its own run left it. Contracts speak of the entities as a map from id to a map from
  component name to component.
- `src/render.rs` holds the decisions of the window loop: which actions answer
  each window event, what follows a frame that could not be drawn, when the
  drawing surface takes a new size, which surface format is used, and the
  layout of the instance grid.
- `src/graphics/gl.rs` holds the layout of a vertex in the vertex buffer
  (stride and attribute offsets).
- `app/` is the demo program around it: window, GPU setup and drawing
  (winit, wgpu), the floating-point camera and maths, and the demo game's
  screens.
