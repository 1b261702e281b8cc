# obito

The decision logic of the Obito engine, verified with Verus.

- `src/surface.rs`: the surface extent (never an empty side) and how it
  follows window resizes; what acquiring a frame leads to.
- `src/mesh.rs`: the index lists of the grid and the cube, their index
  buffer bytes, and the draws of a frame.
- `src/text.rs`: substring search and the window title from C string bytes.
- `src/lifecycle.rs`: the window application as a state machine from event
  to action, with its laws.
- `app/`: the wgpu renderer and the winit event loop that perform those
  actions, and the C entry point `create_obito_window`.
