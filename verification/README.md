# virtual_joystick

The decisions of an on-screen virtual joystick, verified with Verus.

- `src/state.rs` – the joystick state and the press it tracks.
- `src/input.rs` – one frame of touch and mouse input applied to a joystick
  (press, follow, release) and the choice of the area it listens on.
- `src/events.rs` – the events and the action callback owed for a frame.
- `src/behavior.rs` – behavior markers and their decisions: visibility of an
  invisible joystick, where the base and knob of fixed, floating and dynamic
  joysticks come from, the axes that axis locks keep, and which child gives
  the base its measure.
- `src/systems.rs` – which joysticks still need a state, and which are laid out.

Positions are an opaque type parameter: the library never computes on them.
`app/` holds the engine side: ECS queries and writes, and the floating-point
geometry (knob deflection, dead zone, eight-way snapping, layout).
