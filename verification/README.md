# fathom

The logic of a framework for GPU simulation apps with an interface around them, and of
its two bundled apps (an N-body gravity simulation and ECP-Life, particle life with a
colour-energy ledger), written in Verus with its contracts proved.

## Layout

```
src/params.rs        parameter schemas and the uniform-friendly block that holds their values
src/runner.rs        the shared loop's decisions: command routing, the transport, camera gestures
src/shell.rs         the panel's decisions: groups, controls, selects, drags, the drawer
src/native.rs        the native host's messages and surface decisions (child, surface)
src/app.rs           command declarations
src/event.rs         input event types
src/rng.rs           the seeded generator both apps draw from
src/text.rs          string comparison, prefix stripping and joining
src/gravity*         the gravity app: schema, commands, scene splits, launch slots, trails
src/ecp_life*        ECP-Life: schema, commands, presets, landscape orders, grid and table lookups
tests/               tests of the library, run against the compiled crate
app/                 the host side: floating-point physics, scenes, camera, clock, control
                     arithmetic, serde forms of the library's types, and a runner
```

The library decides and the host measures: every floating-point quantity (positions,
energies, landscapes, camera geometry) lives in `app/`, and every decision about what a
command, key, frame or gesture does lives in `src/`, where Verus checks it.
