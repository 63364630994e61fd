# spacegame

Gameplay logic of EverFight, a top-down space shooter, written in Verus.

- `src/` is the library, verified by Verus: inventory and pickups, timers (in
  microseconds of game time), input mapping, scene stack, asset bookkeeping,
  animations, waves and stages, scripted levels, enemy behaviour, hits and
  deaths, collision filtering and collision consequences, terrain layout, noise
  permutation tables, prefab data, and the random draws built on `rand`. The
  `law_*` proof functions state properties that hold across calls.
  A few small functions marked `#[verifier::external_body]` call `rand` and std
  formatting and parsing; their contracts are believed, not proved, and each
  one's doc comment says what it claims.
- `app/` is a headless driver: it reads the JSON configuration with serde, does
  the floating-point parts of the game (physics, hull and shield points, noise
  values, difficulty curves, colors) and plays a stage with the library.
- `tests/` exercises the library on concrete values.
