# mana

The rules of a small networked top-down action game, verified with Verus.

- `src/` is the library: tick arithmetic on the wrapping 16-bit tick counter,
  the conversion between durations and ticks, the per-tick decisions taken on
  player input (slash, move), ability expiry, the choice of a sprite's
  animation and of its playback position, the replication plan of player
  entities, and the drawing of client identities.
- `app/` is the game itself on top of bevy and lightyear: plugins, systems,
  rendering and networking, and the floating-point movement. It converts the
  engine's components to the library's plain values (floats travel as their
  bit patterns) and back.
- `tests/` runs the library on concrete values.
