# flappy

The rules of a small flappy-bird game, verified with Verus, and the game
around them.

- `src/` is the library. `state` holds the screens (loading, waiting, playing,
  game over) and the checks that move between them; `bird` the bird's wing
  animation, gravity, flap and flight; `world` the ground and the pipes that
  scroll past; `classic` a simpler, frame-counted variant of the game.
  Positions are fixed-point integers (billionths of a pixel, see `units`), so
  that every rule is exact.
- `app/` runs the game on the Bevy engine: it loads the sprites, ticks the
  timers, reads the keyboard, converts the engine's float transforms to and
  from the library's positions, and draws. The float-only parts (the hover's
  sine, the dive angle's arctangent, the engine's box collision test) live
  there.
