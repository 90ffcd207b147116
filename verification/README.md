# breakout

The rules of a small Bevy breakout game, as a verified library, and the
Bevy program around it.

- `src/state.rs`: the game's phases, the start key, the clear check, and the
  cycle that every requested state change follows.
- `src/ball.rs`: what the walls do to the ball and when a round is lost.
- `src/paddle.rs`: the paddle's steering from the held keys.
- `src/block.rs`: the wall of blocks, cell by cell, in building order.
- `src/collision.rs`: which block the ball destroys in a frame, and how it
  bounces.
- `src/ui.rs`: the lines of the title, cleared and game-over screens.
- `app/`: the Bevy program. Positions, velocities and times are `f32`, so the
  geometry (wall tests, nearest points, distances, the paddle's bounce angle,
  the blink) is computed there and handed to the library as booleans and
  contacts. The program needs Bevy's default features (a window backend) to
  open a window.
