# pong

A two-paddle Pong game whose rules are verified with Verus.

- `src/` — the verified library: scoring (`score.rs`), the ball's speed
  levels and serve side (`ball.rs`), the menu and match state machine
  (`game.rs`), the winning score (`constants.rs`) and the laws the rules keep
  (`laws.rs`).
- `app/` — the macroquad program: window, textures, key polling, drawing and
  the floating-point motion of ball and paddles.  Each frame it hands the
  pressed keys to `Game::update`, performs the motion it is told to, and
  reports back through `Game::countdown_tick` or `Game::resolve_point`.
- `tests/` — tests of the library on concrete games.
