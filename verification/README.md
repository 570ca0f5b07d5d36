# background_game

Rules of a small top-down arcade shooter, verified with Verus, and the game
around them.

- `src/` — the verified library:
  - `ui` — the control panel: game mode, running and defeat flags, what each
    button press does, which colours and labels the panel shows.
  - `enemies` — the enemy roster, swarm-drone variants, the wave schedule
    (drone swarm, then kamikaze drones, then nothing until a reset) and the
    per-entity speed variation.
  - `random` — the 32-bit linear congruential generator behind wave sizes,
    spawn places and drone variants.
  - `collisions` — which enemy a projectile hits, when a kamikaze drone
    detonates, and how enemies touching the player are resolved.
  - `effects` — the trail emitter's timing, in microseconds.
  - `controls` — turning and thrust directions from the pressed keys.
- `app/` — the Bevy program: windows, sprites, UI nodes, the floating-point
  motion and geometry; it asks the library for every decision above.
- `tests/` — tests of the library.
