# salamander_rain

The rules of Salamander Rain Dash, a small Bevy arcade game, as a verified
library, with the game itself around it.

- `src/` is the library, proved with Verus: the screen state machine and its
  key handling, the round lifecycle (start, pause, resume, leave), firefly
  collection and the best score, rain hits, lives and the hit cooldown, the
  rain timer, steering from the held keys, the level table (firefly goals,
  lives, rain interval and speed) and level progression, the HUD and menu
  texts, and reading and writing the best-score file. Timers count in
  nanoseconds; their ticking is done by `bevy::time::Timer`. `src/laws.rs`
  holds the properties that span several calls.
- `app/` is the Bevy program: windows, sprites, text, input, files, and
  everything computed in floating point (positions, collisions, particles,
  camera shake, level tints and rain multipliers). It asks the library for
  every decision.
- `tests/` runs the library on concrete values, and checks its timers against
  Bevy's.
