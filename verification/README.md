# BrainBreak

Motion games played in front of a camera (or with a keyboard or gamepad):
a beat runner in three modes, a freeze-dance "supernova" party game and
custom games described by a JSON document.

## Layout

- `src/` — the rules, verified with Verus:
  - `action.rs` — the action vocabulary, held poses to action masks, rising-edge
    triggering, the keyboard fallback;
  - `game_state.rs` — modes, beat targets and beat scoring;
  - `runtime.rs` — the per-frame motion runtime (tracking, hits and misses);
  - `runner.rs` — the runner's phase machine, obstacles, lanes and scoring;
  - `supernova.rs` — dance and freeze rounds, combos, stars and the final score;
  - `config.rs`, `config_game.rs`, `config_lanes.rs` — custom game documents
    and their mechanics (pump, hold, pattern, dodge, catch);
  - `presentation.rs` — the words, figures and symbols shown to players;
  - `bridge.rs` — the page bridge's pose buffer format and event codes;
  - `session.rs` — auto-start, replay and the party-director cues of the game loop;
  - `mode_art.rs` — decoding of the result-screen art (simple lossy WebP
    files within the size and dimension limits).
- `app/` — the program: the window and drawing, the clocks and distances
  (floating-point seconds and lengths), pose geometry, the page bridge and
  the parsing of custom game documents.
- `tests/` — tests of the library.

The library never measures time or space itself: the host reports what its
clocks and geometry say (a countdown ran out, an obstacle reached the line,
a hand is above the shoulder) and the library decides what follows.
