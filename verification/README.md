# tdrace_session

The race-session rules of the TDRace arcade racing game, written in Verus
and proved against their contracts.

`src/` is the verified library. Each screen of the session is a function
from its state and one frame of input to its new state and the actions it
asks for; around them sit the rules of the session itself:

- `screens`, `flow`, `hotkeys`: the screen model, the countdown, pause and
  finished screens, screen transitions, the standings screen, display
  settings and the visibility aids.
- `menus`, `lobby`, `career_hub`, `garage`, `profiles`, `profile_form`,
  `workshop`, `editor`: the module hub, modality selection, circuit menu,
  career selection, Starting Grid, GT career hub, garage showroom, profile
  screen, profile and roster forms, circuit workshop and track editor
  shortcuts.
- `grid`, `standings`, `roster`, `career`, `calendars`, `series`, `modules`,
  `records`: grid ordering, race standings and results, roster sizing and
  remembered preferences, career rewards and tiers, cup calendars, season
  bookkeeping, motorsport modules, and the record caches.

`tests/` runs the library on concrete values. `app/` holds what stays
outside the proofs: the floating-point engine model and telemetry, the
serialisable copies of the library's records, and the conversions from
seconds to the library's integer time units.
