# skyrim_uncapper

Verified runtime override layer of the Skyrim skill uncapper: per-save
values set from the in-game menu that take precedence over the INI baseline
until they are cleared.

- `src/skills.rs` — the eighteen skills and their slot numbers.
- `src/breakpoints.rs` — the mathematics of breakpoint tables: the breakpoint
  in effect at a level, the validity of a committed table, and the
  accumulation of perks over levels.
- `src/tables.rs` — the four breakpoint table kinds (stage, commit, look up).
- `src/legendary.rs` — Legendary settings packed into a word, written
  through two slots.
- `src/runtime_settings.rs` — the whole override state and its operations.
- `src/ini.rs` — the whole-number part of the INI baseline.
- `src/mcm_api.rs` — the argument-checking interface the menu calls.
- `src/laws.rs` — properties of the layer as a whole.
- `app/lib.rs` — the C ABI entry points over a process-wide state, and the
  conversion of fractional INI values.
