# xander

A rules engine for Dungeons & Dragons combat, verified with Verus.

- `src/` is the verified library: distances and time (`measure`), dice expressions (`dice`),
  ability scores, skills, proficiencies and d20 tests (`stats`), hit points, damage types and
  resistances (`health`), creatures and their statistics (`creature`), the battle grid, the
  combat clock, turns, attacks and reactions (`combat`), creature files (`json`) and schools
  of magic (`magic`). Each public function states what it does in its `ensures`; the laws
  that span several functions are public proof functions (named `lemma_*`).
- `app/` runs a combat around the library: it reads creature files with serde, asks the
  agents what to do, rolls their dice, and feeds the results back to the library.
- `tests/` exercises the library on concrete values.

A combat is driven step by step: `Combat::advance` says whose turn starts (or that the
combat is over); the agent then moves (`plan_move`, then `complete_move` once any attacks of
opportunity are resolved) and acts (`dash`, `disengage`, `dodge`, or `begin_attack`, the dice,
`resolve_attack_roll`, `finish_attack`).
