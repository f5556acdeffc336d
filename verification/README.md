# tcg_expansions

Expansion rules for an EX-era Pokémon TCG engine: Dragon Frontiers card bodies,
set-wide rules and Trainers, the Crystal Guardians and Holon Phantoms hook
shells, and the registry that installs and composes expansions on a match.
Everything under `src/` is verified with Verus, except two trusted items
whose contracts Verus takes on faith: the declaration of `rand_core::OsRng`
(`ExOsRng`) and the wrapper `os_try_next_u64` around its `try_fill_bytes`.

Layout:

- `src/tcg_core/` — the board the rules act on (`GameState` and its view
  `GameV`), card metadata, prompts, modifiers, and the entry points
  (`custom_abilities`) that ask the installed expansions.
- `src/registry.rs` — `create_hooks` / `create_hooks_for`, one dispatch
  function per hook, and the laws of composition.
- `src/df/` — Dragon Frontiers: `engine` (set-wide rules), `cards/` (one module
  per card), `helpers`, `trainers`, and `runtime` (the merge of those layers).
- `src/cg/`, `src/hp/` — the Crystal Guardians and Holon Phantoms hooks.
- `app/` — reading a Tool's JSON effect into the metadata the library reads.

Model notes: installed expansions are a set of flags (`RuntimeHooks`); effect
ids are an enum (`EffectId`); damage counters saturate at `u16::MAX` and are
not checked for Knock Outs here; a shuffle cuts the deck at a point the seed
chooses strictly inside it; damage an attack deals is a tenth of it in counters, stopped on the
Bench by Bench protection, with no Weakness or Resistance (the board does not
record them); an attack's Energy cost is met by matching each typed
requirement to a different attached Energy card.
