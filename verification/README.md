# momentum_transfer

Momentum rules for a Super Smash Bros. Ultimate plugin, verified with Verus.

- `src/kinds.rs`: the game constants (status, fighter and situation kinds),
  which the game assigns at run time and the caller hands in.
- `src/object.rs`: battle-object category, player slot, and the module on
  whose load the hooks are installed.
- `src/slots.rs`: one value per player.
- `src/momentum.rs`: the per-frame bookkeeping plan, the choice of a jump's
  speed formula, and the state they share (per-player tables and the pending
  footstool).
- `src/hooks.rs`: the decisions of the jump, aerial-attack and kinetic-type hooks.
- `src/laws.rs`: properties of the rules, proved.
- `app/`: the plugin itself: hooks, reading the game, and all floating-point
  arithmetic (speed formulas, caps and thresholds).
