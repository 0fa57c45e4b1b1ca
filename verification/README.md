# avian_pickup

The decisions of a pickup mechanic for physics props in a Bevy game, verified
with Verus.

- `src/input.rs`: the input messages, the response of an actor to an input,
  how a pull search ends, and proofs of what holds across a whole input
  (an actor never trades one prop for another, throwing and dropping leave it
  empty-handed, a pickup needs empty hands and an available prop in reach,
  a running cooldown blocks every action).
- `src/interaction/finder.rs`: the order of the search stages and when a body
  that a cast hit counts as seen.
- `src/interaction/hold/on_remove_holding.rs`: what becomes of a prop's mass
  when it is released.
- `src/interaction/pull.rs`, `src/output.rs`: the pull and drop messages, and
  the registration of the drop message.
- `tests/`: tests of the library on concrete values.
- `app/`: the Bevy systems, spatial queries and floating-point configuration
  around the library.
