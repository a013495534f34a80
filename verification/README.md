# Pecking Order

The rules of *Pecking Order*, a small 2.5D action game about a Carolina wren,
as a verified library, with the game around it.

- `src/` is the library. Each rule is a function over plain values with a
  contract, proved by Verus: the auto-peck and its cooldown, contact damage
  and invincibility, damage events and health, deaths, the one-tool-at-a-time
  pickup and the pinecone, the wave manager, player movement and facing,
  pausing, the menus, the hearts and the wave counter. Laws that span several
  calls (damage batches, pecks spaced by the cooldown, waves in order with
  breathing room between them, no tool gained or lost in a swap, ...) are
  proof functions beside the code they speak of.
- `app/` is the game: the Bevy application, its entities and systems, input,
  rendering and all floating-point motion. Its systems gather plain values
  from the world, call the library, and carry out what it decides.
- `tests/` runs the library on concrete scenarios.

Distances reach the library as order keys, the bit patterns of the `f32`
distances, which for distances order as the numbers do (see
`src/proximity.rs`). Time reaches it as nanoseconds; one-shot timers are
ticked by `bevy::time::Timer` (see `src/timers.rs`).
