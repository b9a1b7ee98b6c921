# kissagotchi

The verified core of a small virtual-pet game.

- `src/wav.rs`: the mono 16-bit PCM WAV files of the game's sound effects
  (header and sample data), with proofs that a reader finds the right sizes,
  format fields and samples in them.
- `src/pet.rs`: the pet's discrete rules: its activity, its name, the
  droppings it leaves, the money it earns by playing and spends on treats.
- `src/look.rs`: the text art of the pet's ears and face.
- `app/`: the game itself (drawing, input, sound playback, saving, and the
  floating-point gauges), built on the library.
