# braided

A library for working with mathematical braids, written in Verus: every operation carries a
contract, and Verus proves that the code meets it.

A braid on `n` strands is described by a word of letters. A letter is an Artin generator
(a crossing of two adjacent strands) or a band generator (a crossing of two arbitrary strands).
Words multiply by concatenation, cancelling adjacent inverse letters at the junction; a braid
is a braid index together with a word that fits on that many strands.

## Layout

- `src/` — the verified library.
  - `crossing.rs`: the mathematical model of a letter (a crossing) and of sequences of them.
  - `strand.rs`, `index.rs`, `sign.rs`: strands, braid indices and signs.
  - `generators/`: Artin and band generators, decomposition of bands and coalescing of Artin
    generators into bands.
  - `letter.rs`, `word/`, `braid.rs`: letters, words and braids.
  - `multiplication/`: products of letters, words, braids and their results; `operand.rs`:
    products of operands of any of these kinds.
  - `data.rs`: integers of every integer type, strands and braid indices, with widening
    addition.
  - `result.rs`, `error.rs`: the result wrappers and error types.
  - `model.rs`, `lemmas.rs`: the spec functions of the contracts and the proved properties,
    for verified callers.
- `tests/` — tests of the library on concrete values.
- `app/` — plain Rust around the library: tracing set-up, the `letter!`, `word!`, `braid!`,
  `artin!` and `band!` macros, and error types implementing `std::error::Error`.
