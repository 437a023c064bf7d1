# p3-recursion-tables

Verified table preparation and FRI recursion back ends for batch STARK proving.

A circuit is proved as a batch of tables: constants, public inputs, all arithmetic operations, and
the tables of plug-in operations such as Poseidon permutations. This crate decides what those tables
hold, how tall they are and in which order they come, and which verification a recursive circuit
builds for an input proof. Every decision is stated in a contract and proved with Verus.

Field elements are canonical integers below the field's order, and extension elements are arrays of
their coefficients.

## Layout

- `src/common.rs`: `get_airs_and_degrees_with_prep`, the plug-in traits, table degrees.
- `src/primitive.rs`, `src/rows.rs`: the Const, Public and ALU tables and their committed rows.
- `src/npo.rs`, `src/npo_map.rs`: plug-in operations, their rows and their tables.
- `src/packing.rs`, `src/heights.rs`: lanes, heights and their validation.
- `src/air.rs`, `src/field.rs`, `src/ops.rs`, `src/error.rs`: the types that the rest speaks of.
- `src/fri.rs`: the FRI back ends, with the provers and builders of their tables.
- `src/recursion.rs`, `src/decimal.rs`: verifier circuits for input proofs.
- `src/table_laws.rs`, `src/row_laws.rs`, `src/fri_laws.rs`: properties that relate several of these.
- `app/`: conversion of field elements, and the execution of what the back ends decide.

## What is trusted

`p3_util::log2_ceil_usize` and the `hashbrown::HashMap` that holds the rows of plug-in operations
are called through declarations whose contracts are not proved here (`src/heights.rs`,
`src/npo_map.rs`). Implementations of the plug-in traits and of `FriRecursionConfig` are held to the
contracts of their methods only where they are verified themselves.
