# uesave

A reader and writer for Unreal Engine save files (GVAS), verified with Verus.

The library (`src/`) reads a save from bytes into a tree of properties and
writes such a tree back to bytes. Every reader is proved to agree with a
specification of the format written as spec functions over byte sequences,
every writer is proved to produce exactly the bytes a specification gives,
and the two specifications are proved to fit: reading what the writer
stores gives the save back.

Layout of `src/`:

- `bytes.rs`: little-endian integers and GUIDs, read and written through
  `byteorder`.
- `strings.rs`: the length-prefixed string format (UTF-8 or UTF-16).
- `types.rs`: property types, struct types and the table of struct types
  registered by path.
- `model.rs`: the save's data types and their mathematical views.
- `decode.rs`, `encode.rs`: the format, as spec functions that decode and
  encode.
- `read.rs`, `read_props.rs`, `save.rs`: the readers; `write.rs`, `save.rs`:
  the writers.
- `roundtrip.rs`, `readback.rs`: proofs that what the writer stores reads
  back.
- `laws.rs`: the properties stated of the library as a whole.

`app/` holds the WebAssembly entry points and the serde forms of the types,
which carry floating-point numbers where the library keeps their bit
patterns.
