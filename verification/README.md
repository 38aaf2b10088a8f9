# carbon_indexer

The verified core of a Solana indexing pipeline, written in Verus.

- `src/decoders/`: instruction and event decoders of four programs. Where a
  type's field layout is known, its decoder checks the discriminator and
  reads the borsh layout of the fields; the contract says exactly which bytes
  it accepts and that the decoded value is the one whose layout those bytes
  are. `CreateConfig`, `Swap2` and `EvtCreateConfigV2Event` carry parameter
  types whose layout is defined elsewhere: their decoders check the
  discriminator (and read the event's addresses) and hand the parameter
  bytes back undecoded. Each instruction also assigns its accounts to their
  roles.
- `src/codec.rs`, `src/keys.rs`, `src/account_meta.rs`: little-endian
  readers, addresses and signatures, positional account access.
- `src/datasource.rs`, `src/grpc_config.rs`: the decisions of the Yellowstone
  gRPC datasource (stream statistics, what each message and update becomes,
  the client builder calls).
- `src/metrics.rs`, `src/name_table.rs`: routing of metric names and the
  counters and tables kept under them. Metrics are keyed by `String` names;
  vstd's specification of `HashMap` only holds for keys it knows to obey its
  key model (the primitive integer types and `bool`), so a `String`-keyed
  `HashMap` could not be reasoned about. `NameTable` keeps names and values
  in two vectors with the invariant that no name occurs twice, and its view
  is a `Map` from names to values.
- `app/`: the asynchronous datasource task, the metrics behind locks, and
  the serde/borsh faces of the decoded types, around the library.
