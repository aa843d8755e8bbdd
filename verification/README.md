# tonbo (verified core)

`src/` is verified with Verus:

- `serdes` — the `Encode` / `Decode` traits: what a value appends to a byte
  buffer, and what reading it back from the front of a buffer gives; the
  byte impl.
- `wal::log` — a write-ahead-log entry (`Log`, `LogType`): its kind byte
  followed by its record, with the round trip of encoding and decoding proved.
- `record` — what the record derive decides about a struct: the column type of
  each field, the primary key, and how each field is borrowed, sized and read.

`app/` holds what stays outside the proofs: file access on tokio, moving log
bytes through fusio, and the token generation of the record derive with
`syn`, `darling` and `quote`, driven by the plan that `record` computes.
