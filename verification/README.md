# polyfill

Decoding for a Polymarket trading client, verified with Verus.

- `src/batch.rs` — `BatchDecoder`: cuts complete JSON objects out of a byte
  stream by counting braces outside strings, keeping the incomplete tail;
  with proofs that nothing is lost, that each frame is one object and that
  the kept tail holds none.
- `src/stream.rs` — WebSocket messages: a frame holding one message or a
  batch, trade messages read field by field, unknown event types ignored.
- `src/deserializers.rs` — the rules for single fields: numbers from JSON
  numbers or text, optional forms, Unix timestamps, decimals.
- `src/raw.rs` — raw API responses and their conversion into client types
  (`Decoder`).
- `src/fast_parse.rs` — parsers for decimals, addresses, 256-bit integers,
  sides and JSON.
- `src/json.rs`, `src/values.rs`, `src/text.rs` — the JSON model, the plain
  value types, and the calls into `serde_json`, `simd-json`, `rust_decimal`,
  `chrono`, `alloy-primitives` and std, each behind a small trusted function
  whose contract states what the crate's source shows.
- `app/lib.rs` — the serde side: `deserialize_with` helpers, serde copies of
  the raw response types, and generic JSON parsing.
