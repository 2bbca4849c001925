# re202-core

A verified SysEx codec for the BOSS RE-202 Space Echo, written in Verus.

- `src/` — the library, every function proved against its contract:
  - `sysex` — Roland framing (`F0 41 dev 00 00 00 00 18 cmd addr data chk F7`), the
    checksum, and the frame encode/decode round-trip laws.
  - `address` — the address map and the memory-slot stride with its 7-bit carry.
  - `system`, `memory` — the typed 18-byte System area and 33-byte memory block, with
    byte-exact round-trip laws (including the Tap Time nibble packing).
  - `inbound` — classification of any inbound MIDI byte sequence.
  - `device` — areas (`system`, `memory`, `edit`, `memory-1` … `memory-127`), the request
    and data-set frames for each, and device-level inbound classification.
  - `catalog` — the (empty) value catalogs.
- `tests/` — executable tests against device captures and edge cases.
- `app/` — the CLI and WASM bindings: serde / schema / TypeScript copies of the models,
  the MIDI engine's `Device` description, and YAML text conversion.
