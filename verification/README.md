# logic_nih_plug

A verified library for audio-plugin user interfaces and MIDI 2.0 capability
inquiry (MIDI-CI), written in Verus.

- `src/midi_ci/`: MIDI-CI identifiers and flags, the message bodies, the
  wire codec (7-bit packing, UMP framing), the peer discovery cache, the
  profile and property-exchange ledgers, and the `Device` that decodes
  inbound packets, updates its state and sends replies through a sink.
  Decoding what was encoded gives the message back; this is proved.
- `src/gui/`: component bounds and lifecycle, keyboard input, the command
  manager and key-press mappings, flex, grid and absolute layouts, frame-rate
  pacing, the multi-document panel, the extra controls (combo box, text
  editor, toggles, tooltip, image and hyperlink buttons), piano-key note
  arithmetic, and the OpenGL enum mappings taken from `glow`.
- `src/text.rs`, `src/keyed.rs`: string building and an insertion-ordered
  keyed list shared by the modules above.
- `app/`: what Verus does not check: OpenGL resources and rendering, mouse
  events (floating-point wheel deltas), matrices and relative coordinates,
  CSS-grid track sizing, the progress bar and the keyboard component's
  floating-point geometry, command-target chains, and error types with
  `std::error::Error`.
- `tests/`: scenario tests run against the compiled library.
