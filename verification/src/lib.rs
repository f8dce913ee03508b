//! MIDI-CI protocol state and GUI model logic.
pub mod gui;
pub mod keyed;
pub mod midi_ci;
pub mod text;
