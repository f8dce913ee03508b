//! MIDI-CI (MIDI 2.0 Capability Inquiry) message model, wire codec and device state.
pub mod codec;
pub mod device;
pub mod discovery;
pub mod error;
pub mod message;
pub mod profile;
pub mod property;
pub mod sink;
pub mod types;
