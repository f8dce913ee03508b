//! The unified MIDI-CI error type.
use vstd::prelude::*;

verus! {

/// Errors from parsing, encoding or dispatching MIDI-CI messages.
#[derive(Debug)]
pub enum MidiCiError {
    /// A buffer or field was shorter than required.
    TooShort {
        /// Bytes that were available.
        len: usize,
        /// Bytes that were needed.
        min: usize,
    },
    /// The message was addressed to another MUID.
    MismatchedMuid {
        /// The destination MUID of the message.
        destination: u32,
        /// Our MUID.
        ours: u32,
    },
    /// The source MUID collides with ours.
    CollidingMuid(u32),
    /// The version byte uses reserved bits.
    ReservedVersion {
        /// The rejected byte.
        byte: u8,
    },
    /// The status byte is not a MIDI-CI category.
    UnknownCategory(u8),
    /// The body was malformed.
    Malformed(&'static str),
    /// The body type does not match the category.
    CategoryMismatch {
        /// The category on the envelope.
        category: u8,
    },
    /// Unknown property-exchange request key.
    UnknownRequestKey(u32),
    /// Unknown property-exchange subscription key.
    UnknownSubscriptionKey(u32),
    /// A listener name is already registered.
    DuplicateListener(String),
    /// A listener name is not registered.
    UnknownListener(String),
    /// The simultaneous request cap was reached.
    TooManyRequests {
        /// The MUID we tried to send to.
        muid: u32,
        /// The cap.
        cap: u8,
    },
    /// Any other invariant violation.
    Other(&'static str),
}

/// Result alias used throughout the MIDI-CI modules.
pub type MidiCiResult<T> = Result<T, MidiCiError>;

} // verus!
