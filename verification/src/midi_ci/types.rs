//! Core MIDI-CI domain types: identifiers, addresses, profiles and device info.
use vstd::prelude::*;
use crate::midi_ci::error::MidiCiError;
use crate::text::{push_char, push_hex_lower_padded, push_str, spec_hex_lower_padded};

verus! {

// ---------------------------------------------------------------------------
// Muid
// ---------------------------------------------------------------------------

/// A 28-bit MIDI-CI unique identifier.
///
/// The range `0x0FFFFE00..=0x0FFFFFFE` is reserved and `0x0FFFFFFF` is the
/// broadcast address.
#[derive(Copy, Clone, PartialEq, Eq, Structural, Hash, Ord, PartialOrd, Debug, Default)]
pub struct Muid(u32);

/// The MUID value that a pseudo-random draw `x` is folded into.
pub open spec fn spec_muid_from_random(x: u64) -> u32 {
    let raw = (x as u32) & 0x0FFF_FFFF;
    if raw == 0 {
        1
    } else if raw >= 0x0FFF_FE00 {
        raw & 0x00FF_FFFF
    } else {
        raw
    }
}

/// One step of the xorshift64 generator used for MUID draws.
pub open spec fn spec_xorshift64(x: u64) -> u64 {
    let a = x ^ (x << 13u64);
    let b = a ^ (a >> 7u64);
    b ^ (b << 17u64)
}

impl Muid {
    /// Largest valid value (also the broadcast address).
    pub const MASK: u32 = 0x0FFF_FFFF;
    /// First value of the reserved range.
    pub const RESERVED_START: u32 = 0x0FFF_FE00;
    /// Lowest user-assignable value.
    pub const USER_START: u32 = 1;
    /// Highest user-assignable value (just below the reserved range).
    pub const USER_END: u32 = 0x0FFF_FDFF;

    #[verifier::type_invariant]
    spec fn fits(self) -> bool {
        self.0 <= 0x0FFF_FFFF
    }

    /// The raw 28-bit value.
    pub closed spec fn value(self) -> u32 {
        self.0
    }

    /// Two MUIDs are equal exactly when their values are.
    pub proof fn lemma_value_injective(a: Muid, b: Muid)
        ensures (a.value() == b.value()) == (a == b),
    {
    }

    /// The broadcast MUID, `0x0FFF_FFFF`.
    pub closed spec fn spec_broadcast() -> Muid {
        Muid(0x0FFF_FFFF)
    }

    /// The broadcast MUID's value is `0x0FFF_FFFF`.
    pub proof fn lemma_broadcast_value()
        ensures Muid::spec_broadcast().value() == 0x0FFF_FFFF,
    {
    }

    /// The broadcast MUID.
    pub fn broadcast() -> (m: Muid)
        ensures
            m.value() == 0x0FFF_FFFF,
            m == Muid::spec_broadcast(),
    {
        Muid(0x0FFF_FFFF)
    }

    /// Construct a MUID, rejecting values that do not fit in 28 bits.
    pub fn new(value: u32) -> (r: Result<Muid, MidiCiError>)
        ensures
            value <= 0x0FFF_FFFF ==> (r matches Ok(m) && m.value() == value),
            value > 0x0FFF_FFFF ==> r matches Err(MidiCiError::Other(_)),
    {
        if value > 0x0FFF_FFFF {
            Err(MidiCiError::Other("MUID must fit in 28 bits"))
        } else {
            Ok(Muid(value))
        }
    }

    /// Construct from raw bits, dropping the high four bits.
    pub fn from_bits_truncate(value: u32) -> (m: Muid)
        ensures m.value() == value & 0x0FFF_FFFF,
    {
        let v = value & 0x0FFF_FFFF;
        assert(v <= 0x0FFF_FFFF) by (bit_vector) requires v == value & 0x0FFF_FFFF;
        Muid(v)
    }

    /// The raw 28-bit value.
    pub fn get(self) -> (v: u32)
        ensures v == self.value(), v <= 0x0FFF_FFFF,
    {
        proof { use_type_invariant(&self); }
        self.0
    }

    /// How a MUID is written: `Muid(broadcast)`, `Muid(reserved:0x…)` or
    /// `Muid(0x…)`, the value as seven lower-case hexadecimal digits.
    pub open spec fn spec_display(self) -> Seq<char> {
        if self.value() == 0x0FFF_FFFF {
            "Muid(broadcast)"@
        } else if self.value() >= 0x0FFF_FE00 {
            "Muid(reserved:0x"@ + spec_hex_lower_padded(self.value(), 7) + ")"@
        } else {
            "Muid(0x"@ + spec_hex_lower_padded(self.value(), 7) + ")"@
        }
    }

    /// Append how the MUID is written (see [`Muid::spec_display`]).
    pub fn push_display(self, s: &mut String)
        ensures final(s)@ == old(s)@ + self.spec_display(),
    {
        if self.is_broadcast() {
            push_str(s, "Muid(broadcast)");
        } else {
            let ghost s0 = s@;
            if self.is_reserved() {
                push_str(s, "Muid(reserved:0x");
            } else {
                push_str(s, "Muid(0x");
            }
            let ghost s1 = s@;
            push_hex_lower_padded(s, self.get(), 7);
            let ghost s2 = s@;
            push_str(s, ")");
            proof {
                if self.value() >= 0x0FFF_FE00 {
                    assert(s@ =~= s0 + ("Muid(reserved:0x"@ + spec_hex_lower_padded(self.value(), 7) + ")"@));
                } else {
                    assert(s@ =~= s0 + ("Muid(0x"@ + spec_hex_lower_padded(self.value(), 7) + ")"@));
                }
            }
        }
    }

    /// How the MUID is written (see [`Muid::spec_display`]).
    pub fn to_display_string(self) -> (s: String)
        ensures s@ == self.spec_display(),
    {
        let mut s = String::new();
        self.push_display(&mut s);
        s
    }

    /// Whether this is the broadcast MUID.
    pub fn is_broadcast(self) -> (b: bool)
        ensures b == (self.value() == 0x0FFF_FFFF),
    {
        self.0 == 0x0FFF_FFFF
    }

    /// Whether this MUID lies in the reserved range (the broadcast address
    /// is not counted as reserved).
    pub fn is_reserved(self) -> (b: bool)
        ensures b == (self.value() >= 0x0FFF_FE00 && self.value() != 0x0FFF_FFFF),
    {
        self.0 >= 0x0FFF_FE00 && !self.is_broadcast()
    }

    /// Fold a pseudo-random 64-bit draw into a user-assignable MUID.
    pub fn from_random_bits(x: u64) -> (m: Muid)
        ensures
            m.value() == spec_muid_from_random(x),
            1 <= m.value() < 0x0FFF_FE00,
    {
        let raw: u32 = (x as u32) & 0x0FFF_FFFF;
        let value: u32 = if raw == 0 {
            1
        } else if raw >= 0x0FFF_FE00 {
            raw & 0x00FF_FFFF
        } else {
            raw
        };
        assert(raw <= 0x0FFF_FFFF) by (bit_vector) requires raw == (x as u32) & 0x0FFF_FFFF;
        assert(raw >= 0x0FFF_FE00 ==> 1 <= (raw & 0x00FF_FFFF) < 0x0FFF_FE00) by (bit_vector)
            requires raw <= 0x0FFF_FFFF;
        Muid(value)
    }

    /// Draw a pseudo-random user-assignable MUID.
    ///
    /// The draw is seeded from a freshly keyed std hasher, so two calls
    /// differ with overwhelming probability; the result is never reserved
    /// and never the broadcast address.
    pub fn random() -> (m: Muid)
        ensures
            1 <= m.value() < 0x0FFF_FE00,
            !m.is_reserved_spec(),
            m.value() != 0x0FFF_FFFF,
    {
        let seed = random_seed();
        let x = xorshift64(seed);
        Muid::from_random_bits(x)
    }

    /// Spec form of [`Muid::is_reserved`].
    pub open spec fn is_reserved_spec(self) -> bool {
        self.value() >= 0x0FFF_FE00 && self.value() != 0x0FFF_FFFF
    }
}

/// One step of the xorshift64 generator.
pub fn xorshift64(x: u64) -> (r: u64)
    ensures r == spec_xorshift64(x),
{
    let a = x ^ (x << 13u64);
    let b = a ^ (a >> 7u64);
    b ^ (b << 17u64)
}

/// Fresh random bits, from hashing with a newly keyed std `RandomState`.
///
/// The std hasher is keyed per process and per call, so nothing is stated
/// about the value.
#[verifier::external_body]
pub(crate) fn random_seed() -> u64 {
    std::hash::BuildHasher::hash_one(&std::collections::hash_map::RandomState::new(), 0x4d55_4944u32)
}

// ---------------------------------------------------------------------------
// ChannelInGroup
// ---------------------------------------------------------------------------

/// The address byte inside a MIDI-CI message: a single channel of a group,
/// the whole group (`0x7E`) or the whole function block (`0x7F`).
#[derive(Copy, Clone, PartialEq, Eq, Structural, Hash, Debug, Ord, PartialOrd)]
pub enum ChannelInGroup {
    /// Channel 0.
    Channel0,
    /// Channel 1.
    Channel1,
    /// Channel 2.
    Channel2,
    /// Channel 3.
    Channel3,
    /// Channel 4.
    Channel4,
    /// Channel 5.
    Channel5,
    /// Channel 6.
    Channel6,
    /// Channel 7.
    Channel7,
    /// Channel 8.
    Channel8,
    /// Channel 9.
    Channel9,
    /// Channel 10.
    ChannelA,
    /// Channel 11.
    ChannelB,
    /// Channel 12.
    ChannelC,
    /// Channel 13.
    ChannelD,
    /// Channel 14.
    ChannelE,
    /// Channel 15.
    ChannelF,
    /// All channels in the UMP group.
    WholeGroup,
    /// All channels in the function block containing the group.
    WholeBlock,
}

impl ChannelInGroup {
    /// The wire byte of an address.
    pub open spec fn spec_byte(self) -> u8 {
        match self {
            ChannelInGroup::Channel0 => 0x0,
            ChannelInGroup::Channel1 => 0x1,
            ChannelInGroup::Channel2 => 0x2,
            ChannelInGroup::Channel3 => 0x3,
            ChannelInGroup::Channel4 => 0x4,
            ChannelInGroup::Channel5 => 0x5,
            ChannelInGroup::Channel6 => 0x6,
            ChannelInGroup::Channel7 => 0x7,
            ChannelInGroup::Channel8 => 0x8,
            ChannelInGroup::Channel9 => 0x9,
            ChannelInGroup::ChannelA => 0xA,
            ChannelInGroup::ChannelB => 0xB,
            ChannelInGroup::ChannelC => 0xC,
            ChannelInGroup::ChannelD => 0xD,
            ChannelInGroup::ChannelE => 0xE,
            ChannelInGroup::ChannelF => 0xF,
            ChannelInGroup::WholeGroup => 0x7E,
            ChannelInGroup::WholeBlock => 0x7F,
        }
    }

    /// How an address byte is written: `Group`, `FunctionBlock`, or
    /// `Channel` and the channel number counted from 1.
    pub open spec fn spec_display(self) -> Seq<char> {
        match self {
            ChannelInGroup::WholeGroup => "Group"@,
            ChannelInGroup::WholeBlock => "FunctionBlock"@,
            _ => {
                let n = self.spec_byte() + 1;
                if n < 10 {
                    "Channel"@.push(((n + 48) as u8) as char)
                } else {
                    "Channel"@.push('1').push((((n - 10) + 48) as u8) as char)
                }
            },
        }
    }

    /// How the address byte is written (see [`ChannelInGroup::spec_display`]).
    pub fn to_display_string(self) -> (s: String)
        ensures s@ == self.spec_display(),
    {
        let mut s = String::new();
        match self {
            ChannelInGroup::WholeGroup => push_str(&mut s, "Group"),
            ChannelInGroup::WholeBlock => push_str(&mut s, "FunctionBlock"),
            _ => {
                push_str(&mut s, "Channel");
                let n = self.to_byte() + 1;
                if n < 10 {
                    push_char(&mut s, ((n + 48) as u8) as char);
                } else {
                    push_char(&mut s, '1');
                    push_char(&mut s, (((n - 10) + 48) as u8) as char);
                }
            },
        }
        s
    }

    /// Whether a byte is a valid address byte.
    pub open spec fn spec_valid_byte(byte: u8) -> bool {
        byte <= 0xF || byte == 0x7E || byte == 0x7F
    }

    /// Decode an address byte.
    pub fn from_byte(byte: u8) -> (r: Option<ChannelInGroup>)
        ensures
            r is Some <==> Self::spec_valid_byte(byte),
            r matches Some(c) ==> c.spec_byte() == byte,
    {
        match byte {
            0x0 => Some(ChannelInGroup::Channel0),
            0x1 => Some(ChannelInGroup::Channel1),
            0x2 => Some(ChannelInGroup::Channel2),
            0x3 => Some(ChannelInGroup::Channel3),
            0x4 => Some(ChannelInGroup::Channel4),
            0x5 => Some(ChannelInGroup::Channel5),
            0x6 => Some(ChannelInGroup::Channel6),
            0x7 => Some(ChannelInGroup::Channel7),
            0x8 => Some(ChannelInGroup::Channel8),
            0x9 => Some(ChannelInGroup::Channel9),
            0xA => Some(ChannelInGroup::ChannelA),
            0xB => Some(ChannelInGroup::ChannelB),
            0xC => Some(ChannelInGroup::ChannelC),
            0xD => Some(ChannelInGroup::ChannelD),
            0xE => Some(ChannelInGroup::ChannelE),
            0xF => Some(ChannelInGroup::ChannelF),
            0x7E => Some(ChannelInGroup::WholeGroup),
            0x7F => Some(ChannelInGroup::WholeBlock),
            _ => None,
        }
    }

    /// The raw wire byte.
    pub fn to_byte(self) -> (b: u8)
        ensures b == self.spec_byte(),
    {
        match self {
            ChannelInGroup::Channel0 => 0x0,
            ChannelInGroup::Channel1 => 0x1,
            ChannelInGroup::Channel2 => 0x2,
            ChannelInGroup::Channel3 => 0x3,
            ChannelInGroup::Channel4 => 0x4,
            ChannelInGroup::Channel5 => 0x5,
            ChannelInGroup::Channel6 => 0x6,
            ChannelInGroup::Channel7 => 0x7,
            ChannelInGroup::Channel8 => 0x8,
            ChannelInGroup::Channel9 => 0x9,
            ChannelInGroup::ChannelA => 0xA,
            ChannelInGroup::ChannelB => 0xB,
            ChannelInGroup::ChannelC => 0xC,
            ChannelInGroup::ChannelD => 0xD,
            ChannelInGroup::ChannelE => 0xE,
            ChannelInGroup::ChannelF => 0xF,
            ChannelInGroup::WholeGroup => 0x7E,
            ChannelInGroup::WholeBlock => 0x7F,
        }
    }

    /// Whether this addresses every channel of a group.
    pub fn is_group(self) -> (b: bool)
        ensures b == (self == ChannelInGroup::WholeGroup),
    {
        matches!(self, ChannelInGroup::WholeGroup)
    }

    /// Whether this addresses every channel of a function block.
    pub fn is_block(self) -> (b: bool)
        ensures b == (self == ChannelInGroup::WholeBlock),
    {
        matches!(self, ChannelInGroup::WholeBlock)
    }

    /// Whether this addresses a single channel.
    pub fn is_single_channel(self) -> (b: bool)
        ensures b == (self != ChannelInGroup::WholeGroup && self != ChannelInGroup::WholeBlock),
    {
        !self.is_group() && !self.is_block()
    }

    /// The channel number (0..=15) of a single-channel address.
    pub fn single_channel(self) -> (r: Option<u8>)
        ensures
            r is Some <==> (self != ChannelInGroup::WholeGroup && self != ChannelInGroup::WholeBlock),
            r matches Some(c) ==> c == self.spec_byte() && c <= 15,
    {
        if self.is_single_channel() {
            Some(self.to_byte())
        } else {
            None
        }
    }
}

// ---------------------------------------------------------------------------
// ChannelAddress
// ---------------------------------------------------------------------------

/// A (group, channel-in-group) pair.
#[derive(Copy, Clone, PartialEq, Eq, Structural, Hash, Debug, Ord, PartialOrd)]
pub struct ChannelAddress {
    group: u8,
    channel: ChannelInGroup,
}

impl ChannelAddress {
    /// The group component.
    pub closed spec fn spec_group(self) -> u8 {
        self.group
    }

    /// The channel component.
    pub closed spec fn spec_channel(self) -> ChannelInGroup {
        self.channel
    }

    /// Two addresses are equal exactly when both components are.
    pub proof fn lemma_eq(a: ChannelAddress, b: ChannelAddress)
        ensures (a == b) == (a.spec_group() == b.spec_group() && a.spec_channel() == b.spec_channel()),
    {
    }

    /// The whole-function-block address on group 0, as a value.
    pub closed spec fn spec_function_block() -> ChannelAddress {
        ChannelAddress { group: 0, channel: ChannelInGroup::WholeBlock }
    }

    /// The whole-function-block address has group 0 and the block channel.
    pub proof fn lemma_function_block()
        ensures
            Self::spec_function_block().spec_group() == 0,
            Self::spec_function_block().spec_channel() == ChannelInGroup::WholeBlock,
    {
    }

    /// The whole-function-block address on group 0.
    pub fn function_block() -> (a: ChannelAddress)
        ensures
            a.spec_group() == 0,
            a.spec_channel() == ChannelInGroup::WholeBlock,
            a == Self::spec_function_block(),
    {
        ChannelAddress { group: 0, channel: ChannelInGroup::WholeBlock }
    }

    /// The whole-group address on group 0.
    pub fn whole_group() -> (a: ChannelAddress)
        ensures a.spec_group() == 0, a.spec_channel() == ChannelInGroup::WholeGroup,
    {
        ChannelAddress { group: 0, channel: ChannelInGroup::WholeGroup }
    }

    /// Construct an address; the group must be below 16.
    pub fn new(group: u8, channel: ChannelInGroup) -> (r: Option<ChannelAddress>)
        ensures
            r is Some <==> group < 16,
            r matches Some(a) ==> a.spec_group() == group && a.spec_channel() == channel,
    {
        if group < 16 {
            Some(ChannelAddress { group, channel })
        } else {
            None
        }
    }

    /// The UMP group.
    pub fn group(self) -> (g: u8)
        ensures g == self.spec_group(),
    {
        self.group
    }

    /// The channel-in-group component.
    pub fn channel(self) -> (c: ChannelInGroup)
        ensures c == self.spec_channel(),
    {
        self.channel
    }

    /// Whether this addresses the whole function block.
    pub fn is_block(self) -> (b: bool)
        ensures b == (self.spec_channel() == ChannelInGroup::WholeBlock),
    {
        self.channel.is_block()
    }

    /// Whether this addresses the whole group.
    pub fn is_group(self) -> (b: bool)
        ensures b == (self.spec_channel() == ChannelInGroup::WholeGroup),
    {
        self.channel.is_group()
    }

    /// Whether this addresses a single channel.
    pub fn is_single_channel(self) -> (b: bool)
        ensures
            b == (self.spec_channel() != ChannelInGroup::WholeGroup
                && self.spec_channel() != ChannelInGroup::WholeBlock),
    {
        self.channel.is_single_channel()
    }

    /// A copy with another group.
    pub fn with_group(self, group: u8) -> (a: ChannelAddress)
        ensures a.spec_group() == group, a.spec_channel() == self.spec_channel(),
    {
        ChannelAddress { group, channel: self.channel }
    }

    /// A copy with another channel-in-group.
    pub fn with_channel(self, channel: ChannelInGroup) -> (a: ChannelAddress)
        ensures a.spec_group() == self.spec_group(), a.spec_channel() == channel,
    {
        ChannelAddress { group: self.group, channel }
    }
}

impl Default for ChannelAddress {
    fn default() -> (a: ChannelAddress)
        ensures
            a.spec_group() == 0,
            a.spec_channel() == ChannelInGroup::WholeBlock,
            a == ChannelAddress::spec_function_block(),
    {
        ChannelAddress::function_block()
    }
}

// ---------------------------------------------------------------------------
// Profile
// ---------------------------------------------------------------------------

/// A 5-byte MIDI-CI profile id; standard-defined profiles start with `0x7E`.
#[derive(Copy, Clone, PartialEq, Eq, Hash, Default, Ord, PartialOrd, Debug)]
pub struct Profile(pub [u8; 5]);

impl Profile {
    /// Construct a profile from its id bytes.
    pub fn new(id: [u8; 5]) -> (p: Profile)
        ensures p.0 == id,
    {
        Profile(id)
    }

    /// The id bytes.
    pub fn as_bytes(&self) -> (b: &[u8; 5])
        ensures *b == self.0,
    {
        &self.0
    }

    /// Whether this is a standard-defined profile (first byte `0x7E`).
    pub fn is_standard_defined(self) -> (b: bool)
        ensures b == (self.0@[0] == 0x7E),
    {
        self.0[0] == 0x7E
    }
}

// ---------------------------------------------------------------------------
// DeviceInfo
// ---------------------------------------------------------------------------

/// Manufacturer, family, model and software revision of a device.
#[derive(Copy, Clone, PartialEq, Eq, Hash, Default, Debug)]
pub struct DeviceInfo {
    /// 3-byte manufacturer SysEx id.
    pub manufacturer: [u8; 3],
    /// 2-byte family code.
    pub family: [u8; 2],
    /// 2-byte model number.
    pub model: [u8; 2],
    /// 4-byte software revision.
    pub revision: [u8; 4],
}

impl DeviceInfo {
    /// Construct from raw bytes.
    pub fn new(manufacturer: [u8; 3], family: [u8; 2], model: [u8; 2], revision: [u8; 4]) -> (d: DeviceInfo)
        ensures
            d.manufacturer == manufacturer,
            d.family == family,
            d.model == model,
            d.revision == revision,
    {
        DeviceInfo { manufacturer, family, model, revision }
    }

    /// An example device info that is easy to recognise in test output.
    pub fn example() -> (d: DeviceInfo)
        ensures
            d.manufacturer@ == seq![0x7Du8, 0x02u8, 0x01u8],
            d.family@ == seq![0u8, 0u8],
            d.model@ == seq![0u8, 0u8],
            d.revision@ == seq![0u8, 0u8, 0u8, 0u8],
    {
        let d = DeviceInfo::new([0x7D, 0x02, 0x01], [0x00, 0x00], [0x00, 0x00], [0x00, 0x00, 0x00, 0x00]);
        assert(d.manufacturer@ =~= seq![0x7Du8, 0x02u8, 0x01u8]);
        assert(d.family@ =~= seq![0u8, 0u8]);
        assert(d.model@ =~= seq![0u8, 0u8]);
        assert(d.revision@ =~= seq![0u8, 0u8, 0u8, 0u8]);
        d
    }
}

// ---------------------------------------------------------------------------
// CapabilityFlags
// ---------------------------------------------------------------------------

/// Bit-set of the MIDI-CI categories a device supports.
#[derive(Copy, Clone, PartialEq, Eq, Structural, Hash, Default, Debug)]
pub struct CapabilityFlags(pub u8);

impl CapabilityFlags {
    /// No categories.
    pub fn none() -> (f: CapabilityFlags)
        ensures f.0 == 0,
    {
        CapabilityFlags(0)
    }

    /// The protocol-negotiation bit (`0x01`).
    pub fn protocol_negotiation() -> (f: CapabilityFlags)
        ensures f.0 == 1,
    {
        CapabilityFlags(1)
    }

    /// The profile-configuration bit (`0x02`).
    pub fn profile_configuration() -> (f: CapabilityFlags)
        ensures f.0 == 2,
    {
        CapabilityFlags(2)
    }

    /// The property-exchange bit (`0x04`).
    pub fn property_exchange() -> (f: CapabilityFlags)
        ensures f.0 == 4,
    {
        CapabilityFlags(4)
    }

    /// The process-inquiry bit (`0x08`).
    pub fn process_inquiry() -> (f: CapabilityFlags)
        ensures f.0 == 8,
    {
        CapabilityFlags(8)
    }

    /// Whether every bit of `other` is set.
    pub fn contains(self, other: CapabilityFlags) -> (b: bool)
        ensures b == ((self.0 & other.0) == other.0),
    {
        (self.0 & other.0) == other.0
    }

    /// Set the bits of `other`.
    pub fn with(self, other: CapabilityFlags) -> (r: CapabilityFlags)
        ensures r.0 == self.0 | other.0,
    {
        CapabilityFlags(self.0 | other.0)
    }

    /// Clear the bits of `other`.
    pub fn without(self, other: CapabilityFlags) -> (r: CapabilityFlags)
        ensures r.0 == self.0 & !other.0,
    {
        CapabilityFlags(self.0 & !other.0)
    }

    /// The raw byte.
    pub fn bits(self) -> (b: u8)
        ensures b == self.0,
    {
        self.0
    }

    /// Rebuild from the raw byte.
    pub fn from_bits_truncate(bits: u8) -> (r: CapabilityFlags)
        ensures r.0 == bits,
    {
        CapabilityFlags(bits)
    }

    /// After `with`, the added bits are contained.
    pub proof fn lemma_with_contains(a: CapabilityFlags, b: CapabilityFlags)
        ensures ((a.0 | b.0) & b.0) == b.0, ((a.0 | b.0) & a.0) == a.0,
    {
        let (x, y) = (a.0, b.0);
        assert(((x | y) & y) == y && ((x | y) & x) == x) by (bit_vector);
    }

    /// After `without`, none of the removed bits remain.
    pub proof fn lemma_without_clears(a: CapabilityFlags, b: CapabilityFlags)
        ensures ((a.0 & !b.0) & b.0) == 0,
    {
        let (x, y) = (a.0, b.0);
        assert(((x & !y) & y) == 0) by (bit_vector);
    }
}

impl vstd::std_specs::ops::BitOrSpecImpl for CapabilityFlags {
    open spec fn obeys_bitor_spec() -> bool {
        true
    }

    open spec fn bitor_req(self, rhs: CapabilityFlags) -> bool {
        true
    }

    open spec fn bitor_spec(self, rhs: CapabilityFlags) -> CapabilityFlags {
        CapabilityFlags(self.0 | rhs.0)
    }
}

impl std::ops::BitOr for CapabilityFlags {
    type Output = CapabilityFlags;

    fn bitor(self, rhs: CapabilityFlags) -> (r: CapabilityFlags)
        ensures r.0 == self.0 | rhs.0,
    {
        CapabilityFlags(self.0 | rhs.0)
    }
}

// ---------------------------------------------------------------------------
// Category
// ---------------------------------------------------------------------------

/// MIDI-CI message category; the wire status byte is `0x70 + index`.
#[derive(Copy, Clone, PartialEq, Eq, Structural, Hash, Debug)]
pub enum Category {
    /// Discovery.
    Discovery,
    /// Discovery reply.
    DiscoveryReply,
    /// InvalidateMUID.
    InvalidateMuid,
    /// Endpoint inquiry.
    EndpointInquiry,
    /// Endpoint reply.
    EndpointInquiryResponse,
    /// ACK.
    Ack,
    /// NAK.
    Nak,
    /// Profile inquiry.
    ProfileInquiry,
    /// Profile inquiry reply.
    ProfileInquiryResponse,
    /// Profile added.
    ProfileAdded,
    /// Profile removed.
    ProfileRemoved,
    /// Profile details.
    ProfileDetails,
    /// Profile details reply.
    ProfileDetailsResponse,
    /// Profile on.
    ProfileOn,
    /// Profile off.
    ProfileOff,
    /// Profile enabled report.
    ProfileEnabledReport,
    /// Profile disabled report.
    ProfileDisabledReport,
    /// Profile-specific data.
    ProfileSpecificData,
    /// Property exchange capabilities inquiry.
    PropertyExchangeCapabilities,
    /// Property exchange capabilities reply.
    PropertyExchangeCapabilitiesResponse,
    /// Property get data.
    PropertyGetData,
    /// Property get data reply.
    PropertyGetDataResponse,
    /// Property set data.
    PropertySetData,
    /// Property set data reply.
    PropertySetDataResponse,
    /// Property subscribe.
    PropertySubscribe,
    /// Property subscribe reply.
    PropertySubscribeResponse,
    /// Property notify.
    PropertyNotify,
    /// Process inquiry.
    ProcessInquiry,
    /// Process inquiry reply.
    ProcessInquiryResponse,
    /// Process MIDI message report.
    ProcessMidiMessageReport,
    /// Process MIDI message report reply.
    ProcessMidiMessageReportResponse,
    /// Process end of MIDI message report.
    ProcessEndMidiMessageReport,
}

impl Category {
    /// The category's index (0..32) in the category table.
    pub open spec fn spec_index(self) -> u8 {
        match self {
            Category::Discovery => 0x00,
            Category::DiscoveryReply => 0x01,
            Category::InvalidateMuid => 0x02,
            Category::EndpointInquiry => 0x03,
            Category::EndpointInquiryResponse => 0x04,
            Category::Ack => 0x05,
            Category::Nak => 0x06,
            Category::ProfileInquiry => 0x07,
            Category::ProfileInquiryResponse => 0x08,
            Category::ProfileAdded => 0x09,
            Category::ProfileRemoved => 0x0A,
            Category::ProfileDetails => 0x0B,
            Category::ProfileDetailsResponse => 0x0C,
            Category::ProfileOn => 0x0D,
            Category::ProfileOff => 0x0E,
            Category::ProfileEnabledReport => 0x0F,
            Category::ProfileDisabledReport => 0x10,
            Category::ProfileSpecificData => 0x11,
            Category::PropertyExchangeCapabilities => 0x12,
            Category::PropertyExchangeCapabilitiesResponse => 0x13,
            Category::PropertyGetData => 0x14,
            Category::PropertyGetDataResponse => 0x15,
            Category::PropertySetData => 0x16,
            Category::PropertySetDataResponse => 0x17,
            Category::PropertySubscribe => 0x18,
            Category::PropertySubscribeResponse => 0x19,
            Category::PropertyNotify => 0x1A,
            Category::ProcessInquiry => 0x1B,
            Category::ProcessInquiryResponse => 0x1C,
            Category::ProcessMidiMessageReport => 0x1D,
            Category::ProcessMidiMessageReportResponse => 0x1E,
            Category::ProcessEndMidiMessageReport => 0x1F,
        }
    }

    /// The category at a table index.
    pub open spec fn spec_from_index(i: u8) -> Option<Category> {
        if i == 0x00 { Some(Category::Discovery) }
        else if i == 0x01 { Some(Category::DiscoveryReply) }
        else if i == 0x02 { Some(Category::InvalidateMuid) }
        else if i == 0x03 { Some(Category::EndpointInquiry) }
        else if i == 0x04 { Some(Category::EndpointInquiryResponse) }
        else if i == 0x05 { Some(Category::Ack) }
        else if i == 0x06 { Some(Category::Nak) }
        else if i == 0x07 { Some(Category::ProfileInquiry) }
        else if i == 0x08 { Some(Category::ProfileInquiryResponse) }
        else if i == 0x09 { Some(Category::ProfileAdded) }
        else if i == 0x0A { Some(Category::ProfileRemoved) }
        else if i == 0x0B { Some(Category::ProfileDetails) }
        else if i == 0x0C { Some(Category::ProfileDetailsResponse) }
        else if i == 0x0D { Some(Category::ProfileOn) }
        else if i == 0x0E { Some(Category::ProfileOff) }
        else if i == 0x0F { Some(Category::ProfileEnabledReport) }
        else if i == 0x10 { Some(Category::ProfileDisabledReport) }
        else if i == 0x11 { Some(Category::ProfileSpecificData) }
        else if i == 0x12 { Some(Category::PropertyExchangeCapabilities) }
        else if i == 0x13 { Some(Category::PropertyExchangeCapabilitiesResponse) }
        else if i == 0x14 { Some(Category::PropertyGetData) }
        else if i == 0x15 { Some(Category::PropertyGetDataResponse) }
        else if i == 0x16 { Some(Category::PropertySetData) }
        else if i == 0x17 { Some(Category::PropertySetDataResponse) }
        else if i == 0x18 { Some(Category::PropertySubscribe) }
        else if i == 0x19 { Some(Category::PropertySubscribeResponse) }
        else if i == 0x1A { Some(Category::PropertyNotify) }
        else if i == 0x1B { Some(Category::ProcessInquiry) }
        else if i == 0x1C { Some(Category::ProcessInquiryResponse) }
        else if i == 0x1D { Some(Category::ProcessMidiMessageReport) }
        else if i == 0x1E { Some(Category::ProcessMidiMessageReportResponse) }
        else if i == 0x1F { Some(Category::ProcessEndMidiMessageReport) }
        else { None }
    }

    /// The table index of a category.
    pub fn index(self) -> (i: u8)
        ensures i == self.spec_index(), i < 32,
    {
        match self {
            Category::Discovery => 0x00,
            Category::DiscoveryReply => 0x01,
            Category::InvalidateMuid => 0x02,
            Category::EndpointInquiry => 0x03,
            Category::EndpointInquiryResponse => 0x04,
            Category::Ack => 0x05,
            Category::Nak => 0x06,
            Category::ProfileInquiry => 0x07,
            Category::ProfileInquiryResponse => 0x08,
            Category::ProfileAdded => 0x09,
            Category::ProfileRemoved => 0x0A,
            Category::ProfileDetails => 0x0B,
            Category::ProfileDetailsResponse => 0x0C,
            Category::ProfileOn => 0x0D,
            Category::ProfileOff => 0x0E,
            Category::ProfileEnabledReport => 0x0F,
            Category::ProfileDisabledReport => 0x10,
            Category::ProfileSpecificData => 0x11,
            Category::PropertyExchangeCapabilities => 0x12,
            Category::PropertyExchangeCapabilitiesResponse => 0x13,
            Category::PropertyGetData => 0x14,
            Category::PropertyGetDataResponse => 0x15,
            Category::PropertySetData => 0x16,
            Category::PropertySetDataResponse => 0x17,
            Category::PropertySubscribe => 0x18,
            Category::PropertySubscribeResponse => 0x19,
            Category::PropertyNotify => 0x1A,
            Category::ProcessInquiry => 0x1B,
            Category::ProcessInquiryResponse => 0x1C,
            Category::ProcessMidiMessageReport => 0x1D,
            Category::ProcessMidiMessageReportResponse => 0x1E,
            Category::ProcessEndMidiMessageReport => 0x1F,
        }
    }

    /// Look up a category from the wire status byte.
    pub fn from_status_byte(byte: u8) -> (r: Option<Category>)
        ensures
            byte < 0x70 ==> r is None,
            byte >= 0x70 ==> r == Self::spec_from_index((byte - 0x70) as u8),
            r is Some <==> (0x70 <= byte && byte < 0x90),
            r matches Some(c) ==> c.spec_index() + 0x70 == byte,
    {
        if byte < 0x70 {
            return None;
        }
        let sub = byte - 0x70;
        match sub {
            0x00 => Some(Category::Discovery),
            0x01 => Some(Category::DiscoveryReply),
            0x02 => Some(Category::InvalidateMuid),
            0x03 => Some(Category::EndpointInquiry),
            0x04 => Some(Category::EndpointInquiryResponse),
            0x05 => Some(Category::Ack),
            0x06 => Some(Category::Nak),
            0x07 => Some(Category::ProfileInquiry),
            0x08 => Some(Category::ProfileInquiryResponse),
            0x09 => Some(Category::ProfileAdded),
            0x0A => Some(Category::ProfileRemoved),
            0x0B => Some(Category::ProfileDetails),
            0x0C => Some(Category::ProfileDetailsResponse),
            0x0D => Some(Category::ProfileOn),
            0x0E => Some(Category::ProfileOff),
            0x0F => Some(Category::ProfileEnabledReport),
            0x10 => Some(Category::ProfileDisabledReport),
            0x11 => Some(Category::ProfileSpecificData),
            0x12 => Some(Category::PropertyExchangeCapabilities),
            0x13 => Some(Category::PropertyExchangeCapabilitiesResponse),
            0x14 => Some(Category::PropertyGetData),
            0x15 => Some(Category::PropertyGetDataResponse),
            0x16 => Some(Category::PropertySetData),
            0x17 => Some(Category::PropertySetDataResponse),
            0x18 => Some(Category::PropertySubscribe),
            0x19 => Some(Category::PropertySubscribeResponse),
            0x1A => Some(Category::PropertyNotify),
            0x1B => Some(Category::ProcessInquiry),
            0x1C => Some(Category::ProcessInquiryResponse),
            0x1D => Some(Category::ProcessMidiMessageReport),
            0x1E => Some(Category::ProcessMidiMessageReportResponse),
            0x1F => Some(Category::ProcessEndMidiMessageReport),
            _ => None,
        }
    }

    /// The wire status byte of a category.
    pub fn to_status_byte(self) -> (b: u8)
        ensures b == self.spec_index() + 0x70,
    {
        0x70 + self.index()
    }

    /// Decoding a category's status byte gives the category back.
    pub proof fn lemma_status_round_trip(c: Category)
        ensures Self::spec_from_index(c.spec_index()) == Some(c),
    {
    }
}

// ---------------------------------------------------------------------------
// Encoding
// ---------------------------------------------------------------------------

/// Content encoding of property-exchange bodies.
#[derive(Copy, Clone, PartialEq, Eq, Structural, Hash, Debug)]
pub enum Encoding {
    /// 7-bit ASCII (the default).
    Ascii,
    /// Mcoded7.
    Mcoded7,
    /// zlib then Mcoded7.
    ZlibAndMcoded7,
}

impl Encoding {
    /// The wire byte of an encoding.
    pub open spec fn spec_byte(self) -> u8 {
        match self {
            Encoding::Ascii => 0,
            Encoding::Mcoded7 => 1,
            Encoding::ZlibAndMcoded7 => 2,
        }
    }

    /// Decode an encoding byte, falling back to ASCII for unknown values.
    pub fn from_byte(byte: u8) -> (e: Encoding)
        ensures
            byte == 1 ==> e == Encoding::Mcoded7,
            byte == 2 ==> e == Encoding::ZlibAndMcoded7,
            byte != 1 && byte != 2 ==> e == Encoding::Ascii,
    {
        match byte {
            1 => Encoding::Mcoded7,
            2 => Encoding::ZlibAndMcoded7,
            _ => Encoding::Ascii,
        }
    }

    /// The wire byte.
    pub fn to_byte(self) -> (b: u8)
        ensures b == self.spec_byte(),
    {
        match self {
            Encoding::Ascii => 0,
            Encoding::Mcoded7 => 1,
            Encoding::ZlibAndMcoded7 => 2,
        }
    }
}

// ---------------------------------------------------------------------------
// SubscriptionCommand
// ---------------------------------------------------------------------------

/// Kinds of property subscription commands.
#[derive(Copy, Clone, PartialEq, Eq, Structural, Hash, Debug, Default)]
pub enum SubscriptionCommand {
    /// Begin a subscription.
    #[default]
    Start,
    /// Partial update.
    Partial,
    /// Full update.
    Full,
    /// Change notification.
    Notify,
    /// End the subscription.
    End,
}

impl SubscriptionCommand {
    /// The wire byte of a command.
    pub open spec fn spec_byte(self) -> u8 {
        match self {
            SubscriptionCommand::Start => 0,
            SubscriptionCommand::Partial => 1,
            SubscriptionCommand::Full => 2,
            SubscriptionCommand::Notify => 3,
            SubscriptionCommand::End => 4,
        }
    }

    /// Decode a command byte.
    pub fn from_byte(byte: u8) -> (r: Option<SubscriptionCommand>)
        ensures
            r is Some <==> byte <= 4,
            r matches Some(c) ==> c.spec_byte() == byte,
    {
        match byte {
            0 => Some(SubscriptionCommand::Start),
            1 => Some(SubscriptionCommand::Partial),
            2 => Some(SubscriptionCommand::Full),
            3 => Some(SubscriptionCommand::Notify),
            4 => Some(SubscriptionCommand::End),
            _ => None,
        }
    }

    /// The wire byte.
    pub fn to_byte(self) -> (b: u8)
        ensures b == self.spec_byte(),
    {
        match self {
            SubscriptionCommand::Start => 0,
            SubscriptionCommand::Partial => 1,
            SubscriptionCommand::Full => 2,
            SubscriptionCommand::Notify => 3,
            SubscriptionCommand::End => 4,
        }
    }
}

// ---------------------------------------------------------------------------
// ProtocolVersion
// ---------------------------------------------------------------------------

/// The MIDI-CI protocol version a peer speaks.
#[derive(Copy, Clone, PartialEq, Eq, Structural, Ord, PartialOrd, Hash, Debug)]
pub enum ProtocolVersion {
    /// Version 1.
    V1,
    /// Version 2.
    V2,
}

impl ProtocolVersion {
    /// The highest version this implementation supports.
    pub const IMPLEMENTATION: ProtocolVersion = ProtocolVersion::V2;

    /// The wire byte of a version.
    pub open spec fn spec_byte(self) -> u8 {
        match self {
            ProtocolVersion::V1 => 1,
            ProtocolVersion::V2 => 2,
        }
    }

    /// Decode a version byte.
    pub fn from_byte(byte: u8) -> (r: Option<ProtocolVersion>)
        ensures
            byte == 1 ==> r == Some(ProtocolVersion::V1),
            byte == 2 ==> r == Some(ProtocolVersion::V2),
            byte != 1 && byte != 2 ==> r is None,
    {
        match byte {
            0x01 => Some(ProtocolVersion::V1),
            0x02 => Some(ProtocolVersion::V2),
            _ => None,
        }
    }

    /// The wire byte.
    pub fn to_byte(self) -> (b: u8)
        ensures b == self.spec_byte(),
    {
        match self {
            ProtocolVersion::V1 => 0x01,
            ProtocolVersion::V2 => 0x02,
        }
    }
}

impl Default for ProtocolVersion {
    fn default() -> (v: ProtocolVersion)
        ensures v == ProtocolVersion::V2,
    {
        ProtocolVersion::V2
    }
}

// ---------------------------------------------------------------------------
// RequestId / RequestKey / SubscriptionKey
// ---------------------------------------------------------------------------

/// A 7-bit property-exchange request id.
#[derive(Copy, Clone, PartialEq, Eq, Structural, Hash, Debug)]
pub struct RequestId(pub u8);

impl RequestId {
    /// The "no request" sentinel.
    pub fn none() -> (r: RequestId)
        ensures r.0 == 0,
    {
        RequestId(0)
    }

    /// Largest valid request id.
    pub const MAX: u8 = 0x7F;

    /// Construct a request id; `None` unless the byte fits in 7 bits.
    pub fn new(byte: u8) -> (r: Option<RequestId>)
        ensures
            r is Some <==> byte <= 0x7F,
            r matches Some(id) ==> id.0 == byte,
    {
        if byte <= 0x7F {
            Some(RequestId(byte))
        } else {
            None
        }
    }

    /// Construct a request id, keeping the low 7 bits.
    pub fn from_bits_truncate(byte: u8) -> (r: RequestId)
        ensures r.0 == byte & 0x7F,
    {
        RequestId(byte & 0x7F)
    }

    /// The underlying byte.
    pub fn get(self) -> (b: u8)
        ensures b == self.0,
    {
        self.0
    }
}

impl Default for RequestId {
    fn default() -> (r: RequestId)
        ensures r.0 == 0,
    {
        RequestId(0)
    }
}

/// Opaque key of an outstanding property-exchange request.
#[derive(Copy, Clone, PartialEq, Eq, Structural, Hash, Debug)]
pub struct RequestKey(pub u32);

/// Opaque key of an outstanding property subscription.
#[derive(Copy, Clone, PartialEq, Eq, Structural, Hash, Debug)]
pub struct SubscriptionKey(pub u32);

} // verus!
