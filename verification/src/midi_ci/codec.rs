//! Wire-format encoders and decoders for MIDI-CI messages.
//!
//! A MIDI-CI message travels as `0x7E`, the UMP group, `0x0D`, then the
//! header (address byte, status byte, version byte, source and destination
//! MUIDs) and the per-category payload. Every multi-byte value is packed
//! seven bits per byte, least significant group first.
//!
//! The payload of each category is described as a sequence of wire fields
//! (`WireValue`); the encoder writes that sequence and the decoder parses
//! the layout of field kinds that belongs to the category. The round trip
//! `decode(encode(h, b))` is proved in `lemma_decode_encode_round_trip`.
use vstd::prelude::*;
use crate::midi_ci::error::{MidiCiError, MidiCiResult};
use crate::midi_ci::message::{
    copy_profiles, Ack, Discovery, DiscoveryReply, DynamicSizePropertyExchange, EndpointInquiry,
    EndpointInquiryResponse, Header, InvalidateMuid, MessageBody, Nak, ParsedMessage,
    ProcessEndMidiMessageReport, ProcessInquiry, ProcessInquiryResponse, ProcessMidiMessageReport,
    ProcessMidiMessageReportResponse, ProfileAdded, ProfileDetails, ProfileDetailsResponse,
    ProfileDisabledReport, ProfileEnabledReport, ProfileInquiry, ProfileInquiryResponse,
    ProfileOff, ProfileOn, ProfileRemoved, ProfileSpecificData, PropertyExchangeCapabilities,
    PropertyExchangeCapabilitiesResponse, PropertyGetData, PropertyGetDataResponse, PropertyNotify,
    PropertySetData, PropertySetDataResponse, PropertySubscribe, PropertySubscribeResponse,
    StaticSizePropertyExchange,
};
use crate::midi_ci::types::{
    CapabilityFlags, ChannelInGroup, DeviceInfo, Muid, Profile, ProtocolVersion, RequestId,
    SubscriptionCommand,
};

verus! {

/// UMP type byte for MIDI-CI stream messages.
pub const UMP_TYPE_MIDI_CI: u8 = 0x0D;

/// The UMP NoOp byte that starts every MIDI-CI packet.
pub const UMP_NOOP: u8 = 0x7E;

// ---------------------------------------------------------------------------
// Seven-bit packing, as mathematics
// ---------------------------------------------------------------------------

/// The two 7-bit bytes that carry the low 14 bits of `v`.
pub open spec fn spec_u14_bytes(v: u16) -> Seq<u8> {
    seq![(v & 0x7F) as u8, ((v >> 7u16) & 0x7F) as u8]
}

/// The four 7-bit bytes that carry the low 28 bits of `v`.
pub open spec fn spec_u28_bytes(v: u32) -> Seq<u8> {
    seq![
        (v & 0x7F) as u8,
        ((v >> 7u32) & 0x7F) as u8,
        ((v >> 14u32) & 0x7F) as u8,
        ((v >> 21u32) & 0x7F) as u8,
    ]
}

/// The 14-bit value carried by two 7-bit bytes (high bits of each byte ignored).
pub open spec fn spec_read_u14(b0: u8, b1: u8) -> u16 {
    ((b0 & 0x7F) as u16) | (((b1 & 0x7F) as u16) << 7u16)
}

/// The 28-bit value carried by four 7-bit bytes (high bits of each byte ignored).
pub open spec fn spec_read_u28(b0: u8, b1: u8, b2: u8, b3: u8) -> u32 {
    ((b0 & 0x7F) as u32) | (((b1 & 0x7F) as u32) << 7u32) | (((b2 & 0x7F) as u32) << 14u32)
        | (((b3 & 0x7F) as u32) << 21u32)
}

/// Packing a value below 2^14 and reading it back gives the value.
pub proof fn lemma_u14_round_trip(v: u16)
    requires v < 0x4000,
    ensures
        spec_read_u14(spec_u14_bytes(v)[0], spec_u14_bytes(v)[1]) == v,
{
    let b0 = (v & 0x7F) as u8;
    let b1 = ((v >> 7u16) & 0x7F) as u8;
    assert(((b0 & 0x7F) as u16) | (((b1 & 0x7F) as u16) << 7u16) == v) by (bit_vector)
        requires
            v < 0x4000,
            b0 == (v & 0x7F) as u8,
            b1 == ((v >> 7u16) & 0x7F) as u8,
    ;
}

/// Packing a value below 2^28 and reading it back gives the value.
pub proof fn lemma_u28_round_trip(v: u32)
    requires v <= 0x0FFF_FFFF,
    ensures
        spec_read_u28(spec_u28_bytes(v)[0], spec_u28_bytes(v)[1], spec_u28_bytes(v)[2], spec_u28_bytes(v)[3]) == v,
{
    let b0 = (v & 0x7F) as u8;
    let b1 = ((v >> 7u32) & 0x7F) as u8;
    let b2 = ((v >> 14u32) & 0x7F) as u8;
    let b3 = ((v >> 21u32) & 0x7F) as u8;
    assert(((b0 & 0x7F) as u32) | (((b1 & 0x7F) as u32) << 7u32) | (((b2 & 0x7F) as u32) << 14u32)
        | (((b3 & 0x7F) as u32) << 21u32) == v) by (bit_vector)
        requires
            v <= 0x0FFF_FFFF,
            b0 == (v & 0x7F) as u8,
            b1 == ((v >> 7u32) & 0x7F) as u8,
            b2 == ((v >> 14u32) & 0x7F) as u8,
            b3 == ((v >> 21u32) & 0x7F) as u8,
    ;
}

/// A read 28-bit value always fits in 28 bits.
pub proof fn lemma_read_u28_fits(b0: u8, b1: u8, b2: u8, b3: u8)
    ensures spec_read_u28(b0, b1, b2, b3) <= 0x0FFF_FFFF,
{
    assert(((b0 & 0x7F) as u32) | (((b1 & 0x7F) as u32) << 7u32) | (((b2 & 0x7F) as u32) << 14u32)
        | (((b3 & 0x7F) as u32) << 21u32) <= 0x0FFF_FFFF) by (bit_vector);
}

/// A read 14-bit value always fits in 14 bits.
pub proof fn lemma_read_u14_fits(b0: u8, b1: u8)
    ensures spec_read_u14(b0, b1) < 0x4000,
{
    assert(((b0 & 0x7F) as u16) | (((b1 & 0x7F) as u16) << 7u16) < 0x4000) by (bit_vector);
}

// ---------------------------------------------------------------------------
// WriteSink
// ---------------------------------------------------------------------------

/// A growable byte buffer used to assemble an outbound message.
#[derive(Debug, Default)]
pub struct WriteSink {
    bytes: Vec<u8>,
}

impl View for WriteSink {
    type V = Seq<u8>;

    /// The bytes written so far.
    closed spec fn view(&self) -> Seq<u8> {
        self.bytes@
    }
}

impl WriteSink {
    /// Start a fresh, empty sink.
    pub fn new() -> (s: WriteSink)
        ensures s@ == Seq::<u8>::empty(),
    {
        WriteSink { bytes: Vec::new() }
    }

    /// Append one byte.
    pub fn push(&mut self, byte: u8)
        ensures final(self)@ == old(self)@.push(byte),
    {
        self.bytes.push(byte);
    }

    /// Append several bytes.
    pub fn extend_from_slice(&mut self, slice: &[u8])
        ensures final(self)@ == old(self)@ + slice@,
    {
        let ghost start = self.bytes@;
        let mut i: usize = 0;
        while i < slice.len()
            invariant
                i <= slice@.len(),
                self.bytes@ == start + slice@.take(i as int),
            decreases slice@.len() - i,
        {
            self.bytes.push(slice[i]);
            assert(slice@.take(i as int + 1) =~= slice@.take(i as int).push(slice@[i as int]));
            i = i + 1;
        }
        assert(slice@.take(i as int) =~= slice@);
    }

    /// Consume the sink and return its bytes.
    pub fn into_bytes(self) -> (v: Vec<u8>)
        ensures v@ == self@,
    {
        self.bytes
    }

    /// The bytes written so far.
    pub fn as_slice(&self) -> (s: &[u8])
        ensures s@ == self@,
    {
        self.bytes.as_slice()
    }

    /// Append a MUID as four 7-bit bytes.
    pub fn write_muid(&mut self, muid: Muid)
        ensures final(self)@ == old(self)@ + spec_u28_bytes(muid.value()),
    {
        self.write_u32(muid.get());
    }

    /// Append the low 14 bits of a value as two 7-bit bytes.
    pub fn write_u16(&mut self, value: u16)
        ensures final(self)@ == old(self)@ + spec_u14_bytes(value),
    {
        self.bytes.push((value & 0x7F) as u8);
        self.bytes.push(((value >> 7) & 0x7F) as u8);
        assert(self.bytes@ =~= old(self)@ + spec_u14_bytes(value));
    }

    /// Append the low 28 bits of a value as four 7-bit bytes.
    pub fn write_u32(&mut self, value: u32)
        ensures final(self)@ == old(self)@ + spec_u28_bytes(value),
    {
        self.bytes.push((value & 0x7F) as u8);
        self.bytes.push(((value >> 7) & 0x7F) as u8);
        self.bytes.push(((value >> 14) & 0x7F) as u8);
        self.bytes.push(((value >> 21) & 0x7F) as u8);
        assert(self.bytes@ =~= old(self)@ + spec_u28_bytes(value));
    }

    /// Append a block preceded by its length (low 14 bits, two 7-bit bytes).
    pub fn write_size_prefixed(&mut self, slice: &[u8])
        ensures final(self)@ == old(self)@ + spec_u14_bytes(slice@.len() as u16) + slice@,
    {
        let len = slice.len() as u16;
        self.write_u16(len);
        self.extend_from_slice(slice);
    }

    /// Append the five bytes of a profile id.
    pub fn write_profile(&mut self, profile: &Profile)
        ensures final(self)@ == old(self)@ + profile.0@,
    {
        self.extend_from_slice(profile.as_bytes());
    }

    /// Append manufacturer, family, model and revision bytes.
    pub fn write_device_info(&mut self, info: &DeviceInfo)
        ensures
            final(self)@ == old(self)@ + info.manufacturer@ + info.family@ + info.model@
                + info.revision@,
    {
        self.extend_from_slice(&info.manufacturer);
        self.extend_from_slice(&info.family);
        self.extend_from_slice(&info.model);
        self.extend_from_slice(&info.revision);
    }
}

// ---------------------------------------------------------------------------
// ReadCursor
// ---------------------------------------------------------------------------

/// A cursor that reads an input slice front to back.
#[derive(Debug)]
pub struct ReadCursor<'a> {
    bytes: &'a [u8],
    pos: usize,
}

impl<'a> View for ReadCursor<'a> {
    type V = Seq<u8>;

    /// The bytes not read yet.
    closed spec fn view(&self) -> Seq<u8> {
        self.bytes@.subrange(self.pos as int, self.bytes@.len() as int)
    }
}

/// The error a device-info read reports on `len` remaining bytes (`len < 11`).
pub open spec fn spec_device_info_short(len: nat) -> MidiCiError {
    if len < 3 {
        MidiCiError::TooShort { len: len as usize, min: 3 }
    } else if len < 5 {
        MidiCiError::TooShort { len: (len - 3) as usize, min: 2 }
    } else if len < 7 {
        MidiCiError::TooShort { len: (len - 5) as usize, min: 2 }
    } else {
        MidiCiError::TooShort { len: (len - 7) as usize, min: 4 }
    }
}

impl<'a> ReadCursor<'a> {
    #[verifier::type_invariant]
    spec fn inv(self) -> bool {
        self.pos <= self.bytes@.len()
    }

    /// Wrap a slice for reading from its start.
    pub fn new(bytes: &'a [u8]) -> (c: ReadCursor<'a>)
        ensures c@ == bytes@,
    {
        let c = ReadCursor { bytes, pos: 0 };
        assert(c@ =~= bytes@);
        c
    }

    /// How many bytes are left.
    pub fn remaining(&self) -> (n: usize)
        ensures n == self@.len(),
    {
        proof { use_type_invariant(self); }
        self.bytes.len() - self.pos
    }

    /// Take `n` bytes off the front, or report how many were left.
    pub fn take(&mut self, n: usize) -> (r: MidiCiResult<&'a [u8]>)
        ensures
            old(self)@.len() < n ==> r == Err::<&'a [u8], MidiCiError>(
                MidiCiError::TooShort { len: old(self)@.len() as usize, min: n },
            ) && final(self)@ == old(self)@,
            old(self)@.len() >= n ==> (r matches Ok(s) && s@ == old(self)@.take(n as int)
                && final(self)@ == old(self)@.skip(n as int)),
    {
        proof { use_type_invariant(&*self); }
        let rem = self.remaining();
        if rem < n {
            return Err(MidiCiError::TooShort { len: rem, min: n });
        }
        let start = self.pos;
        let total = self.bytes.len();
        assert(start + n <= total);
        let out = &self.bytes[start..start + n];
        self.pos = start + n;
        assert(out@ =~= old(self)@.take(n as int));
        assert(self@ =~= old(self)@.skip(n as int));
        Ok(out)
    }

    /// Take one byte.
    pub fn take_byte(&mut self) -> (r: MidiCiResult<u8>)
        ensures
            old(self)@.len() < 1 ==> r == Err::<u8, MidiCiError>(
                MidiCiError::TooShort { len: 0, min: 1 },
            ) && final(self)@ == old(self)@,
            old(self)@.len() >= 1 ==> r == Ok::<u8, MidiCiError>(old(self)@[0])
                && final(self)@ == old(self)@.skip(1),
    {
        let s = self.take(1)?;
        Ok(s[0])
    }

    /// Read a MUID from four 7-bit bytes.
    pub fn read_muid(&mut self) -> (r: MidiCiResult<Muid>)
        ensures
            old(self)@.len() < 4 ==> r == Err::<Muid, MidiCiError>(
                MidiCiError::TooShort { len: old(self)@.len() as usize, min: 4 },
            ) && final(self)@ == old(self)@,
            old(self)@.len() >= 4 ==> (r matches Ok(m) && m.value() == spec_read_u28(
                old(self)@[0],
                old(self)@[1],
                old(self)@[2],
                old(self)@[3],
            ) && final(self)@ == old(self)@.skip(4)),
    {
        let v = self.read_u32()?;
        let m = Muid::from_bits_truncate(v);
        proof {
            let s = old(self)@;
            lemma_read_u28_fits(s[0], s[1], s[2], s[3]);
            assert(v & 0x0FFF_FFFF == v) by (bit_vector) requires v <= 0x0FFF_FFFF;
        }
        Ok(m)
    }

    /// Read a 14-bit value from two 7-bit bytes.
    pub fn read_u16(&mut self) -> (r: MidiCiResult<u16>)
        ensures
            old(self)@.len() < 2 ==> r == Err::<u16, MidiCiError>(
                MidiCiError::TooShort { len: old(self)@.len() as usize, min: 2 },
            ) && final(self)@ == old(self)@,
            old(self)@.len() >= 2 ==> r == Ok::<u16, MidiCiError>(
                spec_read_u14(old(self)@[0], old(self)@[1]),
            ) && final(self)@ == old(self)@.skip(2),
    {
        let b = self.take(2)?;
        Ok((b[0] & 0x7F) as u16 | (((b[1] & 0x7F) as u16) << 7))
    }

    /// Read a 28-bit value from four 7-bit bytes.
    pub fn read_u32(&mut self) -> (r: MidiCiResult<u32>)
        ensures
            old(self)@.len() < 4 ==> r == Err::<u32, MidiCiError>(
                MidiCiError::TooShort { len: old(self)@.len() as usize, min: 4 },
            ) && final(self)@ == old(self)@,
            old(self)@.len() >= 4 ==> r == Ok::<u32, MidiCiError>(
                spec_read_u28(old(self)@[0], old(self)@[1], old(self)@[2], old(self)@[3]),
            ) && final(self)@ == old(self)@.skip(4),
    {
        let b = self.take(4)?;
        Ok((b[0] & 0x7F) as u32 | (((b[1] & 0x7F) as u32) << 7) | (((b[2] & 0x7F) as u32) << 14)
            | (((b[3] & 0x7F) as u32) << 21))
    }

    /// Read a block preceded by its 14-bit length.
    pub fn read_size_prefixed(&mut self) -> (r: MidiCiResult<Vec<u8>>)
        ensures
            old(self)@.len() < 2 ==> r == Err::<Vec<u8>, MidiCiError>(
                MidiCiError::TooShort { len: old(self)@.len() as usize, min: 2 },
            ),
            old(self)@.len() >= 2 ==> ({
                let n = spec_read_u14(old(self)@[0], old(self)@[1]);
                let rest = old(self)@.skip(2);
                &&& rest.len() < n ==> r == Err::<Vec<u8>, MidiCiError>(
                    MidiCiError::TooShort { len: rest.len() as usize, min: n as usize },
                )
                &&& rest.len() >= n ==> (r matches Ok(v) && v@ == rest.take(n as int)
                    && final(self)@ == rest.skip(n as int))
            }),
    {
        let len = self.read_u16()? as usize;
        let s = self.take(len)?;
        Ok(vstd::slice::slice_to_vec(s))
    }

    /// Read a five-byte profile id.
    pub fn read_profile(&mut self) -> (r: MidiCiResult<Profile>)
        ensures
            old(self)@.len() < 5 ==> r == Err::<Profile, MidiCiError>(
                MidiCiError::TooShort { len: old(self)@.len() as usize, min: 5 },
            ) && final(self)@ == old(self)@,
            old(self)@.len() >= 5 ==> (r matches Ok(p) && p.0@ == old(self)@.take(5)
                && final(self)@ == old(self)@.skip(5)),
    {
        let b = self.take(5)?;
        let id: [u8; 5] = [b[0], b[1], b[2], b[3], b[4]];
        assert(id@ =~= b@);
        Ok(Profile::new(id))
    }

    /// Read manufacturer (3), family (2), model (2) and revision (4) bytes.
    pub fn read_device_info(&mut self) -> (r: MidiCiResult<DeviceInfo>)
        ensures
            old(self)@.len() < 11 ==> r == Err::<DeviceInfo, MidiCiError>(
                spec_device_info_short(old(self)@.len()),
            ),
            old(self)@.len() >= 11 ==> (r matches Ok(d)
                && d.manufacturer@ == old(self)@.subrange(0, 3)
                && d.family@ == old(self)@.subrange(3, 5)
                && d.model@ == old(self)@.subrange(5, 7)
                && d.revision@ == old(self)@.subrange(7, 11)
                && final(self)@ == old(self)@.skip(11)),
    {
        let m = self.take(3)?;
        let manufacturer: [u8; 3] = [m[0], m[1], m[2]];
        let f = self.take(2)?;
        let family: [u8; 2] = [f[0], f[1]];
        let o = self.take(2)?;
        let model: [u8; 2] = [o[0], o[1]];
        let v = self.take(4)?;
        let revision: [u8; 4] = [v[0], v[1], v[2], v[3]];
        proof {
            let s = old(self)@;
            assert(manufacturer@ =~= s.subrange(0, 3));
            assert(family@ =~= s.subrange(3, 5));
            assert(model@ =~= s.subrange(5, 7));
            assert(revision@ =~= s.subrange(7, 11));
            assert(self@ =~= s.skip(11));
        }
        Ok(DeviceInfo::new(manufacturer, family, model, revision))
    }
}


// ---------------------------------------------------------------------------
// Wire fields
// ---------------------------------------------------------------------------

/// The kind of one payload field, which tells the parser how to read it.
#[derive(Copy, Clone, PartialEq, Eq, Structural, Debug)]
pub enum FieldKind {
    /// One raw byte.
    Byte,
    /// One byte holding a 7-bit request id.
    RequestId,
    /// One byte holding a subscription command (0..=4).
    Command,
    /// A 14-bit value in two 7-bit bytes.
    Word14,
    /// A 28-bit value in four 7-bit bytes.
    Word28,
    /// A fixed number of raw bytes.
    Fixed(usize),
    /// A block preceded by its 14-bit length.
    Sized,
    /// A length-prefixed block of five-byte profile ids.
    Profiles,
}

/// The mathematical value of one payload field.
pub enum WireValue {
    /// One raw byte.
    Byte(u8),
    /// A request id.
    RequestId(u8),
    /// A subscription command byte.
    Command(u8),
    /// A 14-bit value.
    Word14(u16),
    /// A 28-bit value.
    Word28(u32),
    /// Raw bytes of a fixed length.
    Fixed(Seq<u8>),
    /// A length-prefixed block.
    Sized(Seq<u8>),
    /// Profile ids, five bytes each.
    Profiles(Seq<Seq<u8>>),
}

/// One payload field as a run-time value.
#[derive(Debug)]
pub enum Field {
    /// One raw byte.
    Byte(u8),
    /// A request id.
    RequestId(u8),
    /// A subscription command byte.
    Command(u8),
    /// A 14-bit value.
    Word14(u16),
    /// A 28-bit value.
    Word28(u32),
    /// Raw bytes of a fixed length.
    Fixed(Vec<u8>),
    /// A length-prefixed block.
    Sized(Vec<u8>),
    /// Profile ids.
    Profiles(Vec<Profile>),
}

/// The id bytes of each profile in a sequence.
pub open spec fn spec_profile_ids(ps: Seq<Profile>) -> Seq<Seq<u8>> {
    ps.map_values(|p: Profile| p.0@)
}

impl View for Field {
    type V = WireValue;

    open spec fn view(&self) -> WireValue {
        match self {
            Field::Byte(b) => WireValue::Byte(*b),
            Field::RequestId(b) => WireValue::RequestId(*b),
            Field::Command(b) => WireValue::Command(*b),
            Field::Word14(v) => WireValue::Word14(*v),
            Field::Word28(v) => WireValue::Word28(*v),
            Field::Fixed(v) => WireValue::Fixed(v@),
            Field::Sized(v) => WireValue::Sized(v@),
            Field::Profiles(ps) => WireValue::Profiles(spec_profile_ids(ps@)),
        }
    }
}

/// The values of a sequence of run-time fields.
pub open spec fn spec_field_views(fs: Seq<Field>) -> Seq<WireValue> {
    fs.map_values(|f: Field| f@)
}

/// The kind a value is read back as.
pub open spec fn spec_kind_of(v: WireValue) -> FieldKind {
    match v {
        WireValue::Byte(_) => FieldKind::Byte,
        WireValue::RequestId(_) => FieldKind::RequestId,
        WireValue::Command(_) => FieldKind::Command,
        WireValue::Word14(_) => FieldKind::Word14,
        WireValue::Word28(_) => FieldKind::Word28,
        WireValue::Fixed(s) => FieldKind::Fixed(s.len() as usize),
        WireValue::Sized(_) => FieldKind::Sized,
        WireValue::Profiles(_) => FieldKind::Profiles,
    }
}

/// Whether a value survives encoding and decoding unchanged: numbers fit
/// their bit widths, blocks fit a 14-bit length, profile ids are 5 bytes.
pub open spec fn spec_value_fits(v: WireValue) -> bool {
    match v {
        WireValue::Byte(_) => true,
        WireValue::RequestId(b) => b <= 0x7F,
        WireValue::Command(b) => b <= 4,
        WireValue::Word14(x) => x < 0x4000,
        WireValue::Word28(x) => x <= 0x0FFF_FFFF,
        WireValue::Fixed(s) => s.len() < 0x4000,
        WireValue::Sized(s) => s.len() < 0x4000,
        WireValue::Profiles(ps) => 5 * ps.len() < 0x4000 && forall|i: int|
            0 <= i < ps.len() ==> (#[trigger] ps[i]).len() == 5,
    }
}

/// The concatenation of profile ids.
pub open spec fn spec_concat_ids(ps: Seq<Seq<u8>>) -> Seq<u8>
    decreases ps.len(),
{
    if ps.len() == 0 {
        Seq::empty()
    } else {
        spec_concat_ids(ps.drop_last()) + ps.last()
    }
}

/// Consecutive five-byte chunks of a block; a short tail is dropped.
pub open spec fn spec_chunks5(s: Seq<u8>) -> Seq<Seq<u8>> {
    Seq::new(s.len() / 5, |i: int| s.subrange(5 * i, 5 * i + 5))
}

/// The bytes of one field on the wire.
pub open spec fn spec_serialize_field(v: WireValue) -> Seq<u8> {
    match v {
        WireValue::Byte(b) => seq![b],
        WireValue::RequestId(b) => seq![b & 0x7F],
        WireValue::Command(b) => seq![b],
        WireValue::Word14(x) => spec_u14_bytes(x),
        WireValue::Word28(x) => spec_u28_bytes(x),
        WireValue::Fixed(s) => s,
        WireValue::Sized(s) => spec_u14_bytes(s.len() as u16) + s,
        WireValue::Profiles(ps) => spec_u14_bytes(spec_concat_ids(ps).len() as u16)
            + spec_concat_ids(ps),
    }
}

/// The bytes of a sequence of fields, in order.
pub open spec fn spec_serialize(vs: Seq<WireValue>) -> Seq<u8>
    decreases vs.len(),
{
    if vs.len() == 0 {
        Seq::empty()
    } else {
        spec_serialize_field(vs[0]) + spec_serialize(vs.skip(1))
    }
}

/// Parse one field of the given kind from the front of `b`: the value and
/// the number of bytes it took, or the error the reader reports.
pub open spec fn spec_parse_field(b: Seq<u8>, k: FieldKind) -> Result<(WireValue, nat), MidiCiError> {
    match k {
        FieldKind::Byte => if b.len() < 1 {
            Err(MidiCiError::TooShort { len: 0, min: 1 })
        } else {
            Ok((WireValue::Byte(b[0]), 1))
        },
        FieldKind::RequestId => if b.len() < 1 {
            Err(MidiCiError::TooShort { len: 0, min: 1 })
        } else {
            Ok((WireValue::RequestId(b[0] & 0x7F), 1))
        },
        FieldKind::Command => if b.len() < 1 {
            Err(MidiCiError::TooShort { len: 0, min: 1 })
        } else if b[0] > 4 {
            Err(MidiCiError::Malformed("unknown subscription command"))
        } else {
            Ok((WireValue::Command(b[0]), 1))
        },
        FieldKind::Word14 => if b.len() < 2 {
            Err(MidiCiError::TooShort { len: b.len() as usize, min: 2 })
        } else {
            Ok((WireValue::Word14(spec_read_u14(b[0], b[1])), 2))
        },
        FieldKind::Word28 => if b.len() < 4 {
            Err(MidiCiError::TooShort { len: b.len() as usize, min: 4 })
        } else {
            Ok((WireValue::Word28(spec_read_u28(b[0], b[1], b[2], b[3])), 4))
        },
        FieldKind::Fixed(n) => if b.len() < n {
            Err(MidiCiError::TooShort { len: b.len() as usize, min: n })
        } else {
            Ok((WireValue::Fixed(b.take(n as int)), n as nat))
        },
        FieldKind::Sized => if b.len() < 2 {
            Err(MidiCiError::TooShort { len: b.len() as usize, min: 2 })
        } else {
            let n = spec_read_u14(b[0], b[1]);
            if b.len() - 2 < n {
                Err(MidiCiError::TooShort { len: (b.len() - 2) as usize, min: n as usize })
            } else {
                Ok((WireValue::Sized(b.subrange(2, 2 + n)), (2 + n) as nat))
            }
        },
        FieldKind::Profiles => if b.len() < 2 {
            Err(MidiCiError::TooShort { len: b.len() as usize, min: 2 })
        } else {
            let n = spec_read_u14(b[0], b[1]);
            if b.len() - 2 < n {
                Err(MidiCiError::TooShort { len: (b.len() - 2) as usize, min: n as usize })
            } else {
                Ok((WireValue::Profiles(spec_chunks5(b.subrange(2, 2 + n))), (2 + n) as nat))
            }
        },
    }
}

/// Parse fields of the given kinds in order: all values and the bytes they
/// took, or the first error.
pub open spec fn spec_parse_fields(b: Seq<u8>, ks: Seq<FieldKind>) -> Result<(Seq<WireValue>, nat), MidiCiError>
    decreases ks.len(),
{
    if ks.len() == 0 {
        Ok((Seq::empty(), 0))
    } else {
        match spec_parse_field(b, ks[0]) {
            Err(e) => Err(e),
            Ok((v, n)) => match spec_parse_fields(b.skip(n as int), ks.skip(1)) {
                Err(e) => Err(e),
                Ok((vs, m)) => Ok((seq![v] + vs, n + m)),
            },
        }
    }
}

/// Prepend already parsed values to the outcome of parsing the rest.
pub open spec fn spec_prepend(vs: Seq<WireValue>, n: nat, r: Result<(Seq<WireValue>, nat), MidiCiError>) -> Result<(Seq<WireValue>, nat), MidiCiError> {
    match r {
        Err(e) => Err(e),
        Ok((ws, m)) => Ok((vs + ws, n + m)),
    }
}

/// Serialising one more field appends its bytes.
pub proof fn lemma_serialize_push(vs: Seq<WireValue>, v: WireValue)
    ensures spec_serialize(vs.push(v)) == spec_serialize(vs) + spec_serialize_field(v),
    decreases vs.len(),
{
    if vs.len() == 0 {
        assert(vs.push(v).skip(1) =~= Seq::<WireValue>::empty());
        assert(vs.push(v)[0] == v);
        assert(spec_serialize(Seq::<WireValue>::empty()) == Seq::<u8>::empty());
        assert(spec_serialize(vs) == Seq::<u8>::empty());
        assert(spec_serialize(vs.push(v)) =~= spec_serialize_field(v));
    } else {
        lemma_serialize_push(vs.skip(1), v);
        assert(vs.push(v).skip(1) =~= vs.skip(1).push(v));
        assert(vs.push(v)[0] == vs[0]);
        assert(spec_serialize(vs.push(v)) =~= spec_serialize(vs) + spec_serialize_field(v));
    }
}

/// Concatenated profile ids of five bytes each split back into the same ids.
pub proof fn lemma_chunks_of_concat(ps: Seq<Seq<u8>>)
    requires forall|i: int| 0 <= i < ps.len() ==> (#[trigger] ps[i]).len() == 5,
    ensures
        spec_concat_ids(ps).len() == 5 * ps.len(),
        spec_chunks5(spec_concat_ids(ps)) == ps,
    decreases ps.len(),
{
    if ps.len() == 0 {
        assert(spec_chunks5(spec_concat_ids(ps)) =~= ps);
    } else {
        let init = ps.drop_last();
        assert forall|i: int| 0 <= i < init.len() implies (#[trigger] init[i]).len() == 5 by {
            assert(init[i] == ps[i]);
        }
        lemma_chunks_of_concat(init);
        let c = spec_concat_ids(ps);
        let ci = spec_concat_ids(init);
        assert(c == ci + ps.last());
        assert(ps.last() == ps[ps.len() - 1]);
        assert(c.len() == 5 * ps.len());
        assert forall|i: int| 0 <= i < ps.len() implies #[trigger] spec_chunks5(c)[i] == ps[i] by {
            if i < ps.len() - 1 {
                assert(spec_chunks5(ci)[i] == init[i]);
                assert(c.subrange(5 * i, 5 * i + 5) =~= ci.subrange(5 * i, 5 * i + 5));
            } else {
                assert(c.subrange(5 * i, 5 * i + 5) =~= ps.last());
            }
        }
        assert(spec_chunks5(c) =~= ps);
    }
}

/// A value that fits is parsed back from its own bytes, whatever follows.
pub proof fn lemma_parse_serialize_field(v: WireValue, rest: Seq<u8>)
    requires spec_value_fits(v),
    ensures
        spec_parse_field(spec_serialize_field(v) + rest, spec_kind_of(v))
            == Ok::<(WireValue, nat), MidiCiError>((v, spec_serialize_field(v).len())),
{
    let b = spec_serialize_field(v) + rest;
    match v {
        WireValue::RequestId(x) => {
            assert(x & 0x7F == x) by (bit_vector) requires x <= 0x7F;
            assert((x & 0x7F) & 0x7F == x) by (bit_vector) requires x <= 0x7F;
        },
        WireValue::Word14(x) => {
            lemma_u14_round_trip(x);
        },
        WireValue::Word28(x) => {
            lemma_u28_round_trip(x);
        },
        WireValue::Fixed(s) => {
            assert(b.take(s.len() as int) =~= s);
        },
        WireValue::Sized(s) => {
            let n = s.len() as u16;
            lemma_u14_round_trip(n);
            assert(b.subrange(2, 2 + s.len() as int) =~= s);
        },
        WireValue::Profiles(ps) => {
            lemma_chunks_of_concat(ps);
            let c = spec_concat_ids(ps);
            let n = c.len() as u16;
            lemma_u14_round_trip(n);
            assert(b.subrange(2, 2 + c.len() as int) =~= c);
        },
        _ => {},
    }
}

/// Values that fit are parsed back from their bytes, whatever follows.
pub proof fn lemma_parse_serialize(vs: Seq<WireValue>, rest: Seq<u8>)
    requires forall|i: int| 0 <= i < vs.len() ==> spec_value_fits(#[trigger] vs[i]),
    ensures
        spec_parse_fields(spec_serialize(vs) + rest, vs.map_values(|v: WireValue| spec_kind_of(v)))
            == Ok::<(Seq<WireValue>, nat), MidiCiError>((vs, spec_serialize(vs).len())),
    decreases vs.len(),
{
    let ks = vs.map_values(|v: WireValue| spec_kind_of(v));
    if vs.len() == 0 {
        assert(vs =~= Seq::<WireValue>::empty());
    } else {
        let tail = vs.skip(1);
        assert forall|i: int| 0 <= i < tail.len() implies spec_value_fits(#[trigger] tail[i]) by {
            assert(tail[i] == vs[i + 1]);
        }
        lemma_parse_serialize(tail, rest);
        let head = spec_serialize_field(vs[0]);
        let b = spec_serialize(vs) + rest;
        assert(b =~= head + (spec_serialize(tail) + rest));
        lemma_parse_serialize_field(vs[0], spec_serialize(tail) + rest);
        assert(ks[0] == spec_kind_of(vs[0]));
        assert(ks.skip(1) =~= tail.map_values(|v: WireValue| spec_kind_of(v)));
        assert(b.skip(head.len() as int) =~= spec_serialize(tail) + rest);
        assert(seq![vs[0]] + tail =~= vs);
    }
}

/// Parsing the rest after one more field extends the parsed prefix.
pub proof fn lemma_parse_fields_step(b: Seq<u8>, ks: Seq<FieldKind>, i: int, vs: Seq<WireValue>, used: nat)
    requires
        0 <= i < ks.len(),
        used <= b.len(),
        spec_parse_fields(b, ks) == spec_prepend(vs, used, spec_parse_fields(b.skip(used as int), ks.skip(i))),
    ensures
        match spec_parse_field(b.skip(used as int), ks[i]) {
            Err(e) => spec_parse_fields(b, ks) == Err::<(Seq<WireValue>, nat), MidiCiError>(e),
            Ok((v, n)) => n <= b.len() - used && spec_parse_fields(b, ks) == spec_prepend(
                vs.push(v),
                used + n,
                spec_parse_fields(b.skip((used + n) as int), ks.skip(i + 1)),
            ),
        },
{
    let cur = b.skip(used as int);
    let k = ks.skip(i);
    assert(k[0] == ks[i]);
    assert(k.skip(1) =~= ks.skip(i + 1));
    match spec_parse_field(cur, ks[i]) {
        Err(e) => {},
        Ok((v, n)) => {
            assert(n <= cur.len());
            assert(cur.skip(n as int) =~= b.skip((used + n) as int));
            match spec_parse_fields(b.skip((used + n) as int), ks.skip(i + 1)) {
                Err(e) => {},
                Ok((ws, m)) => {
                    assert(vs + (seq![v] + ws) =~= vs.push(v) + ws);
                },
            }
        },
    }
}

// ---------------------------------------------------------------------------
// Reading and writing fields
// ---------------------------------------------------------------------------

/// Split a block into five-byte profile ids; a short tail is dropped.
pub fn profiles_from_bytes(bytes: &[u8]) -> (ps: Vec<Profile>)
    ensures spec_profile_ids(ps@) == spec_chunks5(bytes@),
{
    let mut out: Vec<Profile> = Vec::new();
    let total = bytes.len();
    let n = total / 5;
    let mut i: usize = 0;
    while i < n
        invariant
            total == bytes@.len(),
            n == total / 5,
            i <= n,
            out@.len() == i,
            forall|j: int| 0 <= j < i ==> (#[trigger] out@[j]).0@ == bytes@.subrange(5 * j, 5 * j + 5),
        decreases n - i,
    {
        assert(5 * i + 5 <= total);
        let s = 5 * i;
        let id: [u8; 5] = [bytes[s], bytes[s + 1], bytes[s + 2], bytes[s + 3], bytes[s + 4]];
        assert(id@ =~= bytes@.subrange(5 * i, 5 * i + 5));
        out.push(Profile::new(id));
        i = i + 1;
    }
    assert(spec_profile_ids(out@) =~= spec_chunks5(bytes@));
    out
}

/// Concatenate the ids of a list of profiles.
pub fn profile_bytes(profiles: &[Profile]) -> (out: Vec<u8>)
    ensures out@ == spec_concat_ids(spec_profile_ids(profiles@)),
{
    let mut out: Vec<u8> = Vec::new();
    let mut i: usize = 0;
    while i < profiles.len()
        invariant
            i <= profiles@.len(),
            out@ == spec_concat_ids(spec_profile_ids(profiles@.take(i as int))),
        decreases profiles@.len() - i,
    {
        let id = profiles[i].as_bytes();
        let mut j: usize = 0;
        let ghost before = out@;
        while j < 5
            invariant
                j <= 5,
                out@ == before + id@.take(j as int),
            decreases 5 - j,
        {
            out.push(id[j]);
            assert(id@.take(j as int + 1) =~= id@.take(j as int).push(id@[j as int]));
            j = j + 1;
        }
        proof {
            let ids = spec_profile_ids(profiles@.take(i as int + 1));
            assert(ids.drop_last() =~= spec_profile_ids(profiles@.take(i as int)));
            assert(ids.last() == profiles@[i as int].0@);
            assert(id@.take(5) =~= id@);
        }
        i = i + 1;
    }
    assert(profiles@.take(i as int) =~= profiles@);
    out
}

/// The block after a 14-bit length, seen from the length's end or the start.
proof fn lemma_sized_split(b: Seq<u8>)
    requires b.len() >= 2,
    ensures ({
        let n = spec_read_u14(b[0], b[1]) as int;
        b.skip(2).len() >= n ==> b.skip(2).take(n) == b.subrange(2, 2 + n)
            && b.skip(2).skip(n) == b.skip(2 + n)
    }),
{
    let n = spec_read_u14(b[0], b[1]) as int;
    if b.skip(2).len() >= n {
        assert(b.skip(2).take(n) =~= b.subrange(2, 2 + n));
        assert(b.skip(2).skip(n) =~= b.skip(2 + n));
    }
}

/// Read one field of the given kind.
pub fn read_field(cursor: &mut ReadCursor, kind: FieldKind) -> (r: MidiCiResult<Field>)
    ensures
        spec_parse_field(old(cursor)@, kind) matches Ok((v, n)) ==> (r matches Ok(f) && f@ == v
            && final(cursor)@ == old(cursor)@.skip(n as int)),
        spec_parse_field(old(cursor)@, kind) matches Err(e) ==> r == Err::<Field, MidiCiError>(e),
{
    match kind {
        FieldKind::Byte => Ok(Field::Byte(cursor.take_byte()?)),
        FieldKind::RequestId => {
            let b = cursor.take_byte()?;
            Ok(Field::RequestId(RequestId::from_bits_truncate(b).get()))
        },
        FieldKind::Command => {
            let b = cursor.take_byte()?;
            match SubscriptionCommand::from_byte(b) {
                Some(c) => Ok(Field::Command(c.to_byte())),
                None => Err(MidiCiError::Malformed("unknown subscription command")),
            }
        },
        FieldKind::Word14 => Ok(Field::Word14(cursor.read_u16()?)),
        FieldKind::Word28 => Ok(Field::Word28(cursor.read_u32()?)),
        FieldKind::Fixed(n) => {
            let s = cursor.take(n)?;
            Ok(Field::Fixed(vstd::slice::slice_to_vec(s)))
        },
        FieldKind::Sized => {
            let v = cursor.read_size_prefixed()?;
            proof { lemma_sized_split(old(cursor)@); }
            Ok(Field::Sized(v))
        },
        FieldKind::Profiles => {
            let bytes = cursor.read_size_prefixed()?;
            proof { lemma_sized_split(old(cursor)@); }
            Ok(Field::Profiles(profiles_from_bytes(&bytes)))
        },
    }
}

/// Read fields of the given kinds in order.
pub fn read_fields(cursor: &mut ReadCursor, kinds: &Vec<FieldKind>) -> (r: MidiCiResult<Vec<Field>>)
    ensures
        spec_parse_fields(old(cursor)@, kinds@) matches Ok((vs, n)) ==> (r matches Ok(fs)
            && spec_field_views(fs@) == vs && final(cursor)@ == old(cursor)@.skip(n as int)),
        spec_parse_fields(old(cursor)@, kinds@) matches Err(e) ==> r == Err::<Vec<Field>, MidiCiError>(e),
{
    let ghost start = cursor@;
    let mut out: Vec<Field> = Vec::new();
    let ghost mut used: nat = 0;
    let mut i: usize = 0;
    assert(kinds@.skip(0) =~= kinds@);
    assert(start.skip(0) =~= start);
    assert(Seq::<WireValue>::empty() + Seq::<WireValue>::empty() =~= Seq::<WireValue>::empty());
    while i < kinds.len()
        invariant
            i <= kinds@.len(),
            start == old(cursor)@,
            used <= start.len(),
            cursor@ == start.skip(used as int),
            spec_parse_fields(start, kinds@) == spec_prepend(
                spec_field_views(out@),
                used,
                spec_parse_fields(start.skip(used as int), kinds@.skip(i as int)),
            ),
        decreases kinds@.len() - i,
    {
        let ghost before = spec_field_views(out@);
        proof { lemma_parse_fields_step(start, kinds@, i as int, before, used); }
        let k = kinds[i];
        let r = read_field(cursor, k);
        match r {
            Err(e) => {
                proof {
                    assert(spec_parse_field(start.skip(used as int), kinds@[i as int]) is Err);
                }
                return Err(e);
            },
            Ok(f) => {
                proof {
                    let (v, n) = spec_parse_field(start.skip(used as int), kinds@[i as int]).unwrap();
                    assert(start.skip(used as int).skip(n as int) =~= start.skip((used + n) as int));
                    used = used + n;
                }
                out.push(f);
                proof { assert(spec_field_views(out@) =~= before.push(f@)); }
            },
        }
        i = i + 1;
    }
    proof {
        assert(kinds@.skip(i as int) =~= Seq::<FieldKind>::empty());
        assert(spec_field_views(out@) + Seq::<WireValue>::empty() =~= spec_field_views(out@));
    }
    Ok(out)
}

/// Append one field's wire bytes.
pub fn write_field(sink: &mut WriteSink, f: &Field)
    ensures final(sink)@ == old(sink)@ + spec_serialize_field(f@),
{
    match f {
        Field::Byte(b) => sink.push(*b),
        Field::RequestId(b) => sink.push(*b & 0x7F),
        Field::Command(b) => sink.push(*b),
        Field::Word14(v) => sink.write_u16(*v),
        Field::Word28(v) => sink.write_u32(*v),
        Field::Fixed(v) => sink.extend_from_slice(v.as_slice()),
        Field::Sized(v) => sink.write_size_prefixed(v.as_slice()),
        Field::Profiles(ps) => {
            let bytes = profile_bytes(ps.as_slice());
            sink.write_size_prefixed(bytes.as_slice());
        },
    }
    proof {
        match f {
            Field::Byte(b) => { assert(old(sink)@.push(*b) =~= old(sink)@ + seq![*b]); },
            Field::RequestId(b) => { assert(old(sink)@.push(*b & 0x7F) =~= old(sink)@ + seq![*b & 0x7F]); },
            Field::Command(b) => { assert(old(sink)@.push(*b) =~= old(sink)@ + seq![*b]); },
            Field::Sized(v) => { assert(sink@ =~= old(sink)@ + spec_serialize_field(f@)); },
            Field::Profiles(ps) => { assert(sink@ =~= old(sink)@ + spec_serialize_field(f@)); },
            _ => {},
        }
    }
}

/// Append the wire bytes of fields in order.
pub fn write_fields(sink: &mut WriteSink, fs: &Vec<Field>)
    ensures final(sink)@ == old(sink)@ + spec_serialize(spec_field_views(fs@)),
{
    let ghost start = sink@;
    let mut i: usize = 0;
    assert(spec_field_views(fs@).take(0) =~= Seq::<WireValue>::empty());
    while i < fs.len()
        invariant
            i <= fs@.len(),
            sink@ == start + spec_serialize(spec_field_views(fs@).take(i as int)),
        decreases fs@.len() - i,
    {
        write_field(sink, &fs[i]);
        proof {
            let vs = spec_field_views(fs@);
            assert(vs.take(i as int + 1) =~= vs.take(i as int).push(vs[i as int]));
            lemma_serialize_push(vs.take(i as int), vs[i as int]);
        }
        i = i + 1;
    }
    assert(spec_field_views(fs@).take(i as int) =~= spec_field_views(fs@));
}

// ---------------------------------------------------------------------------
// Category payloads
// ---------------------------------------------------------------------------

/// Whether a parsed value has the shape its kind promises: the right
/// variant, a fixed block of the stated length, a command byte of at most 4,
/// a 7-bit request id and a 28-bit word.
pub open spec fn spec_value_matches(v: WireValue, k: FieldKind) -> bool {
    match k {
        FieldKind::Byte => v is Byte,
        FieldKind::RequestId => v matches WireValue::RequestId(b) && b <= 0x7F,
        FieldKind::Command => v matches WireValue::Command(b) && b <= 4,
        FieldKind::Word14 => v is Word14,
        FieldKind::Word28 => v matches WireValue::Word28(x) && x <= 0x0FFF_FFFF,
        FieldKind::Fixed(n) => v matches WireValue::Fixed(s) && s.len() == n,
        FieldKind::Sized => v is Sized,
        FieldKind::Profiles => v is Profiles,
    }
}

/// Whether parsed values match a layout of kinds one by one.
pub open spec fn spec_fields_match(vs: Seq<WireValue>, ks: Seq<FieldKind>) -> bool {
    &&& vs.len() == ks.len()
    &&& forall|i: int| 0 <= i < vs.len() ==> #[trigger] spec_value_matches(vs[i], ks[i])
}

/// What one parsed field is always like.
pub proof fn lemma_parse_field_matches(b: Seq<u8>, k: FieldKind)
    ensures
        spec_parse_field(b, k) matches Ok((v, n)) ==> spec_value_matches(v, k) && n <= b.len(),
{
    if b.len() >= 1 {
        let x = b[0];
        assert(x & 0x7F <= 0x7F) by (bit_vector);
    }
    if b.len() >= 4 {
        lemma_read_u28_fits(b[0], b[1], b[2], b[3]);
    }
}

/// What parsed fields are always like.
pub proof fn lemma_parse_fields_match(b: Seq<u8>, ks: Seq<FieldKind>)
    ensures
        spec_parse_fields(b, ks) matches Ok((vs, n)) ==> spec_fields_match(vs, ks) && n <= b.len(),
    decreases ks.len(),
{
    if ks.len() > 0 {
        lemma_parse_field_matches(b, ks[0]);
        match spec_parse_field(b, ks[0]) {
            Ok((v, n)) => {
                lemma_parse_fields_match(b.skip(n as int), ks.skip(1));
                match spec_parse_fields(b.skip(n as int), ks.skip(1)) {
                    Ok((vs, m)) => {
                        let all = seq![v] + vs;
                        assert forall|i: int| 0 <= i < all.len() implies #[trigger] spec_value_matches(all[i], ks[i]) by {
                            if i > 0 {
                                assert(all[i] == vs[i - 1]);
                                assert(ks[i] == ks.skip(1)[i - 1]);
                            }
                        }
                    },
                    Err(_) => {},
                }
            },
            Err(_) => {},
        }
    }
}

proof fn lemma_mask28_identity(x: u32)
    requires x <= 0x0FFF_FFFF,
    ensures x & 0x0FFF_FFFF == x,
{
    assert(x & 0x0FFF_FFFF == x) by (bit_vector) requires x <= 0x0FFF_FFFF;
}

/// The byte of a byte or request-id field.
fn field_byte(f: &Field) -> (b: u8)
    ensures
        f@ matches WireValue::Byte(x) ==> b == x,
        f@ matches WireValue::RequestId(x) ==> b == x,
{
    match f {
        Field::Byte(b) => *b,
        Field::RequestId(b) => *b,
        _ => 0,
    }
}

/// The value of a 14-bit field.
fn field_word14(f: &Field) -> (v: u16)
    ensures f@ matches WireValue::Word14(x) ==> v == x,
{
    match f {
        Field::Word14(v) => *v,
        _ => 0,
    }
}

/// The value of a 28-bit field.
fn field_word28(f: &Field) -> (v: u32)
    ensures f@ matches WireValue::Word28(x) ==> v == x,
{
    match f {
        Field::Word28(v) => *v,
        _ => 0,
    }
}

/// The command of a command field.
fn field_command(f: &Field) -> (c: SubscriptionCommand)
    requires f@ matches WireValue::Command(b) && b <= 4,
    ensures f@ matches WireValue::Command(b) ==> c.spec_byte() == b,
{
    match f {
        Field::Command(b) => match SubscriptionCommand::from_byte(*b) {
            Some(c) => c,
            None => SubscriptionCommand::Start,
        },
        _ => SubscriptionCommand::Start,
    }
}

/// A copy of the bytes of a fixed or length-prefixed field.
fn field_bytes(f: &Field) -> (v: Vec<u8>)
    ensures
        f@ matches WireValue::Fixed(s) ==> v@ == s,
        f@ matches WireValue::Sized(s) ==> v@ == s,
{
    match f {
        Field::Fixed(v) => vstd::slice::slice_to_vec(v.as_slice()),
        Field::Sized(v) => vstd::slice::slice_to_vec(v.as_slice()),
        _ => Vec::new(),
    }
}

/// A copy of the profiles of a profile-list field.
fn field_profiles(f: &Field) -> (v: Vec<Profile>)
    ensures f@ matches WireValue::Profiles(ps) ==> spec_profile_ids(v@) == ps,
{
    match f {
        Field::Profiles(ps) => copy_profiles(ps),
        _ => Vec::new(),
    }
}

fn array2(v: &Vec<u8>) -> (a: [u8; 2])
    requires v@.len() == 2,
    ensures a@ == v@,
{
    let a = [v[0], v[1]];
    assert(a@ =~= v@);
    a
}

fn array3(v: &Vec<u8>) -> (a: [u8; 3])
    requires v@.len() == 3,
    ensures a@ == v@,
{
    let a = [v[0], v[1], v[2]];
    assert(a@ =~= v@);
    a
}

fn array4(v: &Vec<u8>) -> (a: [u8; 4])
    requires v@.len() == 4,
    ensures a@ == v@,
{
    let a = [v[0], v[1], v[2], v[3]];
    assert(a@ =~= v@);
    a
}

fn array5(v: &Vec<u8>) -> (a: [u8; 5])
    requires v@.len() == 5,
    ensures a@ == v@,
{
    let a = [v[0], v[1], v[2], v[3], v[4]];
    assert(a@ =~= v@);
    a
}

/// The payload fields of a body as the encoder writes them; fields that
/// only version 2 carries are present only when `v2` holds. Every field of
/// every body struct appears when `v2` holds.
pub open spec fn spec_body_fields(b: MessageBody, v2: bool) -> Seq<WireValue> {
    match b {
        MessageBody::Discovery(m) => seq![WireValue::Fixed(m.device_info.manufacturer@), WireValue::Fixed(m.device_info.family@), WireValue::Fixed(m.device_info.model@), WireValue::Fixed(m.device_info.revision@), WireValue::Byte(m.capabilities.0), WireValue::Word28(m.maximum_sysex_size)] + (if v2 { seq![WireValue::Byte(m.output_path_id)] } else { Seq::<WireValue>::empty() }),
        MessageBody::DiscoveryReply(m) => seq![WireValue::Fixed(m.device_info.manufacturer@), WireValue::Fixed(m.device_info.family@), WireValue::Fixed(m.device_info.model@), WireValue::Fixed(m.device_info.revision@), WireValue::Byte(m.capabilities.0), WireValue::Word28(m.maximum_sysex_size)] + (if v2 { seq![WireValue::Byte(m.output_path_id), WireValue::Byte(m.function_block)] } else { Seq::<WireValue>::empty() }),
        MessageBody::InvalidateMuid(m) => seq![WireValue::Word28(m.target.value())],
        MessageBody::EndpointInquiry(m) => seq![WireValue::Byte(m.status)],
        MessageBody::EndpointInquiryResponse(m) => seq![WireValue::Byte(m.status), WireValue::Sized(m.data@)],
        MessageBody::Ack(m) => seq![WireValue::Byte(m.original_category), WireValue::Byte(m.status_code), WireValue::Byte(m.status_data), WireValue::Fixed(m.details@), WireValue::Sized(m.message_text@)],
        MessageBody::Nak(m) => seq![WireValue::Byte(m.original_category), WireValue::Byte(m.status_code), WireValue::Byte(m.status_data), WireValue::Fixed(m.details@), WireValue::Sized(m.message_text@)],
        MessageBody::ProfileInquiry(_) => Seq::<WireValue>::empty(),
        MessageBody::ProfileInquiryResponse(m) => seq![WireValue::Profiles(spec_profile_ids(m.enabled_profiles@)), WireValue::Profiles(spec_profile_ids(m.disabled_profiles@))],
        MessageBody::ProfileAdded(m) => seq![WireValue::Fixed(m.profile.0@)],
        MessageBody::ProfileRemoved(m) => seq![WireValue::Fixed(m.profile.0@)],
        MessageBody::ProfileDetails(m) => seq![WireValue::Fixed(m.profile.0@), WireValue::Byte(m.target)],
        MessageBody::ProfileDetailsResponse(m) => seq![WireValue::Fixed(m.profile.0@), WireValue::Byte(m.target), WireValue::Sized(m.data@)],
        MessageBody::ProfileOn(m) => seq![WireValue::Fixed(m.profile.0@)] + (if v2 { seq![WireValue::Word14(m.num_channels)] } else { Seq::<WireValue>::empty() }),
        MessageBody::ProfileOff(m) => seq![WireValue::Fixed(m.profile.0@)],
        MessageBody::ProfileEnabledReport(m) => seq![WireValue::Fixed(m.profile.0@)] + (if v2 { seq![WireValue::Word14(m.num_channels)] } else { Seq::<WireValue>::empty() }),
        MessageBody::ProfileDisabledReport(m) => seq![WireValue::Fixed(m.profile.0@)] + (if v2 { seq![WireValue::Word14(m.num_channels)] } else { Seq::<WireValue>::empty() }),
        MessageBody::ProfileSpecificData(m) => seq![WireValue::Fixed(m.profile.0@), WireValue::Sized(m.data@)],
        MessageBody::PropertyExchangeCapabilities(m) => seq![WireValue::Byte(m.num_simultaneous_requests_supported)] + (if v2 { seq![WireValue::Byte(m.major_version), WireValue::Byte(m.minor_version)] } else { Seq::<WireValue>::empty() }),
        MessageBody::PropertyExchangeCapabilitiesResponse(m) => seq![WireValue::Byte(m.num_simultaneous_requests_supported)] + (if v2 { seq![WireValue::Byte(m.major_version), WireValue::Byte(m.minor_version)] } else { Seq::<WireValue>::empty() }),
        MessageBody::PropertyGetData(m) => seq![WireValue::RequestId(m.inner.request_id.0), WireValue::Sized(m.inner.header@)],
        MessageBody::PropertyGetDataResponse(m) => seq![WireValue::RequestId(m.inner.request_id.0), WireValue::Sized(m.inner.header@), WireValue::Word14(m.inner.total_num_chunks), WireValue::Word14(m.inner.this_chunk_num), WireValue::Sized(m.inner.data@)],
        MessageBody::PropertySetData(m) => seq![WireValue::RequestId(m.inner.request_id.0), WireValue::Sized(m.inner.header@), WireValue::Word14(m.inner.total_num_chunks), WireValue::Word14(m.inner.this_chunk_num), WireValue::Sized(m.inner.data@)],
        MessageBody::PropertySetDataResponse(m) => seq![WireValue::RequestId(m.inner.request_id.0), WireValue::Sized(m.inner.header@)],
        MessageBody::PropertySubscribe(m) => seq![WireValue::Command(m.command.spec_byte()), WireValue::RequestId(m.inner.request_id.0), WireValue::Sized(m.inner.header@), WireValue::Word14(m.inner.total_num_chunks), WireValue::Word14(m.inner.this_chunk_num), WireValue::Sized(m.inner.data@)],
        MessageBody::PropertySubscribeResponse(m) => seq![WireValue::RequestId(m.inner.request_id.0), WireValue::Sized(m.inner.header@), WireValue::Word14(m.inner.total_num_chunks), WireValue::Word14(m.inner.this_chunk_num), WireValue::Sized(m.inner.data@)],
        MessageBody::PropertyNotify(m) => seq![WireValue::RequestId(m.inner.request_id.0), WireValue::Sized(m.inner.header@), WireValue::Word14(m.inner.total_num_chunks), WireValue::Word14(m.inner.this_chunk_num), WireValue::Sized(m.inner.data@)],
        MessageBody::ProcessInquiry(m) => seq![WireValue::Byte(m.supported_features)],
        MessageBody::ProcessInquiryResponse(m) => seq![WireValue::Byte(m.supported_features)],
        MessageBody::ProcessMidiMessageReport(m) => seq![WireValue::Byte(m.message_data_control), WireValue::Byte(m.requested_messages), WireValue::Byte(m.channel_controller_messages), WireValue::Byte(m.note_data_messages)],
        MessageBody::ProcessMidiMessageReportResponse(m) => seq![WireValue::Byte(m.message_data_control), WireValue::Byte(m.requested_messages), WireValue::Byte(m.channel_controller_messages), WireValue::Byte(m.note_data_messages)],
        MessageBody::ProcessEndMidiMessageReport(_) => Seq::<WireValue>::empty(),
        MessageBody::Malformed(_) => Seq::<WireValue>::empty(),
    }
}

/// The field kinds of a category's payload, by category index.
pub open spec fn spec_layout(idx: u8, v2: bool) -> Seq<FieldKind> {
    match idx {
        0 => seq![FieldKind::Fixed(3), FieldKind::Fixed(2), FieldKind::Fixed(2), FieldKind::Fixed(4), FieldKind::Byte, FieldKind::Word28] + (if v2 { seq![FieldKind::Byte] } else { Seq::<FieldKind>::empty() }),
        1 => seq![FieldKind::Fixed(3), FieldKind::Fixed(2), FieldKind::Fixed(2), FieldKind::Fixed(4), FieldKind::Byte, FieldKind::Word28] + (if v2 { seq![FieldKind::Byte, FieldKind::Byte] } else { Seq::<FieldKind>::empty() }),
        2 => seq![FieldKind::Word28],
        3 => seq![FieldKind::Byte],
        4 => seq![FieldKind::Byte, FieldKind::Sized],
        5 => seq![FieldKind::Byte, FieldKind::Byte, FieldKind::Byte, FieldKind::Fixed(5), FieldKind::Sized],
        6 => seq![FieldKind::Byte, FieldKind::Byte, FieldKind::Byte, FieldKind::Fixed(5), FieldKind::Sized],
        7 => Seq::<FieldKind>::empty(),
        8 => seq![FieldKind::Profiles, FieldKind::Profiles],
        9 => seq![FieldKind::Fixed(5)],
        10 => seq![FieldKind::Fixed(5)],
        11 => seq![FieldKind::Fixed(5), FieldKind::Byte],
        12 => seq![FieldKind::Fixed(5), FieldKind::Byte, FieldKind::Sized],
        13 => seq![FieldKind::Fixed(5)] + (if v2 { seq![FieldKind::Word14] } else { Seq::<FieldKind>::empty() }),
        14 => seq![FieldKind::Fixed(5)],
        15 => seq![FieldKind::Fixed(5)] + (if v2 { seq![FieldKind::Word14] } else { Seq::<FieldKind>::empty() }),
        16 => seq![FieldKind::Fixed(5)] + (if v2 { seq![FieldKind::Word14] } else { Seq::<FieldKind>::empty() }),
        17 => seq![FieldKind::Fixed(5), FieldKind::Sized],
        18 => seq![FieldKind::Byte] + (if v2 { seq![FieldKind::Byte, FieldKind::Byte] } else { Seq::<FieldKind>::empty() }),
        19 => seq![FieldKind::Byte] + (if v2 { seq![FieldKind::Byte, FieldKind::Byte] } else { Seq::<FieldKind>::empty() }),
        20 => seq![FieldKind::RequestId, FieldKind::Sized],
        21 => seq![FieldKind::RequestId, FieldKind::Sized, FieldKind::Word14, FieldKind::Word14, FieldKind::Sized],
        22 => seq![FieldKind::RequestId, FieldKind::Sized, FieldKind::Word14, FieldKind::Word14, FieldKind::Sized],
        23 => seq![FieldKind::RequestId, FieldKind::Sized],
        24 => seq![FieldKind::Command, FieldKind::RequestId, FieldKind::Sized, FieldKind::Word14, FieldKind::Word14, FieldKind::Sized],
        25 => seq![FieldKind::RequestId, FieldKind::Sized, FieldKind::Word14, FieldKind::Word14, FieldKind::Sized],
        26 => seq![FieldKind::RequestId, FieldKind::Sized, FieldKind::Word14, FieldKind::Word14, FieldKind::Sized],
        27 => seq![FieldKind::Byte],
        28 => seq![FieldKind::Byte],
        29 => seq![FieldKind::Byte, FieldKind::Byte, FieldKind::Byte, FieldKind::Byte],
        30 => seq![FieldKind::Byte, FieldKind::Byte, FieldKind::Byte, FieldKind::Byte],
        31 => Seq::<FieldKind>::empty(),
        _ => Seq::<FieldKind>::empty(),
    }
}

/// Whether the fields that only version 2 carries are all zero.
pub open spec fn spec_v2_fields_zero(b: MessageBody) -> bool {
    match b {
        MessageBody::Discovery(m) => m.output_path_id == 0,
        MessageBody::DiscoveryReply(m) => m.output_path_id == 0 && m.function_block == 0,
        MessageBody::ProfileOn(m) => m.num_channels == 0,
        MessageBody::ProfileEnabledReport(m) => m.num_channels == 0,
        MessageBody::ProfileDisabledReport(m) => m.num_channels == 0,
        MessageBody::PropertyExchangeCapabilities(m) => m.major_version == 0 && m.minor_version == 0,
        MessageBody::PropertyExchangeCapabilitiesResponse(m) => m.major_version == 0 && m.minor_version == 0,
        _ => true,
    }
}

/// The payload fields of a body, as run-time values.
pub fn body_fields(body: &MessageBody, v2: bool) -> (fs: Vec<Field>)
    ensures spec_field_views(fs@) == spec_body_fields(*body, v2),
{
    let mut fs: Vec<Field> = Vec::new();
    match body {
        MessageBody::Discovery(m) => {
            fs.push(Field::Fixed(vstd::slice::slice_to_vec(&m.device_info.manufacturer)));
            fs.push(Field::Fixed(vstd::slice::slice_to_vec(&m.device_info.family)));
            fs.push(Field::Fixed(vstd::slice::slice_to_vec(&m.device_info.model)));
            fs.push(Field::Fixed(vstd::slice::slice_to_vec(&m.device_info.revision)));
            fs.push(Field::Byte(m.capabilities.bits()));
            fs.push(Field::Word28(m.maximum_sysex_size));
            if v2 {
                fs.push(Field::Byte(m.output_path_id));
            }
        },
        MessageBody::DiscoveryReply(m) => {
            fs.push(Field::Fixed(vstd::slice::slice_to_vec(&m.device_info.manufacturer)));
            fs.push(Field::Fixed(vstd::slice::slice_to_vec(&m.device_info.family)));
            fs.push(Field::Fixed(vstd::slice::slice_to_vec(&m.device_info.model)));
            fs.push(Field::Fixed(vstd::slice::slice_to_vec(&m.device_info.revision)));
            fs.push(Field::Byte(m.capabilities.bits()));
            fs.push(Field::Word28(m.maximum_sysex_size));
            if v2 {
                fs.push(Field::Byte(m.output_path_id));
                fs.push(Field::Byte(m.function_block));
            }
        },
        MessageBody::InvalidateMuid(m) => {
            fs.push(Field::Word28(m.target.get()));
        },
        MessageBody::EndpointInquiry(m) => {
            fs.push(Field::Byte(m.status));
        },
        MessageBody::EndpointInquiryResponse(m) => {
            fs.push(Field::Byte(m.status));
            fs.push(Field::Sized(vstd::slice::slice_to_vec(m.data.as_slice())));
        },
        MessageBody::Ack(m) => {
            fs.push(Field::Byte(m.original_category));
            fs.push(Field::Byte(m.status_code));
            fs.push(Field::Byte(m.status_data));
            fs.push(Field::Fixed(vstd::slice::slice_to_vec(&m.details)));
            fs.push(Field::Sized(vstd::slice::slice_to_vec(m.message_text.as_slice())));
        },
        MessageBody::Nak(m) => {
            fs.push(Field::Byte(m.original_category));
            fs.push(Field::Byte(m.status_code));
            fs.push(Field::Byte(m.status_data));
            fs.push(Field::Fixed(vstd::slice::slice_to_vec(&m.details)));
            fs.push(Field::Sized(vstd::slice::slice_to_vec(m.message_text.as_slice())));
        },
        MessageBody::ProfileInquiry(_) => {
        },
        MessageBody::ProfileInquiryResponse(m) => {
            fs.push(Field::Profiles(copy_profiles(&m.enabled_profiles)));
            fs.push(Field::Profiles(copy_profiles(&m.disabled_profiles)));
        },
        MessageBody::ProfileAdded(m) => {
            fs.push(Field::Fixed(vstd::slice::slice_to_vec(m.profile.as_bytes())));
        },
        MessageBody::ProfileRemoved(m) => {
            fs.push(Field::Fixed(vstd::slice::slice_to_vec(m.profile.as_bytes())));
        },
        MessageBody::ProfileDetails(m) => {
            fs.push(Field::Fixed(vstd::slice::slice_to_vec(m.profile.as_bytes())));
            fs.push(Field::Byte(m.target));
        },
        MessageBody::ProfileDetailsResponse(m) => {
            fs.push(Field::Fixed(vstd::slice::slice_to_vec(m.profile.as_bytes())));
            fs.push(Field::Byte(m.target));
            fs.push(Field::Sized(vstd::slice::slice_to_vec(m.data.as_slice())));
        },
        MessageBody::ProfileOn(m) => {
            fs.push(Field::Fixed(vstd::slice::slice_to_vec(m.profile.as_bytes())));
            if v2 {
                fs.push(Field::Word14(m.num_channels));
            }
        },
        MessageBody::ProfileOff(m) => {
            fs.push(Field::Fixed(vstd::slice::slice_to_vec(m.profile.as_bytes())));
        },
        MessageBody::ProfileEnabledReport(m) => {
            fs.push(Field::Fixed(vstd::slice::slice_to_vec(m.profile.as_bytes())));
            if v2 {
                fs.push(Field::Word14(m.num_channels));
            }
        },
        MessageBody::ProfileDisabledReport(m) => {
            fs.push(Field::Fixed(vstd::slice::slice_to_vec(m.profile.as_bytes())));
            if v2 {
                fs.push(Field::Word14(m.num_channels));
            }
        },
        MessageBody::ProfileSpecificData(m) => {
            fs.push(Field::Fixed(vstd::slice::slice_to_vec(m.profile.as_bytes())));
            fs.push(Field::Sized(vstd::slice::slice_to_vec(m.data.as_slice())));
        },
        MessageBody::PropertyExchangeCapabilities(m) => {
            fs.push(Field::Byte(m.num_simultaneous_requests_supported));
            if v2 {
                fs.push(Field::Byte(m.major_version));
                fs.push(Field::Byte(m.minor_version));
            }
        },
        MessageBody::PropertyExchangeCapabilitiesResponse(m) => {
            fs.push(Field::Byte(m.num_simultaneous_requests_supported));
            if v2 {
                fs.push(Field::Byte(m.major_version));
                fs.push(Field::Byte(m.minor_version));
            }
        },
        MessageBody::PropertyGetData(m) => {
            fs.push(Field::RequestId(m.inner.request_id.get()));
            fs.push(Field::Sized(vstd::slice::slice_to_vec(m.inner.header.as_slice())));
        },
        MessageBody::PropertyGetDataResponse(m) => {
            fs.push(Field::RequestId(m.inner.request_id.get()));
            fs.push(Field::Sized(vstd::slice::slice_to_vec(m.inner.header.as_slice())));
            fs.push(Field::Word14(m.inner.total_num_chunks));
            fs.push(Field::Word14(m.inner.this_chunk_num));
            fs.push(Field::Sized(vstd::slice::slice_to_vec(m.inner.data.as_slice())));
        },
        MessageBody::PropertySetData(m) => {
            fs.push(Field::RequestId(m.inner.request_id.get()));
            fs.push(Field::Sized(vstd::slice::slice_to_vec(m.inner.header.as_slice())));
            fs.push(Field::Word14(m.inner.total_num_chunks));
            fs.push(Field::Word14(m.inner.this_chunk_num));
            fs.push(Field::Sized(vstd::slice::slice_to_vec(m.inner.data.as_slice())));
        },
        MessageBody::PropertySetDataResponse(m) => {
            fs.push(Field::RequestId(m.inner.request_id.get()));
            fs.push(Field::Sized(vstd::slice::slice_to_vec(m.inner.header.as_slice())));
        },
        MessageBody::PropertySubscribe(m) => {
            fs.push(Field::Command(m.command.to_byte()));
            fs.push(Field::RequestId(m.inner.request_id.get()));
            fs.push(Field::Sized(vstd::slice::slice_to_vec(m.inner.header.as_slice())));
            fs.push(Field::Word14(m.inner.total_num_chunks));
            fs.push(Field::Word14(m.inner.this_chunk_num));
            fs.push(Field::Sized(vstd::slice::slice_to_vec(m.inner.data.as_slice())));
        },
        MessageBody::PropertySubscribeResponse(m) => {
            fs.push(Field::RequestId(m.inner.request_id.get()));
            fs.push(Field::Sized(vstd::slice::slice_to_vec(m.inner.header.as_slice())));
            fs.push(Field::Word14(m.inner.total_num_chunks));
            fs.push(Field::Word14(m.inner.this_chunk_num));
            fs.push(Field::Sized(vstd::slice::slice_to_vec(m.inner.data.as_slice())));
        },
        MessageBody::PropertyNotify(m) => {
            fs.push(Field::RequestId(m.inner.request_id.get()));
            fs.push(Field::Sized(vstd::slice::slice_to_vec(m.inner.header.as_slice())));
            fs.push(Field::Word14(m.inner.total_num_chunks));
            fs.push(Field::Word14(m.inner.this_chunk_num));
            fs.push(Field::Sized(vstd::slice::slice_to_vec(m.inner.data.as_slice())));
        },
        MessageBody::ProcessInquiry(m) => {
            fs.push(Field::Byte(m.supported_features));
        },
        MessageBody::ProcessInquiryResponse(m) => {
            fs.push(Field::Byte(m.supported_features));
        },
        MessageBody::ProcessMidiMessageReport(m) => {
            fs.push(Field::Byte(m.message_data_control));
            fs.push(Field::Byte(m.requested_messages));
            fs.push(Field::Byte(m.channel_controller_messages));
            fs.push(Field::Byte(m.note_data_messages));
        },
        MessageBody::ProcessMidiMessageReportResponse(m) => {
            fs.push(Field::Byte(m.message_data_control));
            fs.push(Field::Byte(m.requested_messages));
            fs.push(Field::Byte(m.channel_controller_messages));
            fs.push(Field::Byte(m.note_data_messages));
        },
        MessageBody::ProcessEndMidiMessageReport(_) => {
        },
        MessageBody::Malformed(_) => {},
    }
    assert(spec_field_views(fs@) =~= spec_body_fields(*body, v2));
    fs
}

/// The field kinds of a category's payload, as a run-time list.
pub fn field_layout(idx: u8, v2: bool) -> (ks: Vec<FieldKind>)
    requires idx < 32,
    ensures ks@ == spec_layout(idx, v2),
{
    let mut ks: Vec<FieldKind> = Vec::new();
    match idx {
        0 => {
            ks.push(FieldKind::Fixed(3));
            ks.push(FieldKind::Fixed(2));
            ks.push(FieldKind::Fixed(2));
            ks.push(FieldKind::Fixed(4));
            ks.push(FieldKind::Byte);
            ks.push(FieldKind::Word28);
            if v2 {
                ks.push(FieldKind::Byte);
            }
        },
        1 => {
            ks.push(FieldKind::Fixed(3));
            ks.push(FieldKind::Fixed(2));
            ks.push(FieldKind::Fixed(2));
            ks.push(FieldKind::Fixed(4));
            ks.push(FieldKind::Byte);
            ks.push(FieldKind::Word28);
            if v2 {
                ks.push(FieldKind::Byte);
                ks.push(FieldKind::Byte);
            }
        },
        2 => {
            ks.push(FieldKind::Word28);
        },
        3 => {
            ks.push(FieldKind::Byte);
        },
        4 => {
            ks.push(FieldKind::Byte);
            ks.push(FieldKind::Sized);
        },
        5 => {
            ks.push(FieldKind::Byte);
            ks.push(FieldKind::Byte);
            ks.push(FieldKind::Byte);
            ks.push(FieldKind::Fixed(5));
            ks.push(FieldKind::Sized);
        },
        6 => {
            ks.push(FieldKind::Byte);
            ks.push(FieldKind::Byte);
            ks.push(FieldKind::Byte);
            ks.push(FieldKind::Fixed(5));
            ks.push(FieldKind::Sized);
        },
        7 => {
        },
        8 => {
            ks.push(FieldKind::Profiles);
            ks.push(FieldKind::Profiles);
        },
        9 => {
            ks.push(FieldKind::Fixed(5));
        },
        10 => {
            ks.push(FieldKind::Fixed(5));
        },
        11 => {
            ks.push(FieldKind::Fixed(5));
            ks.push(FieldKind::Byte);
        },
        12 => {
            ks.push(FieldKind::Fixed(5));
            ks.push(FieldKind::Byte);
            ks.push(FieldKind::Sized);
        },
        13 => {
            ks.push(FieldKind::Fixed(5));
            if v2 {
                ks.push(FieldKind::Word14);
            }
        },
        14 => {
            ks.push(FieldKind::Fixed(5));
        },
        15 => {
            ks.push(FieldKind::Fixed(5));
            if v2 {
                ks.push(FieldKind::Word14);
            }
        },
        16 => {
            ks.push(FieldKind::Fixed(5));
            if v2 {
                ks.push(FieldKind::Word14);
            }
        },
        17 => {
            ks.push(FieldKind::Fixed(5));
            ks.push(FieldKind::Sized);
        },
        18 => {
            ks.push(FieldKind::Byte);
            if v2 {
                ks.push(FieldKind::Byte);
                ks.push(FieldKind::Byte);
            }
        },
        19 => {
            ks.push(FieldKind::Byte);
            if v2 {
                ks.push(FieldKind::Byte);
                ks.push(FieldKind::Byte);
            }
        },
        20 => {
            ks.push(FieldKind::RequestId);
            ks.push(FieldKind::Sized);
        },
        21 => {
            ks.push(FieldKind::RequestId);
            ks.push(FieldKind::Sized);
            ks.push(FieldKind::Word14);
            ks.push(FieldKind::Word14);
            ks.push(FieldKind::Sized);
        },
        22 => {
            ks.push(FieldKind::RequestId);
            ks.push(FieldKind::Sized);
            ks.push(FieldKind::Word14);
            ks.push(FieldKind::Word14);
            ks.push(FieldKind::Sized);
        },
        23 => {
            ks.push(FieldKind::RequestId);
            ks.push(FieldKind::Sized);
        },
        24 => {
            ks.push(FieldKind::Command);
            ks.push(FieldKind::RequestId);
            ks.push(FieldKind::Sized);
            ks.push(FieldKind::Word14);
            ks.push(FieldKind::Word14);
            ks.push(FieldKind::Sized);
        },
        25 => {
            ks.push(FieldKind::RequestId);
            ks.push(FieldKind::Sized);
            ks.push(FieldKind::Word14);
            ks.push(FieldKind::Word14);
            ks.push(FieldKind::Sized);
        },
        26 => {
            ks.push(FieldKind::RequestId);
            ks.push(FieldKind::Sized);
            ks.push(FieldKind::Word14);
            ks.push(FieldKind::Word14);
            ks.push(FieldKind::Sized);
        },
        27 => {
            ks.push(FieldKind::Byte);
        },
        28 => {
            ks.push(FieldKind::Byte);
        },
        29 => {
            ks.push(FieldKind::Byte);
            ks.push(FieldKind::Byte);
            ks.push(FieldKind::Byte);
            ks.push(FieldKind::Byte);
        },
        30 => {
            ks.push(FieldKind::Byte);
            ks.push(FieldKind::Byte);
            ks.push(FieldKind::Byte);
            ks.push(FieldKind::Byte);
        },
        31 => {
        },
        _ => {},
    }
    assert(ks@ =~= spec_layout(idx, v2));
    ks
}

/// Build the body of a category from its parsed payload fields.
pub fn body_from_fields(idx: u8, v2: bool, fs: &Vec<Field>) -> (b: MessageBody)
    requires
        idx < 32,
        spec_fields_match(spec_field_views(fs@), spec_layout(idx, v2)),
    ensures
        !(b is Malformed),
        b.spec_category_index() == idx,
        spec_body_fields(b, v2) == spec_field_views(fs@),
        !v2 ==> spec_v2_fields_zero(b),
{
    proof {
        let vs = spec_field_views(fs@);
        let ks = spec_layout(idx, v2);
        assert forall|i: int| 0 <= i < fs@.len() implies spec_value_matches(#[trigger] fs@[i]@, ks[i]) by {
            assert(vs[i] == fs@[i]@);
        }
    }
    let b = match idx {
        0 => {
            let device_info = DeviceInfo::new(array3(&field_bytes(&fs[0])), array2(&field_bytes(&fs[1])), array2(&field_bytes(&fs[2])), array4(&field_bytes(&fs[3])));
            MessageBody::Discovery(Discovery { device_info, capabilities: CapabilityFlags::from_bits_truncate(field_byte(&fs[4])), maximum_sysex_size: field_word28(&fs[5]), output_path_id: if v2 { field_byte(&fs[6]) } else { 0 } })
        },
        1 => {
            let device_info = DeviceInfo::new(array3(&field_bytes(&fs[0])), array2(&field_bytes(&fs[1])), array2(&field_bytes(&fs[2])), array4(&field_bytes(&fs[3])));
            MessageBody::DiscoveryReply(DiscoveryReply { device_info, capabilities: CapabilityFlags::from_bits_truncate(field_byte(&fs[4])), maximum_sysex_size: field_word28(&fs[5]), output_path_id: if v2 { field_byte(&fs[6]) } else { 0 }, function_block: if v2 { field_byte(&fs[7]) } else { 0 } })
        },
        2 => {
            let raw = field_word28(&fs[0]);
            proof { lemma_mask28_identity(raw); }
            MessageBody::InvalidateMuid(InvalidateMuid { target: Muid::from_bits_truncate(raw) })
        },
        3 => {
            MessageBody::EndpointInquiry(EndpointInquiry { status: field_byte(&fs[0]) })
        },
        4 => {
            MessageBody::EndpointInquiryResponse(EndpointInquiryResponse { status: field_byte(&fs[0]), data: field_bytes(&fs[1]) })
        },
        5 => {
            MessageBody::Ack(Ack { original_category: field_byte(&fs[0]), status_code: field_byte(&fs[1]), status_data: field_byte(&fs[2]), details: array5(&field_bytes(&fs[3])), message_text: field_bytes(&fs[4]) })
        },
        6 => {
            MessageBody::Nak(Nak { original_category: field_byte(&fs[0]), status_code: field_byte(&fs[1]), status_data: field_byte(&fs[2]), details: array5(&field_bytes(&fs[3])), message_text: field_bytes(&fs[4]) })
        },
        7 => {
            MessageBody::ProfileInquiry(ProfileInquiry)
        },
        8 => {
            MessageBody::ProfileInquiryResponse(ProfileInquiryResponse { enabled_profiles: field_profiles(&fs[0]), disabled_profiles: field_profiles(&fs[1]) })
        },
        9 => {
            MessageBody::ProfileAdded(ProfileAdded { profile: Profile::new(array5(&field_bytes(&fs[0]))) })
        },
        10 => {
            MessageBody::ProfileRemoved(ProfileRemoved { profile: Profile::new(array5(&field_bytes(&fs[0]))) })
        },
        11 => {
            MessageBody::ProfileDetails(ProfileDetails { profile: Profile::new(array5(&field_bytes(&fs[0]))), target: field_byte(&fs[1]) })
        },
        12 => {
            MessageBody::ProfileDetailsResponse(ProfileDetailsResponse { profile: Profile::new(array5(&field_bytes(&fs[0]))), target: field_byte(&fs[1]), data: field_bytes(&fs[2]) })
        },
        13 => {
            MessageBody::ProfileOn(ProfileOn { profile: Profile::new(array5(&field_bytes(&fs[0]))), num_channels: if v2 { field_word14(&fs[1]) } else { 0 } })
        },
        14 => {
            MessageBody::ProfileOff(ProfileOff { profile: Profile::new(array5(&field_bytes(&fs[0]))) })
        },
        15 => {
            MessageBody::ProfileEnabledReport(ProfileEnabledReport { profile: Profile::new(array5(&field_bytes(&fs[0]))), num_channels: if v2 { field_word14(&fs[1]) } else { 0 } })
        },
        16 => {
            MessageBody::ProfileDisabledReport(ProfileDisabledReport { profile: Profile::new(array5(&field_bytes(&fs[0]))), num_channels: if v2 { field_word14(&fs[1]) } else { 0 } })
        },
        17 => {
            MessageBody::ProfileSpecificData(ProfileSpecificData { profile: Profile::new(array5(&field_bytes(&fs[0]))), data: field_bytes(&fs[1]) })
        },
        18 => {
            MessageBody::PropertyExchangeCapabilities(PropertyExchangeCapabilities { num_simultaneous_requests_supported: field_byte(&fs[0]), major_version: if v2 { field_byte(&fs[1]) } else { 0 }, minor_version: if v2 { field_byte(&fs[2]) } else { 0 } })
        },
        19 => {
            MessageBody::PropertyExchangeCapabilitiesResponse(PropertyExchangeCapabilitiesResponse { num_simultaneous_requests_supported: field_byte(&fs[0]), major_version: if v2 { field_byte(&fs[1]) } else { 0 }, minor_version: if v2 { field_byte(&fs[2]) } else { 0 } })
        },
        20 => {
            let inner = StaticSizePropertyExchange { request_id: RequestId(field_byte(&fs[0])), header: field_bytes(&fs[1]) };
            MessageBody::PropertyGetData(PropertyGetData { inner })
        },
        21 => {
            let inner = DynamicSizePropertyExchange { request_id: RequestId(field_byte(&fs[0])), header: field_bytes(&fs[1]), total_num_chunks: field_word14(&fs[2]), this_chunk_num: field_word14(&fs[3]), data: field_bytes(&fs[4]) };
            MessageBody::PropertyGetDataResponse(PropertyGetDataResponse { inner })
        },
        22 => {
            let inner = DynamicSizePropertyExchange { request_id: RequestId(field_byte(&fs[0])), header: field_bytes(&fs[1]), total_num_chunks: field_word14(&fs[2]), this_chunk_num: field_word14(&fs[3]), data: field_bytes(&fs[4]) };
            MessageBody::PropertySetData(PropertySetData { inner })
        },
        23 => {
            let inner = StaticSizePropertyExchange { request_id: RequestId(field_byte(&fs[0])), header: field_bytes(&fs[1]) };
            MessageBody::PropertySetDataResponse(PropertySetDataResponse { inner })
        },
        24 => {
            let inner = DynamicSizePropertyExchange { request_id: RequestId(field_byte(&fs[1])), header: field_bytes(&fs[2]), total_num_chunks: field_word14(&fs[3]), this_chunk_num: field_word14(&fs[4]), data: field_bytes(&fs[5]) };
            MessageBody::PropertySubscribe(PropertySubscribe { command: field_command(&fs[0]), inner })
        },
        25 => {
            let inner = DynamicSizePropertyExchange { request_id: RequestId(field_byte(&fs[0])), header: field_bytes(&fs[1]), total_num_chunks: field_word14(&fs[2]), this_chunk_num: field_word14(&fs[3]), data: field_bytes(&fs[4]) };
            MessageBody::PropertySubscribeResponse(PropertySubscribeResponse { inner })
        },
        26 => {
            let inner = DynamicSizePropertyExchange { request_id: RequestId(field_byte(&fs[0])), header: field_bytes(&fs[1]), total_num_chunks: field_word14(&fs[2]), this_chunk_num: field_word14(&fs[3]), data: field_bytes(&fs[4]) };
            MessageBody::PropertyNotify(PropertyNotify { inner })
        },
        27 => {
            MessageBody::ProcessInquiry(ProcessInquiry { supported_features: field_byte(&fs[0]) })
        },
        28 => {
            MessageBody::ProcessInquiryResponse(ProcessInquiryResponse { supported_features: field_byte(&fs[0]) })
        },
        29 => {
            MessageBody::ProcessMidiMessageReport(ProcessMidiMessageReport { message_data_control: field_byte(&fs[0]), requested_messages: field_byte(&fs[1]), channel_controller_messages: field_byte(&fs[2]), note_data_messages: field_byte(&fs[3]) })
        },
        30 => {
            MessageBody::ProcessMidiMessageReportResponse(ProcessMidiMessageReportResponse { message_data_control: field_byte(&fs[0]), requested_messages: field_byte(&fs[1]), channel_controller_messages: field_byte(&fs[2]), note_data_messages: field_byte(&fs[3]) })
        },
        31 => {
            MessageBody::ProcessEndMidiMessageReport(ProcessEndMidiMessageReport)
        },
        _ => MessageBody::ProcessEndMidiMessageReport(ProcessEndMidiMessageReport),
    };
    assert(spec_body_fields(b, v2) =~= spec_field_views(fs@));
    b
}


// ---------------------------------------------------------------------------
// Whole messages
// ---------------------------------------------------------------------------

/// The status byte a body is sent with: `0x70` plus its category index
/// (a malformed body is sent as a discovery message).
pub open spec fn spec_category_byte(b: MessageBody) -> u8 {
    (0x70 + b.spec_category_index()) as u8
}

/// The header bytes: address, status, version, source and destination MUIDs.
pub open spec fn spec_header_bytes(h: Header, status: u8) -> Seq<u8> {
    seq![h.device_id.spec_byte(), status, h.version] + spec_u28_bytes(h.source.value())
        + spec_u28_bytes(h.destination.value())
}

/// The bytes `encode_body` writes: header, then the body's payload fields
/// in the layout of the header's version.
pub open spec fn spec_encode_body(h: Header, b: MessageBody) -> Seq<u8> {
    spec_header_bytes(h, spec_category_byte(b)) + spec_serialize(spec_body_fields(b, h.version == 2))
}

/// The bytes `encode` produces: UMP framing, then the encoded body.
pub open spec fn spec_encode(h: Header, b: MessageBody, group: u8) -> Seq<u8> {
    seq![UMP_NOOP, group & 0x0F, UMP_TYPE_MIDI_CI] + spec_encode_body(h, b)
}

/// The raw header values read off the wire.
#[derive(Copy, Clone, PartialEq, Eq, Structural, Debug)]
pub struct WireHeader {
    /// The address byte.
    pub device: u8,
    /// The status (category) byte.
    pub status: u8,
    /// The version byte.
    pub version: u8,
    /// The source MUID value.
    pub source: u32,
    /// The destination MUID value.
    pub destination: u32,
}

/// Whether a buffer starts with the MIDI-CI UMP framing.
pub open spec fn spec_framed(bytes: Seq<u8>) -> bool {
    bytes.len() >= 3 && bytes[0] == UMP_NOOP && bytes[2] == UMP_TYPE_MIDI_CI
}

/// Decoding the bytes after the framing: the raw header and the parsed
/// payload fields, or the error the decoder reports.
pub open spec fn spec_decode_frame(b: Seq<u8>) -> Result<(WireHeader, Seq<WireValue>), MidiCiError> {
    if b.len() < 1 {
        Err(MidiCiError::TooShort { len: 0, min: 1 })
    } else if !ChannelInGroup::spec_valid_byte(b[0]) {
        Err(MidiCiError::Other("invalid device_id byte"))
    } else if b.len() < 3 {
        Err(MidiCiError::TooShort { len: 0, min: 1 })
    } else if b.len() < 7 {
        Err(MidiCiError::TooShort { len: (b.len() - 3) as usize, min: 4 })
    } else if b.len() < 11 {
        Err(MidiCiError::TooShort { len: (b.len() - 7) as usize, min: 4 })
    } else {
        let w = WireHeader {
            device: b[0],
            status: b[1],
            version: b[2],
            source: spec_read_u28(b[3], b[4], b[5], b[6]),
            destination: spec_read_u28(b[7], b[8], b[9], b[10]),
        };
        if b[1] < 0x70 || b[1] - 0x70 >= 32 {
            Err(MidiCiError::UnknownCategory(b[1]))
        } else {
            match spec_parse_fields(b.skip(11), spec_layout((b[1] - 0x70) as u8, b[2] == 2)) {
                Err(e) => Err(e),
                Ok((vs, _)) => Ok((w, vs)),
            }
        }
    }
}

/// Whether a body is the one decoded for a category index from the given
/// payload fields: same category, exactly those fields, and the
/// version-2-only fields zero when the version is not 2.
pub open spec fn spec_body_decoded(b: MessageBody, idx: u8, v2: bool, vs: Seq<WireValue>) -> bool {
    &&& !(b is Malformed)
    &&& b.spec_category_index() == idx
    &&& spec_body_fields(b, v2) == vs
    &&& !v2 ==> spec_v2_fields_zero(b)
}

/// Whether a parsed message carries the raw header and payload fields.
pub open spec fn spec_decoded(p: ParsedMessage, w: WireHeader, vs: Seq<WireValue>) -> bool {
    &&& p.header.device_id.spec_byte() == w.device
    &&& p.header.category == w.status
    &&& p.header.version == w.version
    &&& p.header.source.value() == w.source
    &&& p.header.destination.value() == w.destination
    &&& spec_body_decoded(p.body, (w.status - 0x70) as u8, w.version == 2, vs)
}

/// What `decode` returns for a buffer: `Ok(None)` without the framing, the
/// decoding error, or the message with the decoded header and body.
pub open spec fn spec_decode_result(bytes: Seq<u8>, r: MidiCiResult<Option<ParsedMessage>>) -> bool {
    if !spec_framed(bytes) {
        r == Ok::<Option<ParsedMessage>, MidiCiError>(None)
    } else {
        match spec_decode_frame(bytes.skip(3)) {
            Err(e) => r == Err::<Option<ParsedMessage>, MidiCiError>(e),
            Ok((w, vs)) => match r {
                Ok(Some(p)) => spec_decoded(p, w, vs),
                _ => false,
            },
        }
    }
}

/// Two bodies agree: same category and every field equal (all fields
/// appear in the version 2 layout; profile lists are compared id by id).
pub open spec fn spec_same_body(x: MessageBody, y: MessageBody) -> bool {
    &&& (x is Malformed) == (y is Malformed)
    &&& x.spec_category_index() == y.spec_category_index()
    &&& spec_body_fields(x, true) == spec_body_fields(y, true)
}

/// Whether every field of a body survives the wire in the given layout:
/// numbers fit their widths, blocks fit a 14-bit length, and without
/// version 2 the version-2-only fields are zero.
pub open spec fn spec_body_fits(b: MessageBody, v2: bool) -> bool {
    &&& forall|i: int| 0 <= i < spec_body_fields(b, v2).len()
        ==> spec_value_fits(#[trigger] spec_body_fields(b, v2)[i])
    &&& !v2 ==> spec_v2_fields_zero(b)
}

impl MessageBody {
    /// The status byte this body is sent with (`0x70` + category index).
    pub fn category_byte(&self) -> (b: u8)
        ensures b == spec_category_byte(*self),
    {
        0x70 + self.as_outbound().category()
    }

    /// The same as `category_byte`.
    pub fn outbound_category(&self) -> (b: u8)
        ensures b == spec_category_byte(*self),
    {
        self.category_byte()
    }
}

/// Encode a header and body behind the UMP framing (`0x7E`, the group's low
/// nibble, `0x0D`).
pub fn encode(header: &Header, body: &MessageBody, group: u8) -> (out: Vec<u8>)
    ensures out@ == spec_encode(*header, *body, group),
{
    let mut sink = WriteSink::new();
    sink.push(UMP_NOOP);
    sink.push(group & 0x0F);
    sink.push(UMP_TYPE_MIDI_CI);
    encode_body(&mut sink, header, body);
    let out = sink.into_bytes();
    assert(out@ =~= spec_encode(*header, *body, group));
    out
}

/// Encode the header and body, without the UMP framing. The status byte
/// is the body's own category byte; version-2-only fields are written when
/// the header's version byte is 2.
pub fn encode_body(sink: &mut WriteSink, header: &Header, body: &MessageBody)
    ensures final(sink)@ == old(sink)@ + spec_encode_body(*header, *body),
{
    let status = body.category_byte();
    sink.push(header.device_id.to_byte());
    sink.push(status);
    sink.push(header.version);
    sink.write_muid(header.source);
    sink.write_muid(header.destination);
    let v2 = match header.protocol_version() {
        ProtocolVersion::V2 => true,
        ProtocolVersion::V1 => false,
    };
    let fields = body_fields(body, v2);
    write_fields(sink, &fields);
    assert(sink@ =~= old(sink)@ + spec_encode_body(*header, *body));
}

/// Decode an incoming MIDI-CI packet (with framing). `Ok(None)` when the
/// buffer does not carry the framing; an error when the framed message is
/// malformed.
pub fn decode(bytes: &[u8]) -> (r: MidiCiResult<Option<ParsedMessage>>)
    ensures spec_decode_result(bytes@, r),
{
    if bytes.len() < 3 {
        return Ok(None);
    }
    if bytes[0] != UMP_NOOP || bytes[2] != UMP_TYPE_MIDI_CI {
        return Ok(None);
    }
    let body = vstd::slice::slice_subrange(bytes, 3, bytes.len());
    let ghost b = bytes@.skip(3);
    assert(body@ =~= b);
    let mut cursor = ReadCursor::new(body);
    let first = cursor.take_byte()?;
    let device_id = match ChannelInGroup::from_byte(first) {
        Some(c) => c,
        None => return Err(MidiCiError::Other("invalid device_id byte")),
    };
    let status = cursor.take_byte()?;
    let version = cursor.take_byte()?;
    proof {
        assert(b.skip(1).skip(1).skip(1) =~= b.skip(3));
    }
    let source = cursor.read_muid()?;
    proof {
        assert(b.skip(3).skip(4) =~= b.skip(7));
        assert(b.skip(3)[0] == b[3] && b.skip(3)[1] == b[4] && b.skip(3)[2] == b[5] && b.skip(3)[3] == b[6]);
    }
    let destination = cursor.read_muid()?;
    proof {
        assert(b.skip(7).skip(4) =~= b.skip(11));
        assert(b.skip(7)[0] == b[7] && b.skip(7)[1] == b[8] && b.skip(7)[2] == b[9] && b.skip(7)[3] == b[10]);
    }
    let header = Header { device_id, category: status, version, source, destination };
    let parsed_body = decode_body(&mut cursor, &header, status)?;
    Ok(Some(ParsedMessage::new(header, parsed_body)))
}

/// Decode a body of the given status byte from the cursor; the header's
/// version byte selects the version 2 layout when it is 2.
pub fn decode_body(cursor: &mut ReadCursor, header: &Header, status: u8) -> (r: MidiCiResult<MessageBody>)
    ensures
        status < 0x70 || status - 0x70 >= 32 ==> r == Err::<MessageBody, MidiCiError>(
            MidiCiError::UnknownCategory(status),
        ) && final(cursor)@ == old(cursor)@,
        0x70 <= status && status - 0x70 < 32 ==> ({
            let idx = (status - 0x70) as u8;
            let v2 = header.version == 2;
            &&& spec_parse_fields(old(cursor)@, spec_layout(idx, v2)) matches Err(e)
                ==> r == Err::<MessageBody, MidiCiError>(e)
            &&& spec_parse_fields(old(cursor)@, spec_layout(idx, v2)) matches Ok((vs, n))
                ==> (r matches Ok(b) && spec_body_decoded(b, idx, v2, vs)
                && final(cursor)@ == old(cursor)@.skip(n as int))
        }),
{
    let v2 = match header.protocol_version() {
        ProtocolVersion::V2 => true,
        ProtocolVersion::V1 => false,
    };
    if status < 0x70 {
        return Err(MidiCiError::UnknownCategory(status));
    }
    let idx = status - 0x70;
    if idx >= 32 {
        return Err(MidiCiError::UnknownCategory(status));
    }
    let kinds = field_layout(idx, v2);
    proof { lemma_parse_fields_match(old(cursor)@, kinds@); }
    let fs = read_fields(cursor, &kinds)?;
    Ok(body_from_fields(idx, v2, &fs))
}

// ---------------------------------------------------------------------------
// The round trip
// ---------------------------------------------------------------------------

/// An address byte determines the address.
pub proof fn lemma_channel_byte_injective(a: ChannelInGroup, b: ChannelInGroup)
    ensures
        (a.spec_byte() == b.spec_byte()) == (a == b),
        ChannelInGroup::spec_valid_byte(a.spec_byte()),
{
}

/// The kinds of a body's fields are its category's layout.
pub proof fn lemma_body_layout(b: MessageBody, v2: bool)
    requires !(b is Malformed),
    ensures
        spec_body_fields(b, v2).map_values(|v: WireValue| spec_kind_of(v))
            == spec_layout(b.spec_category_index(), v2),
{
    assert(spec_body_fields(b, v2).map_values(|v: WireValue| spec_kind_of(v))
        =~= spec_layout(b.spec_category_index(), v2));
}

/// Bodies of one category that agree on the version 1 layout and have zero
/// version-2-only fields agree on the version 2 layout too.
pub proof fn lemma_same_body_from_v1(x: MessageBody, y: MessageBody)
    requires
        !(x is Malformed),
        !(y is Malformed),
        x.spec_category_index() == y.spec_category_index(),
        spec_body_fields(x, false) == spec_body_fields(y, false),
        spec_v2_fields_zero(x),
        spec_v2_fields_zero(y),
    ensures spec_body_fields(x, true) == spec_body_fields(y, true),
{
    let fx = spec_body_fields(x, false);
    let fy = spec_body_fields(y, false);
    assert(fx.len() == fy.len());
    assert forall|i: int| 0 <= i < fx.len() implies #[trigger] fx[i] == fy[i] by {}
    assert(spec_body_fields(x, true) =~= spec_body_fields(y, true));
}

/// Encoding a message and decoding the bytes gives back the header (with
/// the body's category byte as its category) and a body that agrees with
/// the original in every field. It holds for every body but `Malformed`
/// whose fields fit their wire widths, with the version-2-only fields zero
/// when the header's version byte is not 2.
pub proof fn lemma_decode_encode_round_trip(h: Header, b: MessageBody, group: u8)
    requires
        h.source.value() <= 0x0FFF_FFFF,
        h.destination.value() <= 0x0FFF_FFFF,
        !(b is Malformed),
        spec_body_fits(b, h.version == 2),
    ensures
        forall|r: MidiCiResult<Option<ParsedMessage>>| #[trigger] spec_decode_result(spec_encode(h, b, group), r)
            ==> (r matches Ok(Some(p))
            && p.header.device_id == h.device_id
            && p.header.category == spec_category_byte(b)
            && p.header.version == h.version
            && p.header.source == h.source
            && p.header.destination == h.destination
            && spec_same_body(p.body, b)),
{
    let v2 = h.version == 2;
    let vs = spec_body_fields(b, v2);
    let s = spec_serialize(vs);
    let status = spec_category_byte(b);
    let hb = spec_header_bytes(h, status);
    let e = spec_encode(h, b, group);
    let f = e.skip(3);
    assert(f =~= hb + s);
    assert(hb.len() == 11);
    lemma_channel_byte_injective(h.device_id, h.device_id);
    lemma_u28_round_trip(h.source.value());
    lemma_u28_round_trip(h.destination.value());
    assert(f.skip(11) =~= s + Seq::<u8>::empty());
    lemma_parse_serialize(vs, Seq::<u8>::empty());
    lemma_body_layout(b, v2);
    assert(status - 0x70 == b.spec_category_index());
    let w = WireHeader {
        device: h.device_id.spec_byte(),
        status,
        version: h.version,
        source: h.source.value(),
        destination: h.destination.value(),
    };
    assert(f[3] == spec_u28_bytes(h.source.value())[0]);
    assert(f[4] == spec_u28_bytes(h.source.value())[1]);
    assert(f[5] == spec_u28_bytes(h.source.value())[2]);
    assert(f[6] == spec_u28_bytes(h.source.value())[3]);
    assert(f[7] == spec_u28_bytes(h.destination.value())[0]);
    assert(f[8] == spec_u28_bytes(h.destination.value())[1]);
    assert(f[9] == spec_u28_bytes(h.destination.value())[2]);
    assert(f[10] == spec_u28_bytes(h.destination.value())[3]);
    assert(spec_decode_frame(f) == Ok::<(WireHeader, Seq<WireValue>), MidiCiError>((w, vs)));
    assert forall|r: MidiCiResult<Option<ParsedMessage>>| #[trigger] spec_decode_result(e, r)
        implies (r matches Ok(Some(p))
            && p.header.device_id == h.device_id
            && p.header.category == spec_category_byte(b)
            && p.header.version == h.version
            && p.header.source == h.source
            && p.header.destination == h.destination
            && spec_same_body(p.body, b)) by {
        match r {
            Ok(Some(p)) => {
                lemma_channel_byte_injective(p.header.device_id, h.device_id);
                Muid::lemma_value_injective(p.header.source, h.source);
                Muid::lemma_value_injective(p.header.destination, h.destination);
                if !v2 {
                    lemma_same_body_from_v1(p.body, b);
                }
            },
            _ => {},
        }
    }
}


/// The payload bytes of a discovery message or reply: the device identity
/// (manufacturer, family, model, revision), the capability byte and the
/// maximum SysEx size as four 7-bit bytes.
pub open spec fn spec_identity_bytes(d: DeviceInfo, capabilities: u8, max_sysex: u32) -> Seq<u8> {
    d.manufacturer@ + d.family@ + d.model@ + d.revision@ + seq![capabilities] + spec_u28_bytes(max_sysex)
}

proof fn lemma_serialize_identity(d: DeviceInfo, capabilities: u8, max_sysex: u32, tail: Seq<WireValue>)
    ensures
        spec_serialize(seq![
            WireValue::Fixed(d.manufacturer@),
            WireValue::Fixed(d.family@),
            WireValue::Fixed(d.model@),
            WireValue::Fixed(d.revision@),
            WireValue::Byte(capabilities),
            WireValue::Word28(max_sysex),
        ] + tail) == spec_identity_bytes(d, capabilities, max_sysex) + spec_serialize(tail),
{
    let vs = seq![
        WireValue::Fixed(d.manufacturer@),
        WireValue::Fixed(d.family@),
        WireValue::Fixed(d.model@),
        WireValue::Fixed(d.revision@),
        WireValue::Byte(capabilities),
        WireValue::Word28(max_sysex),
    ] + tail;
    let s1 = vs.skip(1);
    let s2 = s1.skip(1);
    let s3 = s2.skip(1);
    let s4 = s3.skip(1);
    let s5 = s4.skip(1);
    let s6 = s5.skip(1);
    assert(s6 =~= tail);
    assert(s5[0] == WireValue::Word28(max_sysex));
    assert(s4[0] == WireValue::Byte(capabilities));
    assert(s3[0] == WireValue::Fixed(d.revision@));
    assert(s2[0] == WireValue::Fixed(d.model@));
    assert(s1[0] == WireValue::Fixed(d.family@));
    assert(vs[0] == WireValue::Fixed(d.manufacturer@));
    assert(spec_serialize(s5) == spec_u28_bytes(max_sysex) + spec_serialize(tail));
    assert(spec_serialize(s4) == seq![capabilities] + spec_serialize(s5));
    assert(spec_serialize(s3) == d.revision@ + spec_serialize(s4));
    assert(spec_serialize(s2) == d.model@ + spec_serialize(s3));
    assert(spec_serialize(s1) == d.family@ + spec_serialize(s2));
    assert(spec_serialize(vs) == d.manufacturer@ + spec_serialize(s1));
    assert(spec_serialize(vs) =~= spec_identity_bytes(d, capabilities, max_sysex) + spec_serialize(tail));
}

/// A discovery reply on the wire: the UMP framing (`0x7E`, the group's low
/// four bits, `0x0D`), the address byte, status `0x71`, the version, the
/// source and destination MUIDs as four 7-bit bytes each, the identity
/// bytes, and, for version 2 only, the output path id followed by the
/// function block. A version-2 reply is 32 bytes long, with the output path
/// id at offset 30 and the function block at offset 31.
pub proof fn lemma_discovery_reply_wire_layout(h: Header, m: DiscoveryReply, group: u8)
    ensures
        spec_encode(h, MessageBody::DiscoveryReply(m), group) == seq![0x7Eu8, group & 0x0F, 0x0Du8]
            + seq![h.device_id.spec_byte(), 0x71u8, h.version] + spec_u28_bytes(h.source.value())
            + spec_u28_bytes(h.destination.value())
            + spec_identity_bytes(m.device_info, m.capabilities.0, m.maximum_sysex_size)
            + (if h.version == 2 { seq![m.output_path_id, m.function_block] } else { Seq::<u8>::empty() }),
        h.version == 2 ==> {
            let e = spec_encode(h, MessageBody::DiscoveryReply(m), group);
            &&& e.len() == 32
            &&& e[30] == m.output_path_id
            &&& e[31] == m.function_block
        },
        h.version != 2 ==> spec_encode(h, MessageBody::DiscoveryReply(m), group).len() == 30,
{
    let v2 = h.version == 2;
    let tail = if v2 {
        seq![WireValue::Byte(m.output_path_id), WireValue::Byte(m.function_block)]
    } else {
        Seq::<WireValue>::empty()
    };
    let d = m.device_info;
    assert(spec_body_fields(MessageBody::DiscoveryReply(m), v2) =~= seq![
        WireValue::Fixed(d.manufacturer@),
        WireValue::Fixed(d.family@),
        WireValue::Fixed(d.model@),
        WireValue::Fixed(d.revision@),
        WireValue::Byte(m.capabilities.0),
        WireValue::Word28(m.maximum_sysex_size),
    ] + tail);
    lemma_serialize_identity(d, m.capabilities.0, m.maximum_sysex_size, tail);
    let tb = if v2 { seq![m.output_path_id, m.function_block] } else { Seq::<u8>::empty() };
    if v2 {
        assert(tail.skip(1).skip(1) =~= Seq::<WireValue>::empty());
        assert(tail.skip(1)[0] == WireValue::Byte(m.function_block));
        assert(tail[0] == WireValue::Byte(m.output_path_id));
        assert(spec_serialize(tail.skip(1).skip(1)) == Seq::<u8>::empty());
        assert(spec_serialize(tail.skip(1)) == seq![m.function_block] + spec_serialize(tail.skip(1).skip(1)));
        assert(spec_serialize(tail) == seq![m.output_path_id] + spec_serialize(tail.skip(1)));
        assert(spec_serialize(tail) =~= tb);
    } else {
        assert(spec_serialize(tail) =~= tb);
    }
    let e = spec_encode(h, MessageBody::DiscoveryReply(m), group);
    assert(e =~= seq![0x7Eu8, group & 0x0F, 0x0Du8]
        + seq![h.device_id.spec_byte(), 0x71u8, h.version] + spec_u28_bytes(h.source.value())
        + spec_u28_bytes(h.destination.value())
        + spec_identity_bytes(m.device_info, m.capabilities.0, m.maximum_sysex_size) + tb);
}

/// A discovery inquiry on the wire: the UMP framing, the address byte,
/// status `0x70`, the version, the two MUIDs, the identity bytes, and, for
/// version 2 only, the output path id (at offset 30 of 31 bytes).
pub proof fn lemma_discovery_wire_layout(h: Header, m: Discovery, group: u8)
    ensures
        spec_encode(h, MessageBody::Discovery(m), group) == seq![0x7Eu8, group & 0x0F, 0x0Du8]
            + seq![h.device_id.spec_byte(), 0x70u8, h.version] + spec_u28_bytes(h.source.value())
            + spec_u28_bytes(h.destination.value())
            + spec_identity_bytes(m.device_info, m.capabilities.0, m.maximum_sysex_size)
            + (if h.version == 2 { seq![m.output_path_id] } else { Seq::<u8>::empty() }),
{
    let v2 = h.version == 2;
    let tail = if v2 { seq![WireValue::Byte(m.output_path_id)] } else { Seq::<WireValue>::empty() };
    let d = m.device_info;
    assert(spec_body_fields(MessageBody::Discovery(m), v2) =~= seq![
        WireValue::Fixed(d.manufacturer@),
        WireValue::Fixed(d.family@),
        WireValue::Fixed(d.model@),
        WireValue::Fixed(d.revision@),
        WireValue::Byte(m.capabilities.0),
        WireValue::Word28(m.maximum_sysex_size),
    ] + tail);
    lemma_serialize_identity(d, m.capabilities.0, m.maximum_sysex_size, tail);
    let tb = if v2 { seq![m.output_path_id] } else { Seq::<u8>::empty() };
    if v2 {
        assert(tail.skip(1) =~= Seq::<WireValue>::empty());
        assert(tail[0] == WireValue::Byte(m.output_path_id));
        assert(spec_serialize(tail.skip(1)) == Seq::<u8>::empty());
        assert(spec_serialize(tail) == seq![m.output_path_id] + spec_serialize(tail.skip(1)));
    }
    assert(spec_serialize(tail) =~= tb);
    assert(spec_encode(h, MessageBody::Discovery(m), group) =~= seq![0x7Eu8, group & 0x0F, 0x0Du8]
        + seq![h.device_id.spec_byte(), 0x70u8, h.version] + spec_u28_bytes(h.source.value())
        + spec_u28_bytes(h.destination.value())
        + spec_identity_bytes(m.device_info, m.capabilities.0, m.maximum_sysex_size) + tb);
}

} // verus!
