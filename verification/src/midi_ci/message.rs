//! MIDI-CI message bodies and the unified parsed / outbound message types.
use vstd::prelude::*;
use crate::midi_ci::types::{
    CapabilityFlags, Category, ChannelInGroup, DeviceInfo, Muid, Profile, ProtocolVersion,
    RequestId, SubscriptionCommand,
};
use crate::text::{push_hex_lower_padded, push_str, spec_hex_lower_padded};

verus! {

// ---------------------------------------------------------------------------
// Header
// ---------------------------------------------------------------------------

/// The header shared by every MIDI-CI message.
#[derive(Copy, Clone, PartialEq, Eq, Structural, Hash, Debug)]
pub struct Header {
    /// The address byte the message was sent to.
    pub device_id: ChannelInGroup,
    /// The raw category / status byte.
    pub category: u8,
    /// The raw protocol version byte.
    pub version: u8,
    /// The sender's MUID.
    pub source: Muid,
    /// The receiver's MUID (or broadcast).
    pub destination: Muid,
}

impl Header {
    /// A header for an outgoing message: whole-block address and version 2.
    pub fn new(source: Muid, destination: Muid, category: u8) -> (h: Header)
        ensures
            h.device_id == ChannelInGroup::WholeBlock,
            h.category == category,
            h.version == 2,
            h.source == source,
            h.destination == destination,
    {
        Header {
            device_id: ChannelInGroup::WholeBlock,
            category,
            version: ProtocolVersion::V2.to_byte(),
            source,
            destination,
        }
    }

    /// The protocol version, falling back to version 1 for unknown bytes.
    pub fn protocol_version(&self) -> (v: ProtocolVersion)
        ensures v == (if self.version == 2 { ProtocolVersion::V2 } else { ProtocolVersion::V1 }),
    {
        match ProtocolVersion::from_byte(self.version) {
            Some(v) => v,
            None => ProtocolVersion::V1,
        }
    }
}

// ---------------------------------------------------------------------------
// Discovery family
// ---------------------------------------------------------------------------

/// Discovery inquiry (usually broadcast).
#[derive(Copy, Clone, PartialEq, Eq, Hash, Debug, Default)]
pub struct Discovery {
    /// Manufacturer / family / model / revision.
    pub device_info: DeviceInfo,
    /// Supported categories.
    pub capabilities: CapabilityFlags,
    /// Maximum SysEx size in bytes.
    pub maximum_sysex_size: u32,
    /// Output path id (version 2 only).
    pub output_path_id: u8,
}

impl Discovery {
    /// A discovery with every field zero.
    pub fn empty() -> (d: Discovery)
        ensures
            d.device_info.manufacturer@ == seq![0u8, 0u8, 0u8],
            d.device_info.family@ == seq![0u8, 0u8],
            d.device_info.model@ == seq![0u8, 0u8],
            d.device_info.revision@ == seq![0u8, 0u8, 0u8, 0u8],
            d.capabilities.0 == 0,
            d.maximum_sysex_size == 0,
            d.output_path_id == 0,
    {
        let d = Discovery {
            device_info: DeviceInfo::new([0, 0, 0], [0, 0], [0, 0], [0, 0, 0, 0]),
            capabilities: CapabilityFlags(0),
            maximum_sysex_size: 0,
            output_path_id: 0,
        };
        assert(d.device_info.manufacturer@ =~= seq![0u8, 0u8, 0u8]);
        assert(d.device_info.family@ =~= seq![0u8, 0u8]);
        assert(d.device_info.model@ =~= seq![0u8, 0u8]);
        assert(d.device_info.revision@ =~= seq![0u8, 0u8, 0u8, 0u8]);
        d
    }
}

/// Reply to a discovery inquiry.
#[derive(Copy, Clone, PartialEq, Eq, Hash, Debug, Default)]
pub struct DiscoveryReply {
    /// Manufacturer / family / model / revision.
    pub device_info: DeviceInfo,
    /// Supported categories.
    pub capabilities: CapabilityFlags,
    /// Maximum SysEx size in bytes.
    pub maximum_sysex_size: u32,
    /// Output path id (version 2 only).
    pub output_path_id: u8,
    /// Function block index (version 2 only).
    pub function_block: u8,
}

/// Announces that a MUID is no longer in use.
#[derive(Copy, Clone, PartialEq, Eq, Hash, Debug, Default)]
pub struct InvalidateMuid {
    /// The MUID that went away.
    pub target: Muid,
}

/// Endpoint inquiry.
#[derive(Copy, Clone, PartialEq, Eq, Hash, Debug, Default)]
pub struct EndpointInquiry {
    /// Status byte (0 for a normal inquiry).
    pub status: u8,
}

/// Reply to an endpoint inquiry.
#[derive(PartialEq, Eq, Hash, Debug, Default)]
pub struct EndpointInquiryResponse {
    /// The status byte echoed back.
    pub status: u8,
    /// Data payload (typically the product instance id).
    pub data: Vec<u8>,
}

impl Clone for EndpointInquiryResponse {
    fn clone(&self) -> (r: Self)
        ensures r.status == self.status, r.data@ == self.data@,
    {
        EndpointInquiryResponse { status: self.status, data: self.data.clone() }
    }
}

/// Generic acknowledgement.
#[derive(PartialEq, Eq, Hash, Debug, Default)]
pub struct Ack {
    /// The category the ACK refers to.
    pub original_category: u8,
    /// Status code.
    pub status_code: u8,
    /// Additional status data.
    pub status_data: u8,
    /// Vendor-defined details.
    pub details: [u8; 5],
    /// Free-form 7-bit message text.
    pub message_text: Vec<u8>,
}

impl Clone for Ack {
    fn clone(&self) -> (r: Self)
        ensures
            r.original_category == self.original_category,
            r.status_code == self.status_code,
            r.status_data == self.status_data,
            r.details == self.details,
            r.message_text@ == self.message_text@,
    {
        Ack {
            original_category: self.original_category,
            status_code: self.status_code,
            status_data: self.status_data,
            details: self.details,
            message_text: self.message_text.clone(),
        }
    }
}

/// Generic non-acknowledgement.
#[derive(PartialEq, Eq, Hash, Debug, Default)]
pub struct Nak {
    /// The category the NAK refers to.
    pub original_category: u8,
    /// Status code.
    pub status_code: u8,
    /// Additional status data.
    pub status_data: u8,
    /// Vendor-defined details.
    pub details: [u8; 5],
    /// Free-form 7-bit message text.
    pub message_text: Vec<u8>,
}

impl Clone for Nak {
    fn clone(&self) -> (r: Self)
        ensures
            r.original_category == self.original_category,
            r.status_code == self.status_code,
            r.status_data == self.status_data,
            r.details == self.details,
            r.message_text@ == self.message_text@,
    {
        Nak {
            original_category: self.original_category,
            status_code: self.status_code,
            status_data: self.status_data,
            details: self.details,
            message_text: self.message_text.clone(),
        }
    }
}

// ---------------------------------------------------------------------------
// Profile configuration
// ---------------------------------------------------------------------------

/// Asks a peer for the profiles it supports.
#[derive(Copy, Clone, PartialEq, Eq, Hash, Debug, Default)]
pub struct ProfileInquiry;

/// Reply to a profile inquiry.
#[derive(PartialEq, Eq, Hash, Debug, Default)]
pub struct ProfileInquiryResponse {
    /// Enabled profiles.
    pub enabled_profiles: Vec<Profile>,
    /// Supported but disabled profiles.
    pub disabled_profiles: Vec<Profile>,
}

impl Clone for ProfileInquiryResponse {
    fn clone(&self) -> (r: Self)
        ensures
            r.enabled_profiles@ == self.enabled_profiles@,
            r.disabled_profiles@ == self.disabled_profiles@,
    {
        ProfileInquiryResponse {
            enabled_profiles: copy_profiles(&self.enabled_profiles),
            disabled_profiles: copy_profiles(&self.disabled_profiles),
        }
    }
}

/// A copy of a profile list.
pub fn copy_profiles(v: &Vec<Profile>) -> (r: Vec<Profile>)
    ensures r@ == v@,
{
    let mut r: Vec<Profile> = Vec::new();
    let mut i: usize = 0;
    while i < v.len()
        invariant
            i <= v.len(),
            r@ == v@.subrange(0, i as int),
        decreases v.len() - i,
    {
        r.push(v[i]);
        i = i + 1;
        assert(r@ =~= v@.subrange(0, i as int));
    }
    assert(v@.subrange(0, v.len() as int) =~= v@);
    r
}

/// Announces that a profile was added.
#[derive(Copy, Clone, PartialEq, Eq, Hash, Debug, Default)]
pub struct ProfileAdded {
    /// The added profile.
    pub profile: Profile,
}

/// Announces that a profile was removed.
#[derive(Copy, Clone, PartialEq, Eq, Hash, Debug, Default)]
pub struct ProfileRemoved {
    /// The removed profile.
    pub profile: Profile,
}

/// Asks for details of a profile.
#[derive(Copy, Clone, PartialEq, Eq, Hash, Debug, Default)]
pub struct ProfileDetails {
    /// The profile.
    pub profile: Profile,
    /// The detail target byte.
    pub target: u8,
}

/// Reply to a profile details inquiry.
#[derive(PartialEq, Eq, Hash, Debug, Default)]
pub struct ProfileDetailsResponse {
    /// The profile.
    pub profile: Profile,
    /// The detail target byte.
    pub target: u8,
    /// The detail data.
    pub data: Vec<u8>,
}

impl Clone for ProfileDetailsResponse {
    fn clone(&self) -> (r: Self)
        ensures r.profile == self.profile, r.target == self.target, r.data@ == self.data@,
    {
        ProfileDetailsResponse { profile: self.profile, target: self.target, data: self.data.clone() }
    }
}

/// Enables a profile.
#[derive(Copy, Clone, PartialEq, Eq, Hash, Debug, Default)]
pub struct ProfileOn {
    /// The profile.
    pub profile: Profile,
    /// Number of channels (version 2 only).
    pub num_channels: u16,
}

/// Disables a profile.
#[derive(Copy, Clone, PartialEq, Eq, Hash, Debug, Default)]
pub struct ProfileOff {
    /// The profile.
    pub profile: Profile,
}

/// Confirms that a profile was enabled.
#[derive(Copy, Clone, PartialEq, Eq, Hash, Debug, Default)]
pub struct ProfileEnabledReport {
    /// The profile.
    pub profile: Profile,
    /// Number of channels now using it (version 2 only).
    pub num_channels: u16,
}

/// Confirms that a profile was disabled.
#[derive(Copy, Clone, PartialEq, Eq, Hash, Debug, Default)]
pub struct ProfileDisabledReport {
    /// The profile.
    pub profile: Profile,
    /// Number of channels still using it (version 2 only).
    pub num_channels: u16,
}

/// Profile-specific data.
#[derive(PartialEq, Eq, Hash, Debug, Default)]
pub struct ProfileSpecificData {
    /// The profile.
    pub profile: Profile,
    /// The payload.
    pub data: Vec<u8>,
}

impl Clone for ProfileSpecificData {
    fn clone(&self) -> (r: Self)
        ensures r.profile == self.profile, r.data@ == self.data@,
    {
        ProfileSpecificData { profile: self.profile, data: self.data.clone() }
    }
}

// ---------------------------------------------------------------------------
// Property exchange
// ---------------------------------------------------------------------------

/// Property exchange capabilities inquiry.
#[derive(Copy, Clone, PartialEq, Eq, Hash, Debug, Default)]
pub struct PropertyExchangeCapabilities {
    /// Simultaneous requests supported.
    pub num_simultaneous_requests_supported: u8,
    /// Major version (version 2 only).
    pub major_version: u8,
    /// Minor version (version 2 only).
    pub minor_version: u8,
}

/// Reply to a property exchange capabilities inquiry.
#[derive(Copy, Clone, PartialEq, Eq, Hash, Debug, Default)]
pub struct PropertyExchangeCapabilitiesResponse {
    /// Simultaneous requests supported.
    pub num_simultaneous_requests_supported: u8,
    /// Major version (version 2 only).
    pub major_version: u8,
    /// Minor version (version 2 only).
    pub minor_version: u8,
}

/// A single-chunk property-exchange body.
#[derive(PartialEq, Eq, Hash, Debug, Default)]
pub struct StaticSizePropertyExchange {
    /// The 7-bit request id.
    pub request_id: RequestId,
    /// The header bytes.
    pub header: Vec<u8>,
}

impl Clone for StaticSizePropertyExchange {
    fn clone(&self) -> (r: Self)
        ensures r.request_id == self.request_id, r.header@ == self.header@,
    {
        StaticSizePropertyExchange { request_id: self.request_id, header: self.header.clone() }
    }
}

/// A property-exchange body that may be one chunk of a stream.
#[derive(PartialEq, Eq, Hash, Debug, Default)]
pub struct DynamicSizePropertyExchange {
    /// The 7-bit request id.
    pub request_id: RequestId,
    /// The header bytes.
    pub header: Vec<u8>,
    /// Total number of chunks.
    pub total_num_chunks: u16,
    /// This chunk's number (1-based).
    pub this_chunk_num: u16,
    /// This chunk's data.
    pub data: Vec<u8>,
}

impl Clone for DynamicSizePropertyExchange {
    fn clone(&self) -> (r: Self)
        ensures
            r.request_id == self.request_id,
            r.header@ == self.header@,
            r.total_num_chunks == self.total_num_chunks,
            r.this_chunk_num == self.this_chunk_num,
            r.data@ == self.data@,
    {
        DynamicSizePropertyExchange {
            request_id: self.request_id,
            header: self.header.clone(),
            total_num_chunks: self.total_num_chunks,
            this_chunk_num: self.this_chunk_num,
            data: self.data.clone(),
        }
    }
}

/// Asks for a property's value.
#[derive(PartialEq, Eq, Hash, Debug, Default)]
pub struct PropertyGetData {
    /// The body.
    pub inner: StaticSizePropertyExchange,
}

impl Clone for PropertyGetData {
    fn clone(&self) -> (r: Self)
        ensures r.inner.request_id == self.inner.request_id, r.inner.header@ == self.inner.header@,
    {
        PropertyGetData { inner: self.inner.clone() }
    }
}

/// Reply to a get-data request.
#[derive(PartialEq, Eq, Hash, Debug, Default)]
pub struct PropertyGetDataResponse {
    /// The body.
    pub inner: DynamicSizePropertyExchange,
}

/// Asks to set a property's value.
#[derive(PartialEq, Eq, Hash, Debug, Default)]
pub struct PropertySetData {
    /// The body.
    pub inner: DynamicSizePropertyExchange,
}

/// Reply to a set-data request.
#[derive(PartialEq, Eq, Hash, Debug, Default)]
pub struct PropertySetDataResponse {
    /// The body.
    pub inner: StaticSizePropertyExchange,
}

impl Clone for PropertySetDataResponse {
    fn clone(&self) -> (r: Self)
        ensures r.inner.request_id == self.inner.request_id, r.inner.header@ == self.inner.header@,
    {
        PropertySetDataResponse { inner: self.inner.clone() }
    }
}

/// Starts, continues or ends a subscription.
#[derive(PartialEq, Eq, Hash, Debug, Default)]
pub struct PropertySubscribe {
    /// The subscription command.
    pub command: SubscriptionCommand,
    /// The body.
    pub inner: DynamicSizePropertyExchange,
}

impl Clone for PropertySubscribe {
    fn clone(&self) -> (r: Self)
        ensures
            r.command == self.command,
            r.inner.request_id == self.inner.request_id,
            r.inner.header@ == self.inner.header@,
            r.inner.total_num_chunks == self.inner.total_num_chunks,
            r.inner.this_chunk_num == self.inner.this_chunk_num,
            r.inner.data@ == self.inner.data@,
    {
        PropertySubscribe { command: self.command, inner: self.inner.clone() }
    }
}

/// Reply to a subscribe message.
#[derive(PartialEq, Eq, Hash, Debug, Default)]
pub struct PropertySubscribeResponse {
    /// The body.
    pub inner: DynamicSizePropertyExchange,
}

/// Server-initiated update of a subscribed property.
#[derive(PartialEq, Eq, Hash, Debug, Default)]
pub struct PropertyNotify {
    /// The body.
    pub inner: DynamicSizePropertyExchange,
}

// ---------------------------------------------------------------------------
// Process inquiry
// ---------------------------------------------------------------------------

/// Process inquiry.
#[derive(Copy, Clone, PartialEq, Eq, Hash, Debug, Default)]
pub struct ProcessInquiry {
    /// Supported features bit-set.
    pub supported_features: u8,
}

/// Reply to a process inquiry.
#[derive(Copy, Clone, PartialEq, Eq, Hash, Debug, Default)]
pub struct ProcessInquiryResponse {
    /// Supported features bit-set.
    pub supported_features: u8,
}

/// Asks for a MIDI message report.
#[derive(Copy, Clone, PartialEq, Eq, Hash, Debug, Default)]
pub struct ProcessMidiMessageReport {
    /// Message data control byte.
    pub message_data_control: u8,
    /// Requested message types.
    pub requested_messages: u8,
    /// Requested channel-controller messages.
    pub channel_controller_messages: u8,
    /// Requested note-data messages.
    pub note_data_messages: u8,
}

/// Reply to a MIDI message report request.
#[derive(Copy, Clone, PartialEq, Eq, Hash, Debug, Default)]
pub struct ProcessMidiMessageReportResponse {
    /// Message data control byte.
    pub message_data_control: u8,
    /// Requested message types.
    pub requested_messages: u8,
    /// Requested channel-controller messages.
    pub channel_controller_messages: u8,
    /// Requested note-data messages.
    pub note_data_messages: u8,
}

/// Marks the end of a MIDI message report.
#[derive(Copy, Clone, PartialEq, Eq, Hash, Debug, Default)]
pub struct ProcessEndMidiMessageReport;

// ---------------------------------------------------------------------------
// Parsed message
// ---------------------------------------------------------------------------

/// A fully decoded message: header and body.
#[derive(Clone, PartialEq, Eq, Debug)]
pub struct ParsedMessage {
    /// The header.
    pub header: Header,
    /// The body.
    pub body: MessageBody,
}

impl ParsedMessage {
    /// Pair a header with a body.
    pub fn new(header: Header, body: MessageBody) -> (m: ParsedMessage)
        ensures m.header == header, m.body == body,
    {
        ParsedMessage { header, body }
    }

    /// How the message is written: `[cc] Type from <source> to
    /// <destination>`, the category byte as two lower-case hexadecimal
    /// digits.
    pub open spec fn spec_display(self) -> Seq<char> {
        "["@ + spec_hex_lower_padded(self.header.category as u32, 2) + "] "@ + self.body.spec_type_label()@
            + " from "@ + self.header.source.spec_display() + " to "@ + self.header.destination.spec_display()
    }

    /// How the message is written (see [`ParsedMessage::spec_display`]).
    pub fn to_display_string(&self) -> (s: String)
        ensures s@ == self.spec_display(),
    {
        let mut s = String::new();
        push_str(&mut s, "[");
        push_hex_lower_padded(&mut s, self.header.category as u32, 2);
        push_str(&mut s, "] ");
        push_str(&mut s, self.body.type_label());
        push_str(&mut s, " from ");
        self.header.source.push_display(&mut s);
        push_str(&mut s, " to ");
        self.header.destination.push_display(&mut s);
        s
    }

    /// The sender's MUID.
    pub fn source(&self) -> (m: Muid)
        ensures m == self.header.source,
    {
        self.header.source
    }

    /// The receiver's MUID.
    pub fn destination(&self) -> (m: Muid)
        ensures m == self.header.destination,
    {
        self.header.destination
    }
}

/// Every MIDI-CI body variant in one enum, so dispatch needs no trait objects.
#[derive(Clone, PartialEq, Eq, Debug)]
pub enum MessageBody {
    /// Discovery.
    Discovery(Discovery),
    /// Discovery reply.
    DiscoveryReply(DiscoveryReply),
    /// Invalidate MUID.
    InvalidateMuid(InvalidateMuid),
    /// Endpoint inquiry.
    EndpointInquiry(EndpointInquiry),
    /// Endpoint inquiry response.
    EndpointInquiryResponse(EndpointInquiryResponse),
    /// ACK.
    Ack(Ack),
    /// NAK.
    Nak(Nak),
    /// Profile inquiry.
    ProfileInquiry(ProfileInquiry),
    /// Profile inquiry response.
    ProfileInquiryResponse(ProfileInquiryResponse),
    /// Profile added.
    ProfileAdded(ProfileAdded),
    /// Profile removed.
    ProfileRemoved(ProfileRemoved),
    /// Profile details.
    ProfileDetails(ProfileDetails),
    /// Profile details response.
    ProfileDetailsResponse(ProfileDetailsResponse),
    /// Profile on.
    ProfileOn(ProfileOn),
    /// Profile off.
    ProfileOff(ProfileOff),
    /// Profile enabled report.
    ProfileEnabledReport(ProfileEnabledReport),
    /// Profile disabled report.
    ProfileDisabledReport(ProfileDisabledReport),
    /// Profile-specific data.
    ProfileSpecificData(ProfileSpecificData),
    /// Property exchange capabilities.
    PropertyExchangeCapabilities(PropertyExchangeCapabilities),
    /// Property exchange capabilities response.
    PropertyExchangeCapabilitiesResponse(PropertyExchangeCapabilitiesResponse),
    /// Property get data.
    PropertyGetData(PropertyGetData),
    /// Property get data response.
    PropertyGetDataResponse(PropertyGetDataResponse),
    /// Property set data.
    PropertySetData(PropertySetData),
    /// Property set data response.
    PropertySetDataResponse(PropertySetDataResponse),
    /// Property subscribe.
    PropertySubscribe(PropertySubscribe),
    /// Property subscribe response.
    PropertySubscribeResponse(PropertySubscribeResponse),
    /// Property notify.
    PropertyNotify(PropertyNotify),
    /// Process inquiry.
    ProcessInquiry(ProcessInquiry),
    /// Process inquiry response.
    ProcessInquiryResponse(ProcessInquiryResponse),
    /// Process MIDI message report.
    ProcessMidiMessageReport(ProcessMidiMessageReport),
    /// Process MIDI message report response.
    ProcessMidiMessageReportResponse(ProcessMidiMessageReportResponse),
    /// Process end of MIDI message report.
    ProcessEndMidiMessageReport(ProcessEndMidiMessageReport),
    /// A body whose category was recognised but whose payload was not decoded.
    Malformed(Header),
}

impl MessageBody {
    /// The category-table index of a body (a malformed body counts as
    /// discovery, index 0).
    pub open spec fn spec_category_index(self) -> u8 {
        match self {
            MessageBody::Discovery(_) => 0x00,
            MessageBody::DiscoveryReply(_) => 0x01,
            MessageBody::InvalidateMuid(_) => 0x02,
            MessageBody::EndpointInquiry(_) => 0x03,
            MessageBody::EndpointInquiryResponse(_) => 0x04,
            MessageBody::Ack(_) => 0x05,
            MessageBody::Nak(_) => 0x06,
            MessageBody::ProfileInquiry(_) => 0x07,
            MessageBody::ProfileInquiryResponse(_) => 0x08,
            MessageBody::ProfileAdded(_) => 0x09,
            MessageBody::ProfileRemoved(_) => 0x0A,
            MessageBody::ProfileDetails(_) => 0x0B,
            MessageBody::ProfileDetailsResponse(_) => 0x0C,
            MessageBody::ProfileOn(_) => 0x0D,
            MessageBody::ProfileOff(_) => 0x0E,
            MessageBody::ProfileEnabledReport(_) => 0x0F,
            MessageBody::ProfileDisabledReport(_) => 0x10,
            MessageBody::ProfileSpecificData(_) => 0x11,
            MessageBody::PropertyExchangeCapabilities(_) => 0x12,
            MessageBody::PropertyExchangeCapabilitiesResponse(_) => 0x13,
            MessageBody::PropertyGetData(_) => 0x14,
            MessageBody::PropertyGetDataResponse(_) => 0x15,
            MessageBody::PropertySetData(_) => 0x16,
            MessageBody::PropertySetDataResponse(_) => 0x17,
            MessageBody::PropertySubscribe(_) => 0x18,
            MessageBody::PropertySubscribeResponse(_) => 0x19,
            MessageBody::PropertyNotify(_) => 0x1A,
            MessageBody::ProcessInquiry(_) => 0x1B,
            MessageBody::ProcessInquiryResponse(_) => 0x1C,
            MessageBody::ProcessMidiMessageReport(_) => 0x1D,
            MessageBody::ProcessMidiMessageReportResponse(_) => 0x1E,
            MessageBody::ProcessEndMidiMessageReport(_) => 0x1F,
            MessageBody::Malformed(_) => 0x00,
        }
    }

    /// The category-table index of this body.
    pub fn category_index(&self) -> (i: u8)
        ensures i == self.spec_category_index(), i < 32,
    {
        match self {
            MessageBody::Discovery(_) => 0x00,
            MessageBody::DiscoveryReply(_) => 0x01,
            MessageBody::InvalidateMuid(_) => 0x02,
            MessageBody::EndpointInquiry(_) => 0x03,
            MessageBody::EndpointInquiryResponse(_) => 0x04,
            MessageBody::Ack(_) => 0x05,
            MessageBody::Nak(_) => 0x06,
            MessageBody::ProfileInquiry(_) => 0x07,
            MessageBody::ProfileInquiryResponse(_) => 0x08,
            MessageBody::ProfileAdded(_) => 0x09,
            MessageBody::ProfileRemoved(_) => 0x0A,
            MessageBody::ProfileDetails(_) => 0x0B,
            MessageBody::ProfileDetailsResponse(_) => 0x0C,
            MessageBody::ProfileOn(_) => 0x0D,
            MessageBody::ProfileOff(_) => 0x0E,
            MessageBody::ProfileEnabledReport(_) => 0x0F,
            MessageBody::ProfileDisabledReport(_) => 0x10,
            MessageBody::ProfileSpecificData(_) => 0x11,
            MessageBody::PropertyExchangeCapabilities(_) => 0x12,
            MessageBody::PropertyExchangeCapabilitiesResponse(_) => 0x13,
            MessageBody::PropertyGetData(_) => 0x14,
            MessageBody::PropertyGetDataResponse(_) => 0x15,
            MessageBody::PropertySetData(_) => 0x16,
            MessageBody::PropertySetDataResponse(_) => 0x17,
            MessageBody::PropertySubscribe(_) => 0x18,
            MessageBody::PropertySubscribeResponse(_) => 0x19,
            MessageBody::PropertyNotify(_) => 0x1A,
            MessageBody::ProcessInquiry(_) => 0x1B,
            MessageBody::ProcessInquiryResponse(_) => 0x1C,
            MessageBody::ProcessMidiMessageReport(_) => 0x1D,
            MessageBody::ProcessMidiMessageReportResponse(_) => 0x1E,
            MessageBody::ProcessEndMidiMessageReport(_) => 0x1F,
            MessageBody::Malformed(_) => 0x00,
        }
    }

    /// A short human-readable name of the body type.
    pub open spec fn spec_type_label(self) -> &'static str {
        match self {
            MessageBody::Discovery(_) => "Discovery",
            MessageBody::DiscoveryReply(_) => "DiscoveryReply",
            MessageBody::InvalidateMuid(_) => "InvalidateMUID",
            MessageBody::EndpointInquiry(_) => "EndpointInquiry",
            MessageBody::EndpointInquiryResponse(_) => "EndpointInquiryResponse",
            MessageBody::Ack(_) => "ACK",
            MessageBody::Nak(_) => "NAK",
            MessageBody::ProfileInquiry(_) => "ProfileInquiry",
            MessageBody::ProfileInquiryResponse(_) => "ProfileInquiryResponse",
            MessageBody::ProfileAdded(_) => "ProfileAdded",
            MessageBody::ProfileRemoved(_) => "ProfileRemoved",
            MessageBody::ProfileDetails(_) => "ProfileDetails",
            MessageBody::ProfileDetailsResponse(_) => "ProfileDetailsResponse",
            MessageBody::ProfileOn(_) => "ProfileOn",
            MessageBody::ProfileOff(_) => "ProfileOff",
            MessageBody::ProfileEnabledReport(_) => "ProfileEnabledReport",
            MessageBody::ProfileDisabledReport(_) => "ProfileDisabledReport",
            MessageBody::ProfileSpecificData(_) => "ProfileSpecificData",
            MessageBody::PropertyExchangeCapabilities(_) => "PropertyExchangeCapabilities",
            MessageBody::PropertyExchangeCapabilitiesResponse(_) => "PropertyExchangeCapabilitiesResponse",
            MessageBody::PropertyGetData(_) => "PropertyGetData",
            MessageBody::PropertyGetDataResponse(_) => "PropertyGetDataResponse",
            MessageBody::PropertySetData(_) => "PropertySetData",
            MessageBody::PropertySetDataResponse(_) => "PropertySetDataResponse",
            MessageBody::PropertySubscribe(_) => "PropertySubscribe",
            MessageBody::PropertySubscribeResponse(_) => "PropertySubscribeResponse",
            MessageBody::PropertyNotify(_) => "PropertyNotify",
            MessageBody::ProcessInquiry(_) => "ProcessInquiry",
            MessageBody::ProcessInquiryResponse(_) => "ProcessInquiryResponse",
            MessageBody::ProcessMidiMessageReport(_) => "ProcessMidiMessageReport",
            MessageBody::ProcessMidiMessageReportResponse(_) => "ProcessMidiMessageReportResponse",
            MessageBody::ProcessEndMidiMessageReport(_) => "ProcessEndMidiMessageReport",
            MessageBody::Malformed(_) => "Malformed",
        }
    }

    /// A short human-readable name of the body type.
    pub fn type_label(&self) -> (s: &'static str)
        ensures s == self.spec_type_label(),
    {
        match self {
            MessageBody::Discovery(_) => "Discovery",
            MessageBody::DiscoveryReply(_) => "DiscoveryReply",
            MessageBody::InvalidateMuid(_) => "InvalidateMUID",
            MessageBody::EndpointInquiry(_) => "EndpointInquiry",
            MessageBody::EndpointInquiryResponse(_) => "EndpointInquiryResponse",
            MessageBody::Ack(_) => "ACK",
            MessageBody::Nak(_) => "NAK",
            MessageBody::ProfileInquiry(_) => "ProfileInquiry",
            MessageBody::ProfileInquiryResponse(_) => "ProfileInquiryResponse",
            MessageBody::ProfileAdded(_) => "ProfileAdded",
            MessageBody::ProfileRemoved(_) => "ProfileRemoved",
            MessageBody::ProfileDetails(_) => "ProfileDetails",
            MessageBody::ProfileDetailsResponse(_) => "ProfileDetailsResponse",
            MessageBody::ProfileOn(_) => "ProfileOn",
            MessageBody::ProfileOff(_) => "ProfileOff",
            MessageBody::ProfileEnabledReport(_) => "ProfileEnabledReport",
            MessageBody::ProfileDisabledReport(_) => "ProfileDisabledReport",
            MessageBody::ProfileSpecificData(_) => "ProfileSpecificData",
            MessageBody::PropertyExchangeCapabilities(_) => "PropertyExchangeCapabilities",
            MessageBody::PropertyExchangeCapabilitiesResponse(_) => "PropertyExchangeCapabilitiesResponse",
            MessageBody::PropertyGetData(_) => "PropertyGetData",
            MessageBody::PropertyGetDataResponse(_) => "PropertyGetDataResponse",
            MessageBody::PropertySetData(_) => "PropertySetData",
            MessageBody::PropertySetDataResponse(_) => "PropertySetDataResponse",
            MessageBody::PropertySubscribe(_) => "PropertySubscribe",
            MessageBody::PropertySubscribeResponse(_) => "PropertySubscribeResponse",
            MessageBody::PropertyNotify(_) => "PropertyNotify",
            MessageBody::ProcessInquiry(_) => "ProcessInquiry",
            MessageBody::ProcessInquiryResponse(_) => "ProcessInquiryResponse",
            MessageBody::ProcessMidiMessageReport(_) => "ProcessMidiMessageReport",
            MessageBody::ProcessMidiMessageReportResponse(_) => "ProcessMidiMessageReportResponse",
            MessageBody::ProcessEndMidiMessageReport(_) => "ProcessEndMidiMessageReport",
            MessageBody::Malformed(_) => "Malformed",
        }
    }
}

/// Wrappers whose derived clone Verus cannot see through get field-wise
/// copies here so that `as_outbound` can state what it returns.
impl Clone for PropertyGetDataResponse {
    fn clone(&self) -> (r: Self)
        ensures
            r.inner.request_id == self.inner.request_id,
            r.inner.header@ == self.inner.header@,
            r.inner.total_num_chunks == self.inner.total_num_chunks,
            r.inner.this_chunk_num == self.inner.this_chunk_num,
            r.inner.data@ == self.inner.data@,
    {
        PropertyGetDataResponse { inner: self.inner.clone() }
    }
}

impl Clone for PropertySetData {
    fn clone(&self) -> (r: Self)
        ensures
            r.inner.request_id == self.inner.request_id,
            r.inner.header@ == self.inner.header@,
            r.inner.total_num_chunks == self.inner.total_num_chunks,
            r.inner.this_chunk_num == self.inner.this_chunk_num,
            r.inner.data@ == self.inner.data@,
    {
        PropertySetData { inner: self.inner.clone() }
    }
}

impl Clone for PropertySubscribeResponse {
    fn clone(&self) -> (r: Self)
        ensures
            r.inner.request_id == self.inner.request_id,
            r.inner.header@ == self.inner.header@,
            r.inner.total_num_chunks == self.inner.total_num_chunks,
            r.inner.this_chunk_num == self.inner.this_chunk_num,
            r.inner.data@ == self.inner.data@,
    {
        PropertySubscribeResponse { inner: self.inner.clone() }
    }
}

impl Clone for PropertyNotify {
    fn clone(&self) -> (r: Self)
        ensures
            r.inner.request_id == self.inner.request_id,
            r.inner.header@ == self.inner.header@,
            r.inner.total_num_chunks == self.inner.total_num_chunks,
            r.inner.this_chunk_num == self.inner.this_chunk_num,
            r.inner.data@ == self.inner.data@,
    {
        PropertyNotify { inner: self.inner.clone() }
    }
}

/// The body an outbound message carries.
#[derive(Clone, PartialEq, Eq, Debug)]
pub enum OutboundMessage {
    /// Discovery.
    Discovery(Discovery),
    /// Discovery reply.
    DiscoveryReply(DiscoveryReply),
    /// Invalidate MUID.
    InvalidateMuid(InvalidateMuid),
    /// Endpoint inquiry.
    EndpointInquiry(EndpointInquiry),
    /// Endpoint inquiry response.
    EndpointInquiryResponse(EndpointInquiryResponse),
    /// ACK.
    Ack(Ack),
    /// NAK.
    Nak(Nak),
    /// Profile inquiry.
    ProfileInquiry(ProfileInquiry),
    /// Profile inquiry response.
    ProfileInquiryResponse(ProfileInquiryResponse),
    /// Profile added.
    ProfileAdded(ProfileAdded),
    /// Profile removed.
    ProfileRemoved(ProfileRemoved),
    /// Profile details.
    ProfileDetails(ProfileDetails),
    /// Profile details response.
    ProfileDetailsResponse(ProfileDetailsResponse),
    /// Profile on.
    ProfileOn(ProfileOn),
    /// Profile off.
    ProfileOff(ProfileOff),
    /// Profile enabled report.
    ProfileEnabledReport(ProfileEnabledReport),
    /// Profile disabled report.
    ProfileDisabledReport(ProfileDisabledReport),
    /// Profile-specific data.
    ProfileSpecificData(ProfileSpecificData),
    /// Property exchange capabilities.
    PropertyExchangeCapabilities(PropertyExchangeCapabilities),
    /// Property exchange capabilities response.
    PropertyExchangeCapabilitiesResponse(PropertyExchangeCapabilitiesResponse),
    /// Property get data.
    PropertyGetData(PropertyGetData),
    /// Property get data response.
    PropertyGetDataResponse(PropertyGetDataResponse),
    /// Property set data.
    PropertySetData(PropertySetData),
    /// Property set data response.
    PropertySetDataResponse(PropertySetDataResponse),
    /// Property subscribe.
    PropertySubscribe(PropertySubscribe),
    /// Property subscribe response.
    PropertySubscribeResponse(PropertySubscribeResponse),
    /// Property notify.
    PropertyNotify(PropertyNotify),
    /// Process inquiry.
    ProcessInquiry(ProcessInquiry),
    /// Process inquiry response.
    ProcessInquiryResponse(ProcessInquiryResponse),
    /// Process MIDI message report.
    ProcessMidiMessageReport(ProcessMidiMessageReport),
    /// Process MIDI message report response.
    ProcessMidiMessageReportResponse(ProcessMidiMessageReportResponse),
    /// Process end of MIDI message report.
    ProcessEndMidiMessageReport(ProcessEndMidiMessageReport),
}

impl OutboundMessage {
    /// The category-table index of an outbound message.
    pub open spec fn spec_category_index(self) -> u8 {
        match self {
            OutboundMessage::Discovery(_) => 0x00,
            OutboundMessage::DiscoveryReply(_) => 0x01,
            OutboundMessage::InvalidateMuid(_) => 0x02,
            OutboundMessage::EndpointInquiry(_) => 0x03,
            OutboundMessage::EndpointInquiryResponse(_) => 0x04,
            OutboundMessage::Ack(_) => 0x05,
            OutboundMessage::Nak(_) => 0x06,
            OutboundMessage::ProfileInquiry(_) => 0x07,
            OutboundMessage::ProfileInquiryResponse(_) => 0x08,
            OutboundMessage::ProfileAdded(_) => 0x09,
            OutboundMessage::ProfileRemoved(_) => 0x0A,
            OutboundMessage::ProfileDetails(_) => 0x0B,
            OutboundMessage::ProfileDetailsResponse(_) => 0x0C,
            OutboundMessage::ProfileOn(_) => 0x0D,
            OutboundMessage::ProfileOff(_) => 0x0E,
            OutboundMessage::ProfileEnabledReport(_) => 0x0F,
            OutboundMessage::ProfileDisabledReport(_) => 0x10,
            OutboundMessage::ProfileSpecificData(_) => 0x11,
            OutboundMessage::PropertyExchangeCapabilities(_) => 0x12,
            OutboundMessage::PropertyExchangeCapabilitiesResponse(_) => 0x13,
            OutboundMessage::PropertyGetData(_) => 0x14,
            OutboundMessage::PropertyGetDataResponse(_) => 0x15,
            OutboundMessage::PropertySetData(_) => 0x16,
            OutboundMessage::PropertySetDataResponse(_) => 0x17,
            OutboundMessage::PropertySubscribe(_) => 0x18,
            OutboundMessage::PropertySubscribeResponse(_) => 0x19,
            OutboundMessage::PropertyNotify(_) => 0x1A,
            OutboundMessage::ProcessInquiry(_) => 0x1B,
            OutboundMessage::ProcessInquiryResponse(_) => 0x1C,
            OutboundMessage::ProcessMidiMessageReport(_) => 0x1D,
            OutboundMessage::ProcessMidiMessageReportResponse(_) => 0x1E,
            OutboundMessage::ProcessEndMidiMessageReport(_) => 0x1F,
        }
    }

    /// The body this outbound message becomes on the wire (the inner
    /// message moves over unchanged).
    pub open spec fn spec_into_body(self) -> MessageBody {
        match self {
            OutboundMessage::Discovery(m) => MessageBody::Discovery(m),
            OutboundMessage::DiscoveryReply(m) => MessageBody::DiscoveryReply(m),
            OutboundMessage::InvalidateMuid(m) => MessageBody::InvalidateMuid(m),
            OutboundMessage::EndpointInquiry(m) => MessageBody::EndpointInquiry(m),
            OutboundMessage::EndpointInquiryResponse(m) => MessageBody::EndpointInquiryResponse(m),
            OutboundMessage::Ack(m) => MessageBody::Ack(m),
            OutboundMessage::Nak(m) => MessageBody::Nak(m),
            OutboundMessage::ProfileInquiry(m) => MessageBody::ProfileInquiry(m),
            OutboundMessage::ProfileInquiryResponse(m) => MessageBody::ProfileInquiryResponse(m),
            OutboundMessage::ProfileAdded(m) => MessageBody::ProfileAdded(m),
            OutboundMessage::ProfileRemoved(m) => MessageBody::ProfileRemoved(m),
            OutboundMessage::ProfileDetails(m) => MessageBody::ProfileDetails(m),
            OutboundMessage::ProfileDetailsResponse(m) => MessageBody::ProfileDetailsResponse(m),
            OutboundMessage::ProfileOn(m) => MessageBody::ProfileOn(m),
            OutboundMessage::ProfileOff(m) => MessageBody::ProfileOff(m),
            OutboundMessage::ProfileEnabledReport(m) => MessageBody::ProfileEnabledReport(m),
            OutboundMessage::ProfileDisabledReport(m) => MessageBody::ProfileDisabledReport(m),
            OutboundMessage::ProfileSpecificData(m) => MessageBody::ProfileSpecificData(m),
            OutboundMessage::PropertyExchangeCapabilities(m) => MessageBody::PropertyExchangeCapabilities(m),
            OutboundMessage::PropertyExchangeCapabilitiesResponse(m) => MessageBody::PropertyExchangeCapabilitiesResponse(m),
            OutboundMessage::PropertyGetData(m) => MessageBody::PropertyGetData(m),
            OutboundMessage::PropertyGetDataResponse(m) => MessageBody::PropertyGetDataResponse(m),
            OutboundMessage::PropertySetData(m) => MessageBody::PropertySetData(m),
            OutboundMessage::PropertySetDataResponse(m) => MessageBody::PropertySetDataResponse(m),
            OutboundMessage::PropertySubscribe(m) => MessageBody::PropertySubscribe(m),
            OutboundMessage::PropertySubscribeResponse(m) => MessageBody::PropertySubscribeResponse(m),
            OutboundMessage::PropertyNotify(m) => MessageBody::PropertyNotify(m),
            OutboundMessage::ProcessInquiry(m) => MessageBody::ProcessInquiry(m),
            OutboundMessage::ProcessInquiryResponse(m) => MessageBody::ProcessInquiryResponse(m),
            OutboundMessage::ProcessMidiMessageReport(m) => MessageBody::ProcessMidiMessageReport(m),
            OutboundMessage::ProcessMidiMessageReportResponse(m) => MessageBody::ProcessMidiMessageReportResponse(m),
            OutboundMessage::ProcessEndMidiMessageReport(m) => MessageBody::ProcessEndMidiMessageReport(m),
        }
    }

    /// The category-table index of this message.
    pub fn category(&self) -> (i: u8)
        ensures i == self.spec_category_index(), i < 32,
    {
        match self {
            OutboundMessage::Discovery(_) => 0x00,
            OutboundMessage::DiscoveryReply(_) => 0x01,
            OutboundMessage::InvalidateMuid(_) => 0x02,
            OutboundMessage::EndpointInquiry(_) => 0x03,
            OutboundMessage::EndpointInquiryResponse(_) => 0x04,
            OutboundMessage::Ack(_) => 0x05,
            OutboundMessage::Nak(_) => 0x06,
            OutboundMessage::ProfileInquiry(_) => 0x07,
            OutboundMessage::ProfileInquiryResponse(_) => 0x08,
            OutboundMessage::ProfileAdded(_) => 0x09,
            OutboundMessage::ProfileRemoved(_) => 0x0A,
            OutboundMessage::ProfileDetails(_) => 0x0B,
            OutboundMessage::ProfileDetailsResponse(_) => 0x0C,
            OutboundMessage::ProfileOn(_) => 0x0D,
            OutboundMessage::ProfileOff(_) => 0x0E,
            OutboundMessage::ProfileEnabledReport(_) => 0x0F,
            OutboundMessage::ProfileDisabledReport(_) => 0x10,
            OutboundMessage::ProfileSpecificData(_) => 0x11,
            OutboundMessage::PropertyExchangeCapabilities(_) => 0x12,
            OutboundMessage::PropertyExchangeCapabilitiesResponse(_) => 0x13,
            OutboundMessage::PropertyGetData(_) => 0x14,
            OutboundMessage::PropertyGetDataResponse(_) => 0x15,
            OutboundMessage::PropertySetData(_) => 0x16,
            OutboundMessage::PropertySetDataResponse(_) => 0x17,
            OutboundMessage::PropertySubscribe(_) => 0x18,
            OutboundMessage::PropertySubscribeResponse(_) => 0x19,
            OutboundMessage::PropertyNotify(_) => 0x1A,
            OutboundMessage::ProcessInquiry(_) => 0x1B,
            OutboundMessage::ProcessInquiryResponse(_) => 0x1C,
            OutboundMessage::ProcessMidiMessageReport(_) => 0x1D,
            OutboundMessage::ProcessMidiMessageReportResponse(_) => 0x1E,
            OutboundMessage::ProcessEndMidiMessageReport(_) => 0x1F,
        }
    }

    /// The [`Category`] of this message.
    pub fn category_enum(&self) -> (c: Category)
        ensures c.spec_index() == self.spec_category_index(),
    {
        match self {
            OutboundMessage::Discovery(_) => Category::Discovery,
            OutboundMessage::DiscoveryReply(_) => Category::DiscoveryReply,
            OutboundMessage::InvalidateMuid(_) => Category::InvalidateMuid,
            OutboundMessage::EndpointInquiry(_) => Category::EndpointInquiry,
            OutboundMessage::EndpointInquiryResponse(_) => Category::EndpointInquiryResponse,
            OutboundMessage::Ack(_) => Category::Ack,
            OutboundMessage::Nak(_) => Category::Nak,
            OutboundMessage::ProfileInquiry(_) => Category::ProfileInquiry,
            OutboundMessage::ProfileInquiryResponse(_) => Category::ProfileInquiryResponse,
            OutboundMessage::ProfileAdded(_) => Category::ProfileAdded,
            OutboundMessage::ProfileRemoved(_) => Category::ProfileRemoved,
            OutboundMessage::ProfileDetails(_) => Category::ProfileDetails,
            OutboundMessage::ProfileDetailsResponse(_) => Category::ProfileDetailsResponse,
            OutboundMessage::ProfileOn(_) => Category::ProfileOn,
            OutboundMessage::ProfileOff(_) => Category::ProfileOff,
            OutboundMessage::ProfileEnabledReport(_) => Category::ProfileEnabledReport,
            OutboundMessage::ProfileDisabledReport(_) => Category::ProfileDisabledReport,
            OutboundMessage::ProfileSpecificData(_) => Category::ProfileSpecificData,
            OutboundMessage::PropertyExchangeCapabilities(_) => Category::PropertyExchangeCapabilities,
            OutboundMessage::PropertyExchangeCapabilitiesResponse(_) => Category::PropertyExchangeCapabilitiesResponse,
            OutboundMessage::PropertyGetData(_) => Category::PropertyGetData,
            OutboundMessage::PropertyGetDataResponse(_) => Category::PropertyGetDataResponse,
            OutboundMessage::PropertySetData(_) => Category::PropertySetData,
            OutboundMessage::PropertySetDataResponse(_) => Category::PropertySetDataResponse,
            OutboundMessage::PropertySubscribe(_) => Category::PropertySubscribe,
            OutboundMessage::PropertySubscribeResponse(_) => Category::PropertySubscribeResponse,
            OutboundMessage::PropertyNotify(_) => Category::PropertyNotify,
            OutboundMessage::ProcessInquiry(_) => Category::ProcessInquiry,
            OutboundMessage::ProcessInquiryResponse(_) => Category::ProcessInquiryResponse,
            OutboundMessage::ProcessMidiMessageReport(_) => Category::ProcessMidiMessageReport,
            OutboundMessage::ProcessMidiMessageReportResponse(_) => Category::ProcessMidiMessageReportResponse,
            OutboundMessage::ProcessEndMidiMessageReport(_) => Category::ProcessEndMidiMessageReport,
        }
    }

    /// Turn an outbound message into the body that is encoded for it.
    pub fn into_body(self) -> (b: MessageBody)
        ensures b == self.spec_into_body(),
    {
        match self {
            OutboundMessage::Discovery(m) => MessageBody::Discovery(m),
            OutboundMessage::DiscoveryReply(m) => MessageBody::DiscoveryReply(m),
            OutboundMessage::InvalidateMuid(m) => MessageBody::InvalidateMuid(m),
            OutboundMessage::EndpointInquiry(m) => MessageBody::EndpointInquiry(m),
            OutboundMessage::EndpointInquiryResponse(m) => MessageBody::EndpointInquiryResponse(m),
            OutboundMessage::Ack(m) => MessageBody::Ack(m),
            OutboundMessage::Nak(m) => MessageBody::Nak(m),
            OutboundMessage::ProfileInquiry(m) => MessageBody::ProfileInquiry(m),
            OutboundMessage::ProfileInquiryResponse(m) => MessageBody::ProfileInquiryResponse(m),
            OutboundMessage::ProfileAdded(m) => MessageBody::ProfileAdded(m),
            OutboundMessage::ProfileRemoved(m) => MessageBody::ProfileRemoved(m),
            OutboundMessage::ProfileDetails(m) => MessageBody::ProfileDetails(m),
            OutboundMessage::ProfileDetailsResponse(m) => MessageBody::ProfileDetailsResponse(m),
            OutboundMessage::ProfileOn(m) => MessageBody::ProfileOn(m),
            OutboundMessage::ProfileOff(m) => MessageBody::ProfileOff(m),
            OutboundMessage::ProfileEnabledReport(m) => MessageBody::ProfileEnabledReport(m),
            OutboundMessage::ProfileDisabledReport(m) => MessageBody::ProfileDisabledReport(m),
            OutboundMessage::ProfileSpecificData(m) => MessageBody::ProfileSpecificData(m),
            OutboundMessage::PropertyExchangeCapabilities(m) => MessageBody::PropertyExchangeCapabilities(m),
            OutboundMessage::PropertyExchangeCapabilitiesResponse(m) => MessageBody::PropertyExchangeCapabilitiesResponse(m),
            OutboundMessage::PropertyGetData(m) => MessageBody::PropertyGetData(m),
            OutboundMessage::PropertyGetDataResponse(m) => MessageBody::PropertyGetDataResponse(m),
            OutboundMessage::PropertySetData(m) => MessageBody::PropertySetData(m),
            OutboundMessage::PropertySetDataResponse(m) => MessageBody::PropertySetDataResponse(m),
            OutboundMessage::PropertySubscribe(m) => MessageBody::PropertySubscribe(m),
            OutboundMessage::PropertySubscribeResponse(m) => MessageBody::PropertySubscribeResponse(m),
            OutboundMessage::PropertyNotify(m) => MessageBody::PropertyNotify(m),
            OutboundMessage::ProcessInquiry(m) => MessageBody::ProcessInquiry(m),
            OutboundMessage::ProcessInquiryResponse(m) => MessageBody::ProcessInquiryResponse(m),
            OutboundMessage::ProcessMidiMessageReport(m) => MessageBody::ProcessMidiMessageReport(m),
            OutboundMessage::ProcessMidiMessageReportResponse(m) => MessageBody::ProcessMidiMessageReportResponse(m),
            OutboundMessage::ProcessEndMidiMessageReport(m) => MessageBody::ProcessEndMidiMessageReport(m),
        }
    }
}

impl MessageBody {
    /// The outbound message with the same inner body, for every body but
    /// `Malformed` (which yields a default discovery message).
    pub fn as_outbound(&self) -> (o: OutboundMessage)
        ensures
            !(self is Malformed) ==> o.spec_category_index() == self.spec_category_index(),
            !(self is Malformed) ==> crate::midi_ci::codec::spec_same_body(o.spec_into_body(), *self),
            self is Malformed ==> o.spec_category_index() == 0,
    {
        match self {
            MessageBody::Discovery(m) => OutboundMessage::Discovery(m.clone()),
            MessageBody::DiscoveryReply(m) => OutboundMessage::DiscoveryReply(m.clone()),
            MessageBody::InvalidateMuid(m) => OutboundMessage::InvalidateMuid(m.clone()),
            MessageBody::EndpointInquiry(m) => OutboundMessage::EndpointInquiry(m.clone()),
            MessageBody::EndpointInquiryResponse(m) => OutboundMessage::EndpointInquiryResponse(m.clone()),
            MessageBody::Ack(m) => OutboundMessage::Ack(m.clone()),
            MessageBody::Nak(m) => OutboundMessage::Nak(m.clone()),
            MessageBody::ProfileInquiry(m) => OutboundMessage::ProfileInquiry(m.clone()),
            MessageBody::ProfileInquiryResponse(m) => OutboundMessage::ProfileInquiryResponse(m.clone()),
            MessageBody::ProfileAdded(m) => OutboundMessage::ProfileAdded(m.clone()),
            MessageBody::ProfileRemoved(m) => OutboundMessage::ProfileRemoved(m.clone()),
            MessageBody::ProfileDetails(m) => OutboundMessage::ProfileDetails(m.clone()),
            MessageBody::ProfileDetailsResponse(m) => OutboundMessage::ProfileDetailsResponse(m.clone()),
            MessageBody::ProfileOn(m) => OutboundMessage::ProfileOn(m.clone()),
            MessageBody::ProfileOff(m) => OutboundMessage::ProfileOff(m.clone()),
            MessageBody::ProfileEnabledReport(m) => OutboundMessage::ProfileEnabledReport(m.clone()),
            MessageBody::ProfileDisabledReport(m) => OutboundMessage::ProfileDisabledReport(m.clone()),
            MessageBody::ProfileSpecificData(m) => OutboundMessage::ProfileSpecificData(m.clone()),
            MessageBody::PropertyExchangeCapabilities(m) => OutboundMessage::PropertyExchangeCapabilities(m.clone()),
            MessageBody::PropertyExchangeCapabilitiesResponse(m) => OutboundMessage::PropertyExchangeCapabilitiesResponse(m.clone()),
            MessageBody::PropertyGetData(m) => OutboundMessage::PropertyGetData(m.clone()),
            MessageBody::PropertyGetDataResponse(m) => OutboundMessage::PropertyGetDataResponse(m.clone()),
            MessageBody::PropertySetData(m) => OutboundMessage::PropertySetData(m.clone()),
            MessageBody::PropertySetDataResponse(m) => OutboundMessage::PropertySetDataResponse(m.clone()),
            MessageBody::PropertySubscribe(m) => OutboundMessage::PropertySubscribe(m.clone()),
            MessageBody::PropertySubscribeResponse(m) => OutboundMessage::PropertySubscribeResponse(m.clone()),
            MessageBody::PropertyNotify(m) => OutboundMessage::PropertyNotify(m.clone()),
            MessageBody::ProcessInquiry(m) => OutboundMessage::ProcessInquiry(m.clone()),
            MessageBody::ProcessInquiryResponse(m) => OutboundMessage::ProcessInquiryResponse(m.clone()),
            MessageBody::ProcessMidiMessageReport(m) => OutboundMessage::ProcessMidiMessageReport(m.clone()),
            MessageBody::ProcessMidiMessageReportResponse(m) => OutboundMessage::ProcessMidiMessageReportResponse(m.clone()),
            MessageBody::ProcessEndMidiMessageReport(m) => OutboundMessage::ProcessEndMidiMessageReport(m.clone()),
            MessageBody::Malformed(_) => OutboundMessage::Discovery(Discovery::empty()),
        }
    }
}

} // verus!
