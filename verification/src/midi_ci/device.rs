//! The MIDI-CI device: local options, the state learned from peers, the
//! registered listeners and the outbound sink.
use vstd::prelude::*;
use crate::midi_ci::codec::{decode, encode, spec_decode_result, spec_encode};
use crate::midi_ci::discovery::{spec_peer_key, DiscoveryState, PeerDiscovery};
use crate::midi_ci::error::{MidiCiError, MidiCiResult};
use crate::midi_ci::message::{
    Discovery, DiscoveryReply, Header, InvalidateMuid, MessageBody, OutboundMessage,
    ParsedMessage, ProfileInquiry, ProfileOff, ProfileOn, PropertyExchangeCapabilities,
};
use crate::midi_ci::profile::{
    spec_profile_key, ChannelProfileState, ProfileEnablement, ProfileHostState,
};
use crate::midi_ci::property::{PendingRequest, PendingSubscription, PropertyLedger};
use crate::midi_ci::sink::MessageSink;
use crate::midi_ci::types::{
    CapabilityFlags, ChannelAddress, ChannelInGroup, DeviceInfo, Muid, Profile,
};

verus! {

// ---------------------------------------------------------------------------
// DeviceOptions
// ---------------------------------------------------------------------------

/// Construction-time configuration of a device.
#[derive(Copy, Clone, Debug)]
pub struct DeviceOptions {
    /// Our MUID.
    pub muid: Muid,
    /// The device info we advertise.
    pub device_info: DeviceInfo,
    /// The largest SysEx message we accept.
    pub maximum_sysex_size: u32,
    /// The categories we support.
    pub capabilities: CapabilityFlags,
    /// The UMP group of outbound messages (0..16).
    pub group: u8,
    /// Whether profile configuration is supported.
    pub profile_configuration_supported: bool,
    /// Whether property exchange is supported.
    pub property_exchange_supported: bool,
}

impl DeviceOptions {
    /// Options with no capabilities, group 0 and the largest SysEx size.
    pub fn new(muid: Muid, device_info: DeviceInfo) -> (o: DeviceOptions)
        ensures
            o.muid == muid,
            o.device_info == device_info,
            o.maximum_sysex_size == 0xFFFF_FFFF,
            o.capabilities.0 == 0,
            o.group == 0,
            !o.profile_configuration_supported,
            !o.property_exchange_supported,
    {
        DeviceOptions {
            muid,
            device_info,
            maximum_sysex_size: 0xFFFF_FFFF,
            capabilities: CapabilityFlags::none(),
            group: 0,
            profile_configuration_supported: false,
            property_exchange_supported: false,
        }
    }

    /// Turn profile configuration on (flag and capability bit).
    pub fn with_profiles(self) -> (o: DeviceOptions)
        ensures
            o == (DeviceOptions {
                profile_configuration_supported: true,
                capabilities: CapabilityFlags(self.capabilities.0 | 2),
                ..self
            }),
    {
        let mut o = self;
        o.profile_configuration_supported = true;
        o.capabilities = o.capabilities.with(CapabilityFlags::profile_configuration());
        o
    }

    /// Turn property exchange on (flag and capability bit).
    pub fn with_property_exchange(self) -> (o: DeviceOptions)
        ensures
            o == (DeviceOptions {
                property_exchange_supported: true,
                capabilities: CapabilityFlags(self.capabilities.0 | 4),
                ..self
            }),
    {
        let mut o = self;
        o.property_exchange_supported = true;
        o.capabilities = o.capabilities.with(CapabilityFlags::property_exchange());
        o
    }

    /// Set the largest SysEx size.
    pub fn with_maximum_sysex_size(self, size: u32) -> (o: DeviceOptions)
        ensures o == (DeviceOptions { maximum_sysex_size: size, ..self }),
    {
        let mut o = self;
        o.maximum_sysex_size = size;
        o
    }

    /// Set or clear the protocol-negotiation capability bit.
    pub fn with_protocol_negotiation(self, supported: bool) -> (o: DeviceOptions)
        ensures
            o == (DeviceOptions {
                capabilities: CapabilityFlags(
                    if supported { self.capabilities.0 | 1 } else { self.capabilities.0 & !1u8 },
                ),
                ..self
            }),
    {
        let mut o = self;
        if supported {
            o.capabilities = o.capabilities.with(CapabilityFlags::protocol_negotiation());
        } else {
            o.capabilities = o.capabilities.without(CapabilityFlags::protocol_negotiation());
        }
        o
    }

    /// Set or clear the process-inquiry capability bit.
    pub fn with_process_inquiry(self, supported: bool) -> (o: DeviceOptions)
        ensures
            o == (DeviceOptions {
                capabilities: CapabilityFlags(
                    if supported { self.capabilities.0 | 8 } else { self.capabilities.0 & !8u8 },
                ),
                ..self
            }),
    {
        let mut o = self;
        if supported {
            o.capabilities = o.capabilities.with(CapabilityFlags::process_inquiry());
        } else {
            o.capabilities = o.capabilities.without(CapabilityFlags::process_inquiry());
        }
        o
    }

    /// Set the outbound UMP group (its low four bits).
    pub fn with_group(self, group: u8) -> (o: DeviceOptions)
        ensures o == (DeviceOptions { group: group & 0x0F, ..self }),
    {
        let mut o = self;
        o.group = group & 0x0F;
        o
    }
}

// ---------------------------------------------------------------------------
// What a message does to the device state
// ---------------------------------------------------------------------------

/// The cache entry recorded for a discovery reply from a peer.
pub open spec fn spec_peer_after_reply(source: Muid, r: DiscoveryReply) -> PeerDiscovery {
    PeerDiscovery {
        muid: source,
        device_info: r.device_info,
        maximum_sysex_size: r.maximum_sysex_size,
        output_path_id: r.output_path_id,
    }
}

/// Declare each profile at the function-block address with an enablement,
/// in order.
pub open spec fn spec_declare_all(m: Map<u64, ChannelProfileState>, ps: Seq<Profile>, en: ProfileEnablement) -> Map<u64, ChannelProfileState>
    decreases ps.len(),
{
    if ps.len() == 0 {
        m
    } else {
        let a = ChannelAddress::spec_function_block();
        let p = ps.last();
        spec_declare_all(m, ps.drop_last(), en).insert(
            spec_profile_key(a, p),
            ChannelProfileState { profile: p, address: a, enablement: en },
        )
    }
}

/// The peer cache after a message: a discovery reply records its sender, an
/// invalidate-MUID forgets its target, anything else changes nothing.
pub open spec fn spec_discovery_after(d: Map<u64, PeerDiscovery>, p: ParsedMessage) -> Map<u64, PeerDiscovery> {
    match p.body {
        MessageBody::DiscoveryReply(r) => d.insert(spec_peer_key(p.header.source), spec_peer_after_reply(p.header.source, r)),
        MessageBody::InvalidateMuid(i) => d.remove(spec_peer_key(i.target)),
        _ => d,
    }
}

/// The profile declarations after a message: an inquiry response declares
/// its enabled profiles (on one channel) and then its disabled ones, an
/// enabled or disabled report declares its profile, all at the
/// function-block address; anything else changes nothing.
pub open spec fn spec_profiles_after(m: Map<u64, ChannelProfileState>, p: ParsedMessage) -> Map<u64, ChannelProfileState> {
    let a = ChannelAddress::spec_function_block();
    match p.body {
        MessageBody::ProfileInquiryResponse(r) => spec_declare_all(
            spec_declare_all(m, r.enabled_profiles@, ProfileEnablement::Enabled { num_channels: 1 }),
            r.disabled_profiles@,
            ProfileEnablement::Disabled,
        ),
        MessageBody::ProfileEnabledReport(r) => m.insert(
            spec_profile_key(a, r.profile),
            ChannelProfileState {
                profile: r.profile,
                address: a,
                enablement: ProfileEnablement::Enabled { num_channels: r.num_channels },
            },
        ),
        MessageBody::ProfileDisabledReport(r) => m.insert(
            spec_profile_key(a, r.profile),
            ChannelProfileState { profile: r.profile, address: a, enablement: ProfileEnablement::Disabled },
        ),
        _ => m,
    }
}

/// The header of an outbound message: whole-block address, version 2, our
/// MUID as source and the body's category byte.
pub open spec fn spec_outbound_header(source: Muid, destination: Muid, body: OutboundMessage) -> Header {
    Header {
        device_id: ChannelInGroup::WholeBlock,
        category: (0x70 + body.spec_category_index()) as u8,
        version: 2,
        source,
        destination,
    }
}

// ---------------------------------------------------------------------------
// Listeners
// ---------------------------------------------------------------------------

/// Notified by a device about what arrives; implemented by applications.
pub trait DeviceListener {
    /// A peer was discovered.
    fn device_added(&mut self, device: DeviceMut<'_>, info: PeerDiscovery);

    /// A known peer sent new discovery information.
    fn device_updated(&mut self, device: DeviceMut<'_>, info: PeerDiscovery) {
        let _ = (device, info);
    }

    /// A peer invalidated its MUID.
    fn device_removed(&mut self, device: DeviceMut<'_>, muid: Muid) {
        let _ = (device, muid);
    }

    /// A peer answered an endpoint inquiry.
    fn endpoint_received(&mut self, device: DeviceMut<'_>, muid: Muid, status: u8, data: &[u8]) {
        let _ = (device, muid, status, data);
    }

    /// A peer answered a profile inquiry.
    fn profile_state_received(
        &mut self,
        device: DeviceMut<'_>,
        muid: Muid,
        address: ChannelAddress,
        enabled: &[Profile],
        disabled: &[Profile],
    ) {
        let _ = (device, muid, address, enabled, disabled);
    }

    /// A peer enabled a profile.
    fn profile_enabled(
        &mut self,
        device: DeviceMut<'_>,
        muid: Muid,
        address: ChannelAddress,
        profile: Profile,
        num_channels: u16,
    ) {
        let _ = (device, muid, address, profile, num_channels);
    }

    /// A peer disabled a profile.
    fn profile_disabled(&mut self, device: DeviceMut<'_>, muid: Muid, address: ChannelAddress, profile: Profile) {
        let _ = (device, muid, address, profile);
    }

    /// A peer reported its property-exchange capabilities.
    fn property_exchange_capabilities_received(
        &mut self,
        device: DeviceMut<'_>,
        muid: Muid,
        num_simultaneous_requests_supported: u8,
        major_version: u8,
        minor_version: u8,
    ) {
        let _ = (device, muid, num_simultaneous_requests_supported, major_version, minor_version);
    }

    /// A property get or set was answered.
    fn property_exchange_response(
        &mut self,
        device: DeviceMut<'_>,
        muid: Muid,
        request_id: u8,
        success: bool,
        data: &[u8],
    ) {
        let _ = (device, muid, request_id, success, data);
    }

    /// Any decoded message.
    fn message_received(&mut self, device: DeviceMut<'_>, message: &ParsedMessage) {
        let _ = (device, message);
    }
}

/// The view of a device handed to listeners: its state to read and its sink
/// to send through.
pub struct DeviceMut<'a> {
    options: &'a DeviceOptions,
    discovery_state: &'a DiscoveryState,
    profile_state: &'a ProfileHostState,
    property_ledger: &'a PropertyLedger,
    sink: &'a mut Box<dyn MessageSink>,
    sent_log: Ghost<Seq<(Muid, Seq<u8>)>>,
}

/// The bytes sent for an outbound message from a device with the given
/// options.
pub fn outbound_bytes(options: &DeviceOptions, destination: Muid, body: OutboundMessage) -> (bytes: Vec<u8>)
    ensures
        bytes@ == spec_encode(
            spec_outbound_header(options.muid, destination, body),
            body.spec_into_body(),
            options.group,
        ),
{
    let header = Header::new(options.muid, destination, 0x70 + body.category());
    let message = body.into_body();
    encode(&header, &message, options.group)
}

impl<'a> DeviceMut<'a> {
    /// The messages sent through this view, in order.
    pub closed spec fn sent(self) -> Seq<(Muid, Seq<u8>)> {
        self.sent_log@
    }

    /// The device's options.
    pub closed spec fn spec_options(self) -> DeviceOptions {
        *self.options
    }

    /// Our MUID.
    pub fn muid(&self) -> (m: Muid)
        ensures m == self.spec_options().muid,
    {
        self.options.muid
    }

    /// The device's options.
    pub fn options(&self) -> (o: &DeviceOptions)
        ensures *o == self.spec_options(),
    {
        self.options
    }

    /// The device's peer cache.
    pub closed spec fn spec_discovery(self) -> DiscoveryState {
        *self.discovery_state
    }

    /// The device's profile declarations.
    pub closed spec fn spec_profile_state(self) -> ProfileHostState {
        *self.profile_state
    }

    /// The device's property ledger.
    pub closed spec fn spec_ledger(self) -> PropertyLedger {
        *self.property_ledger
    }

    /// The peer cache.
    pub fn discovery_state(&self) -> (s: &DiscoveryState)
        ensures *s == self.spec_discovery(),
    {
        self.discovery_state
    }

    /// The profile declarations.
    pub fn profile_state(&self) -> (s: &ProfileHostState)
        ensures *s == self.spec_profile_state(),
    {
        self.profile_state
    }

    /// The property ledger.
    pub fn property_ledger(&self) -> (l: &PropertyLedger)
        ensures *l == self.spec_ledger(),
    {
        self.property_ledger
    }

    /// Send a message through the device's sink; the bytes are those of
    /// `outbound_bytes`.
    pub fn send(&mut self, destination: Muid, body: OutboundMessage)
        ensures
            final(self).sent() == old(self).sent().push(spec_sent_entry(old(self).spec_options(), destination, body)),
            final(self).spec_options() == old(self).spec_options(),
            final(self).spec_discovery() == old(self).spec_discovery(),
            final(self).spec_profile_state() == old(self).spec_profile_state(),
            final(self).spec_ledger() == old(self).spec_ledger(),
    {
        let bytes = outbound_bytes(self.options, destination, body);
        let ghost entry = (destination, bytes@);
        self.sink.send(destination, bytes);
        self.sent_log = Ghost(self.sent_log@.push(entry));
    }
}

// ---------------------------------------------------------------------------
// Device
// ---------------------------------------------------------------------------

/// One MIDI-CI participant.
pub struct Device {
    options: DeviceOptions,
    discovery_state: DiscoveryState,
    profile_state: ProfileHostState,
    property_ledger: PropertyLedger,
    listeners: Vec<Box<dyn DeviceListener>>,
    sink: Box<dyn MessageSink>,
    sent_log: Ghost<Seq<(Muid, Seq<u8>)>>,
    notified_log: Ghost<Seq<DeviceNotification>>,
}

/// What a device with the given options hands its sink for a message: the
/// destination and the encoded bytes.
pub open spec fn spec_sent_entry(options: DeviceOptions, destination: Muid, body: OutboundMessage) -> (Muid, Seq<u8>) {
    (destination, spec_encode(spec_outbound_header(options.muid, destination, body), body.spec_into_body(), options.group))
}

/// One call a device makes on a listener, with what it passes (besides the
/// view of the device).
pub enum DeviceNotification {
    /// `message_received` with the decoded message.
    MessageReceived(ParsedMessage),
    /// `device_added` with the new peer's discovery information.
    DeviceAdded(PeerDiscovery),
    /// `device_updated` with a known peer's new discovery information.
    DeviceUpdated(PeerDiscovery),
    /// `device_removed` with the invalidated MUID.
    DeviceRemoved(Muid),
    /// `endpoint_received` with the source, status and data.
    EndpointReceived(Muid, u8, Vec<u8>),
    /// `profile_state_received` with the source, the function-block address
    /// and the enabled and disabled profiles.
    ProfileStateReceived(Muid, ChannelAddress, Vec<Profile>, Vec<Profile>),
    /// `profile_enabled` with the source, address, profile and channel count.
    ProfileEnabled(Muid, ChannelAddress, Profile, u16),
    /// `profile_disabled` with the source, address and profile.
    ProfileDisabled(Muid, ChannelAddress, Profile),
    /// `property_exchange_capabilities_received` with the source and the
    /// three reported numbers.
    PropertyExchangeCapabilitiesReceived(Muid, u8, u8, u8),
    /// `property_exchange_response` with the source, request id, success
    /// flag and data.
    PropertyExchangeResponse(Muid, u8, bool, Vec<u8>),
}

/// The calls one listener receives for a decoded message, in order; `known`
/// tells whether the sender was a known peer before the message arrived.
pub open spec fn spec_notifications(known: bool, p: ParsedMessage) -> Seq<DeviceNotification> {
    let source = p.header.source;
    let rest = match p.body {
        MessageBody::DiscoveryReply(reply) => {
            let peer = PeerDiscovery {
                muid: source,
                device_info: reply.device_info,
                maximum_sysex_size: reply.maximum_sysex_size,
                output_path_id: reply.output_path_id,
            };
            if known {
                seq![DeviceNotification::DeviceUpdated(peer)]
            } else {
                seq![DeviceNotification::DeviceAdded(peer)]
            }
        },
        MessageBody::InvalidateMuid(i) => seq![DeviceNotification::DeviceRemoved(i.target)],
        MessageBody::EndpointInquiryResponse(r) => seq![DeviceNotification::EndpointReceived(source, r.status, r.data)],
        MessageBody::ProfileInquiryResponse(r) => seq![DeviceNotification::ProfileStateReceived(
            source,
            ChannelAddress::spec_function_block(),
            r.enabled_profiles,
            r.disabled_profiles,
        )],
        MessageBody::ProfileEnabledReport(r) => seq![DeviceNotification::ProfileEnabled(
            source,
            ChannelAddress::spec_function_block(),
            r.profile,
            r.num_channels,
        )],
        MessageBody::ProfileDisabledReport(r) => seq![DeviceNotification::ProfileDisabled(
            source,
            ChannelAddress::spec_function_block(),
            r.profile,
        )],
        MessageBody::PropertyExchangeCapabilitiesResponse(r) => seq![DeviceNotification::PropertyExchangeCapabilitiesReceived(
            source,
            r.num_simultaneous_requests_supported,
            r.major_version,
            r.minor_version,
        )],
        MessageBody::PropertyGetDataResponse(r) => seq![DeviceNotification::PropertyExchangeResponse(
            source,
            r.inner.request_id.0,
            true,
            r.inner.data,
        )],
        MessageBody::PropertySetDataResponse(r) => seq![DeviceNotification::PropertyExchangeResponse(
            source,
            r.inner.request_id.0,
            true,
            r.inner.header,
        )],
        _ => Seq::empty(),
    };
    seq![DeviceNotification::MessageReceived(p)] + rest
}

/// One call to make on a listener for a message, with its arguments
/// borrowed from the message.
pub enum NotificationStep<'a> {
    /// `message_received`.
    MessageReceived(&'a ParsedMessage),
    /// `device_added`.
    DeviceAdded(PeerDiscovery),
    /// `device_updated`.
    DeviceUpdated(PeerDiscovery),
    /// `device_removed`.
    DeviceRemoved(Muid),
    /// `endpoint_received`.
    EndpointReceived(Muid, u8, &'a Vec<u8>),
    /// `profile_state_received`.
    ProfileStateReceived(Muid, ChannelAddress, &'a Vec<Profile>, &'a Vec<Profile>),
    /// `profile_enabled`.
    ProfileEnabled(Muid, ChannelAddress, Profile, u16),
    /// `profile_disabled`.
    ProfileDisabled(Muid, ChannelAddress, Profile),
    /// `property_exchange_capabilities_received`.
    PropertyExchangeCapabilitiesReceived(Muid, u8, u8, u8),
    /// `property_exchange_response`.
    PropertyExchangeResponse(Muid, u8, bool, &'a Vec<u8>),
}

impl<'a> NotificationStep<'a> {
    /// The call this step makes, with its arguments.
    pub open spec fn spec_notification(self) -> DeviceNotification {
        match self {
            NotificationStep::MessageReceived(p) => DeviceNotification::MessageReceived(*p),
            NotificationStep::DeviceAdded(peer) => DeviceNotification::DeviceAdded(peer),
            NotificationStep::DeviceUpdated(peer) => DeviceNotification::DeviceUpdated(peer),
            NotificationStep::DeviceRemoved(m) => DeviceNotification::DeviceRemoved(m),
            NotificationStep::EndpointReceived(s, st, d) => DeviceNotification::EndpointReceived(s, st, *d),
            NotificationStep::ProfileStateReceived(s, a, e, d) => DeviceNotification::ProfileStateReceived(s, a, *e, *d),
            NotificationStep::ProfileEnabled(s, a, p, n) => DeviceNotification::ProfileEnabled(s, a, p, n),
            NotificationStep::ProfileDisabled(s, a, p) => DeviceNotification::ProfileDisabled(s, a, p),
            NotificationStep::PropertyExchangeCapabilitiesReceived(s, n, ma, mi) => {
                DeviceNotification::PropertyExchangeCapabilitiesReceived(s, n, ma, mi)
            },
            NotificationStep::PropertyExchangeResponse(s, r, ok, d) => DeviceNotification::PropertyExchangeResponse(s, r, ok, *d),
        }
    }
}

/// The calls a list of steps makes, in order.
pub open spec fn spec_step_notifications<'a>(steps: Seq<NotificationStep<'a>>) -> Seq<DeviceNotification> {
    steps.map_values(|s: NotificationStep<'a>| s.spec_notification())
}

/// The calls one listener receives for a decoded message, in order (see
/// [`spec_notifications`]); `known` tells whether the sender was a known
/// peer before the message arrived.
pub fn notification_steps<'a>(parsed: &'a ParsedMessage, known: bool) -> (r: Vec<NotificationStep<'a>>)
    ensures
        spec_step_notifications(r@) == spec_notifications(known, *parsed),
{
    let mut r: Vec<NotificationStep<'a>> = Vec::new();
    r.push(NotificationStep::MessageReceived(parsed));
    let source = parsed.header.source;
    match &parsed.body {
        MessageBody::DiscoveryReply(reply) => {
            let peer = PeerDiscovery {
                muid: source,
                device_info: reply.device_info,
                maximum_sysex_size: reply.maximum_sysex_size,
                output_path_id: reply.output_path_id,
            };
            if known {
                r.push(NotificationStep::DeviceUpdated(peer));
            } else {
                r.push(NotificationStep::DeviceAdded(peer));
            }
        },
        MessageBody::InvalidateMuid(invalidate) => {
            r.push(NotificationStep::DeviceRemoved(invalidate.target));
        },
        MessageBody::EndpointInquiryResponse(response) => {
            r.push(NotificationStep::EndpointReceived(source, response.status, &response.data));
        },
        MessageBody::ProfileInquiryResponse(resp) => {
            r.push(NotificationStep::ProfileStateReceived(
                source,
                ChannelAddress::function_block(),
                &resp.enabled_profiles,
                &resp.disabled_profiles,
            ));
        },
        MessageBody::ProfileEnabledReport(rep) => {
            r.push(NotificationStep::ProfileEnabled(source, ChannelAddress::function_block(), rep.profile, rep.num_channels));
        },
        MessageBody::ProfileDisabledReport(rep) => {
            r.push(NotificationStep::ProfileDisabled(source, ChannelAddress::function_block(), rep.profile));
        },
        MessageBody::PropertyExchangeCapabilitiesResponse(c) => {
            r.push(NotificationStep::PropertyExchangeCapabilitiesReceived(
                source,
                c.num_simultaneous_requests_supported,
                c.major_version,
                c.minor_version,
            ));
        },
        MessageBody::PropertyGetDataResponse(g) => {
            r.push(NotificationStep::PropertyExchangeResponse(source, g.inner.request_id.get(), true, &g.inner.data));
        },
        MessageBody::PropertySetDataResponse(s) => {
            r.push(NotificationStep::PropertyExchangeResponse(source, s.inner.request_id.get(), true, &s.inner.header));
        },
        _ => {},
    }
    assert(spec_step_notifications(r@) =~= spec_notifications(known, *parsed));
    r
}


/// `message_received` on a listener; the call made is returned.
fn call_message_received(listener: &mut Box<dyn DeviceListener>, device: DeviceMut<'_>, p: &ParsedMessage) -> (call: Ghost<DeviceNotification>)
    ensures call@ == DeviceNotification::MessageReceived(*p),
{
    listener.message_received(device, p);
    Ghost(DeviceNotification::MessageReceived(*p))
}

/// `device_added` on a listener; the call made is returned.
fn call_device_added(listener: &mut Box<dyn DeviceListener>, device: DeviceMut<'_>, peer: PeerDiscovery) -> (call: Ghost<DeviceNotification>)
    ensures call@ == DeviceNotification::DeviceAdded(peer),
{
    listener.device_added(device, peer);
    Ghost(DeviceNotification::DeviceAdded(peer))
}

/// `device_updated` on a listener; the call made is returned.
fn call_device_updated(listener: &mut Box<dyn DeviceListener>, device: DeviceMut<'_>, peer: PeerDiscovery) -> (call: Ghost<DeviceNotification>)
    ensures call@ == DeviceNotification::DeviceUpdated(peer),
{
    listener.device_updated(device, peer);
    Ghost(DeviceNotification::DeviceUpdated(peer))
}

/// `device_removed` on a listener; the call made is returned.
fn call_device_removed(listener: &mut Box<dyn DeviceListener>, device: DeviceMut<'_>, muid: Muid) -> (call: Ghost<DeviceNotification>)
    ensures call@ == DeviceNotification::DeviceRemoved(muid),
{
    listener.device_removed(device, muid);
    Ghost(DeviceNotification::DeviceRemoved(muid))
}

/// `endpoint_received` on a listener; the call made is returned.
fn call_endpoint_received(
    listener: &mut Box<dyn DeviceListener>,
    device: DeviceMut<'_>,
    source: Muid,
    status: u8,
    data: &Vec<u8>,
) -> (call: Ghost<DeviceNotification>)
    ensures call@ == DeviceNotification::EndpointReceived(source, status, *data),
{
    listener.endpoint_received(device, source, status, data.as_slice());
    Ghost(DeviceNotification::EndpointReceived(source, status, *data))
}

/// `profile_state_received` on a listener; the call made is returned.
fn call_profile_state_received(
    listener: &mut Box<dyn DeviceListener>,
    device: DeviceMut<'_>,
    source: Muid,
    address: ChannelAddress,
    enabled: &Vec<Profile>,
    disabled: &Vec<Profile>,
) -> (call: Ghost<DeviceNotification>)
    ensures call@ == DeviceNotification::ProfileStateReceived(source, address, *enabled, *disabled),
{
    listener.profile_state_received(device, source, address, enabled.as_slice(), disabled.as_slice());
    Ghost(DeviceNotification::ProfileStateReceived(source, address, *enabled, *disabled))
}

/// `profile_enabled` on a listener; the call made is returned.
fn call_profile_enabled(
    listener: &mut Box<dyn DeviceListener>,
    device: DeviceMut<'_>,
    source: Muid,
    address: ChannelAddress,
    profile: Profile,
    num_channels: u16,
) -> (call: Ghost<DeviceNotification>)
    ensures call@ == DeviceNotification::ProfileEnabled(source, address, profile, num_channels),
{
    listener.profile_enabled(device, source, address, profile, num_channels);
    Ghost(DeviceNotification::ProfileEnabled(source, address, profile, num_channels))
}

/// `profile_disabled` on a listener; the call made is returned.
fn call_profile_disabled(
    listener: &mut Box<dyn DeviceListener>,
    device: DeviceMut<'_>,
    source: Muid,
    address: ChannelAddress,
    profile: Profile,
) -> (call: Ghost<DeviceNotification>)
    ensures call@ == DeviceNotification::ProfileDisabled(source, address, profile),
{
    listener.profile_disabled(device, source, address, profile);
    Ghost(DeviceNotification::ProfileDisabled(source, address, profile))
}

/// `property_exchange_capabilities_received` on a listener; the call made
/// is returned.
fn call_property_exchange_capabilities_received(
    listener: &mut Box<dyn DeviceListener>,
    device: DeviceMut<'_>,
    source: Muid,
    n: u8,
    major: u8,
    minor: u8,
) -> (call: Ghost<DeviceNotification>)
    ensures call@ == DeviceNotification::PropertyExchangeCapabilitiesReceived(source, n, major, minor),
{
    listener.property_exchange_capabilities_received(device, source, n, major, minor);
    Ghost(DeviceNotification::PropertyExchangeCapabilitiesReceived(source, n, major, minor))
}

/// `property_exchange_response` on a listener; the call made is returned.
fn call_property_exchange_response(
    listener: &mut Box<dyn DeviceListener>,
    device: DeviceMut<'_>,
    source: Muid,
    request_id: u8,
    success: bool,
    data: &Vec<u8>,
) -> (call: Ghost<DeviceNotification>)
    ensures call@ == DeviceNotification::PropertyExchangeResponse(source, request_id, success, *data),
{
    listener.property_exchange_response(device, source, request_id, success, data.as_slice());
    Ghost(DeviceNotification::PropertyExchangeResponse(source, request_id, success, *data))
}

/// `s` repeated `n` times.
pub open spec fn spec_repeat<A>(s: Seq<A>, n: nat) -> Seq<A>
    decreases n,
{
    if n == 0 {
        Seq::empty()
    } else {
        spec_repeat(s, (n - 1) as nat) + s
    }
}

impl Device {
    /// The calls made on listeners so far, in order.
    pub closed spec fn notified(self) -> Seq<DeviceNotification> {
        self.notified_log@
    }

    /// The messages the device's own send methods handed to its sink, in
    /// order (what listeners send through their view is not counted).
    pub closed spec fn sent(self) -> Seq<(Muid, Seq<u8>)> {
        self.sent_log@
    }

    /// Every part of the device but what it sent is as in `other`.
    pub open spec fn same_state(self, other: Device) -> bool {
        &&& self.spec_options() == other.spec_options()
        &&& self.peers() == other.peers()
        &&& self.profiles() == other.profiles()
        &&& self.spec_listener_count() == other.spec_listener_count()
        &&& self.ledger() == other.ledger()
        &&& self.notified() == other.notified()
    }

    /// The options.
    pub closed spec fn spec_options(self) -> DeviceOptions {
        self.options
    }

    /// The peer cache.
    pub closed spec fn peers(self) -> Map<u64, PeerDiscovery> {
        self.discovery_state@
    }

    /// The profile declarations.
    pub closed spec fn profiles(self) -> Map<u64, ChannelProfileState> {
        self.profile_state@
    }

    /// The number of registered listeners.
    pub closed spec fn spec_listener_count(self) -> nat {
        self.listeners@.len()
    }

    /// A device with empty state, no listeners and the given sink.
    pub fn new<S: MessageSink + 'static>(options: DeviceOptions, sink: S) -> (d: Device)
        ensures
            d.spec_options() == options,
            d.peers() == Map::<u64, PeerDiscovery>::empty(),
            d.profiles() == Map::<u64, ChannelProfileState>::empty(),
            d.spec_listener_count() == 0,
            d.sent() == Seq::<(Muid, Seq<u8>)>::empty(),
            d.notified() == Seq::<DeviceNotification>::empty(),
            d.ledger().requests() == Map::<u64, PendingRequest>::empty(),
            d.ledger().subscriptions() == Map::<u64, PendingSubscription>::empty(),
            d.ledger().next_request_key() == 1,
            d.ledger().next_subscription_key() == 1,
    {
        let boxed: Box<dyn MessageSink> = Box::new(sink);
        Device {
            options,
            discovery_state: DiscoveryState::new(),
            profile_state: ProfileHostState::new(),
            property_ledger: PropertyLedger::new(),
            listeners: Vec::new(),
            sink: boxed,
            sent_log: Ghost(Seq::empty()),
            notified_log: Ghost(Seq::empty()),
        }
    }

    /// The options.
    pub fn options(&self) -> (o: &DeviceOptions)
        ensures *o == self.spec_options(),
    {
        &self.options
    }

    /// Our MUID.
    pub fn muid(&self) -> (m: Muid)
        ensures m == self.spec_options().muid,
    {
        self.options.muid
    }

    /// Take another MUID (after a collision, say).
    pub fn set_muid(&mut self, muid: Muid)
        ensures
            final(self).spec_options() == (DeviceOptions { muid, ..old(self).spec_options() }),
            final(self).peers() == old(self).peers(),
            final(self).profiles() == old(self).profiles(),
            final(self).spec_listener_count() == old(self).spec_listener_count(),
            final(self).sent() == old(self).sent(),
    {
        self.options.muid = muid;
    }

    /// The peer cache.
    pub fn discovery_state(&self) -> (s: &DiscoveryState)
        ensures s@ == self.peers(),
    {
        &self.discovery_state
    }

    /// The profile declarations.
    pub fn profile_state(&self) -> (s: &ProfileHostState)
        ensures s@ == self.profiles(),
    {
        &self.profile_state
    }

    /// The property ledger.
    pub closed spec fn ledger(self) -> PropertyLedger {
        self.property_ledger
    }

    /// The property ledger.
    pub fn property_ledger(&self) -> (l: &PropertyLedger)
        ensures *l == self.ledger(),
    {
        &self.property_ledger
    }

    /// Register a listener for the messages processed from now on.
    pub fn add_listener<L: DeviceListener + 'static>(&mut self, listener: L)
        ensures
            final(self).spec_options() == old(self).spec_options(),
            final(self).peers() == old(self).peers(),
            final(self).profiles() == old(self).profiles(),
            final(self).sent() == old(self).sent(),
    {
        let boxed: Box<dyn DeviceListener> = Box::new(listener);
        self.listeners.push(boxed);
    }

    /// The number of registered listeners.
    pub fn listener_count(&self) -> (n: usize)
        ensures n == self.spec_listener_count(),
    {
        self.listeners.len()
    }

    /// Send a discovery inquiry with our advertised information to the
    /// broadcast MUID.
    pub fn send_discovery(&mut self)
        ensures
            final(self).sent() == old(self).sent().push(spec_sent_entry(old(self).spec_options(), Muid::spec_broadcast(), OutboundMessage::Discovery(Discovery {
                device_info: old(self).spec_options().device_info,
                capabilities: old(self).spec_options().capabilities,
                maximum_sysex_size: old(self).spec_options().maximum_sysex_size,
                output_path_id: 0,
            }))),
            final(self).same_state(*old(self)),
    {
        let body = OutboundMessage::Discovery(Discovery {
            device_info: self.options.device_info,
            capabilities: self.options.capabilities,
            maximum_sysex_size: self.options.maximum_sysex_size,
            output_path_id: 0,
        });
        self.send_to_sink(Muid::broadcast(), body);
    }

    /// Send a discovery reply with our advertised information.
    pub fn send_discovery_reply(&mut self, destination: Muid, function_block: u8)
        ensures
            final(self).sent() == old(self).sent().push(spec_sent_entry(old(self).spec_options(), destination, OutboundMessage::DiscoveryReply(DiscoveryReply {
                device_info: old(self).spec_options().device_info,
                capabilities: old(self).spec_options().capabilities,
                maximum_sysex_size: old(self).spec_options().maximum_sysex_size,
                output_path_id: 0,
                function_block,
            }))),
            final(self).same_state(*old(self)),
    {
        let body = OutboundMessage::DiscoveryReply(DiscoveryReply {
            device_info: self.options.device_info,
            capabilities: self.options.capabilities,
            maximum_sysex_size: self.options.maximum_sysex_size,
            output_path_id: 0,
            function_block,
        });
        self.send_to_sink(destination, body);
    }

    /// Announce to the broadcast MUID that our MUID goes away.
    pub fn send_invalidate_muid(&mut self)
        ensures
            final(self).sent() == old(self).sent().push(spec_sent_entry(old(self).spec_options(), Muid::spec_broadcast(), OutboundMessage::InvalidateMuid(InvalidateMuid { target: old(self).spec_options().muid }))),
            final(self).same_state(*old(self)),
    {
        let body = OutboundMessage::InvalidateMuid(InvalidateMuid { target: self.options.muid });
        self.send_to_sink(Muid::broadcast(), body);
    }

    /// Ask a peer for its profiles.
    pub fn send_profile_inquiry(&mut self, muid: Muid, _address: ChannelAddress)
        ensures
            final(self).sent() == old(self).sent().push(spec_sent_entry(old(self).spec_options(), muid, OutboundMessage::ProfileInquiry(ProfileInquiry))),
            final(self).same_state(*old(self)),
    {
        let body = OutboundMessage::ProfileInquiry(ProfileInquiry);
        self.send_to_sink(muid, body);
    }

    /// Ask a peer to enable a profile.
    pub fn send_profile_on(&mut self, muid: Muid, _address: ChannelAddress, profile: Profile, num_channels: u16)
        ensures
            final(self).sent() == old(self).sent().push(spec_sent_entry(old(self).spec_options(), muid, OutboundMessage::ProfileOn(ProfileOn { profile, num_channels }))),
            final(self).same_state(*old(self)),
    {
        let body = OutboundMessage::ProfileOn(ProfileOn { profile, num_channels });
        self.send_to_sink(muid, body);
    }

    /// Ask a peer to disable a profile.
    pub fn send_profile_off(&mut self, muid: Muid, _address: ChannelAddress, profile: Profile)
        ensures
            final(self).sent() == old(self).sent().push(spec_sent_entry(old(self).spec_options(), muid, OutboundMessage::ProfileOff(ProfileOff { profile }))),
            final(self).same_state(*old(self)),
    {
        let body = OutboundMessage::ProfileOff(ProfileOff { profile });
        self.send_to_sink(muid, body);
    }

    /// Ask a peer for its property-exchange capabilities.
    pub fn send_property_capabilities_inquiry(&mut self, muid: Muid)
        ensures
            final(self).sent() == old(self).sent().push(spec_sent_entry(old(self).spec_options(), muid, OutboundMessage::PropertyExchangeCapabilities(PropertyExchangeCapabilities {
                num_simultaneous_requests_supported: 1,
                major_version: 1,
                minor_version: 0,
            }))),
            final(self).same_state(*old(self)),
    {
        let body = OutboundMessage::PropertyExchangeCapabilities(PropertyExchangeCapabilities {
            num_simultaneous_requests_supported: 1,
            major_version: 1,
            minor_version: 0,
        });
        self.send_to_sink(muid, body);
    }

    /// Process one inbound packet (with UMP framing): decode it, update the
    /// peer cache and profile declarations, and notify the listeners.
    /// Packets without the framing are ignored; decoding errors are returned
    /// with the state unchanged.
    pub fn process_message(&mut self, bytes: &[u8]) -> (r: MidiCiResult<()>)
        ensures
            exists|d: MidiCiResult<Option<ParsedMessage>>| #[trigger] spec_decode_result(bytes@, d) && match d {
                Err(e) => r == Err::<(), MidiCiError>(e) && final(self).peers() == old(self).peers()
                    && final(self).profiles() == old(self).profiles()
                    && final(self).notified() == old(self).notified(),
                Ok(None) => r == Ok::<(), MidiCiError>(()) && final(self).peers() == old(self).peers()
                    && final(self).profiles() == old(self).profiles()
                    && final(self).notified() == old(self).notified(),
                Ok(Some(p)) => r == Ok::<(), MidiCiError>(())
                    && final(self).peers() == spec_discovery_after(old(self).peers(), p)
                    && final(self).profiles() == spec_profiles_after(old(self).profiles(), p)
                    && final(self).notified() == old(self).notified() + spec_repeat(
                        spec_notifications(old(self).peers().contains_key(spec_peer_key(p.header.source)), p),
                        old(self).spec_listener_count(),
                    ),
            },
            final(self).ledger() == old(self).ledger(),
            final(self).spec_options() == old(self).spec_options(),
            final(self).spec_listener_count() == old(self).spec_listener_count(),
            final(self).sent() == old(self).sent(),
    {
        let decoded = decode(bytes);
        match decoded {
            Err(e) => Err(e),
            Ok(None) => Ok(()),
            Ok(Some(parsed)) => {
                self.dispatch(parsed);
                Ok(())
            },
        }
    }

    fn dispatch(&mut self, parsed: ParsedMessage)
        ensures
            final(self).notified() == old(self).notified() + spec_repeat(
                spec_notifications(old(self).peers().contains_key(spec_peer_key(parsed.header.source)), parsed),
                old(self).spec_listener_count(),
            ),
            final(self).ledger() == old(self).ledger(),
            final(self).peers() == spec_discovery_after(old(self).peers(), parsed),
            final(self).profiles() == spec_profiles_after(old(self).profiles(), parsed),
            final(self).spec_options() == old(self).spec_options(),
            final(self).spec_listener_count() == old(self).spec_listener_count(),
            final(self).sent() == old(self).sent(),
    {
        let known = self.discovery_state.get(parsed.header.source).is_some();
        let ghost notes = spec_notifications(known, parsed);
        self.update_state_from(&parsed);
        let mut listeners: Vec<Box<dyn DeviceListener>> = Vec::new();
        std::mem::swap(&mut listeners, &mut self.listeners);
        let ghost peers = self.discovery_state@;
        let ghost profiles = self.profile_state@;
        let mut i: usize = 0;
        while i < listeners.len()
            invariant
                i <= listeners@.len(),
                self.discovery_state@ == peers,
                self.profile_state@ == profiles,
                self.options == old(self).options,
                self.sent_log == old(self).sent_log,
                self.property_ledger == old(self).property_ledger,
                self.notified_log@ == old(self).notified_log@ + spec_repeat(notes, i as nat),
                notes == spec_notifications(known, parsed),
                self.listeners@.len() == 0,
                listeners@.len() == old(self).listeners@.len(),
            decreases listeners@.len() - i,
        {
            let listener = &mut listeners[i];
            let log = Self::notify(listener, &self.options, &self.discovery_state, &self.profile_state,
                &self.property_ledger, &mut self.sink, &parsed, known);
            proof {
                assert(spec_repeat(notes, (i + 1) as nat) == spec_repeat(notes, i as nat) + notes);
                assert(old(self).notified_log@ + spec_repeat(notes, i as nat) + notes
                    =~= old(self).notified_log@ + spec_repeat(notes, (i + 1) as nat));
            }
            self.notified_log = Ghost(self.notified_log@ + log@);
            i = i + 1;
        }
        self.listeners = listeners;
    }

    fn view<'b>(
        options: &'b DeviceOptions,
        discovery_state: &'b DiscoveryState,
        profile_state: &'b ProfileHostState,
        property_ledger: &'b PropertyLedger,
        sink: &'b mut Box<dyn MessageSink>,
    ) -> (d: DeviceMut<'b>)
        ensures
            d.spec_options() == *options,
            d.spec_discovery() == *discovery_state,
            d.spec_profile_state() == *profile_state,
            d.spec_ledger() == *property_ledger,
            d.sent() == Seq::<(Muid, Seq<u8>)>::empty(),
    {
        DeviceMut { options, discovery_state, profile_state, property_ledger, sink, sent_log: Ghost(Seq::empty()) }
    }

    /// Make one listener call, returning the call made.
    fn deliver(
        listener: &mut Box<dyn DeviceListener>,
        options: &DeviceOptions,
        discovery_state: &DiscoveryState,
        profile_state: &ProfileHostState,
        property_ledger: &PropertyLedger,
        sink: &mut Box<dyn MessageSink>,
        step: &NotificationStep,
    ) -> (call: Ghost<DeviceNotification>)
        ensures
            call@ == step.spec_notification(),
    {
        let device = Self::view(options, discovery_state, profile_state, property_ledger, sink);
        match step {
            NotificationStep::MessageReceived(p) => call_message_received(listener, device, p),
            NotificationStep::DeviceAdded(peer) => call_device_added(listener, device, *peer),
            NotificationStep::DeviceUpdated(peer) => call_device_updated(listener, device, *peer),
            NotificationStep::DeviceRemoved(muid) => call_device_removed(listener, device, *muid),
            NotificationStep::EndpointReceived(source, status, data) => {
                call_endpoint_received(listener, device, *source, *status, data)
            },
            NotificationStep::ProfileStateReceived(source, address, enabled, disabled) => {
                call_profile_state_received(listener, device, *source, *address, enabled, disabled)
            },
            NotificationStep::ProfileEnabled(source, address, profile, num_channels) => {
                call_profile_enabled(listener, device, *source, *address, *profile, *num_channels)
            },
            NotificationStep::ProfileDisabled(source, address, profile) => {
                call_profile_disabled(listener, device, *source, *address, *profile)
            },
            NotificationStep::PropertyExchangeCapabilitiesReceived(source, n, major, minor) => {
                call_property_exchange_capabilities_received(listener, device, *source, *n, *major, *minor)
            },
            NotificationStep::PropertyExchangeResponse(source, request_id, success, data) => {
                call_property_exchange_response(listener, device, *source, *request_id, *success, data)
            },
        }
    }

    /// Make, on one listener, the calls of [`notification_steps`] for a
    /// message, in order; what was called is returned as a log.
    fn notify(
        listener: &mut Box<dyn DeviceListener>,
        options: &DeviceOptions,
        discovery_state: &DiscoveryState,
        profile_state: &ProfileHostState,
        property_ledger: &PropertyLedger,
        sink: &mut Box<dyn MessageSink>,
        parsed: &ParsedMessage,
        known: bool,
    ) -> (log: Ghost<Seq<DeviceNotification>>)
        ensures
            log@ == spec_notifications(known, *parsed),
    {
        let steps = notification_steps(parsed, known);
        let ghost mut log: Seq<DeviceNotification> = Seq::empty();
        let mut i: usize = 0;
        while i < steps.len()
            invariant
                i <= steps@.len(),
                log == spec_step_notifications(steps@.take(i as int)),
            decreases steps@.len() - i,
        {
            let call = Self::deliver(listener, options, discovery_state, profile_state, property_ledger, sink, &steps[i]);
            proof {
                assert(spec_step_notifications(steps@.take(i as int + 1)) =~= spec_step_notifications(steps@.take(i as int)).push(steps@[i as int].spec_notification()));
                log = log.push(call@);
            }
            i = i + 1;
        }
        assert(steps@.take(i as int) =~= steps@);
        Ghost(log)
    }

    fn declare_all(&mut self, profiles: &Vec<Profile>, enablement: ProfileEnablement)
        ensures
            final(self).profile_state@ == spec_declare_all(old(self).profile_state@, profiles@, enablement),
            final(self).discovery_state@ == old(self).discovery_state@,
            final(self).options == old(self).options,
            final(self).listeners@.len() == old(self).listeners@.len(),
            final(self).sent_log == old(self).sent_log,
            final(self).property_ledger == old(self).property_ledger,
            final(self).notified_log == old(self).notified_log,
    {
        let mut i: usize = 0;
        while i < profiles.len()
            invariant
                i <= profiles@.len(),
                self.profile_state@ == spec_declare_all(old(self).profile_state@, profiles@.take(i as int), enablement),
                self.discovery_state@ == old(self).discovery_state@,
                self.options == old(self).options,
                self.listeners@.len() == old(self).listeners@.len(),
                self.sent_log == old(self).sent_log,
                self.property_ledger == old(self).property_ledger,
                self.notified_log == old(self).notified_log,
            decreases profiles@.len() - i,
        {
            let entry = ChannelProfileState {
                profile: profiles[i],
                address: ChannelAddress::function_block(),
                enablement,
            };
            self.profile_state.insert(entry);
            proof {
                assert(profiles@.take(i as int + 1).drop_last() =~= profiles@.take(i as int));
            }
            i = i + 1;
        }
        assert(profiles@.take(i as int) =~= profiles@);
    }

    fn update_state_from(&mut self, parsed: &ParsedMessage)
        ensures
            final(self).peers() == spec_discovery_after(old(self).peers(), *parsed),
            final(self).profiles() == spec_profiles_after(old(self).profiles(), *parsed),
            final(self).options == old(self).options,
            final(self).listeners@.len() == old(self).listeners@.len(),
            final(self).sent_log == old(self).sent_log,
            final(self).property_ledger == old(self).property_ledger,
            final(self).notified_log == old(self).notified_log,
    {
        match &parsed.body {
            MessageBody::DiscoveryReply(reply) => {
                let peer = PeerDiscovery {
                    muid: parsed.header.source,
                    device_info: reply.device_info,
                    maximum_sysex_size: reply.maximum_sysex_size,
                    output_path_id: reply.output_path_id,
                };
                self.discovery_state.insert(peer);
            },
            MessageBody::InvalidateMuid(invalidate) => {
                self.discovery_state.remove(invalidate.target);
            },
            MessageBody::ProfileInquiryResponse(resp) => {
                self.declare_all(&resp.enabled_profiles, ProfileEnablement::Enabled { num_channels: 1 });
                self.declare_all(&resp.disabled_profiles, ProfileEnablement::Disabled);
            },
            MessageBody::ProfileEnabledReport(r) => {
                self.profile_state.insert(ChannelProfileState {
                    profile: r.profile,
                    address: ChannelAddress::function_block(),
                    enablement: ProfileEnablement::Enabled { num_channels: r.num_channels },
                });
            },
            MessageBody::ProfileDisabledReport(r) => {
                self.profile_state.insert(ChannelProfileState {
                    profile: r.profile,
                    address: ChannelAddress::function_block(),
                    enablement: ProfileEnablement::Disabled,
                });
            },
            _ => {},
        }
    }

    fn send_to_sink(&mut self, destination: Muid, body: OutboundMessage)
        ensures
            final(self).sent() == old(self).sent().push(spec_sent_entry(old(self).spec_options(), destination, body)),
            final(self).same_state(*old(self)),
    {
        let bytes = outbound_bytes(&self.options, destination, body);
        let ghost entry = (destination, bytes@);
        self.sink.send(destination, bytes);
        self.sent_log = Ghost(self.sent_log@.push(entry));
    }

    /// The sink, for inspecting what was sent.
    pub fn sink_mut(&mut self) -> &mut Box<dyn MessageSink> {
        &mut self.sink
    }
}


/// What a listener is told of each kind of message: first always
/// `message_received` with the message, then at most one more call. A
/// discovery reply gives `device_added` for a sender not known before and
/// `device_updated` for a known one, with the sender's MUID and the reply's
/// identity; an invalidation gives `device_removed` with the invalidated
/// MUID; a profile enabled or disabled report gives `profile_enabled` or
/// `profile_disabled` with the sender, the function-block address, the
/// profile and (for enabled) the channel count; an endpoint answer gives
/// `endpoint_received` with its status and data.
pub proof fn lemma_notifications_by_kind(known: bool, p: ParsedMessage)
    ensures
        spec_notifications(known, p).len() >= 1,
        spec_notifications(known, p).len() <= 2,
        spec_notifications(known, p)[0] == DeviceNotification::MessageReceived(p),
        p.body matches MessageBody::DiscoveryReply(r) ==> spec_notifications(known, p).len() == 2 && ({
            let peer = PeerDiscovery {
                muid: p.header.source,
                device_info: r.device_info,
                maximum_sysex_size: r.maximum_sysex_size,
                output_path_id: r.output_path_id,
            };
            &&& known ==> spec_notifications(known, p)[1] == DeviceNotification::DeviceUpdated(peer)
            &&& !known ==> spec_notifications(known, p)[1] == DeviceNotification::DeviceAdded(peer)
        }),
        p.body matches MessageBody::InvalidateMuid(i) ==> spec_notifications(known, p).len() == 2
            && spec_notifications(known, p)[1] == DeviceNotification::DeviceRemoved(i.target),
        p.body matches MessageBody::ProfileEnabledReport(r) ==> spec_notifications(known, p).len() == 2
            && spec_notifications(known, p)[1] == DeviceNotification::ProfileEnabled(
                p.header.source,
                ChannelAddress::spec_function_block(),
                r.profile,
                r.num_channels,
            ),
        p.body matches MessageBody::ProfileDisabledReport(r) ==> spec_notifications(known, p).len() == 2
            && spec_notifications(known, p)[1] == DeviceNotification::ProfileDisabled(
                p.header.source,
                ChannelAddress::spec_function_block(),
                r.profile,
            ),
        p.body matches MessageBody::EndpointInquiryResponse(r) ==> spec_notifications(known, p).len() == 2
            && spec_notifications(known, p)[1] == DeviceNotification::EndpointReceived(p.header.source, r.status, r.data),
        (p.body is Discovery || p.body is Ack || p.body is Nak || p.body is ProfileInquiry
            || p.body is Malformed) ==> spec_notifications(known, p).len() == 1,
{
}

/// Each listener call a device makes is the one its step names: delivering
/// the steps of [`notification_steps`] one by one makes, in order, exactly
/// the calls of [`spec_notifications`].
pub proof fn lemma_steps_make_notifications<'a>(steps: Seq<NotificationStep<'a>>, known: bool, p: ParsedMessage)
    requires
        spec_step_notifications(steps) == spec_notifications(known, p),
    ensures
        steps.len() == spec_notifications(known, p).len(),
        forall|i: int| 0 <= i < steps.len() ==> #[trigger] steps[i].spec_notification() == spec_notifications(known, p)[i],
{
    assert forall|i: int| 0 <= i < steps.len() implies #[trigger] steps[i].spec_notification() == spec_notifications(known, p)[i] by {
        assert(spec_step_notifications(steps)[i] == steps[i].spec_notification());
    }
}

} // verus!
