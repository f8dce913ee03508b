use logic_nih_plug::midi_ci::message::{Ack, Discovery, DiscoveryReply, DynamicSizePropertyExchange, EndpointInquiry, EndpointInquiryResponse, Header, InvalidateMuid, MessageBody, Nak, OutboundMessage, ParsedMessage, ProcessEndMidiMessageReport, ProcessInquiry, ProcessInquiryResponse, ProcessMidiMessageReport, ProcessMidiMessageReportResponse, ProfileAdded, ProfileDetails, ProfileDetailsResponse, ProfileDisabledReport, ProfileEnabledReport, ProfileInquiry, ProfileInquiryResponse, ProfileOff, ProfileOn, ProfileRemoved, ProfileSpecificData, PropertyExchangeCapabilities, PropertyExchangeCapabilitiesResponse, PropertyGetData, PropertyGetDataResponse, PropertyNotify, PropertySetData, PropertySetDataResponse, PropertySubscribe, PropertySubscribeResponse};
use logic_nih_plug::midi_ci::types::{
    CapabilityFlags, ChannelInGroup, DeviceInfo, Muid, Profile, ProtocolVersion, SubscriptionCommand,
};

#[test]
fn header_new_uses_implementation_version() {
    let source = Muid::from_bits_truncate(0x0102_0304);
    let dest = Muid::from_bits_truncate(0x7FFF_FFFF);
    let header = Header::new(source, dest, 0x07);
    assert_eq!(header.source, source);
    assert_eq!(header.destination, dest);
    assert_eq!(header.category, 0x07);
    assert_eq!(header.version, ProtocolVersion::IMPLEMENTATION.to_byte());
}

#[test]
fn outbound_message_categories_are_in_range() {
    let messages = vec![
        OutboundMessage::Discovery(Discovery::default()),
        OutboundMessage::DiscoveryReply(DiscoveryReply::default()),
        OutboundMessage::InvalidateMuid(InvalidateMuid::default()),
        OutboundMessage::EndpointInquiry(EndpointInquiry::default()),
        OutboundMessage::EndpointInquiryResponse(EndpointInquiryResponse::default()),
        OutboundMessage::Ack(Ack::default()),
        OutboundMessage::Nak(Nak::default()),
        OutboundMessage::ProfileInquiry(ProfileInquiry),
        OutboundMessage::ProfileInquiryResponse(ProfileInquiryResponse::default()),
        OutboundMessage::ProfileAdded(ProfileAdded::default()),
        OutboundMessage::ProfileRemoved(ProfileRemoved::default()),
        OutboundMessage::ProfileDetails(ProfileDetails::default()),
        OutboundMessage::ProfileDetailsResponse(ProfileDetailsResponse::default()),
        OutboundMessage::ProfileOn(ProfileOn::default()),
        OutboundMessage::ProfileOff(ProfileOff::default()),
        OutboundMessage::ProfileEnabledReport(ProfileEnabledReport::default()),
        OutboundMessage::ProfileDisabledReport(ProfileDisabledReport::default()),
        OutboundMessage::ProfileSpecificData(ProfileSpecificData::default()),
        OutboundMessage::PropertyExchangeCapabilities(PropertyExchangeCapabilities::default()),
        OutboundMessage::PropertyExchangeCapabilitiesResponse(PropertyExchangeCapabilitiesResponse::default()),
        OutboundMessage::PropertyGetData(PropertyGetData::default()),
        OutboundMessage::PropertyGetDataResponse(PropertyGetDataResponse::default()),
        OutboundMessage::PropertySetData(PropertySetData::default()),
        OutboundMessage::PropertySetDataResponse(PropertySetDataResponse::default()),
        OutboundMessage::PropertySubscribe(PropertySubscribe::default()),
        OutboundMessage::PropertySubscribeResponse(PropertySubscribeResponse::default()),
        OutboundMessage::PropertyNotify(PropertyNotify::default()),
        OutboundMessage::ProcessInquiry(ProcessInquiry::default()),
        OutboundMessage::ProcessInquiryResponse(ProcessInquiryResponse::default()),
        OutboundMessage::ProcessMidiMessageReport(ProcessMidiMessageReport::default()),
        OutboundMessage::ProcessMidiMessageReportResponse(ProcessMidiMessageReportResponse::default()),
        OutboundMessage::ProcessEndMidiMessageReport(ProcessEndMidiMessageReport),
    ];
    assert_eq!(messages.len(), 32);
    for (i, msg) in messages.iter().enumerate() {
        assert_eq!(msg.category() as usize, i, "category mismatch for {:?}", msg);
        assert_eq!(msg.category_enum() as u8 as usize, i, "category_enum mismatch for {:?}", msg);
    }
}

#[test]
fn message_body_type_labels_are_unique() {
    let bodies = vec![
        MessageBody::Discovery(Discovery::default()),
        MessageBody::DiscoveryReply(DiscoveryReply::default()),
        MessageBody::InvalidateMuid(InvalidateMuid::default()),
        MessageBody::EndpointInquiry(EndpointInquiry::default()),
        MessageBody::EndpointInquiryResponse(EndpointInquiryResponse::default()),
        MessageBody::Ack(Ack::default()),
        MessageBody::Nak(Nak::default()),
        MessageBody::ProfileInquiry(ProfileInquiry),
        MessageBody::ProfileInquiryResponse(ProfileInquiryResponse::default()),
        MessageBody::ProfileAdded(ProfileAdded::default()),
        MessageBody::ProfileRemoved(ProfileRemoved::default()),
        MessageBody::ProfileDetails(ProfileDetails::default()),
        MessageBody::ProfileDetailsResponse(ProfileDetailsResponse::default()),
        MessageBody::ProfileOn(ProfileOn::default()),
        MessageBody::ProfileOff(ProfileOff::default()),
        MessageBody::ProfileEnabledReport(ProfileEnabledReport::default()),
        MessageBody::ProfileDisabledReport(ProfileDisabledReport::default()),
        MessageBody::ProfileSpecificData(ProfileSpecificData::default()),
        MessageBody::PropertyExchangeCapabilities(PropertyExchangeCapabilities::default()),
        MessageBody::PropertyExchangeCapabilitiesResponse(PropertyExchangeCapabilitiesResponse::default()),
        MessageBody::PropertyGetData(PropertyGetData::default()),
        MessageBody::PropertyGetDataResponse(PropertyGetDataResponse::default()),
        MessageBody::PropertySetData(PropertySetData::default()),
        MessageBody::PropertySetDataResponse(PropertySetDataResponse::default()),
        MessageBody::PropertySubscribe(PropertySubscribe::default()),
        MessageBody::PropertySubscribeResponse(PropertySubscribeResponse::default()),
        MessageBody::PropertyNotify(PropertyNotify::default()),
        MessageBody::ProcessInquiry(ProcessInquiry::default()),
        MessageBody::ProcessInquiryResponse(ProcessInquiryResponse::default()),
        MessageBody::ProcessMidiMessageReport(ProcessMidiMessageReport::default()),
        MessageBody::ProcessMidiMessageReportResponse(ProcessMidiMessageReportResponse::default()),
        MessageBody::ProcessEndMidiMessageReport(ProcessEndMidiMessageReport),
    ];
    let mut seen = std::collections::HashSet::new();
    for body in &bodies {
        let name = body.type_label();
        assert!(seen.insert(name), "duplicate name {:?}", name);
    }
    assert_eq!(seen.len(), 32);
}

#[test]
fn discovery_structures_round_trip() {
    let reply = DiscoveryReply {
        device_info: DeviceInfo::example(),
        capabilities: CapabilityFlags::profile_configuration() | CapabilityFlags::property_exchange(),
        maximum_sysex_size: 0x1234_5678,
        output_path_id: 0x42,
        function_block: 0x01,
    };
    let cloned = reply.clone();
    assert_eq!(cloned, reply);
}

#[test]
fn profile_enablement_default_has_zero_channels() {
    let on = ProfileOn::default();
    assert_eq!(on.profile, Profile::default());
    assert_eq!(on.num_channels, 0);
    let off = ProfileOff::default();
    assert_eq!(off.profile, Profile::default());
}

#[test]
fn property_exchange_subscriptions_have_a_command() {
    let sub = PropertySubscribe { command: SubscriptionCommand::Start, inner: DynamicSizePropertyExchange::default() };
    assert_eq!(sub.command, SubscriptionCommand::Start);
}

#[test]
fn parsed_message_display_includes_type_and_muids() {
    let msg = ParsedMessage::new(
        Header {
            device_id: ChannelInGroup::WholeBlock,
            category: 0x07,
            version: 2,
            source: Muid::from_bits_truncate(0x01),
            destination: Muid::broadcast(),
        },
        MessageBody::ProfileInquiry(ProfileInquiry),
    );
    let rendered = msg.to_display_string();
    assert!(rendered.contains("ProfileInquiry"));
    assert!(rendered.contains("broadcast"));
}

#[test]
fn parsed_message_display_exact_text() {
    let msg = ParsedMessage::new(
        Header {
            device_id: ChannelInGroup::WholeBlock,
            category: 0x07,
            version: 2,
            source: Muid::from_bits_truncate(0x0ab),
            destination: Muid::from_bits_truncate(0x0FFF_FE01),
        },
        MessageBody::ProfileInquiry(ProfileInquiry),
    );
    assert_eq!(msg.to_display_string(), "[07] ProfileInquiry from Muid(0x00000ab) to Muid(reserved:0xffffe01)");
}

#[test]
fn outbound_into_body_keeps_category() {
    let out = OutboundMessage::ProfileAdded(ProfileAdded { profile: Profile::new([0x7E, 1, 2, 3, 4]) });
    let cat = out.category();
    let body = out.into_body();
    assert_eq!(body.category_index(), cat);
    assert_eq!(body.type_label(), "ProfileAdded");
}
