use logic_nih_plug::midi_ci::types::{
    CapabilityFlags, Category, ChannelAddress, ChannelInGroup, Encoding, Muid, Profile, ProtocolVersion,
    RequestId, SubscriptionCommand,
};

#[test]
fn muid_validates_range() {
    assert!(Muid::new(0).is_ok());
    assert!(Muid::new(Muid::MASK).is_ok());
    assert!(Muid::new(0x10000000).is_err());
}

#[test]
fn muid_broadcast_and_reserved() {
    assert!(Muid::broadcast().is_broadcast());
    assert!(!Muid::broadcast().is_reserved());
    assert!(Muid::new(Muid::RESERVED_START).unwrap().is_reserved());
}

#[test]
fn muid_random_is_unique_across_two_draws() {
    let a = Muid::random();
    let b = Muid::random();
    assert!(a != b, "two random MUIDs should not collide");
    assert!(!a.is_reserved() && !a.is_broadcast());
    assert!(!b.is_reserved() && !b.is_broadcast());
}

#[test]
fn channel_in_group_round_trip() {
    for byte in 0u8..=15 {
        let c = ChannelInGroup::from_byte(byte).unwrap();
        assert_eq!(c.to_byte(), byte);
        assert!(c.is_single_channel());
        assert_eq!(c.single_channel(), Some(byte));
    }
    assert!(ChannelInGroup::from_byte(0x10).is_none());
    assert_eq!(ChannelInGroup::from_byte(0x7E), Some(ChannelInGroup::WholeGroup));
    assert_eq!(ChannelInGroup::from_byte(0x7F), Some(ChannelInGroup::WholeBlock));
    assert!(ChannelInGroup::WholeGroup.is_group());
    assert!(ChannelInGroup::WholeBlock.is_block());
    assert!(!ChannelInGroup::WholeGroup.is_block());
    assert!(!ChannelInGroup::Channel5.is_group());
}

#[test]
fn channel_address_validates_group_range() {
    assert!(ChannelAddress::new(0, ChannelInGroup::WholeGroup).is_some());
    assert!(ChannelAddress::new(15, ChannelInGroup::ChannelF).is_some());
    assert!(ChannelAddress::new(16, ChannelInGroup::Channel0).is_none());
}

#[test]
fn profile_is_standard_defined() {
    let std_profile = Profile::new([0x7E, 0x01, 0x02, 0x03, 0x04]);
    let vend_profile = Profile::new([0x7D, 0x01, 0x02, 0x03, 0x04]);
    assert!(std_profile.is_standard_defined());
    assert!(!vend_profile.is_standard_defined());
}

#[test]
fn capability_flags_combine() {
    let combined = CapabilityFlags::profile_configuration() | CapabilityFlags::property_exchange();
    assert!(combined.contains(CapabilityFlags::profile_configuration()));
    assert!(combined.contains(CapabilityFlags::property_exchange()));
    assert!(!combined.contains(CapabilityFlags::protocol_negotiation()));
}

#[test]
fn category_status_byte_round_trip() {
    let cases = [
        (Category::Discovery, 0x70),
        (Category::DiscoveryReply, 0x71),
        (Category::InvalidateMuid, 0x72),
        (Category::ProfileInquiry, 0x77),
        (Category::PropertyExchangeCapabilities, 0x82),
        (Category::Ack, 0x75),
        (Category::Nak, 0x76),
        (Category::ProcessEndMidiMessageReport, 0x8F),
    ];
    for (cat, byte) in cases {
        assert_eq!(cat.to_status_byte(), byte, "to_byte for {:?}", cat);
        assert_eq!(Category::from_status_byte(byte), Some(cat), "from_status_byte for {:#x}", byte);
    }
    assert_eq!(Category::from_status_byte(0x6F), None);
    assert_eq!(Category::from_status_byte(0x90), None);
}

#[test]
fn encoding_default_is_ascii() {
    assert_eq!(Encoding::from_byte(0), Encoding::Ascii);
    assert_eq!(Encoding::from_byte(99), Encoding::Ascii);
    assert_eq!(Encoding::from_byte(1), Encoding::Mcoded7);
    assert_eq!(Encoding::from_byte(2), Encoding::ZlibAndMcoded7);
}

#[test]
fn subscription_command_round_trip() {
    for byte in 0u8..=4 {
        let cmd = SubscriptionCommand::from_byte(byte).unwrap();
        assert_eq!(cmd.to_byte(), byte);
    }
    assert_eq!(SubscriptionCommand::from_byte(5), None);
}

#[test]
fn protocol_version_round_trip() {
    assert_eq!(ProtocolVersion::V1.to_byte(), 1);
    assert_eq!(ProtocolVersion::V2.to_byte(), 2);
    assert_eq!(ProtocolVersion::from_byte(1), Some(ProtocolVersion::V1));
    assert_eq!(ProtocolVersion::from_byte(2), Some(ProtocolVersion::V2));
    assert_eq!(ProtocolVersion::from_byte(3), None);
}

#[test]
fn request_id_validates_seven_bits() {
    assert_eq!(RequestId::new(0).unwrap().get(), 0);
    assert_eq!(RequestId::new(0x7F).unwrap().get(), 0x7F);
    assert!(RequestId::new(0x80).is_none());
}

#[test]
fn muid_from_bits_truncate_keeps_28_bits() {
    assert_eq!(Muid::from_bits_truncate(0xFFFF_FFFF).get(), 0x0FFF_FFFF);
    assert_eq!(Muid::from_bits_truncate(0x1234_5678).get(), 0x0234_5678);
}

#[test]
fn capability_flags_with_and_without() {
    let f = CapabilityFlags::none().with(CapabilityFlags::process_inquiry());
    assert!(f.contains(CapabilityFlags::process_inquiry()));
    let g = f.without(CapabilityFlags::process_inquiry());
    assert!(!g.contains(CapabilityFlags::process_inquiry()));
    assert_eq!(CapabilityFlags::from_bits_truncate(0xFF).bits(), 0xFF);
}

#[test]
fn channel_in_group_display_text() {
    assert_eq!(ChannelInGroup::Channel0.to_display_string(), "Channel1");
    assert_eq!(ChannelInGroup::Channel8.to_display_string(), "Channel9");
    assert_eq!(ChannelInGroup::Channel9.to_display_string(), "Channel10");
    assert_eq!(ChannelInGroup::ChannelF.to_display_string(), "Channel16");
    assert_eq!(ChannelInGroup::WholeGroup.to_display_string(), "Group");
    assert_eq!(ChannelInGroup::WholeBlock.to_display_string(), "FunctionBlock");
}

#[test]
fn muid_display_text() {
    assert_eq!(Muid::broadcast().to_display_string(), "Muid(broadcast)");
    assert_eq!(Muid::from_bits_truncate(0x1a2).to_display_string(), "Muid(0x00001a2)");
    assert_eq!(Muid::from_bits_truncate(0x0FFF_FE00).to_display_string(), "Muid(reserved:0xffffe00)");
}
