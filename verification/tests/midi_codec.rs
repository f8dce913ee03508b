use logic_nih_plug::midi_ci::codec::{decode, encode, ReadCursor, WriteSink, UMP_NOOP, UMP_TYPE_MIDI_CI};
use logic_nih_plug::midi_ci::error::MidiCiError;
use logic_nih_plug::midi_ci::message::{
    Discovery, Header, MessageBody, ProfileAdded, ProfileInquiry, ProfileInquiryResponse, PropertyGetData,
    StaticSizePropertyExchange,
};
use logic_nih_plug::midi_ci::types::{
    CapabilityFlags, ChannelInGroup, DeviceInfo, Muid, Profile, ProtocolVersion, RequestId,
};

fn header_for(category: u8, src: Muid, dst: Muid) -> Header {
    Header {
        device_id: ChannelInGroup::WholeBlock,
        category,
        version: ProtocolVersion::IMPLEMENTATION.to_byte(),
        source: src,
        destination: dst,
    }
}

#[test]
fn muid_packing_round_trip() {
    let mut sink = WriteSink::new();
    sink.write_muid(Muid::from_bits_truncate(0x0102_0304));
    let bytes = sink.into_bytes();
    assert_eq!(bytes, vec![0x04, 0x06, 0x08, 0x08]);
    let mut cursor = ReadCursor::new(&bytes);
    assert_eq!(cursor.read_muid().unwrap().get(), 0x0102_0304);
}

#[test]
fn u16_packing_round_trip() {
    let mut sink = WriteSink::new();
    sink.write_u16(0x1234);
    let bytes = sink.into_bytes();
    assert_eq!(bytes, vec![0x34, 0x24]);
    let mut cursor = ReadCursor::new(&bytes);
    assert_eq!(cursor.read_u16().unwrap(), 0x1234);
}

#[test]
fn u32_packing_round_trip() {
    let mut sink = WriteSink::new();
    sink.write_u32(0x0345_6789);
    let bytes = sink.into_bytes();
    assert_eq!(bytes, vec![0x09, 0x4F, 0x15, 0x1A]);
    let mut cursor = ReadCursor::new(&bytes);
    assert_eq!(cursor.read_u32().unwrap(), 0x0345_6789);
}

#[test]
fn profile_round_trip() {
    let mut sink = WriteSink::new();
    let p = Profile::new([0x7E, 0x01, 0x02, 0x03, 0x04]);
    sink.write_profile(&p);
    let bytes = sink.into_bytes();
    let mut cursor = ReadCursor::new(&bytes);
    assert_eq!(cursor.read_profile().unwrap(), p);
}

#[test]
fn discovery_round_trips_v2() {
    let original = Discovery {
        device_info: DeviceInfo::example(),
        capabilities: CapabilityFlags::profile_configuration() | CapabilityFlags::property_exchange(),
        maximum_sysex_size: 0x0012_3456,
        output_path_id: 0x05,
    };
    let body = MessageBody::Discovery(original.clone());
    let header = header_for(body.category_byte(), Muid::from_bits_truncate(0x0102_0304), Muid::broadcast());
    let encoded = encode(&header, &body, 0);
    let decoded = decode(&encoded).unwrap().unwrap();
    assert_eq!(decoded.header.source, header.source);
    assert_eq!(decoded.header.destination, header.destination);
    assert_eq!(decoded.header.version, header.version);
    if let MessageBody::Discovery(dec) = decoded.body {
        assert_eq!(dec.capabilities, original.capabilities);
        assert_eq!(dec.maximum_sysex_size, original.maximum_sysex_size);
        assert_eq!(dec.output_path_id, original.output_path_id);
        assert_eq!(dec.device_info, original.device_info);
    } else {
        panic!("expected Discovery body");
    }
}

#[test]
fn invalid_framing_returns_none() {
    let bytes = [0u8; 11];
    assert!(decode(&bytes).unwrap().is_none());
    let bytes = [0x00, 0x00, 0x00, 0x70, 0x02, 0, 0, 0, 0, 0, 0];
    assert!(decode(&bytes).unwrap().is_none());
}

#[test]
fn truncated_body_returns_too_short() {
    let bytes = [UMP_NOOP, 0x00, UMP_TYPE_MIDI_CI, 0x7F, 0x70, 0x02, 0x00, 0x00];
    let err = decode(&bytes).unwrap_err();
    assert!(matches!(err, MidiCiError::TooShort { .. }));
}

#[test]
fn profile_inquiry_round_trip() {
    let body = MessageBody::ProfileInquiry(ProfileInquiry);
    let header = header_for(body.category_byte(), Muid::random(), Muid::broadcast());
    let encoded = encode(&header, &body, 0);
    let decoded = decode(&encoded).unwrap().unwrap();
    assert!(matches!(decoded.body, MessageBody::ProfileInquiry(_)));
}

#[test]
fn profile_inquiry_response_round_trip() {
    let body = MessageBody::ProfileInquiryResponse(ProfileInquiryResponse {
        enabled_profiles: vec![
            Profile::new([0x7E, 0x01, 0x02, 0x03, 0x04]),
            Profile::new([0x7E, 0x05, 0x06, 0x07, 0x08]),
        ],
        disabled_profiles: vec![Profile::new([0x7E, 0x09, 0x0A, 0x0B, 0x0C])],
    });
    let header = header_for(body.category_byte(), Muid::random(), Muid::broadcast());
    let encoded = encode(&header, &body, 0);
    let decoded = decode(&encoded).unwrap().unwrap();
    if let MessageBody::ProfileInquiryResponse(r) = decoded.body {
        assert_eq!(r.enabled_profiles.len(), 2);
        assert_eq!(r.disabled_profiles.len(), 1);
    } else {
        panic!("expected ProfileInquiryResponse");
    }
}

#[test]
fn property_get_data_round_trip() {
    let body = MessageBody::PropertyGetData(PropertyGetData {
        inner: StaticSizePropertyExchange { request_id: RequestId::new(0x42).unwrap(), header: b"ResourceList".to_vec() },
    });
    let header = header_for(body.category_byte(), Muid::random(), Muid::broadcast());
    let encoded = encode(&header, &body, 0);
    let decoded = decode(&encoded).unwrap().unwrap();
    if let MessageBody::PropertyGetData(d) = decoded.body {
        assert_eq!(d.inner.request_id.get(), 0x42);
        assert_eq!(d.inner.header, b"ResourceList");
    } else {
        panic!("expected PropertyGetData");
    }
}

#[test]
fn encode_then_decode_loop_for_sample_categories() {
    let samples: Vec<(MessageBody, &str)> = vec![
        (MessageBody::Discovery(Discovery::default()), "Discovery"),
        (MessageBody::ProfileInquiry(ProfileInquiry), "ProfileInquiry"),
        (MessageBody::ProfileInquiryResponse(ProfileInquiryResponse::default()), "ProfileInquiryResponse"),
        (
            MessageBody::ProfileAdded(ProfileAdded { profile: Profile::new([0x7E, 0x01, 0x02, 0x03, 0x04]) }),
            "ProfileAdded",
        ),
        (
            MessageBody::PropertyGetData(PropertyGetData {
                inner: StaticSizePropertyExchange { request_id: RequestId::new(1).unwrap(), header: b"abc".to_vec() },
            }),
            "PropertyGetData",
        ),
    ];
    for (body, label) in samples {
        let header = header_for(body.category_byte(), Muid::random(), Muid::broadcast());
        let encoded = encode(&header, &body, 0);
        let decoded = decode(&encoded).unwrap().unwrap_or_else(|| panic!("decoded None for {}", label));
        assert_eq!(decoded.body.type_label(), label);
    }
}

#[test]
fn encoded_message_is_framed_as_midi_ci() {
    let body = MessageBody::ProfileInquiry(ProfileInquiry);
    let header = header_for(body.category_byte(), Muid::from_bits_truncate(5), Muid::broadcast());
    let encoded = encode(&header, &body, 3);
    assert_eq!(encoded[0], UMP_NOOP);
    assert_eq!(encoded[1], 3);
    assert_eq!(encoded[2], UMP_TYPE_MIDI_CI);
    assert_eq!(encoded[3], 0x7F);
    assert_eq!(encoded[4], 0x70 + 7);
}

#[test]
fn u16_high_bits_are_dropped() {
    let mut sink = WriteSink::new();
    sink.write_u16(0xC001);
    let bytes = sink.into_bytes();
    let mut cursor = ReadCursor::new(&bytes);
    assert_eq!(cursor.read_u16().unwrap(), 0x0001);
}
