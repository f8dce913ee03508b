use std::cell::RefCell;
use std::rc::Rc;

use logic_nih_plug::midi_ci::device::outbound_bytes;
use logic_nih_plug::midi_ci::message::Discovery;
use logic_nih_plug::midi_ci::codec::{decode, encode, UMP_NOOP, UMP_TYPE_MIDI_CI};
use logic_nih_plug::midi_ci::device::{notification_steps, Device, DeviceListener, DeviceMut, DeviceOptions, NotificationStep};
use logic_nih_plug::midi_ci::discovery::PeerDiscovery;
use logic_nih_plug::midi_ci::error::MidiCiError;
use logic_nih_plug::midi_ci::message::{DiscoveryReply, Header, OutboundMessage};
use logic_nih_plug::midi_ci::sink::CollectingSink;
use logic_nih_plug::midi_ci::types::{CapabilityFlags, ChannelAddress, ChannelInGroup, DeviceInfo, Muid};

#[test]
fn send_discovery_emits_bytes() {
    let sink = CollectingSink::new();
    let options = DeviceOptions::new(Muid::from_bits_truncate(0x0102_0304), DeviceInfo::example());
    let muid = options.muid;
    let mut device = Device::new(options, sink);
    device.send_discovery();

    let body = OutboundMessage::DiscoveryReply(DiscoveryReply {
        device_info: DeviceInfo::example(),
        capabilities: CapabilityFlags::profile_configuration(),
        maximum_sysex_size: 1024,
        output_path_id: 0,
        function_block: 0,
    });
    let header = Header::new(Muid::from_bits_truncate(0xAA00_0001), muid, 0x70 + body.category());
    let parsed_body = body.into_body();
    let bytes = encode(&header, &parsed_body, 0);
    device.process_message(&bytes).unwrap();

    assert!(device.discovery_state().get(Muid::from_bits_truncate(0xAA00_0001)).is_some());
}

#[test]
fn process_discovery_reply_updates_state_and_notifies() {
    struct Counter(usize);
    impl DeviceListener for Counter {
        fn device_added(&mut self, _device: DeviceMut<'_>, _info: PeerDiscovery) {
            self.0 += 1;
        }
        fn device_updated(&mut self, _device: DeviceMut<'_>, _info: PeerDiscovery) {
            self.0 += 10;
        }
    }

    let sink = CollectingSink::new();
    let mut device = Device::new(DeviceOptions::new(Muid::from_bits_truncate(0x0102_0304), DeviceInfo::example()), sink);
    let listener = Counter(0);
    device.add_listener(listener);

    let reply_body = OutboundMessage::DiscoveryReply(DiscoveryReply {
        device_info: DeviceInfo::example(),
        capabilities: CapabilityFlags::profile_configuration(),
        maximum_sysex_size: 1024,
        output_path_id: 0,
        function_block: 0,
    });
    let header = Header::new(Muid::from_bits_truncate(0xAA00_0001), device.muid(), reply_body.category());
    let body = reply_body.into_body();
    let bytes = encode(&header, &body, 0);

    device.process_message(&bytes).unwrap();

    assert_eq!(device.listener_count(), 1);
    assert!(device.discovery_state().get(Muid::from_bits_truncate(0xAA00_0001)).is_some());
}

#[test]
fn muid_regen_on_collision_keeps_distinct_values() {
    let muid_a = Muid::random();
    let muid_b = Muid::random();
    assert_ne!(muid_a, muid_b);
}

#[test]
fn options_helpers_combine_capabilities() {
    let opts = DeviceOptions::new(Muid::random(), DeviceInfo::example()).with_profiles().with_property_exchange();
    assert!(opts.profile_configuration_supported);
    assert!(opts.property_exchange_supported);
    assert!(opts.capabilities.contains(CapabilityFlags::profile_configuration()));
    assert!(opts.capabilities.contains(CapabilityFlags::property_exchange()));
}

#[test]
fn invalid_message_returns_err() {
    let mut device = Device::new(DeviceOptions::new(Muid::random(), DeviceInfo::example()), CollectingSink::new());
    let bytes = [0xFFu8; 3];
    assert!(device.process_message(&bytes).is_ok());
}

#[test]
fn process_too_short_returns_err() {
    let mut device = Device::new(DeviceOptions::new(Muid::random(), DeviceInfo::example()), CollectingSink::new());
    let bytes = [UMP_NOOP, 0x00, UMP_TYPE_MIDI_CI, 0x7F, 0x70, 0x02, 0x00, 0x00];
    assert!(matches!(device.process_message(&bytes), Err(MidiCiError::TooShort { .. })));
}

#[test]
fn default_address_for_profile_messages_is_function_block() {
    let address = ChannelAddress::default();
    assert!(address.is_block());
    assert_eq!(address.group(), 0);
    assert!(matches!(address.channel(), ChannelInGroup::WholeBlock));
}

#[test]
fn discovery_reply_twice_keeps_one_peer() {
    let mut device = Device::new(DeviceOptions::new(Muid::from_bits_truncate(0x10), DeviceInfo::example()), CollectingSink::new());
    let reply = OutboundMessage::DiscoveryReply(DiscoveryReply {
        device_info: DeviceInfo::example(),
        capabilities: CapabilityFlags::none(),
        maximum_sysex_size: 512,
        output_path_id: 0,
        function_block: 0,
    });
    let header = Header::new(Muid::from_bits_truncate(0x20), device.muid(), reply.category());
    let bytes = encode(&header, &reply.into_body(), 0);
    device.process_message(&bytes).unwrap();
    device.process_message(&bytes).unwrap();
    assert_eq!(device.discovery_state().len(), 1);
    assert_eq!(device.discovery_state().get(Muid::from_bits_truncate(0x20)).unwrap().maximum_sysex_size, 512);
}

#[test]
fn send_discovery_hands_the_encoded_inquiry_to_the_sink() {
    let seen: Rc<RefCell<Vec<(Muid, Vec<u8>)>>> = Rc::new(RefCell::new(Vec::new()));
    let log = seen.clone();
    let sink = move |m: Muid, bytes: Vec<u8>| log.borrow_mut().push((m, bytes));
    let options = DeviceOptions::new(Muid::from_bits_truncate(0x0102_0304), DeviceInfo::example()).with_profiles();
    let mut device = Device::new(options.clone(), sink);
    device.send_discovery();
    let expected = outbound_bytes(
        &options,
        Muid::broadcast(),
        OutboundMessage::Discovery(Discovery {
            device_info: options.device_info,
            capabilities: options.capabilities,
            maximum_sysex_size: options.maximum_sysex_size,
            output_path_id: 0,
        }),
    );
    let seen = seen.borrow();
    assert_eq!(seen.len(), 1);
    assert_eq!(seen[0].0, Muid::broadcast());
    assert_eq!(seen[0].1, expected);
    assert_eq!(seen[0].1[4], 0x70);
}

#[test]
fn a_new_peer_is_added_and_a_known_one_updated() {
    struct Counter(Rc<RefCell<Vec<&'static str>>>);
    impl DeviceListener for Counter {
        fn device_added(&mut self, _device: DeviceMut<'_>, _info: PeerDiscovery) {
            self.0.borrow_mut().push("added");
        }
        fn device_updated(&mut self, _device: DeviceMut<'_>, _info: PeerDiscovery) {
            self.0.borrow_mut().push("updated");
        }
    }

    let calls = Rc::new(RefCell::new(Vec::new()));
    let sink = CollectingSink::new();
    let mut device = Device::new(DeviceOptions::new(Muid::from_bits_truncate(0x0102_0304), DeviceInfo::example()), sink);
    device.add_listener(Counter(calls.clone()));

    let reply_body = OutboundMessage::DiscoveryReply(DiscoveryReply {
        device_info: DeviceInfo::example(),
        capabilities: CapabilityFlags::profile_configuration(),
        maximum_sysex_size: 1024,
        output_path_id: 0,
        function_block: 0,
    });
    let header = Header::new(Muid::from_bits_truncate(0xAA00_0001), device.muid(), reply_body.category());
    let bytes = encode(&header, &reply_body.into_body(), 0);

    device.process_message(&bytes).unwrap();
    device.process_message(&bytes).unwrap();
    assert_eq!(*calls.borrow(), vec!["added", "updated"]);
}

#[test]
fn a_discovery_reply_gives_two_listener_calls() {
    let reply_body = OutboundMessage::DiscoveryReply(DiscoveryReply {
        device_info: DeviceInfo::example(),
        capabilities: CapabilityFlags::profile_configuration(),
        maximum_sysex_size: 1024,
        output_path_id: 0,
        function_block: 0,
    });
    let header = Header::new(Muid::from_bits_truncate(0xAA00_0001), Muid::from_bits_truncate(0x0102_0304), reply_body.category());
    let bytes = encode(&header, &reply_body.into_body(), 0);
    let parsed = decode(&bytes).unwrap().unwrap();

    let fresh = notification_steps(&parsed, false);
    assert_eq!(fresh.len(), 2);
    assert!(matches!(fresh[0], NotificationStep::MessageReceived(_)));
    assert!(matches!(fresh[1], NotificationStep::DeviceAdded(p) if p.muid == Muid::from_bits_truncate(0xAA00_0001)));

    let known = notification_steps(&parsed, true);
    assert_eq!(known.len(), 2);
    assert!(matches!(known[1], NotificationStep::DeviceUpdated(_)));
}
