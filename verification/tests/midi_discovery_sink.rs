use logic_nih_plug::midi_ci::discovery::{DiscoveryState, PeerDiscovery};
use logic_nih_plug::midi_ci::sink::{CollectingSink, MessageSink};
use logic_nih_plug::midi_ci::types::{DeviceInfo, Muid};

#[test]
fn insert_and_lookup() {
    let mut state = DiscoveryState::new();
    let peer = PeerDiscovery {
        muid: Muid::from_bits_truncate(0x0102_0304),
        device_info: DeviceInfo::example(),
        maximum_sysex_size: 1024,
        output_path_id: 0,
    };
    state.insert(peer);
    assert_eq!(state.get(peer.muid), Some(&peer));
    assert_eq!(state.discovered_muids(), vec![peer.muid]);
}

#[test]
fn remove_clears_entry() {
    let mut state = DiscoveryState::new();
    let peer = PeerDiscovery {
        muid: Muid::from_bits_truncate(0x0102_0304),
        device_info: DeviceInfo::example(),
        maximum_sysex_size: 1024,
        output_path_id: 0,
    };
    state.insert(peer);
    assert_eq!(state.remove(peer.muid), Some(peer));
    assert!(state.is_empty());
}

#[test]
fn insert_same_muid_replaces() {
    let mut state = DiscoveryState::new();
    let mut peer = PeerDiscovery {
        muid: Muid::from_bits_truncate(7),
        device_info: DeviceInfo::example(),
        maximum_sysex_size: 1024,
        output_path_id: 0,
    };
    state.insert(peer);
    peer.maximum_sysex_size = 2048;
    state.insert(peer);
    assert_eq!(state.len(), 1);
    assert_eq!(state.get(peer.muid).unwrap().maximum_sysex_size, 2048);
    assert!(state.get(Muid::from_bits_truncate(8)).is_none());
}

#[test]
fn collecting_sink_stores_messages() {
    let mut sink = CollectingSink::new();
    let muid = Muid::from_bits_truncate(0x0102_0304);
    sink.send(muid, vec![0x01, 0x02, 0x03]);
    sink.send(muid, vec![0x04, 0x05]);
    assert_eq!(sink.messages().len(), 2);
    let collected = sink.into_messages();
    assert_eq!(collected[0].1, vec![0x01, 0x02, 0x03]);
    assert_eq!(collected[1].1, vec![0x04, 0x05]);
}

#[test]
fn closure_works_as_sink() {
    let mut collected: Vec<u8> = Vec::new();
    let mut closure = |_muid: Muid, bytes: Vec<u8>| collected.extend_from_slice(&bytes);
    closure.send(Muid::from_bits_truncate(0x0102_0304), vec![1, 2, 3]);
    closure.send(Muid::from_bits_truncate(0x0102_0304), vec![4, 5]);
    assert_eq!(collected, vec![1, 2, 3, 4, 5]);
}
