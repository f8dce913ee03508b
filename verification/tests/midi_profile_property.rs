use logic_nih_plug::midi_ci::profile::{
    default_address, disabled_profiles, enabled_profiles, ChannelProfileState, ProfileEnablement, ProfileHostState,
};
use logic_nih_plug::midi_ci::property::{PendingRequest, PendingSubscription, PropertyLedger};
use logic_nih_plug::midi_ci::types::{ChannelAddress, ChannelInGroup, Muid, Profile, RequestId};

fn entry(profile: Profile, enabled: bool) -> ChannelProfileState {
    ChannelProfileState {
        profile,
        address: ChannelAddress::default(),
        enablement: if enabled { ProfileEnablement::Enabled { num_channels: 1 } } else { ProfileEnablement::Disabled },
    }
}

#[test]
fn insert_and_get() {
    let mut state = ProfileHostState::new();
    let p = Profile::new([0x7E, 0x01, 0x02, 0x03, 0x04]);
    state.insert(entry(p, true));
    assert_eq!(state.get(Muid::from_bits_truncate(0), ChannelAddress::default(), p), Some(&entry(p, true)));
}

#[test]
fn enabled_disabled_partition() {
    let mut state = ProfileHostState::new();
    let p1 = Profile::new([0x7E, 0x01, 0x02, 0x03, 0x04]);
    let p2 = Profile::new([0x7E, 0x05, 0x06, 0x07, 0x08]);
    state.insert(entry(p1, true));
    state.insert(entry(p2, false));
    let muid = Muid::from_bits_truncate(0);
    let enabled = enabled_profiles(&state, muid, ChannelAddress::default());
    let disabled = disabled_profiles(&state, muid, ChannelAddress::default());
    assert_eq!(enabled, vec![p1]);
    assert_eq!(disabled, vec![p2]);
}

#[test]
fn default_address_helper_handles_invalid_groups() {
    let a = default_address(ChannelInGroup::WholeGroup);
    assert_eq!(a.group(), 0);
    assert!(a.is_group());
}

#[test]
fn get_for_a_remote_muid_finds_nothing() {
    let mut state = ProfileHostState::new();
    let p = Profile::new([0x7E, 0x01, 0x02, 0x03, 0x04]);
    state.insert(entry(p, true));
    assert!(state.get(Muid::from_bits_truncate(5), ChannelAddress::default(), p).is_none());
    assert!(enabled_profiles(&state, Muid::from_bits_truncate(5), ChannelAddress::default()).is_empty());
}

#[test]
fn request_lifecycle() {
    let mut ledger = PropertyLedger::new();
    let key = ledger.begin_request(PendingRequest {
        request_id: RequestId::new(1).unwrap(),
        muid: Muid::from_bits_truncate(0x0102_0304),
    });
    assert!(ledger.request(key).is_some());
    assert_eq!(ledger.ongoing_requests(), vec![key]);
    assert!(ledger.end_request(key).is_some());
    assert!(ledger.is_empty());
}

#[test]
fn subscription_lifecycle() {
    let mut ledger = PropertyLedger::new();
    let key = ledger.begin_subscription(PendingSubscription {
        subscribe_id: None,
        muid: Muid::from_bits_truncate(0x0102_0304),
        resource: Some("ResourceList".to_string()),
    });
    ledger.set_subscription_id(key, 42);
    assert_eq!(ledger.subscription(key).and_then(|s| s.subscribe_id), Some(42));
    assert!(ledger.end_subscription(key).is_some());
}

#[test]
fn keys_are_unique() {
    let mut ledger = PropertyLedger::new();
    let k1 = ledger.begin_request(PendingRequest { request_id: RequestId::new(1).unwrap(), muid: Muid::from_bits_truncate(1) });
    let k2 = ledger.begin_request(PendingRequest { request_id: RequestId::new(2).unwrap(), muid: Muid::from_bits_truncate(2) });
    assert_ne!(k1, k2);
}

#[test]
fn ended_request_is_gone() {
    let mut ledger = PropertyLedger::new();
    let k = ledger.begin_request(PendingRequest { request_id: RequestId::new(3).unwrap(), muid: Muid::from_bits_truncate(3) });
    assert_eq!(k.0, 1);
    ledger.end_request(k);
    assert!(ledger.request(k).is_none());
    assert!(ledger.end_request(k).is_none());
}
