//! Profile declarations of the local device.
//!
//! Entries are keyed by (peer, address, profile); the peer part of every key
//! is the local MUID value 0, so lookups for any other MUID find nothing.
use vstd::prelude::*;
use crate::keyed::{sorted_keys, KeyedList};
use crate::midi_ci::types::{ChannelAddress, ChannelInGroup, Muid, Profile};

verus! {

/// Whether a profile is enabled or only declared.
#[derive(Copy, Clone, PartialEq, Eq, Structural, Hash, Debug)]
pub enum ProfileEnablement {
    /// Declared but disabled.
    Disabled,
    /// Enabled on a number of channels.
    Enabled {
        /// How many channels.
        num_channels: u16,
    },
}

/// One profile declaration.
#[derive(Copy, Clone, PartialEq, Eq, Hash, Debug)]
pub struct ChannelProfileState {
    /// The profile.
    pub profile: Profile,
    /// Where it is declared.
    pub address: ChannelAddress,
    /// Whether it is enabled.
    pub enablement: ProfileEnablement,
}

/// The 16-bit key of an address: group byte, then channel byte.
pub open spec fn spec_address_key(a: ChannelAddress) -> u64 {
    ((a.spec_group() as u64) << 8u64) | (a.spec_channel().spec_byte() as u64)
}

/// The key of a declaration: address key above the five profile bytes.
pub open spec fn spec_profile_key(a: ChannelAddress, p: Profile) -> u64 {
    (spec_address_key(a) << 40u64) | ((p.0[0] as u64) << 32u64) | ((p.0[1] as u64) << 24u64)
        | ((p.0[2] as u64) << 16u64) | ((p.0[3] as u64) << 8u64) | (p.0[4] as u64)
}

fn address_key(a: ChannelAddress) -> (k: u64)
    ensures k == spec_address_key(a), k < 0x1_0000,
{
    let g = a.group() as u64;
    let c = a.channel().to_byte() as u64;
    assert((g << 8u64) | c < 0x1_0000) by (bit_vector) requires g < 256, c < 256;
    (g << 8) | c
}

fn profile_key(a: ChannelAddress, p: Profile) -> (k: u64)
    ensures k == spec_profile_key(a, p),
{
    let ak = address_key(a);
    let b = p.as_bytes();
    (ak << 40) | ((b[0] as u64) << 32) | ((b[1] as u64) << 24) | ((b[2] as u64) << 16)
        | ((b[3] as u64) << 8) | (b[4] as u64)
}

/// Different addresses have different keys.
pub proof fn lemma_address_key_injective(a: ChannelAddress, b: ChannelAddress)
    ensures (spec_address_key(a) == spec_address_key(b)) == (a == b),
{
    let (g1, c1, g2, c2) = (a.spec_group(), a.spec_channel().spec_byte(), b.spec_group(), b.spec_channel().spec_byte());
    assert((((g1 as u64) << 8u64) | (c1 as u64)) == (((g2 as u64) << 8u64) | (c2 as u64)) ==> g1 == g2 && c1 == c2) by (bit_vector);
    crate::midi_ci::codec::lemma_channel_byte_injective(a.spec_channel(), b.spec_channel());
    ChannelAddress::lemma_eq(a, b);
}

/// Different (address, profile) pairs have different keys.
pub proof fn lemma_profile_key_injective(a: ChannelAddress, p: Profile, b: ChannelAddress, q: Profile)
    ensures (spec_profile_key(a, p) == spec_profile_key(b, q)) == (a == b && p == q),
{
    let ka = spec_address_key(a);
    let kb = spec_address_key(b);
    assert(ka < 0x1_0000 && kb < 0x1_0000) by {
        let (g1, c1, g2, c2) = (a.spec_group(), a.spec_channel().spec_byte(), b.spec_group(), b.spec_channel().spec_byte());
        assert((((g1 as u64) << 8u64) | (c1 as u64)) < 0x1_0000) by (bit_vector);
        assert((((g2 as u64) << 8u64) | (c2 as u64)) < 0x1_0000) by (bit_vector);
    }
    let (p0, p1, p2, p3, p4) = (p.0[0], p.0[1], p.0[2], p.0[3], p.0[4]);
    let (q0, q1, q2, q3, q4) = (q.0[0], q.0[1], q.0[2], q.0[3], q.0[4]);
    assert(
        ((ka << 40u64) | ((p0 as u64) << 32u64) | ((p1 as u64) << 24u64) | ((p2 as u64) << 16u64)
            | ((p3 as u64) << 8u64) | (p4 as u64))
        == ((kb << 40u64) | ((q0 as u64) << 32u64) | ((q1 as u64) << 24u64) | ((q2 as u64) << 16u64)
            | ((q3 as u64) << 8u64) | (q4 as u64))
        ==> ka == kb && p0 == q0 && p1 == q1 && p2 == q2 && p3 == q3 && p4 == q4
    ) by (bit_vector)
        requires ka < 0x1_0000, kb < 0x1_0000;
    lemma_address_key_injective(a, b);
    if ka == kb && p0 == q0 && p1 == q1 && p2 == q2 && p3 == q3 && p4 == q4 {
        assert(p.0@ =~= q.0@);
        assert(p.0 == q.0);
    }
}

/// The local device's profile declarations.
#[derive(Debug)]
pub struct ProfileHostState {
    entries: KeyedList<ChannelProfileState>,
}

impl View for ProfileHostState {
    type V = Map<u64, ChannelProfileState>;

    /// The declarations, keyed by `spec_profile_key` of address and profile.
    closed spec fn view(&self) -> Map<u64, ChannelProfileState> {
        self.entries@
    }
}

/// Whether some declaration is at an address.
pub open spec fn spec_declares_address(m: Map<u64, ChannelProfileState>, a: ChannelAddress) -> bool {
    exists|k: u64| #[trigger] m.contains_key(k) && m[k].address == a
}

/// Whether a list of (peer, address) pairs holds an address.
pub open spec fn spec_lists_address(r: Seq<(Muid, ChannelAddress)>, a: ChannelAddress) -> bool {
    exists|i: int| 0 <= i < r.len() && #[trigger] r[i].1 == a
}

/// The declarations at an address whose enablement is (or is not) enabled,
/// in order.
pub open spec fn spec_select(es: Seq<ChannelProfileState>, address: ChannelAddress, enabled: bool) -> Seq<Profile>
    decreases es.len(),
{
    if es.len() == 0 {
        Seq::empty()
    } else {
        let e = es.last();
        let rest = spec_select(es.drop_last(), address, enabled);
        if e.address == address && (e.enablement is Enabled) == enabled {
            rest.push(e.profile)
        } else {
            rest
        }
    }
}

/// The declarations at an address, in order.
pub open spec fn spec_at_address(es: Seq<ChannelProfileState>, address: ChannelAddress) -> Seq<ChannelProfileState>
    decreases es.len(),
{
    if es.len() == 0 {
        Seq::empty()
    } else {
        let rest = spec_at_address(es.drop_last(), address);
        if es.last().address == address {
            rest.push(es.last())
        } else {
            rest
        }
    }
}

impl ProfileHostState {
    #[verifier::type_invariant]
    spec fn keyed_by_declaration(self) -> bool {
        forall|k: u64| #[trigger] self.entries@.contains_key(k)
            ==> k == spec_profile_key(self.entries@[k].address, self.entries@[k].profile)
    }

    /// The declarations in the order first made.
    pub closed spec fn declarations(self) -> Seq<ChannelProfileState> {
        self.entries.value_order()
    }

    /// An empty state.
    pub fn new() -> (s: ProfileHostState)
        ensures
            s@ == Map::<u64, ChannelProfileState>::empty(),
            s.declarations() == Seq::<ChannelProfileState>::empty(),
    {
        let s = ProfileHostState { entries: KeyedList::new() };
        assert(s.declarations() =~= Seq::<ChannelProfileState>::empty());
        s
    }

    /// Record or replace the declaration of a profile at an address.
    pub fn insert(&mut self, entry: ChannelProfileState)
        ensures final(self)@ == old(self)@.insert(spec_profile_key(entry.address, entry.profile), entry),
    {
        proof { use_type_invariant(&*self); }
        let key = profile_key(entry.address, entry.profile);
        let mut entries = KeyedList::new();
        std::mem::swap(&mut entries, &mut self.entries);
        entries.insert(key, entry);
        self.entries = entries;
    }

    /// The declaration of a profile at an address for a peer; only the local
    /// MUID value 0 has declarations.
    pub fn get(&self, muid: Muid, address: ChannelAddress, profile: Profile) -> (r: Option<&ChannelProfileState>)
        ensures
            r is None <==> !(muid.value() == 0 && self@.contains_key(spec_profile_key(address, profile))),
            r matches Some(e) ==> *e == self@[spec_profile_key(address, profile)],
    {
        if muid.get() != 0 {
            return None;
        }
        self.entries.get(profile_key(address, profile))
    }

    /// Every declaration, in the order first made.
    pub fn iter(&self) -> (r: Vec<ChannelProfileState>)
        ensures
            r@ == self.declarations(),
            r@.len() == self@.dom().len(),
            forall|i: int| 0 <= i < r@.len() ==> #[trigger] self@.contains_key(
                spec_profile_key(r@[i].address, r@[i].profile),
            ) && self@[spec_profile_key(r@[i].address, r@[i].profile)] == r@[i],
            forall|k: u64| #[trigger] self@.contains_key(k) ==> exists|i: int|
                0 <= i < r@.len() && spec_profile_key(r@[i].address, r@[i].profile) == k,
    {
        proof { use_type_invariant(self); }
        let n = self.entries.len();
        let ks = self.entries.keys();
        let mut out: Vec<ChannelProfileState> = Vec::new();
        let mut i: usize = 0;
        while i < n
            invariant
                n == self.entries.key_order().len(),
                n == self@.dom().len(),
                ks@ == self.entries.key_order(),
                ks@.to_set() == self@.dom(),
                forall|k: u64| #[trigger] self.entries@.contains_key(k)
                    ==> k == spec_profile_key(self.entries@[k].address, self.entries@[k].profile),
                n == self.entries.value_order().len(),
                i <= n,
                out@ == self.entries.value_order().take(i as int),
                forall|j: int| 0 <= j < i ==> self@.contains_key(#[trigger] ks@[j])
                    && self@[ks@[j]] == out@[j]
                    && ks@[j] == spec_profile_key(out@[j].address, out@[j].profile),
            decreases n - i,
        {
            let (k, e) = self.entries.entry_at(i);
            proof { assert(ks@.to_set().contains(ks@[i as int])); }
            out.push(*e);
            assert(out@ =~= self.entries.value_order().take(i as int + 1));
            i = i + 1;
        }
        proof {
            assert(self.entries.value_order().len() == n) by {
                assert(self.entries.value_order().len() == self.entries.key_order().len());
            }
            assert(out@ =~= self.entries.value_order());
            assert forall|i: int| 0 <= i < out@.len() implies #[trigger] self@.contains_key(
                spec_profile_key(out@[i].address, out@[i].profile),
            ) && self@[spec_profile_key(out@[i].address, out@[i].profile)] == out@[i] by {
                assert(self@.contains_key(ks@[i]));
            }
            assert forall|k: u64| #[trigger] self@.contains_key(k) implies exists|i: int|
                0 <= i < out@.len() && spec_profile_key(out@[i].address, out@[i].profile) == k by {
                assert(ks@.to_set().contains(k));
                let j = choose|j: int| 0 <= j < ks@.len() && ks@[j] == k;
                assert(self@.contains_key(ks@[j]));
                assert(spec_profile_key(out@[j].address, out@[j].profile) == k);
            }
        }
        out
    }

    /// Every (peer, address) that has declarations, each once, ordered by
    /// group and then channel byte. The peer is always the local MUID value 0.
    pub fn known_addresses(&self) -> (r: Vec<(Muid, ChannelAddress)>)
        ensures
            forall|i: int| 0 <= i < r@.len() ==> (#[trigger] r@[i]).0.value() == 0,
            forall|i: int, j: int| 0 <= i < j < r@.len()
                ==> spec_address_key(r@[i].1) < spec_address_key(r@[j].1),
            forall|a: ChannelAddress| #[trigger] spec_lists_address(r@, a) == spec_declares_address(self@, a),
    {
        let all = self.iter();
        let mut known: KeyedList<ChannelAddress> = KeyedList::new();
        let mut i: usize = 0;
        while i < all.len()
            invariant
                i <= all@.len(),
                forall|k: u64| #[trigger] known@.contains_key(k) ==> k == spec_address_key(known@[k]) && k < 0x1_0000,
                forall|a: ChannelAddress| known@.contains_key(spec_address_key(a))
                    <==> (exists|j: int| 0 <= j < i && #[trigger] all@[j].address == a),
            decreases all@.len() - i,
        {
            let a = all[i].address;
            let k = address_key(a);
            known.insert(k, a);
            proof {
                assert forall|b: ChannelAddress| known@.contains_key(spec_address_key(b))
                    <==> (exists|j: int| 0 <= j < i + 1 && #[trigger] all@[j].address == b) by {
                    lemma_address_key_injective(a, b);
                    if b == a {
                        assert(all@[i as int].address == b);
                    }
                }
            }
            i = i + 1;
        }
        proof {
            assert forall|a: ChannelAddress| #[trigger] known@.contains_key(spec_address_key(a))
                == spec_declares_address(self@, a) by {
                if known@.contains_key(spec_address_key(a)) {
                    assert(exists|j: int| 0 <= j < i && #[trigger] all@[j].address == a);
                    let jj = choose|jj: int| 0 <= jj < i && #[trigger] all@[jj].address == a;
                    assert(0 <= jj < all@.len());
                    assert(self@.contains_key(spec_profile_key(all@[jj].address, all@[jj].profile)));
                    assert(spec_declares_address(self@, a));
                }
                if spec_declares_address(self@, a) {
                    let k = choose|k: u64| #[trigger] self@.contains_key(k) && self@[k].address == a;
                    let jj = choose|jj: int| 0 <= jj < all@.len() && spec_profile_key(all@[jj].address, all@[jj].profile) == k;
                    assert(all@[jj] == self@[k]);
                    assert(all@[jj].address == a);
                }
            }
        }
        let sorted = sorted_keys(&known);
        let mut out: Vec<(Muid, ChannelAddress)> = Vec::new();
        let mut j: usize = 0;
        while j < sorted.len()
            invariant
                forall|k: u64| #[trigger] known@.contains_key(k) ==> k == spec_address_key(known@[k]) && k < 0x1_0000,
                forall|a: int, b: int| 0 <= a < b < sorted@.len() ==> sorted@[a] < sorted@[b],
                sorted@.map_values(|k: u32| k as u64).to_set() == known@.dom(),
                forall|a: ChannelAddress| #[trigger] known@.contains_key(spec_address_key(a))
                    == spec_declares_address(self@, a),
                j <= sorted@.len(),
                out@.len() == j,
                forall|t: int| 0 <= t < j ==> (#[trigger] out@[t]).0.value() == 0
                    && spec_address_key(out@[t].1) == sorted@[t] as u64
                    && known@.contains_key(sorted@[t] as u64)
                    && known@[sorted@[t] as u64] == out@[t].1,
            decreases sorted@.len() - j,
        {
            let k = sorted[j] as u64;
            proof {
                assert(sorted@.map_values(|k: u32| k as u64)[j as int] == k);
                assert(known@.dom().contains(k));
            }
            let a = match known.get(k) {
                Some(a) => *a,
                None => ChannelAddress::function_block(),
            };
            out.push((Muid::from_bits_truncate(0), a));
            proof { assert(0u32 & 0x0FFF_FFFF == 0) by (bit_vector); }
            j = j + 1;
        }
        proof {
            assert forall|i1: int, j1: int| 0 <= i1 < j1 < out@.len()
                implies spec_address_key(out@[i1].1) < spec_address_key(out@[j1].1) by {
                assert(sorted@[i1] < sorted@[j1]);
            }
            assert forall|a: ChannelAddress| #[trigger] spec_lists_address(out@, a) == spec_declares_address(self@, a) by {
                if spec_lists_address(out@, a) {
                    let t = choose|t: int| 0 <= t < out@.len() && #[trigger] out@[t].1 == a;
                    assert(known@.contains_key(spec_address_key(a)));
                }
                if spec_declares_address(self@, a) {
                    let ka = spec_address_key(a);
                    assert(known@.contains_key(ka));
                    assert(known@.dom().contains(ka));
                    let mapped = sorted@.map_values(|k: u32| k as u64);
                    assert(mapped.to_set().contains(ka));
                    let t = choose|t: int| 0 <= t < mapped.len() && mapped[t] == ka;
                    assert(sorted@[t] as u64 == ka);
                    lemma_address_key_injective(known@[ka], a);
                    assert(out@[t].1 == a);
                }
            }
        }
        out
    }

    /// The number of declarations.
    pub fn len(&self) -> (n: usize)
        ensures n == self@.dom().len(),
    {
        self.entries.len()
    }

    /// Whether there are no declarations.
    pub fn is_empty(&self) -> (b: bool)
        ensures b == (self@.dom().len() == 0),
    {
        self.entries.is_empty()
    }
}

/// Every profile enabled at an address for a peer, in declaration order.
pub fn enabled_profiles(state: &ProfileHostState, muid: Muid, address: ChannelAddress) -> (r: Vec<Profile>)
    ensures
        r@ == (if muid.value() == 0 {
            spec_select(state.declarations(), address, true)
        } else {
            Seq::<Profile>::empty()
        }),
{
    select_profiles(state, muid, address, true)
}

/// Every profile declared but disabled at an address for a peer, in
/// declaration order.
pub fn disabled_profiles(state: &ProfileHostState, muid: Muid, address: ChannelAddress) -> (r: Vec<Profile>)
    ensures
        r@ == (if muid.value() == 0 {
            spec_select(state.declarations(), address, false)
        } else {
            Seq::<Profile>::empty()
        }),
{
    select_profiles(state, muid, address, false)
}

fn select_profiles(state: &ProfileHostState, muid: Muid, address: ChannelAddress, enabled: bool) -> (r: Vec<Profile>)
    ensures
        r@ == (if muid.value() == 0 {
            spec_select(state.declarations(), address, enabled)
        } else {
            Seq::<Profile>::empty()
        }),
{
    let all = state.iter();
    let mut out: Vec<Profile> = Vec::new();
    if muid.get() != 0 {
        return out;
    }
    let mut i: usize = 0;
    while i < all.len()
        invariant
            i <= all@.len(),
            out@ == spec_select(all@.take(i as int), address, enabled),
        decreases all@.len() - i,
    {
        let e = all[i];
        let is_enabled = match e.enablement {
            ProfileEnablement::Enabled { .. } => true,
            ProfileEnablement::Disabled => false,
        };
        proof { assert(all@.take(i as int + 1).drop_last() =~= all@.take(i as int)); }
        if e.address == address && is_enabled == enabled {
            out.push(e.profile);
        }
        i = i + 1;
    }
    assert(all@.take(i as int) =~= all@);
    out
}

/// Every declaration at an address for a peer, in declaration order.
pub fn profiles_at_address(state: &ProfileHostState, muid: Muid, address: ChannelAddress) -> (r: Vec<ChannelProfileState>)
    ensures
        r@ == (if muid.value() == 0 {
            spec_at_address(state.declarations(), address)
        } else {
            Seq::<ChannelProfileState>::empty()
        }),
{
    let all = state.iter();
    let mut out: Vec<ChannelProfileState> = Vec::new();
    if muid.get() != 0 {
        return out;
    }
    let mut i: usize = 0;
    while i < all.len()
        invariant
            i <= all@.len(),
            out@ == spec_at_address(all@.take(i as int), address),
        decreases all@.len() - i,
    {
        let e = all[i];
        proof { assert(all@.take(i as int + 1).drop_last() =~= all@.take(i as int)); }
        if e.address == address {
            out.push(e);
        }
        i = i + 1;
    }
    assert(all@.take(i as int) =~= all@);
    out
}

/// The group-0 address of a channel-in-group.
pub fn default_address(channel_in_group: ChannelInGroup) -> (a: ChannelAddress)
    ensures a.spec_group() == 0, a.spec_channel() == channel_in_group,
{
    match ChannelAddress::new(0, channel_in_group) {
        Some(a) => a,
        None => ChannelAddress::function_block(),
    }
}

/// After `insert(entry)`, `get` at the entry's address and profile (for the
/// local MUID 0) gives the entry back.
pub proof fn lemma_insert_then_get(before: ProfileHostState, after: ProfileHostState, entry: ChannelProfileState)
    requires
        after@ == before@.insert(spec_profile_key(entry.address, entry.profile), entry),
    ensures
        after@.contains_key(spec_profile_key(entry.address, entry.profile)),
        after@[spec_profile_key(entry.address, entry.profile)] == entry,
{
}

} // verus!
