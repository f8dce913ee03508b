//! The cache of discovered peers.
use vstd::prelude::*;
use crate::keyed::KeyedList;
use crate::midi_ci::types::{DeviceInfo, Muid};

verus! {

/// What a peer advertised in its discovery reply.
#[derive(Copy, Clone, PartialEq, Eq, Hash, Debug)]
pub struct PeerDiscovery {
    /// The peer's MUID.
    pub muid: Muid,
    /// The peer's device info.
    pub device_info: DeviceInfo,
    /// The peer's maximum SysEx size.
    pub maximum_sysex_size: u32,
    /// The peer's output path id (version 2 only).
    pub output_path_id: u8,
}

/// The key under which a peer is cached: its MUID value.
pub open spec fn spec_peer_key(muid: Muid) -> u64 {
    muid.value() as u64
}

/// Every peer discovered so far, at most one per MUID.
#[derive(Debug)]
pub struct DiscoveryState {
    peers: KeyedList<PeerDiscovery>,
}

impl View for DiscoveryState {
    type V = Map<u64, PeerDiscovery>;

    /// The cached peers, keyed by MUID value.
    closed spec fn view(&self) -> Map<u64, PeerDiscovery> {
        self.peers@
    }
}

impl DiscoveryState {
    #[verifier::type_invariant]
    spec fn keyed_by_muid(self) -> bool {
        forall|k: u64| #[trigger] self.peers@.contains_key(k) ==> spec_peer_key(self.peers@[k].muid) == k
    }

    /// An empty cache.
    pub fn new() -> (s: DiscoveryState)
        ensures s@ == Map::<u64, PeerDiscovery>::empty(),
    {
        DiscoveryState { peers: KeyedList::new() }
    }

    /// Record or update a peer under its MUID.
    pub fn insert(&mut self, peer: PeerDiscovery)
        ensures final(self)@ == old(self)@.insert(spec_peer_key(peer.muid), peer),
    {
        proof { use_type_invariant(&*self); }
        let mut peers = KeyedList::new();
        std::mem::swap(&mut peers, &mut self.peers);
        peers.insert(peer.muid.get() as u64, peer);
        self.peers = peers;
    }

    /// Forget a peer, returning what was cached for it.
    pub fn remove(&mut self, muid: Muid) -> (r: Option<PeerDiscovery>)
        ensures
            final(self)@ == old(self)@.remove(spec_peer_key(muid)),
            r == (if old(self)@.contains_key(spec_peer_key(muid)) {
                Some(old(self)@[spec_peer_key(muid)])
            } else {
                None::<PeerDiscovery>
            }),
    {
        proof { use_type_invariant(&*self); }
        let mut peers = KeyedList::new();
        std::mem::swap(&mut peers, &mut self.peers);
        let r = peers.remove(muid.get() as u64);
        self.peers = peers;
        r
    }

    /// The cached entry of a peer.
    pub fn get(&self, muid: Muid) -> (r: Option<&PeerDiscovery>)
        ensures
            r is None <==> !self@.contains_key(spec_peer_key(muid)),
            r matches Some(p) ==> *p == self@[spec_peer_key(muid)],
    {
        self.peers.get(muid.get() as u64)
    }

    /// Every cached peer with its MUID, in the order first discovered.
    pub fn iter(&self) -> (r: Vec<(Muid, PeerDiscovery)>)
        ensures
            r@.len() == self@.dom().len(),
            forall|i: int| 0 <= i < r@.len() ==> #[trigger] r@[i].0 == r@[i].1.muid
                && self@.contains_key(spec_peer_key(r@[i].0))
                && self@[spec_peer_key(r@[i].0)] == r@[i].1,
            forall|k: u64| #[trigger] self@.contains_key(k) ==> exists|i: int|
                0 <= i < r@.len() && spec_peer_key(r@[i].0) == k,
    {
        proof { use_type_invariant(self); }
        let ks = self.peers.keys();
        let n = self.peers.len();
        let mut out: Vec<(Muid, PeerDiscovery)> = Vec::new();
        let mut i: usize = 0;
        while i < n
            invariant
                n == self.peers.key_order().len(),
                ks@ == self.peers.key_order(),
                ks@.to_set() == self@.dom(),
                forall|k: u64| #[trigger] self.peers@.contains_key(k)
                    ==> spec_peer_key(self.peers@[k].muid) == k,
                i <= n,
                out@.len() == i,
                forall|j: int| 0 <= j < i ==> #[trigger] out@[j].0 == out@[j].1.muid
                    && spec_peer_key(out@[j].0) == ks@[j]
                    && self@.contains_key(ks@[j])
                    && self@[ks@[j]] == out@[j].1,
            decreases n - i,
        {
            let (k, p) = self.peers.entry_at(i);
            proof { assert(ks@.to_set().contains(ks@[i as int])); }
            out.push((p.muid, *p));
            i = i + 1;
        }
        proof {
            assert forall|k: u64| #[trigger] self@.contains_key(k) implies exists|i: int|
                0 <= i < out@.len() && spec_peer_key(out@[i].0) == k by {
                assert(ks@.to_set().contains(k));
                let j = choose|j: int| 0 <= j < ks@.len() && ks@[j] == k;
                assert(spec_peer_key(out@[j].0) == k);
            }
        }
        out
    }

    /// The number of cached peers.
    pub fn len(&self) -> (n: usize)
        ensures n == self@.dom().len(),
    {
        self.peers.len()
    }

    /// Whether no peer is cached.
    pub fn is_empty(&self) -> (b: bool)
        ensures b == (self@.dom().len() == 0),
    {
        self.peers.is_empty()
    }

    /// The MUID of every cached peer, each once.
    pub fn discovered_muids(&self) -> (r: Vec<Muid>)
        ensures
            r@.map_values(|m: Muid| spec_peer_key(m)).no_duplicates(),
            r@.map_values(|m: Muid| spec_peer_key(m)).to_set() == self@.dom(),
    {
        let all = self.iter();
        let mut out: Vec<Muid> = Vec::new();
        let mut i: usize = 0;
        while i < all.len()
            invariant
                i <= all@.len(),
                out@.len() == i,
                forall|j: int| 0 <= j < i ==> out@[j] == #[trigger] all@[j].0,
            decreases all@.len() - i,
        {
            out.push(all[i].0);
            i = i + 1;
        }
        proof {
            let ks = out@.map_values(|m: Muid| spec_peer_key(m));
            assert(ks.len() == self@.dom().len());
            assert forall|k: u64| ks.to_set().contains(k) <==> self@.dom().contains(k) by {
                if self@.dom().contains(k) {
                    let j = choose|j: int| 0 <= j < all@.len() && spec_peer_key(all@[j].0) == k;
                    assert(ks[j] == k);
                }
                if ks.to_set().contains(k) {
                    let j = choose|j: int| 0 <= j < ks.len() && ks[j] == k;
                    assert(out@[j] == all@[j].0);
                }
            }
            assert(ks.to_set() =~= self@.dom());
            ks.lemma_no_dup_set_cardinality();
        }
        out
    }
}

/// After `insert(peer)`, `get` of the peer's MUID gives the peer, and every
/// other MUID finds what it found before.
pub proof fn lemma_insert_then_get(
    before: Map<u64, PeerDiscovery>,
    after: Map<u64, PeerDiscovery>,
    peer: PeerDiscovery,
    muid: Muid,
)
    requires
        after == before.insert(spec_peer_key(peer.muid), peer),
    ensures
        muid == peer.muid ==> after.contains_key(spec_peer_key(muid)) && after[spec_peer_key(muid)] == peer,
        muid != peer.muid ==> (after.contains_key(spec_peer_key(muid)) == before.contains_key(spec_peer_key(muid))
            && (before.contains_key(spec_peer_key(muid)) ==> after[spec_peer_key(muid)] == before[spec_peer_key(muid)])),
{
    if muid != peer.muid {
        Muid::lemma_value_injective(muid, peer.muid);
    }
}

/// After `remove(muid)`, `get` of that MUID finds nothing.
pub proof fn lemma_remove_then_get(before: Map<u64, PeerDiscovery>, after: Map<u64, PeerDiscovery>, muid: Muid)
    requires
        after == before.remove(spec_peer_key(muid)),
    ensures
        !after.contains_key(spec_peer_key(muid)),
{
}

} // verus!
