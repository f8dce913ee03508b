//! The ledger of property-exchange requests and subscriptions this device
//! started.
use vstd::prelude::*;
use crate::keyed::{sorted_keys, KeyedList};
use crate::midi_ci::types::{Muid, RequestId, RequestKey, SubscriptionKey};

verus! {

/// A property-exchange request this device started.
#[derive(Copy, Clone, PartialEq, Eq, Hash, Debug)]
pub struct PendingRequest {
    /// The request id we chose.
    pub request_id: RequestId,
    /// The peer asked.
    pub muid: Muid,
}

/// A subscription this device started.
#[derive(Clone, PartialEq, Eq, Debug)]
pub struct PendingSubscription {
    /// The subscribe id the responder gave, once known.
    pub subscribe_id: Option<u32>,
    /// The peer subscribed to.
    pub muid: Muid,
    /// The resource name, if any.
    pub resource: Option<String>,
}

/// The key that follows `k`: one more, wrapping past `u32::MAX` to 1 (0 is
/// never handed out).
pub open spec fn spec_next_key(k: u32) -> u32 {
    if k == u32::MAX {
        1
    } else {
        (k + 1) as u32
    }
}

/// Advance a key counter.
fn next_key(k: u32) -> (n: u32)
    ensures n == spec_next_key(k),
{
    let w = k.wrapping_add(1);
    if w < 1 { 1 } else { w }
}

/// Outstanding property-exchange transactions.
#[derive(Debug)]
pub struct PropertyLedger {
    requests: KeyedList<PendingRequest>,
    subscriptions: KeyedList<PendingSubscription>,
    next_request_key: u32,
    next_subscription_key: u32,
}

impl PropertyLedger {
    #[verifier::type_invariant]
    spec fn keys_fit(self) -> bool {
        &&& forall|k: u64| #[trigger] self.requests@.contains_key(k) ==> k <= u32::MAX
        &&& forall|k: u64| #[trigger] self.subscriptions@.contains_key(k) ==> k <= u32::MAX
        &&& self.next_request_key >= 1
        &&& self.next_subscription_key >= 1
    }

    /// Outstanding requests by key.
    pub closed spec fn requests(self) -> Map<u64, PendingRequest> {
        self.requests@
    }

    /// Outstanding subscriptions by key.
    pub closed spec fn subscriptions(self) -> Map<u64, PendingSubscription> {
        self.subscriptions@
    }

    /// The key the next request gets.
    pub closed spec fn next_request_key(self) -> u32 {
        self.next_request_key
    }

    /// The key the next subscription gets.
    pub closed spec fn next_subscription_key(self) -> u32 {
        self.next_subscription_key
    }

    /// Every outstanding request's key lies below the next request key (so
    /// the next key is in use by no request). This holds from `new` until
    /// the request counter wraps around.
    pub open spec fn request_keys_fresh(self) -> bool {
        forall|k: u64| #[trigger] self.requests().contains_key(k) ==> 1 <= k < self.next_request_key()
    }

    /// Every outstanding subscription's key lies below the next subscription
    /// key; this holds from `new` until the subscription counter wraps.
    pub open spec fn subscription_keys_fresh(self) -> bool {
        forall|k: u64| #[trigger] self.subscriptions().contains_key(k) ==> 1 <= k < self.next_subscription_key()
    }

    /// An empty ledger whose first keys are 1.
    pub fn new() -> (l: PropertyLedger)
        ensures
            l.requests() == Map::<u64, PendingRequest>::empty(),
            l.subscriptions() == Map::<u64, PendingSubscription>::empty(),
            l.next_request_key() == 1,
            l.next_subscription_key() == 1,
    {
        PropertyLedger {
            requests: KeyedList::new(),
            subscriptions: KeyedList::new(),
            next_request_key: 1,
            next_subscription_key: 1,
        }
    }

    /// Record a request under a fresh key and return the key.
    pub fn begin_request(&mut self, request: PendingRequest) -> (key: RequestKey)
        ensures
            key.0 == old(self).next_request_key(),
            old(self).request_keys_fresh() ==> !old(self).requests().contains_key(key.0 as u64),
            old(self).request_keys_fresh() && key.0 < u32::MAX ==> final(self).request_keys_fresh(),
            final(self).requests() == old(self).requests().insert(key.0 as u64, request),
            final(self).next_request_key() == spec_next_key(old(self).next_request_key()),
            final(self).subscriptions() == old(self).subscriptions(),
            final(self).next_subscription_key() == old(self).next_subscription_key(),
    {
        proof { use_type_invariant(&*self); }
        let key = RequestKey(self.next_request_key);
        let mut requests = KeyedList::new();
        std::mem::swap(&mut requests, &mut self.requests);
        requests.insert(key.0 as u64, request);
        self.requests = requests;
        self.next_request_key = next_key(self.next_request_key);
        proof {
            if old(self).request_keys_fresh() && key.0 < u32::MAX {
                assert forall|k: u64| #[trigger] self.requests().contains_key(k) implies 1 <= k < self.next_request_key() by {
                    if k != key.0 as u64 {
                        assert(old(self).requests().contains_key(k));
                    }
                }
            }
        }
        key
    }

    /// The outstanding request with a key.
    pub fn request(&self, key: RequestKey) -> (r: Option<&PendingRequest>)
        ensures
            r is None <==> !self.requests().contains_key(key.0 as u64),
            r matches Some(p) ==> *p == self.requests()[key.0 as u64],
    {
        self.requests.get(key.0 as u64)
    }

    /// Forget a request, returning it.
    pub fn end_request(&mut self, key: RequestKey) -> (r: Option<PendingRequest>)
        ensures
            final(self).requests() == old(self).requests().remove(key.0 as u64),
            r == (if old(self).requests().contains_key(key.0 as u64) {
                Some(old(self).requests()[key.0 as u64])
            } else {
                None::<PendingRequest>
            }),
            final(self).subscriptions() == old(self).subscriptions(),
            final(self).next_request_key() == old(self).next_request_key(),
            final(self).next_subscription_key() == old(self).next_subscription_key(),
    {
        proof { use_type_invariant(&*self); }
        let mut requests = KeyedList::new();
        std::mem::swap(&mut requests, &mut self.requests);
        let r = requests.remove(key.0 as u64);
        self.requests = requests;
        r
    }

    /// Record a subscription under a fresh key and return the key.
    pub fn begin_subscription(&mut self, subscription: PendingSubscription) -> (key: SubscriptionKey)
        ensures
            key.0 == old(self).next_subscription_key(),
            old(self).subscription_keys_fresh() ==> !old(self).subscriptions().contains_key(key.0 as u64),
            old(self).subscription_keys_fresh() && key.0 < u32::MAX ==> final(self).subscription_keys_fresh(),
            final(self).subscriptions() == old(self).subscriptions().insert(key.0 as u64, subscription),
            final(self).next_subscription_key() == spec_next_key(old(self).next_subscription_key()),
            final(self).requests() == old(self).requests(),
            final(self).next_request_key() == old(self).next_request_key(),
    {
        proof { use_type_invariant(&*self); }
        let key = SubscriptionKey(self.next_subscription_key);
        let mut subscriptions = KeyedList::new();
        std::mem::swap(&mut subscriptions, &mut self.subscriptions);
        subscriptions.insert(key.0 as u64, subscription);
        self.subscriptions = subscriptions;
        self.next_subscription_key = next_key(self.next_subscription_key);
        proof {
            if old(self).subscription_keys_fresh() && key.0 < u32::MAX {
                assert forall|k: u64| #[trigger] self.subscriptions().contains_key(k) implies 1 <= k < self.next_subscription_key() by {
                    if k != key.0 as u64 {
                        assert(old(self).subscriptions().contains_key(k));
                    }
                }
            }
        }
        key
    }

    /// The outstanding subscription with a key.
    pub fn subscription(&self, key: SubscriptionKey) -> (r: Option<&PendingSubscription>)
        ensures
            r is None <==> !self.subscriptions().contains_key(key.0 as u64),
            r matches Some(p) ==> *p == self.subscriptions()[key.0 as u64],
    {
        self.subscriptions.get(key.0 as u64)
    }

    /// Forget a subscription, returning it.
    pub fn end_subscription(&mut self, key: SubscriptionKey) -> (r: Option<PendingSubscription>)
        ensures
            final(self).subscriptions() == old(self).subscriptions().remove(key.0 as u64),
            r == (if old(self).subscriptions().contains_key(key.0 as u64) {
                Some(old(self).subscriptions()[key.0 as u64])
            } else {
                None::<PendingSubscription>
            }),
            final(self).requests() == old(self).requests(),
            final(self).next_request_key() == old(self).next_request_key(),
            final(self).next_subscription_key() == old(self).next_subscription_key(),
    {
        proof { use_type_invariant(&*self); }
        let mut subscriptions = KeyedList::new();
        std::mem::swap(&mut subscriptions, &mut self.subscriptions);
        let r = subscriptions.remove(key.0 as u64);
        self.subscriptions = subscriptions;
        r
    }

    /// Record the responder's subscribe id on an outstanding subscription;
    /// nothing happens for an unknown key.
    pub fn set_subscription_id(&mut self, key: SubscriptionKey, id: u32)
        ensures
            old(self).subscriptions().contains_key(key.0 as u64) ==> final(self).subscriptions()
                == old(self).subscriptions().insert(
                key.0 as u64,
                PendingSubscription {
                    subscribe_id: Some(id),
                    ..old(self).subscriptions()[key.0 as u64]
                },
            ),
            !old(self).subscriptions().contains_key(key.0 as u64) ==> final(self).subscriptions()
                == old(self).subscriptions(),
            final(self).requests() == old(self).requests(),
            final(self).next_request_key() == old(self).next_request_key(),
            final(self).next_subscription_key() == old(self).next_subscription_key(),
    {
        proof { use_type_invariant(&*self); }
        let k = key.0 as u64;
        if !self.subscriptions.contains_key(k) {
            return;
        }
        let mut subscriptions = KeyedList::new();
        std::mem::swap(&mut subscriptions, &mut self.subscriptions);
        let placeholder = PendingSubscription {
            subscribe_id: None,
            muid: Muid::from_bits_truncate(0),
            resource: None,
        };
        let previous = subscriptions.insert(k, placeholder);
        match previous {
            Some(entry) => {
                let updated = PendingSubscription {
                    subscribe_id: Some(id),
                    muid: entry.muid,
                    resource: entry.resource,
                };
                subscriptions.insert(k, updated);
                proof {
                    assert(subscriptions@ =~= old(self).subscriptions().insert(k, updated));
                }
            },
            None => {},
        }
        self.subscriptions = subscriptions;
    }

    /// The keys of all outstanding subscriptions, in increasing order.
    pub fn ongoing_subscriptions(&self) -> (r: Vec<SubscriptionKey>)
        ensures
            forall|i: int, j: int| 0 <= i < j < r@.len() ==> r@[i].0 < r@[j].0,
            r@.map_values(|k: SubscriptionKey| k.0 as u64).to_set() == self.subscriptions().dom(),
    {
        proof { use_type_invariant(self); }
        let ks = sorted_keys(&self.subscriptions);
        let mut out: Vec<SubscriptionKey> = Vec::new();
        let mut i: usize = 0;
        while i < ks.len()
            invariant
                i <= ks@.len(),
                out@.len() == i,
                forall|j: int| 0 <= j < i ==> (#[trigger] out@[j]).0 == ks@[j],
            decreases ks@.len() - i,
        {
            out.push(SubscriptionKey(ks[i]));
            i = i + 1;
        }
        assert(out@.map_values(|k: SubscriptionKey| k.0 as u64) =~= ks@.map_values(|k: u32| k as u64));
        out
    }

    /// The keys of all outstanding requests, in increasing order.
    pub fn ongoing_requests(&self) -> (r: Vec<RequestKey>)
        ensures
            forall|i: int, j: int| 0 <= i < j < r@.len() ==> r@[i].0 < r@[j].0,
            r@.map_values(|k: RequestKey| k.0 as u64).to_set() == self.requests().dom(),
    {
        proof { use_type_invariant(self); }
        let ks = sorted_keys(&self.requests);
        let mut out: Vec<RequestKey> = Vec::new();
        let mut i: usize = 0;
        while i < ks.len()
            invariant
                i <= ks@.len(),
                out@.len() == i,
                forall|j: int| 0 <= j < i ==> (#[trigger] out@[j]).0 == ks@[j],
            decreases ks@.len() - i,
        {
            out.push(RequestKey(ks[i]));
            i = i + 1;
        }
        assert(out@.map_values(|k: RequestKey| k.0 as u64) =~= ks@.map_values(|k: u32| k as u64));
        out
    }

    /// Whether no request and no subscription is outstanding.
    pub fn is_empty(&self) -> (b: bool)
        ensures b == (self.requests().dom().len() == 0 && self.subscriptions().dom().len() == 0),
    {
        self.requests.is_empty() && self.subscriptions.is_empty()
    }

    /// A key is never followed by itself, so two requests begun one after the
    /// other get different keys.
    pub proof fn lemma_next_key_differs(k: u32)
        ensures spec_next_key(k) != k,
    {
    }
}

/// After `begin_request(request)` returns `key`, `request(key)` gives the
/// request back; the next key handed out differs from it.
pub proof fn lemma_begin_then_lookup(before: PropertyLedger, after: PropertyLedger, request: PendingRequest, key: RequestKey)
    requires
        key.0 == before.next_request_key(),
        after.requests() == before.requests().insert(key.0 as u64, request),
        after.next_request_key() == spec_next_key(before.next_request_key()),
    ensures
        after.requests().contains_key(key.0 as u64),
        after.requests()[key.0 as u64] == request,
        after.next_request_key() != key.0,
{
    PropertyLedger::lemma_next_key_differs(before.next_request_key());
}

/// After `end_request(key)`, `request(key)` finds nothing.
pub proof fn lemma_end_then_lookup(before: PropertyLedger, after: PropertyLedger, key: RequestKey)
    requires
        after.requests() == before.requests().remove(key.0 as u64),
    ensures
        !after.requests().contains_key(key.0 as u64),
{
}

/// After `begin_subscription(s)` returns `key`, `subscription(key)` gives
/// `s` back; after `end_subscription(key)` it finds nothing.
pub proof fn lemma_subscription_round_trip(
    before: PropertyLedger,
    middle: PropertyLedger,
    after: PropertyLedger,
    s: PendingSubscription,
    key: SubscriptionKey,
)
    requires
        key.0 == before.next_subscription_key(),
        middle.subscriptions() == before.subscriptions().insert(key.0 as u64, s),
        after.subscriptions() == middle.subscriptions().remove(key.0 as u64),
    ensures
        middle.subscriptions().contains_key(key.0 as u64),
        middle.subscriptions()[key.0 as u64] == s,
        !after.subscriptions().contains_key(key.0 as u64),
{
}

} // verus!
