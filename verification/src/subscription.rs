//! The set of tabs that one client has subscribed to.

use crate::tab::TabId;
use std::collections::HashSet;
use vstd::prelude::*;

verus! {

broadcast use vstd::std_specs::hash::group_hash_axioms;

/// A change that a client asks of its subscription set.
#[derive(Debug, Clone, Copy, PartialEq, Eq, Structural)]
pub enum Subscription {
    Subscribe(TabId),
    Unsubscribe(TabId),
    UnsubscribeAll,
}

/// The effect of one subscription request on a set of tabs.
pub open spec fn apply_one(tabs: Set<TabId>, request: Subscription) -> Set<TabId> {
    match request {
        Subscription::Subscribe(id) => tabs.insert(id),
        Subscription::Unsubscribe(id) => tabs.remove(id),
        Subscription::UnsubscribeAll => Set::empty(),
    }
}

/// The effect of a sequence of subscription requests, applied in order.
pub open spec fn apply_all(tabs: Set<TabId>, requests: Seq<Subscription>) -> Set<TabId>
    decreases requests.len(),
{
    if requests.len() == 0 {
        tabs
    } else {
        apply_one(apply_all(tabs, requests.drop_last()), requests.last())
    }
}

/// A client's subscriptions. Fan-out messages are filtered by membership.
pub struct SubscriptionSet {
    ids: HashSet<u64>,
}

impl View for SubscriptionSet {
    type V = Set<TabId>;

    closed spec fn view(&self) -> Set<TabId> {
        Set::new(|id: TabId| self.ids@.contains(id.0))
    }
}

impl SubscriptionSet {
    /// A set with no subscriptions.
    pub fn new() -> (subs: Self)
        ensures
            subs@ == Set::<TabId>::empty(),
    {
        SubscriptionSet { ids: HashSet::new() }
    }

    /// Adds `id` to the set.
    pub fn subscribe(&mut self, id: TabId)
        ensures
            final(self)@ == old(self)@.insert(id),
    {
        self.ids.insert(id.0);
    }

    /// Removes `id` from the set.
    pub fn unsubscribe(&mut self, id: TabId)
        ensures
            final(self)@ == old(self)@.remove(id),
    {
        self.ids.remove(&id.0);
    }

    /// Removes every subscription.
    pub fn unsubscribe_all(&mut self)
        ensures
            final(self)@ == Set::<TabId>::empty(),
    {
        self.ids.clear();
    }

    /// Carries out one subscription request.
    pub fn apply(&mut self, request: Subscription)
        ensures
            final(self)@ == apply_one(old(self)@, request),
    {
        match request {
            Subscription::Subscribe(id) => self.subscribe(id),
            Subscription::Unsubscribe(id) => self.unsubscribe(id),
            Subscription::UnsubscribeAll => self.unsubscribe_all(),
        }
    }

    /// Whether the client is subscribed to `id`.
    pub fn contains(&self, id: &TabId) -> (found: bool)
        ensures
            found == self@.contains(*id),
    {
        self.ids.contains(&id.0)
    }
}

/// A client that never asks to subscribe to a tab is not subscribed to it,
/// whatever else it asks for.
pub proof fn lemma_never_subscribed(requests: Seq<Subscription>, id: TabId)
    requires
        forall|k: int| 0 <= k < requests.len() ==> requests[k] != Subscription::Subscribe(id),
    ensures
        !apply_all(Set::empty(), requests).contains(id),
    decreases requests.len(),
{
    if requests.len() > 0 {
        lemma_never_subscribed(requests.drop_last(), id);
    }
}

} // verus!
