//! The bridge between the connection and the screens: one topic, any number
//! of subscriptions. Publishing a text yields one delivery for each live
//! subscription, in the order in which they subscribed; the application hands
//! each delivery to the handler it keeps for that subscription. Nothing is
//! stored for a subscription that does not exist yet.

use vstd::prelude::*;

verus! {

/// A text on its way to one subscription.
#[derive(Debug)]
pub struct Delivery {
    pub to: u64,
    pub text: String,
}

/// The registry of subscriptions, owned by whoever sets the application up.
#[derive(Debug)]
pub struct EventBus {
    subscribers: Vec<u64>,
    issued: u64,
}

/// The registry as a mathematical value: the live subscriptions in the order
/// in which they subscribed, and how many handles were given out so far.
pub struct EventBusView {
    pub subscribers: Seq<u64>,
    pub issued: nat,
}

/// The handles other than `handle`.
pub open spec fn other_than(handle: u64) -> spec_fn(u64) -> bool {
    |h: u64| h != handle
}

impl EventBusView {
    /// Handles grow along the list and stay below the count of those given
    /// out, so no handle stands in the list twice.
    pub open spec fn ordered(self) -> bool {
        &&& forall|i: int, j: int|
            0 <= i < j < self.subscribers.len() ==> self.subscribers[i] < self.subscribers[j]
        &&& forall|i: int| 0 <= i < self.subscribers.len() ==> self.subscribers[i] < self.issued
    }

    /// `out` is what publishing `text` yields: one delivery for each
    /// subscription, in their order, each with the text as it came.
    pub open spec fn delivers(self, text: Seq<char>, out: Seq<Delivery>) -> bool {
        &&& out.len() == self.subscribers.len()
        &&& forall|i: int|
            0 <= i < out.len() ==> (#[trigger] out[i]).to == self.subscribers[i] && out[i].text@
                == text
    }

    /// The registry after one more subscription.
    pub open spec fn subscribe(self) -> EventBusView {
        EventBusView {
            subscribers: self.subscribers.push(self.issued as u64),
            issued: self.issued + 1,
        }
    }

    /// The registry without a subscription.
    pub open spec fn unsubscribe(self, handle: u64) -> EventBusView {
        EventBusView { subscribers: self.subscribers.filter(other_than(handle)), ..self }
    }
}

impl View for EventBus {
    type V = EventBusView;

    closed spec fn view(&self) -> EventBusView {
        EventBusView { subscribers: self.subscribers@, issued: self.issued as nat }
    }
}

impl EventBus {
    /// A registry without subscriptions.
    pub fn new() -> (bus: Self)
        ensures
            bus@ == (EventBusView { subscribers: Seq::empty(), issued: 0 }),
            bus@.ordered(),
    {
        EventBus { subscribers: Vec::new(), issued: 0 }
    }

    /// Adds a subscription at the end of the list and gives its handle, which
    /// no earlier subscription had.
    pub fn subscribe(&mut self) -> (handle: u64)
        requires
            old(self)@.issued < u64::MAX,
        ensures
            handle == old(self)@.issued,
            final(self)@ == old(self)@.subscribe(),
            old(self)@.ordered() ==> final(self)@.ordered(),
    {
        let handle = self.issued;
        self.issued = handle + 1;
        self.subscribers.push(handle);
        handle
    }

    /// Removes a subscription and says whether it was there. The others keep
    /// their order. What was delivered before stays delivered.
    pub fn unsubscribe(&mut self, handle: u64) -> (was_there: bool)
        ensures
            was_there == old(self)@.subscribers.contains(handle),
            final(self)@ == old(self)@.unsubscribe(handle),
            old(self)@.ordered() ==> final(self)@.ordered(),
    {
        let ghost before = self.subscribers@;
        let ghost keep = other_than(handle);
        let mut kept: Vec<u64> = Vec::new();
        let mut was_there = false;
        let mut i: usize = 0;
        assert(before.take(0).filter(keep) =~= Seq::empty()) by {
            reveal(Seq::filter);
        }
        while i < self.subscribers.len()
            invariant
                i <= before.len(),
                before == self.subscribers@,
                self.issued == old(self).issued,
                before == old(self)@.subscribers,
                keep == other_than(handle),
                kept@ == before.take(i as int).filter(keep),
                was_there == before.take(i as int).contains(handle),
                old(self)@.ordered() ==> forall|a: int, b: int|
                    0 <= a < b < kept@.len() ==> kept@[a] < kept@[b],
                old(self)@.ordered() ==> forall|a: int|
                    0 <= a < kept@.len() ==> kept@[a] < self.issued,
                old(self)@.ordered() ==> forall|a: int|
                    0 <= a < kept@.len() && i < before.len() ==> kept@[a] < before[i as int],
            decreases before.len() - i,
        {
            let h = self.subscribers[i];
            proof {
                let head = before.take(i as int);
                assert(before.take(i + 1) =~= head.push(h));
                head.lemma_filter_push(h, keep);
                if h == handle {
                    assert(head.push(h)[i as int] == handle);
                } else if head.push(h).contains(handle) {
                    let k = choose|k: int| 0 <= k < head.push(h).len() && head.push(h)[k] == handle;
                    assert(head[k] == handle);
                }
            }
            if h != handle {
                kept.push(h);
            } else {
                was_there = true;
            }
            i += 1;
        }
        assert(before.take(i as int) =~= before);
        self.subscribers = kept;
        was_there
    }

    /// The deliveries for one text: one for each live subscription, in the
    /// order in which they subscribed, each with the text unchanged. A
    /// subscription made later gets nothing of it.
    pub fn publish(&self, raw: &str) -> (out: Vec<Delivery>)
        ensures
            self@.delivers(raw@, out@),
    {
        let mut out: Vec<Delivery> = Vec::new();
        let mut i: usize = 0;
        while i < self.subscribers.len()
            invariant
                i <= self.subscribers@.len(),
                out@.len() == i,
                forall|j: int|
                    0 <= j < i ==> (#[trigger] out@[j]).to == self.subscribers@[j] && out@[j].text@
                        == raw@,
            decreases self.subscribers@.len() - i,
        {
            out.push(Delivery { to: self.subscribers[i], text: raw.to_owned() });
            i += 1;
        }
        out
    }

    /// Whether a handle stands for a live subscription.
    pub fn is_subscribed(&self, handle: u64) -> (live: bool)
        ensures
            live == self@.subscribers.contains(handle),
    {
        let mut i: usize = 0;
        while i < self.subscribers.len()
            invariant
                i <= self.subscribers@.len(),
                forall|j: int| 0 <= j < i ==> self.subscribers@[j] != handle,
            decreases self.subscribers@.len() - i,
        {
            if self.subscribers[i] == handle {
                return true;
            }
            i += 1;
        }
        false
    }

    /// How many subscriptions are live.
    pub fn subscriber_count(&self) -> (n: usize)
        ensures
            n == self@.subscribers.len(),
    {
        self.subscribers.len()
    }

    /// How many handles were given out so far.
    pub fn issued(&self) -> (n: u64)
        ensures
            n == self@.issued,
    {
        self.issued
    }

}

/// A text is delivered once to every subscription and to nothing else: the
/// deliveries that name a live handle are exactly one.
pub proof fn delivered_exactly_once(bus: EventBusView, text: Seq<char>, out: Seq<Delivery>, i: int)
    requires
        bus.ordered(),
        bus.delivers(text, out),
        0 <= i < bus.subscribers.len(),
    ensures
        out[i].to == bus.subscribers[i],
        out[i].text@ == text,
        forall|j: int| 0 <= j < out.len() && j != i ==> (#[trigger] out[j]).to != bus.subscribers[i],
{
    assert forall|j: int| 0 <= j < out.len() && j != i implies (#[trigger] out[j]).to
        != bus.subscribers[i] by {
        if j < i {
            assert(bus.subscribers[j] < bus.subscribers[i]);
        } else {
            assert(bus.subscribers[i] < bus.subscribers[j]);
        }
    }
}

/// Once a subscription has ended, no text goes to it any more, and the
/// others are all still served.
pub proof fn ended_subscription_gets_nothing(bus: EventBusView, handle: u64)
    ensures
        !bus.unsubscribe(handle).subscribers.contains(handle),
        forall|h: u64|
            h != handle ==> (bus.unsubscribe(handle).subscribers.contains(h)
                <==> bus.subscribers.contains(h)),
{
    let keep = other_than(handle);
    let after = bus.unsubscribe(handle).subscribers;
    if after.contains(handle) {
        let k = choose|k: int| 0 <= k < after.len() && after[k] == handle;
        bus.subscribers.lemma_filter_pred(keep, k);
    }
    assert forall|h: u64| h != handle implies (after.contains(h) <==> bus.subscribers.contains(
        h,
    )) by {
        if after.contains(h) {
            bus.subscribers.lemma_filter_contains_rev(keep, h);
        }
        if bus.subscribers.contains(h) {
            let k = choose|k: int| 0 <= k < bus.subscribers.len() && bus.subscribers[k] == h;
            bus.subscribers.lemma_filter_contains(keep, k);
        }
    }
}

/// A subscription made after a text was published is not among those the
/// text went to, and those it went to are still served, in the same order,
/// ahead of the newcomer.
pub proof fn late_subscription_gets_nothing(bus: EventBusView, text: Seq<char>, out: Seq<Delivery>)
    requires
        bus.ordered(),
        bus.issued < u64::MAX,
        bus.delivers(text, out),
    ensures
        forall|j: int| 0 <= j < out.len() ==> (#[trigger] out[j]).to != bus.issued,
        bus.subscribe().ordered(),
        bus.subscribe().subscribers.take(bus.subscribers.len() as int) == bus.subscribers,
{
    assert(bus.subscribe().subscribers.take(bus.subscribers.len() as int) =~= bus.subscribers);
}

} // verus!
