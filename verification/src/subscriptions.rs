use crate::event_bus::{EventBus, Subscriber};
use crate::peripheral::ValueChangedEvent;
use crate::service::copy_bytes;
use vstd::prelude::*;

verus! {

/// What names a subscription: the UUID of the service and the UUID of the
/// characteristic.
pub type SubscriptionKey = (Seq<char>, Seq<char>);

/// What a table of subscriptions holds: for each subscribed characteristic,
/// the bytes of each event that its bus has carried, in order.
pub type Subscriptions = Map<SubscriptionKey, Seq<Seq<u8>>>;

/// The bytes of each event of a value bus's history.
pub open spec fn payloads(events: Seq<ValueChangedEvent>) -> Seq<Seq<u8>> {
    events.map_values(|e: ValueChangedEvent| e@)
}

struct Entry {
    service: String,
    characteristic: String,
    bus: EventBus<ValueChangedEvent>,
}

spec fn key_at(entries: Seq<Entry>, i: int) -> SubscriptionKey {
    (entries[i].service@, entries[i].characteristic@)
}

spec fn named_buses(entries: Seq<Entry>) -> bool {
    forall|i: int|
        0 <= i < entries.len() ==> (#[trigger] entries[i]).bus.topic() == Some(
            key_at(entries, i),
        )
}

spec fn distinct_keys(entries: Seq<Entry>) -> bool {
    forall|i: int, j: int|
        0 <= i < entries.len() && 0 <= j < entries.len() && i != j ==> #[trigger] key_at(
            entries,
            i,
        ) != #[trigger] key_at(entries, j)
}

spec fn holds(entries: Seq<Entry>, key: SubscriptionKey) -> bool {
    exists|i: int| 0 <= i < entries.len() && #[trigger] key_at(entries, i) == key
}

spec fn slot(entries: Seq<Entry>, key: SubscriptionKey) -> int {
    choose|i: int| 0 <= i < entries.len() && #[trigger] key_at(entries, i) == key
}

spec fn as_map(entries: Seq<Entry>) -> Subscriptions {
    Map::new(
        |key: SubscriptionKey| holds(entries, key),
        |key: SubscriptionKey| payloads(entries[slot(entries, key)].bus@),
    )
}

proof fn lemma_slot(entries: Seq<Entry>, i: int)
    requires
        distinct_keys(entries),
        0 <= i < entries.len(),
    ensures
        holds(entries, key_at(entries, i)),
        slot(entries, key_at(entries, i)) == i,
        as_map(entries)[key_at(entries, i)] == payloads(entries[i].bus@),
{
}

/// The value buses of one peripheral, one for each characteristic that has
/// a subscription.
pub struct SubscriptionTable {
    entries: Vec<Entry>,
}

impl View for SubscriptionTable {
    type V = Subscriptions;

    closed spec fn view(&self) -> Subscriptions {
        as_map(self.entries@)
    }
}

impl SubscriptionTable {
    /// No characteristic has two buses, and each bus carries the values
    /// of the characteristic that it is held for.
    pub closed spec fn wf(&self) -> bool {
        &&& distinct_keys(self.entries@)
        &&& named_buses(self.entries@)
    }

    /// A table without subscriptions.
    pub fn new() -> (table: Self)
        ensures
            table.wf(),
            table@ == Subscriptions::empty(),
    {
        let table = SubscriptionTable { entries: Vec::new() };
        assert(table@ =~= Subscriptions::empty());
        table
    }

    fn find(&self, service: &String, characteristic: &String) -> (found: Option<usize>)
        ensures
            match found {
                Some(i) => i < self.entries.len() && key_at(self.entries@, i as int) == (
                    service@,
                    characteristic@,
                ),
                None => !holds(self.entries@, (service@, characteristic@)),
            },
    {
        let mut i: usize = 0;
        while i < self.entries.len()
            invariant
                i <= self.entries.len(),
                forall|k: int|
                    0 <= k < i ==> key_at(self.entries@, k) != (service@, characteristic@),
            decreases self.entries.len() - i,
        {
            if self.entries[i].service == *service && self.entries[i].characteristic
                == *characteristic {
                return Some(i);
            }
            i += 1;
        }
        None
    }

    /// A new subscriber on the characteristic's bus, which begins after
    /// what that bus has carried so far. A characteristic that has no bus
    /// gets one first, on which nothing has been published; `created` says
    /// whether that happened. A bus that is there is used as it is.
    pub fn subscribe(&mut self, service: &String, characteristic: &String) -> (subscription: (
        Subscriber<ValueChangedEvent>,
        bool,
    ))
        requires
            old(self).wf(),
        ensures
            final(self).wf(),
            subscription.1 == !old(self)@.contains_key((service@, characteristic@)),
            final(self)@ == if subscription.1 {
                old(self)@.insert((service@, characteristic@), Seq::empty())
            } else {
                old(self)@
            },
            subscription.0.topic() == Some((service@, characteristic@)),
            subscription.0.start() == final(self)@[(service@, characteristic@)].len(),
    {
        match self.find(service, characteristic) {
            Some(i) => {
                proof {
                    lemma_slot(self.entries@, i as int);
                }
                (self.entries[i].bus.subscribe(), false)
            },
            None => {
                let ghost before = self.entries@;
                let ghost key = (service@, characteristic@);
                let bus: EventBus<ValueChangedEvent> = EventBus::for_characteristic(
                    service,
                    characteristic,
                );
                let subscriber = bus.subscribe();
                self.entries.push(
                    Entry { service: service.clone(), characteristic: characteristic.clone(), bus },
                );
                proof {
                    let after = self.entries@;
                    assert forall|k: int| 0 <= k < before.len() implies key_at(after, k) == key_at(
                        before,
                        k,
                    ) by {}
                    assert(key_at(after, before.len() as int) == key);
                    assert forall|i: int, j: int|
                        0 <= i < after.len() && 0 <= j < after.len() && i != j implies key_at(
                        after,
                        i,
                    ) != key_at(after, j) by {
                        if i < before.len() {
                            assert(key_at(before, i) != key);
                        }
                        if j < before.len() {
                            assert(key_at(before, j) != key);
                        }
                    }
                    lemma_slot(after, before.len() as int);
                    assert forall|other: SubscriptionKey| holds(after, other) <==> holds(
                        before,
                        other,
                    ) || other == key by {
                        if holds(before, other) {
                            assert(key_at(after, slot(before, other)) == other);
                        }
                        if holds(after, other) && other != key {
                            assert(key_at(before, slot(after, other)) == other);
                        }
                    }
                    assert forall|other: SubscriptionKey| holds(before, other) implies as_map(
                        after,
                    )[other] == as_map(before)[other] by {
                        let k = slot(before, other);
                        lemma_slot(before, k);
                        lemma_slot(after, k);
                    }
                    assert(payloads(bus@) =~= Seq::<Seq<u8>>::empty());
                    assert(as_map(after) =~= as_map(before).insert(key, Seq::empty()));
                }
                (subscriber, true)
            },
        }
    }

    /// Drops the characteristic's bus if it has one, which ends what its
    /// subscribers read, and says whether it had.
    pub fn remove(&mut self, service: &String, characteristic: &String) -> (removed: bool)
        requires
            old(self).wf(),
        ensures
            final(self).wf(),
            removed == old(self)@.contains_key((service@, characteristic@)),
            final(self)@ == old(self)@.remove((service@, characteristic@)),
    {
        let ghost before = self.entries@;
        let ghost key = (service@, characteristic@);
        match self.find(service, characteristic) {
            Some(i) => {
                self.entries.remove(i);
                proof {
                    let after = self.entries@;
                    assert forall|k: int| 0 <= k < after.len() implies key_at(after, k) == key_at(
                        before,
                        if k < i {
                            k
                        } else {
                            k + 1
                        },
                    ) by {}
                    assert forall|a: int, b: int|
                        0 <= a < after.len() && 0 <= b < after.len() && a != b implies key_at(
                        after,
                        a,
                    ) != key_at(after, b) by {
                        let a0 = if a < i { a } else { a + 1 };
                        let b0 = if b < i { b } else { b + 1 };
                        assert(key_at(before, a0) != key_at(before, b0));
                    }
                    assert forall|other: SubscriptionKey| holds(after, other) <==> holds(
                        before,
                        other,
                    ) && other != key by {
                        if holds(before, other) && other != key {
                            let k = slot(before, other);
                            let k1 = if k < i { k } else { k - 1 };
                            assert(key_at(after, k1) == other);
                        }
                        if holds(after, other) {
                            let k = slot(after, other);
                            let k0 = if k < i { k } else { k + 1 };
                            assert(key_at(before, k0) == other);
                            assert(key_at(before, i as int) == key);
                        }
                    }
                    assert forall|other: SubscriptionKey| holds(after, other) implies as_map(
                        after,
                    )[other] == as_map(before)[other] by {
                        let k = slot(after, other);
                        let k0 = if k < i { k } else { k + 1 };
                        lemma_slot(after, k);
                        lemma_slot(before, k0);
                    }
                    assert(as_map(after) =~= as_map(before).remove(key));
                }
                true
            },
            None => {
                assert(as_map(before) =~= as_map(before).remove(key));
                false
            },
        }
    }

    /// Drops every bus.
    pub fn clear(&mut self)
        ensures
            final(self).wf(),
            final(self)@ == Subscriptions::empty(),
    {
        self.entries.clear();
        assert(self@ =~= Subscriptions::empty());
    }

    /// Publishes a value of `data` on the characteristic's bus if it has
    /// one, and says whether it had. Without a bus nothing happens.
    pub fn publish(&mut self, service: &String, characteristic: &String, data: &Vec<u8>) -> (published:
        bool)
        requires
            old(self).wf(),
        ensures
            final(self).wf(),
            published == old(self)@.contains_key((service@, characteristic@)),
            final(self)@ == if published {
                old(self)@.insert(
                    (service@, characteristic@),
                    old(self)@[(service@, characteristic@)].push(data@),
                )
            } else {
                old(self)@
            },
    {
        match self.find(service, characteristic) {
            Some(i) => {
                let ghost before = self.entries@;
                let ghost key = (service@, characteristic@);
                proof {
                    lemma_slot(before, i as int);
                }
                let event = ValueChangedEvent::ValueUpdated(copy_bytes(data));
                self.entries[i].bus.publish(event);
                proof {
                    let after = self.entries@;
                    assert(payloads(after[i as int].bus@) =~= payloads(before[i as int].bus@).push(
                        data@,
                    ));
                    assert forall|k: int| 0 <= k < after.len() implies key_at(after, k) == key_at(
                        before,
                        k,
                    ) by {}
                    assert(distinct_keys(after));
                    lemma_slot(after, i as int);
                    assert forall|other: SubscriptionKey| holds(after, other) == holds(
                        before,
                        other,
                    ) by {
                        if holds(before, other) {
                            assert(key_at(after, slot(before, other)) == other);
                        }
                        if holds(after, other) {
                            assert(key_at(before, slot(after, other)) == other);
                        }
                    }
                    assert forall|other: SubscriptionKey|
                        holds(before, other) && other != key implies as_map(after)[other]
                        == as_map(before)[other] by {
                        let k = slot(before, other);
                        lemma_slot(before, k);
                        lemma_slot(after, k);
                    }
                    assert(as_map(after) =~= as_map(before).insert(
                        key,
                        as_map(before)[key].push(data@),
                    ));
                }
                true
            },
            None => false,
        }
    }
}

} // verus!
