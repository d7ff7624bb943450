//! The publishers and subscribers of one agent.
//!
//! An agent has at most one publisher and at most one subscriber per exact
//! topic text; declaring again under a topic replaces what was there. The
//! handles that the bus gave and the callbacks that the user gave are kept
//! as they came, whatever their types are.
use crate::error::FabricError;
use crate::registry::{lemma_slot_of_found, lemma_slot_of_position, slot_of, Registry};
use crate::topic::{key_expr_valid, key_exprs_intersect, reaches, validate_key_expr};
use vstd::prelude::*;

verus! {

/// One message for the bus: the key to put on and the bytes to put.
#[derive(Debug, PartialEq, Eq)]
pub struct Put {
    pub key_expr: String,
    pub payload: Vec<u8>,
}

/// A publisher of an agent: the topic it was declared on and the handle that
/// the bus gave for it.
pub struct Publisher<H> {
    pub topic: String,
    pub handle: H,
}

/// A subscriber of an agent: the key expression it was declared on, the
/// callback to call for each sample that reaches it, and the handle that the
/// bus gave for it.
pub struct Subscriber<C, H> {
    pub topic: String,
    pub callback: C,
    pub handle: H,
}

/// What `publish` hands to the bus: the publisher to put on and the bytes to
/// put.
pub struct Outgoing<'a, H> {
    pub publisher: &'a H,
    pub payload: Vec<u8>,
}

/// The publishers and subscribers of one agent.
pub struct Endpoints<P, C, S> {
    publishers: Registry<Publisher<P>>,
    subscribers: Registry<Subscriber<C, S>>,
}

/// The positions in `topics` of the subscriptions that a sample on `key`
/// reaches, in rising order.
pub open spec fn reached_slots(topics: Seq<Seq<char>>, key: Seq<char>) -> Seq<int>
    decreases topics.len(),
{
    if topics.len() == 0 {
        Seq::empty()
    } else if reaches(topics.last(), key) {
        reached_slots(topics.drop_last(), key).push(topics.len() - 1)
    } else {
        reached_slots(topics.drop_last(), key)
    }
}

/// Every reached slot is a position of `topics` whose subscription the sample
/// reaches, the slots rise, and no such position is left out.
pub proof fn lemma_reached_slots(topics: Seq<Seq<char>>, key: Seq<char>)
    ensures
        forall|j: int|
            0 <= j < reached_slots(topics, key).len() ==> 0 <= (#[trigger] reached_slots(
                topics,
                key,
            )[j]) < topics.len() && reaches(topics[reached_slots(topics, key)[j]], key),
        forall|a: int, b: int|
            0 <= a < b < reached_slots(topics, key).len() ==> reached_slots(topics, key)[a]
                < reached_slots(topics, key)[b],
        forall|i: int|
            0 <= i < topics.len() && reaches(topics[i], key) ==> reached_slots(
                topics,
                key,
            ).contains(i),
    decreases topics.len(),
{
    if topics.len() > 0 {
        let front = topics.drop_last();
        lemma_reached_slots(front, key);
        let before = reached_slots(front, key);
        let all = reached_slots(topics, key);
        let last = topics.len() - 1;
        assert forall|j: int| 0 <= j < before.len() implies topics[before[j]] == front[before[j]]
        by {}
        if reaches(topics.last(), key) {
            assert(all == before.push(last));
            assert forall|i: int|
                0 <= i < topics.len() && reaches(topics[i], key) implies all.contains(i) by {
                if i == last {
                    assert(all[before.len() as int] == last);
                } else {
                    assert(front[i] == topics[i]);
                    assert(reaches(front[i], key));
                    assert(before.contains(i));
                    let j = choose|j: int| 0 <= j < before.len() && before[j] == i;
                    assert(all[j] == i);
                }
            }
        } else {
            assert forall|i: int|
                0 <= i < topics.len() && reaches(topics[i], key) implies all.contains(i) by {
                assert(front[i] == topics[i]);
                assert(reaches(front[i], key));
                assert(before.contains(i));
            }
        }
    }
}

impl<P, C, S> Endpoints<P, C, S> {
    /// The topics that have a publisher, in the order they were first
    /// declared.
    pub closed spec fn publisher_topics(&self) -> Seq<Seq<char>> {
        self.publishers.keys()
    }

    /// The publishers, each at the position of its topic.
    pub closed spec fn publisher_entries(&self) -> Seq<Publisher<P>> {
        self.publishers.values()
    }

    /// The publishers by topic.
    pub closed spec fn publishers(&self) -> Map<Seq<char>, Publisher<P>> {
        self.publishers.map()
    }

    /// The key expressions that have a subscriber, in the order they were
    /// first declared.
    pub closed spec fn subscriber_topics(&self) -> Seq<Seq<char>> {
        self.subscribers.keys()
    }

    /// The subscribers, each at the position of its key expression.
    pub closed spec fn subscriber_entries(&self) -> Seq<Subscriber<C, S>> {
        self.subscribers.values()
    }

    /// The subscribers by key expression.
    pub closed spec fn subscribers(&self) -> Map<Seq<char>, Subscriber<C, S>> {
        self.subscribers.map()
    }

    /// No topic occurs twice, every entry stands under the topic it names, and
    /// every topic is a key expression.
    pub closed spec fn wf(&self) -> bool {
        &&& self.publishers.wf()
        &&& self.subscribers.wf()
        &&& forall|i: int|
            0 <= i < self.publishers.keys().len() ==> key_expr_valid(
                #[trigger] self.publishers.keys()[i],
            ) && self.publishers.values()[i].topic@ == self.publishers.keys()[i]
        &&& forall|i: int|
            0 <= i < self.subscribers.keys().len() ==> key_expr_valid(
                #[trigger] self.subscribers.keys()[i],
            ) && self.subscribers.values()[i].topic@ == self.subscribers.keys()[i]
    }

    /// The callbacks that a sample on `key` is delivered to: those of the
    /// subscribers that it reaches, in the order of the subscribers.
    pub open spec fn deliveries(&self, key: Seq<char>) -> Seq<C> {
        reached_slots(self.subscriber_topics(), key).map_values(
            |i: int| self.subscriber_entries()[i].callback,
        )
    }

    /// Whether `self` is `before` with a subscriber declared on `topic`: the
    /// new entry stands under `topic`, in the place of the entry that stood
    /// there or, where none did, behind all others; nothing else differs
    /// among the subscribers.
    pub open spec fn subscribed_from(
        &self,
        before: &Self,
        topic: String,
        callback: C,
        handle: S,
    ) -> bool {
        &&& self.subscribers() == before.subscribers().insert(
            topic@,
            (Subscriber { topic, callback, handle }),
        )
        &&& match slot_of(before.subscriber_topics(), topic@) {
            Some(i) => {
                &&& self.subscriber_topics() == before.subscriber_topics()
                &&& self.subscriber_entries() == before.subscriber_entries().update(
                    i,
                    (Subscriber { topic, callback, handle }),
                )
            },
            None => {
                &&& self.subscriber_topics() == before.subscriber_topics().push(topic@)
                &&& self.subscriber_entries() == before.subscriber_entries().push(
                    (Subscriber { topic, callback, handle }),
                )
            },
        }
    }

    /// What holds of every well-formed value: as many entries as topics, no
    /// topic twice, and the maps hold what the entries hold.
    pub proof fn lemma_wf(&self)
        requires
            self.wf(),
        ensures
            self.publisher_topics().len() == self.publisher_entries().len(),
            self.subscriber_topics().len() == self.subscriber_entries().len(),
            self.publisher_topics().no_duplicates(),
            self.subscriber_topics().no_duplicates(),
            forall|i: int|
                0 <= i < self.publisher_topics().len() ==> key_expr_valid(
                    #[trigger] self.publisher_topics()[i],
                ) && self.publisher_entries()[i].topic@ == self.publisher_topics()[i],
            forall|i: int|
                0 <= i < self.subscriber_topics().len() ==> key_expr_valid(
                    #[trigger] self.subscriber_topics()[i],
                ) && self.subscriber_entries()[i].topic@ == self.subscriber_topics()[i],
            forall|t: Seq<char>|
                self.publishers().contains_key(t) <==> self.publisher_topics().contains(t),
            forall|t: Seq<char>|
                self.subscribers().contains_key(t) <==> self.subscriber_topics().contains(t),
            forall|i: int|
                0 <= i < self.subscriber_topics().len() ==> self.subscribers()[
                #[trigger] self.subscriber_topics()[i]] == self.subscriber_entries()[i],
            forall|i: int|
                0 <= i < self.publisher_topics().len() ==> self.publishers()[
                #[trigger] self.publisher_topics()[i]] == self.publisher_entries()[i],
    {
        assert forall|i: int| 0 <= i < self.subscriber_topics().len() implies self.subscribers()[
        #[trigger] self.subscriber_topics()[i]] == self.subscriber_entries()[i] by {
            lemma_slot_of_position(self.subscribers.keys(), i);
        }
        assert forall|i: int| 0 <= i < self.publisher_topics().len() implies self.publishers()[
        #[trigger] self.publisher_topics()[i]] == self.publisher_entries()[i] by {
            lemma_slot_of_position(self.publishers.keys(), i);
        }
    }

    /// An agent's endpoints before anything is declared.
    pub fn new() -> (endpoints: Self)
        ensures
            endpoints.wf(),
            endpoints.publisher_topics().len() == 0,
            endpoints.subscriber_topics().len() == 0,
            endpoints.publishers() == Map::<Seq<char>, Publisher<P>>::empty(),
            endpoints.subscribers() == Map::<Seq<char>, Subscriber<C, S>>::empty(),
    {
        Endpoints { publishers: Registry::new(), subscribers: Registry::new() }
    }

    /// The number of publishers.
    pub fn publisher_count(&self) -> (n: usize)
        requires
            self.wf(),
        ensures
            n == self.publisher_topics().len(),
    {
        self.publishers.len()
    }

    /// The number of subscribers.
    pub fn subscriber_count(&self) -> (n: usize)
        requires
            self.wf(),
        ensures
            n == self.subscriber_topics().len(),
    {
        self.subscribers.len()
    }

    /// Whether `topic` has a publisher.
    pub fn has_publisher(&self, topic: &str) -> (has: bool)
        requires
            self.wf(),
        ensures
            has == self.publishers().contains_key(topic@),
    {
        self.publishers.contains_key(topic)
    }

    /// The subscriber declared on exactly `topic`, if there is one.
    pub fn subscriber(&self, topic: &str) -> (found: Option<&Subscriber<C, S>>)
        requires
            self.wf(),
        ensures
            match found {
                Some(entry) => self.subscribers().contains_key(topic@) && *entry
                    == self.subscribers()[topic@],
                None => !self.subscribers().contains_key(topic@),
            },
    {
        self.subscribers.get(topic)
    }

    /// The subscriber at position `i`.
    pub fn subscriber_at(&self, i: usize) -> (entry: &Subscriber<C, S>)
        requires
            self.wf(),
            i < self.subscriber_topics().len(),
        ensures
            *entry == self.subscriber_entries()[i as int],
    {
        self.subscribers.value_at(i)
    }

    /// Records the publisher that the bus declared on `topic`. A publisher
    /// that was there under the same topic is replaced. Fails, and changes
    /// nothing, exactly where `topic` is no key expression.
    pub fn create_publisher(&mut self, topic: String, handle: P) -> (done: Result<(), FabricError>)
        requires
            old(self).wf(),
        ensures
            final(self).wf(),
            final(self).subscribers() == old(self).subscribers(),
            final(self).subscriber_topics() == old(self).subscriber_topics(),
            final(self).subscriber_entries() == old(self).subscriber_entries(),
            match done {
                Ok(()) => {
                    &&& key_expr_valid(topic@)
                    &&& final(self).publishers() == old(self).publishers().insert(
                        topic@,
                        (Publisher { topic, handle }),
                    )
                },
                Err(e) => {
                    &&& !key_expr_valid(topic@)
                    &&& e is ZenohError
                    &&& final(self).publishers() == old(self).publishers()
                    &&& final(self).publisher_topics() == old(self).publisher_topics()
                    &&& final(self).publisher_entries() == old(self).publisher_entries()
                },
            },
    {
        match validate_key_expr(topic.as_str()) {
            Err(e) => Err(e),
            Ok(()) => {
                proof {
                    if old(self).publishers.keys().contains(topic@) {
                        lemma_slot_of_found(old(self).publishers.keys(), topic@);
                    }
                }
                let key = topic.clone();
                self.publishers.insert(key, Publisher { topic, handle });
                Ok(())
            },
        }
    }

    /// Decides what `publish` puts on the bus: the bytes as they are, on the
    /// publisher declared for `topic`. Fails exactly where `topic` has no
    /// publisher.
    pub fn publish(&self, topic: &str, data: Vec<u8>) -> (put: Result<Outgoing<'_, P>, FabricError>)
        requires
            self.wf(),
        ensures
            match put {
                Ok(out) => {
                    &&& self.publishers().contains_key(topic@)
                    &&& *out.publisher == self.publishers()[topic@].handle
                    &&& out.payload == data
                },
                Err(e) => {
                    &&& !self.publishers().contains_key(topic@)
                    &&& e matches FabricError::PublisherNotFound(named)
                    &&& named@ == topic@
                },
            },
    {
        match self.publishers.get(topic) {
            Some(entry) => Ok(Outgoing { publisher: &entry.handle, payload: data }),
            None => Err(FabricError::PublisherNotFound(topic.to_owned())),
        }
    }

    /// Records the subscriber that the bus declared on `topic`, with the
    /// callback to call for its samples. A subscriber that was there under
    /// the same text is replaced, callback and handle. Fails, and changes
    /// nothing, exactly where `topic` is no key expression.
    pub fn create_subscriber(&mut self, topic: String, callback: C, handle: S) -> (done: Result<
        (),
        FabricError,
    >)
        requires
            old(self).wf(),
        ensures
            final(self).wf(),
            final(self).publishers() == old(self).publishers(),
            final(self).publisher_topics() == old(self).publisher_topics(),
            final(self).publisher_entries() == old(self).publisher_entries(),
            match done {
                Ok(()) => {
                    &&& key_expr_valid(topic@)
                    &&& final(self).subscribed_from(old(self), topic, callback, handle)
                },
                Err(e) => {
                    &&& !key_expr_valid(topic@)
                    &&& e is ZenohError
                    &&& final(self).subscribers() == old(self).subscribers()
                    &&& final(self).subscriber_topics() == old(self).subscriber_topics()
                    &&& final(self).subscriber_entries() == old(self).subscriber_entries()
                },
            },
    {
        match validate_key_expr(topic.as_str()) {
            Err(e) => Err(e),
            Ok(()) => {
                proof {
                    if old(self).subscribers.keys().contains(topic@) {
                        lemma_slot_of_found(old(self).subscribers.keys(), topic@);
                    }
                }
                let key = topic.clone();
                self.subscribers.insert(key, Subscriber { topic, callback, handle });
                Ok(())
            },
        }
    }

    /// Takes the subscriber declared on exactly `topic` out and hands it
    /// back, for its handle to be undeclared. Changes nothing where there is
    /// none.
    pub fn unsubscribe(&mut self, topic: &str) -> (removed: Option<Subscriber<C, S>>)
        requires
            old(self).wf(),
        ensures
            final(self).wf(),
            final(self).publishers() == old(self).publishers(),
            final(self).publisher_topics() == old(self).publisher_topics(),
            final(self).publisher_entries() == old(self).publisher_entries(),
            final(self).subscribers() == old(self).subscribers().remove(topic@),
            match removed {
                Some(entry) => {
                    &&& old(self).subscribers().contains_key(topic@)
                    &&& entry == old(self).subscribers()[topic@]
                },
                None => {
                    &&& !old(self).subscribers().contains_key(topic@)
                    &&& final(self).subscriber_topics() == old(self).subscriber_topics()
                    &&& final(self).subscriber_entries() == old(self).subscriber_entries()
                },
            },
    {
        self.subscribers.remove(topic)
    }

    /// The positions of the subscribers that a sample on `key_expr` reaches,
    /// in rising order.
    pub fn reached_subscribers(&self, key_expr: &str) -> (slots: Vec<usize>)
        requires
            self.wf(),
        ensures
            slots@.map_values(|i: usize| i as int) == reached_slots(
                self.subscriber_topics(),
                key_expr@,
            ),
            forall|j: int| 0 <= j < slots.len() ==> slots[j] < self.subscriber_topics().len(),
    {
        let ghost topics = self.subscriber_topics();
        let mut slots: Vec<usize> = Vec::new();
        let mut at: usize = 0;
        proof {
            assert(topics.take(0) =~= Seq::<Seq<char>>::empty());
        }
        while at < self.subscribers.len()
            invariant
                self.wf(),
                topics == self.subscriber_topics(),
                0 <= at <= topics.len(),
                slots@.map_values(|i: usize| i as int) == reached_slots(
                    topics.take(at as int),
                    key_expr@,
                ),
                forall|j: int| 0 <= j < slots.len() ==> slots[j] < at,
            decreases topics.len() - at,
        {
            let ghost before = topics.take(at as int);
            let ghost now = topics.take(at + 1);
            proof {
                assert(now.drop_last() =~= before);
                assert(now.last() == topics[at as int]);
            }
            if key_exprs_intersect(self.subscribers.key_at(at).as_str(), key_expr) {
                proof {
                    assert(slots@.push(at).map_values(|i: usize| i as int) =~= slots@.map_values(
                        |i: usize| i as int,
                    ).push(at as int));
                }
                slots.push(at);
            }
            at = at + 1;
        }
        proof {
            assert(topics.take(at as int) =~= topics);
        }
        slots
    }

    /// The callbacks to call for a sample on `key_expr`: one for every
    /// subscriber whose key expression the sample's key intersects, in the
    /// order of the subscribers. A sample may so reach several callbacks.
    pub fn handle_subscriber_sample(&self, key_expr: &str) -> (callbacks: Vec<&C>)
        requires
            self.wf(),
        ensures
            callbacks@.map_values(|c: &C| *c) == self.deliveries(key_expr@),
    {
        let slots = self.reached_subscribers(key_expr);
        let ghost wanted = reached_slots(self.subscriber_topics(), key_expr@);
        let mut callbacks: Vec<&C> = Vec::new();
        let mut at: usize = 0;
        while at < slots.len()
            invariant
                self.wf(),
                0 <= at <= slots.len(),
                wanted == slots@.map_values(|i: usize| i as int),
                forall|j: int| 0 <= j < slots.len() ==> slots[j] < self.subscriber_topics().len(),
                callbacks.len() == at,
                forall|j: int|
                    0 <= j < at ==> *callbacks[j] == self.subscriber_entries()[wanted[j]].callback,
            decreases slots.len() - at,
        {
            assert(wanted[at as int] == slots[at as int] as int);
            let entry = self.subscribers.value_at(slots[at]);
            callbacks.push(&entry.callback);
            at = at + 1;
        }
        assert(callbacks@.map_values(|c: &C| *c) =~= self.deliveries(key_expr@));
        callbacks
    }

    /// Empties both registries and hands back what they held, for the handles
    /// to be undeclared.
    pub fn close(&mut self) -> (held: (Vec<Publisher<P>>, Vec<Subscriber<C, S>>))
        requires
            old(self).wf(),
        ensures
            final(self).wf(),
            final(self).publisher_topics().len() == 0,
            final(self).subscriber_topics().len() == 0,
            held.0@ == old(self).publisher_entries(),
            held.1@ == old(self).subscriber_entries(),
    {
        let publishers = self.publishers.drain();
        let subscribers = self.subscribers.drain();
        (publishers.1, subscribers.1)
    }
}

/// If exactly one position of `topics` holds a subscription that a sample on
/// `key` reaches, that position is all that is reached.
pub proof fn lemma_single_reached_slot(topics: Seq<Seq<char>>, key: Seq<char>, only: int)
    requires
        0 <= only < topics.len(),
        reaches(topics[only], key),
        forall|i: int| 0 <= i < topics.len() && i != only ==> !reaches(topics[i], key),
    ensures
        reached_slots(topics, key) == seq![only],
{
    lemma_reached_slots(topics, key);
    let slots = reached_slots(topics, key);
    assert(slots.contains(only));
    assert forall|j: int| 0 <= j < slots.len() implies slots[j] == only by {
        assert(reaches(topics[slots[j]], key));
    }
    if slots.len() > 1 {
        assert(slots[0] < slots[1]);
    }
    assert(slots =~= seq![only]);
}

/// Subscribing twice under the same topic leaves one subscriber there, with
/// the second callback.
///
/// Let `twice` be `start` after a subscriber with callback `first` and then a
/// subscriber with callback `second` were declared on the same topic. Then
/// the topic has one entry, which holds `second`. And where a sample on that
/// topic reaches the topic's own subscription and no subscription that
/// `start` had under another topic, the sample is delivered to `second` and
/// to nothing else.
pub proof fn lemma_resubscribe_replaces<P, C, S>(
    start: Endpoints<P, C, S>,
    once: Endpoints<P, C, S>,
    twice: Endpoints<P, C, S>,
    topic: String,
    again: String,
    first: C,
    first_handle: S,
    second: C,
    second_handle: S,
)
    requires
        start.wf(),
        once.wf(),
        twice.wf(),
        topic@ == again@,
        once.subscribed_from(&start, topic, first, first_handle),
        twice.subscribed_from(&once, again, second, second_handle),
    ensures
        twice.subscribers().contains_key(topic@),
        twice.subscribers()[topic@].callback == second,
        twice.subscriber_topics() == once.subscriber_topics(),
        twice.subscriber_topics().no_duplicates(),
        reaches(topic@, topic@) && (forall|i: int|
            0 <= i < start.subscriber_topics().len() && start.subscriber_topics()[i] != topic@
                ==> !reaches(#[trigger] start.subscriber_topics()[i], topic@))
            ==> twice.deliveries(topic@) == seq![second],
{
    start.lemma_wf();
    once.lemma_wf();
    twice.lemma_wf();
    let topics = twice.subscriber_topics();
    assert(once.subscribers().contains_key(topic@));
    assert(once.subscriber_topics().contains(topic@));
    let at = once.subscriber_topics().index_of(topic@);
    lemma_slot_of_found(once.subscriber_topics(), topic@);
    assert(topics == once.subscriber_topics());
    assert(twice.subscriber_entries()[at].callback == second);
    if reaches(topic@, topic@) && (forall|i: int|
        0 <= i < start.subscriber_topics().len() && start.subscriber_topics()[i] != topic@
            ==> !reaches(#[trigger] start.subscriber_topics()[i], topic@)) {
        assert forall|i: int| 0 <= i < topics.len() && i != at implies !reaches(
            topics[i],
            topic@,
        ) by {
            assert(topics[i] != topic@);
            if start.subscriber_topics().contains(topic@) {
                lemma_slot_of_found(start.subscriber_topics(), topic@);
                assert(topics[i] == start.subscriber_topics()[i]);
            } else {
                assert(topics == start.subscriber_topics().push(topic@));
                if i < start.subscriber_topics().len() {
                    assert(topics[i] == start.subscriber_topics()[i]);
                }
            }
        }
        lemma_single_reached_slot(topics, topic@, at);
        assert(twice.deliveries(topic@) =~= seq![second]);
    }
}

} // verus!
