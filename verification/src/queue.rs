use crate::consumer::{Consumer, ConsumerChange};
use crate::message::{assemble, assembled, ContentPart, Delivery};
use vstd::prelude::*;

verus! {

/// The index of the first `true` in `flags`, or their number if there is
/// none.
pub open spec fn first_true(flags: Seq<bool>) -> int
    decreases flags.len(),
{
    if flags.len() == 0 {
        0
    } else {
        let before = first_true(flags.drop_last());
        if before < flags.len() - 1 {
            before
        } else if flags.last() {
            flags.len() - 1
        } else {
            flags.len() as int
        }
    }
}

/// `first_true` gives the least index that holds `true`.
pub proof fn lemma_first_true(flags: Seq<bool>)
    ensures
        0 <= first_true(flags) <= flags.len(),
        first_true(flags) < flags.len() ==> flags[first_true(flags)],
        forall|i: int| 0 <= i < first_true(flags) ==> !flags[i],
    decreases flags.len(),
{
    if flags.len() > 0 {
        let front = flags.drop_last();
        lemma_first_true(front);
        assert forall|i: int| 0 <= i < first_true(flags) implies !flags[i] by {
            if i < front.len() {
                assert(front[i] == flags[i]);
            }
        }
    }
}

/// A binding of a queue to an exchange.
#[derive(Debug, PartialEq)]
pub struct Binding {
    pub exchange: String,
    pub routing_key: String,
    pub nowait: bool,
    /// Whether the broker has confirmed the binding.
    pub active: bool,
}

impl Binding {
    pub fn new(exchange: String, routing_key: String, nowait: bool) -> (r: Self)
        ensures
            r.exchange == exchange,
            r.routing_key == routing_key,
            r.nowait == nowait,
            !r.active,
    {
        Binding { exchange, routing_key, nowait, active: false }
    }

    pub open spec fn has_key(self, exchange: Seq<char>, routing_key: Seq<char>) -> bool {
        self.exchange@ == exchange && self.routing_key@ == routing_key
    }

    pub fn matches_key(&self, exchange: &String, routing_key: &String) -> (r: bool)
        ensures
            r == self.has_key(exchange@, routing_key@),
    {
        self.exchange == *exchange && self.routing_key == *routing_key
    }
}

/// The bindings of `bindings` whose key is not the given one, in order.
pub open spec fn bindings_without(
    bindings: Seq<Binding>,
    exchange: Seq<char>,
    routing_key: Seq<char>,
) -> Seq<Binding>
    decreases bindings.len(),
{
    if bindings.len() == 0 {
        Seq::empty()
    } else if bindings.last().has_key(exchange, routing_key) {
        bindings_without(bindings.drop_last(), exchange, routing_key)
    } else {
        bindings_without(bindings.drop_last(), exchange, routing_key).push(bindings.last())
    }
}

/// What the channel knows of one queue.
#[derive(Debug, PartialEq)]
pub struct Queue {
    pub name: String,
    pub message_count: u32,
    pub consumer_count: u32,
    pub bindings: Vec<Binding>,
    pub consumers: Vec<Consumer>,
    /// The message of a Basic.Get that is being put together.
    pub current_get_message: Option<Delivery>,
    /// Whole messages of Basic.Get that the application has not taken.
    pub get_messages: Vec<Delivery>,
}

impl Queue {
    pub fn new(name: String, message_count: u32, consumer_count: u32) -> (r: Self)
        ensures
            r.name == name,
            r.message_count == message_count,
            r.consumer_count == consumer_count,
            r.bindings@.len() == 0,
            r.consumers@.len() == 0,
            r.current_get_message is None,
            r.get_messages@.len() == 0,
    {
        Queue {
            name,
            message_count,
            consumer_count,
            bindings: Vec::new(),
            consumers: Vec::new(),
            current_get_message: None,
            get_messages: Vec::new(),
        }
    }

    /// The index of the first consumer with this tag, or the number of
    /// consumers if none has it.
    pub open spec fn consumer_index(self, tag: Seq<char>) -> int {
        first_true(Seq::new(self.consumers@.len(), |j: int| self.consumers@[j].tag@ == tag))
    }

    pub open spec fn has_consumer(self, tag: Seq<char>) -> bool {
        self.consumer_index(tag) < self.consumers@.len()
    }

    /// Everything but the consumers is as in `other`.
    pub open spec fn same_but_consumers(self, other: Self) -> bool {
        &&& self.name == other.name
        &&& self.message_count == other.message_count
        &&& self.consumer_count == other.consumer_count
        &&& self.bindings == other.bindings
        &&& self.current_get_message == other.current_get_message
        &&& self.get_messages == other.get_messages
    }

    /// Everything but the bindings is as in `other`.
    pub open spec fn same_but_bindings(self, other: Self) -> bool {
        &&& self.name == other.name
        &&& self.message_count == other.message_count
        &&& self.consumer_count == other.consumer_count
        &&& self.consumers == other.consumers
        &&& self.current_get_message == other.current_get_message
        &&& self.get_messages == other.get_messages
    }

    /// Everything but the Basic.Get messages is as in `other`.
    pub open spec fn same_but_get(self, other: Self) -> bool {
        &&& self.name == other.name
        &&& self.message_count == other.message_count
        &&& self.consumer_count == other.consumer_count
        &&& self.consumers == other.consumers
        &&& self.bindings == other.bindings
    }

    pub fn find_consumer(&self, tag: &String) -> (r: Option<usize>)
        ensures
            r is Some == self.has_consumer(tag@),
            r is Some ==> r->0 == self.consumer_index(tag@),
    {
        let ghost flags = Seq::new(self.consumers@.len(), |j: int| self.consumers@[j].tag@ == tag@);
        let mut found: Option<usize> = None;
        let mut i: usize = 0;
        while i < self.consumers.len()
            invariant
                i <= self.consumers.len(),
                flags == Seq::new(self.consumers@.len(), |j: int| self.consumers@[j].tag@ == tag@),
                found is Some ==> found->0 < i && found->0 == first_true(flags.take(i as int)),
                found is None ==> first_true(flags.take(i as int)) == i,
            decreases self.consumers.len() - i,
        {
            proof {
                assert(flags.take(i + 1).drop_last() == flags.take(i as int));
            }
            if found.is_none() && self.consumers[i].tag == *tag {
                found = Some(i);
            }
            i += 1;
        }
        proof {
            assert(flags.take(i as int) == flags);
        }
        found
    }

    /// `after` is `before` with `consumer` added; it takes the place of
    /// the first consumer with its tag, if there is one.
    pub open spec fn consumer_registered(before: Self, after: Self, consumer: Consumer) -> bool {
        &&& after.same_but_consumers(before)
        &&& before.has_consumer(consumer.tag@) ==> after.consumers@ == before.consumers@.update(
            before.consumer_index(consumer.tag@),
            consumer,
        )
        &&& !before.has_consumer(consumer.tag@) ==> after.consumers@ == before.consumers@.push(
            consumer,
        )
    }

    /// `after` is `before` without the first consumer with this tag, and
    /// `removed` is that consumer, cancelled; or there is none and
    /// nothing changed.
    pub open spec fn consumer_deregistered(
        before: Self,
        after: Self,
        tag: Seq<char>,
        removed: Option<Consumer>,
    ) -> bool {
        let j = before.consumer_index(tag);
        &&& after.same_but_consumers(before)
        &&& removed is Some == before.has_consumer(tag)
        &&& removed is None ==> after.consumers == before.consumers
        &&& removed is Some ==> {
            &&& after.consumers@ == before.consumers@.remove(j)
            &&& removed->0.same_subscription(before.consumers@[j])
            &&& removed->0.stream() == before.consumers@[j].stream().cancelled()
            &&& removed->0.current_message is None
        }
    }

    /// `after` is `before` with `delivery` being put together for the
    /// first consumer with this tag; without such a consumer nothing
    /// changed.
    pub open spec fn consumer_delivery_started(
        before: Self,
        after: Self,
        tag: Seq<char>,
        delivery: Delivery,
    ) -> bool {
        let j = before.consumer_index(tag);
        &&& after.same_but_consumers(before)
        &&& !before.has_consumer(tag) ==> after.consumers == before.consumers
        &&& before.has_consumer(tag) ==> {
            &&& after.consumers@.len() == before.consumers@.len()
            &&& forall|k: int|
                0 <= k < before.consumers@.len() && k != j ==> after.consumers@[k]
                    == before.consumers@[k]
            &&& after.consumers@[j].current_message == Some(delivery)
            &&& after.consumers@[j].same_subscription(before.consumers@[j])
            &&& after.consumers@[j].stream() == before.consumers@[j].stream()
        }
    }

    /// Adds a consumer; one with the same tag is replaced.
    pub fn register_consumer(&mut self, consumer: Consumer)
        ensures
            Self::consumer_registered(*old(self), *final(self), consumer),
    {
        match self.find_consumer(&consumer.tag) {
            Some(j) => {
                self.consumers[j] = consumer;
            },
            None => {
                self.consumers.push(consumer);
            },
        }
    }

    /// Removes the consumer with this tag and hands it out, cancelled.
    pub fn deregister_consumer(&mut self, tag: &String) -> (r: Option<Consumer>)
        ensures
            Self::consumer_deregistered(*old(self), *final(self), tag@, r),
    {
        match self.find_consumer(tag) {
            Some(j) => {
                proof {
                    lemma_first_true(
                        Seq::new(self.consumers@.len(), |j: int| self.consumers@[j].tag@ == tag@),
                    );
                }
                let mut consumer = self.consumers.remove(j);
                consumer.cancel();
                Some(consumer)
            },
            None => None,
        }
    }

    /// `after` is `before` with every binding of this key marked as
    /// confirmed.
    pub open spec fn bindings_activated(
        before: Self,
        after: Self,
        exchange: Seq<char>,
        routing_key: Seq<char>,
    ) -> bool {
        &&& after.same_but_bindings(before)
        &&& after.bindings@.len() == before.bindings@.len()
        &&& forall|j: int|
            0 <= j < before.bindings@.len() ==> {
                let b = before.bindings@[j];
                let a = #[trigger] after.bindings@[j];
                &&& a.exchange == b.exchange
                &&& a.routing_key == b.routing_key
                &&& a.nowait == b.nowait
                &&& a.active == (b.active || b.has_key(exchange, routing_key))
            }
    }

    /// `after` is `before` without the bindings of this key.
    pub open spec fn bindings_removed(
        before: Self,
        after: Self,
        exchange: Seq<char>,
        routing_key: Seq<char>,
    ) -> bool {
        &&& after.same_but_bindings(before)
        &&& after.bindings@ == bindings_without(before.bindings@, exchange, routing_key)
    }

    /// Records a binding that the broker has not confirmed yet.
    pub fn add_binding(&mut self, binding: Binding)
        ensures
            final(self).same_but_bindings(*old(self)),
            final(self).bindings@ == old(self).bindings@.push(binding),
    {
        self.bindings.push(binding);
    }

    /// Marks every binding with this key as confirmed.
    pub fn activate_bindings(&mut self, exchange: &String, routing_key: &String)
        ensures
            Self::bindings_activated(*old(self), *final(self), exchange@, routing_key@),
    {
        let mut j: usize = 0;
        while j < self.bindings.len()
            invariant
                j <= self.bindings.len(),
                self.same_but_bindings(*old(self)),
                self.bindings@.len() == old(self).bindings@.len(),
                forall|k: int| j <= k < self.bindings@.len() ==> self.bindings@[k] == old(self).bindings@[k],
                forall|k: int|
                    0 <= k < j ==> {
                        let before = old(self).bindings@[k];
                        let after = #[trigger] self.bindings@[k];
                        &&& after.exchange == before.exchange
                        &&& after.routing_key == before.routing_key
                        &&& after.nowait == before.nowait
                        &&& after.active == (before.active || before.has_key(
                            exchange@,
                            routing_key@,
                        ))
                    },
            decreases self.bindings.len() - j,
        {
            if self.bindings[j].matches_key(exchange, routing_key) {
                self.bindings[j].active = true;
            }
            j += 1;
        }
    }

    /// Removes every binding with this key.
    pub fn remove_bindings(&mut self, exchange: &String, routing_key: &String)
        ensures
            Self::bindings_removed(*old(self), *final(self), exchange@, routing_key@),
    {
        let mut all: Vec<Binding> = Vec::new();
        std::mem::swap(&mut all, &mut self.bindings);
        let ghost before = all@;
        let mut rest: Vec<Binding> = Vec::new();
        let n = all.len();
        let mut taken: usize = 0;
        while taken < n
            invariant
                taken <= n,
                n == before.len(),
                all@ == before.skip(taken as int),
                rest@ == bindings_without(before.take(taken as int), exchange@, routing_key@),
                self.same_but_bindings(*old(self)),
            decreases n - taken,
        {
            let binding = all.remove(0);
            proof {
                assert(all@ == before.skip(taken + 1));
                assert(before.take(taken + 1).drop_last() == before.take(taken as int));
                assert(binding == before[taken as int]);
            }
            if !binding.matches_key(exchange, routing_key) {
                rest.push(binding);
            }
            taken += 1;
        }
        proof {
            assert(before.take(taken as int) == before);
        }
        self.bindings = rest;
    }

    /// Applies `change` to every consumer of the queue.
    pub fn change_consumers(&mut self, change: &ConsumerChange)
        ensures
            Self::consumers_changed(*old(self), *final(self), *change),
    {
        let mut j: usize = 0;
        while j < self.consumers.len()
            invariant
                j <= self.consumers.len(),
                self.same_but_consumers(*old(self)),
                self.consumers@.len() == old(self).consumers@.len(),
                forall|k: int|
                    j <= k < self.consumers@.len() ==> self.consumers@[k] == old(self).consumers@[k],
                forall|k: int|
                    0 <= k < j ==> Consumer::changed(
                        old(self).consumers@[k],
                        #[trigger] self.consumers@[k],
                        *change,
                    ),
            decreases self.consumers.len() - j,
        {
            self.consumers[j].apply(change);
            j += 1;
        }
    }

    /// `after` is `before` with `change` applied to every consumer.
    pub open spec fn consumers_changed(before: Self, after: Self, change: ConsumerChange) -> bool {
        &&& after.same_but_consumers(before)
        &&& after.consumers@.len() == before.consumers@.len()
        &&& forall|k: int|
            0 <= k < before.consumers@.len() ==> Consumer::changed(
                before.consumers@[k],
                #[trigger] after.consumers@[k],
                change,
            )
    }

    /// A Basic.Deliver for the consumer with this tag arrived: `delivery`
    /// is the one being put together for it from now on. Without such a
    /// consumer nothing changes.
    pub fn start_consumer_delivery(&mut self, tag: &String, delivery: Delivery) -> (r: bool)
        ensures
            r == old(self).has_consumer(tag@),
            Self::consumer_delivery_started(*old(self), *final(self), tag@, delivery),
    {
        match self.find_consumer(tag) {
            Some(j) => {
                self.consumers[j].start_delivery(delivery);
                true
            },
            None => false,
        }
    }

    /// A part of the content for the consumer with this tag arrived.
    /// Without such a consumer nothing changes.
    pub fn receive_consumer_part(&mut self, tag: &String, part: ContentPart, complete: bool)
        ensures
            Self::consumer_part_received(*old(self), *final(self), tag@, part, complete),
    {
        match self.find_consumer(tag) {
            Some(j) => {
                self.consumers[j].receive_part(part, complete);
            },
            None => {},
        }
    }

    /// `after` is `before` with a part of a content taken in by the
    /// consumer with this tag.
    pub open spec fn consumer_part_received(
        before: Self,
        after: Self,
        tag: Seq<char>,
        part: ContentPart,
        complete: bool,
    ) -> bool {
        let j = before.consumer_index(tag);
        &&& after.same_but_consumers(before)
        &&& after.consumers@.len() == before.consumers@.len()
        &&& forall|k: int|
            0 <= k < before.consumers@.len() && k != j ==> after.consumers@[k]
                == before.consumers@[k]
        &&& before.has_consumer(tag) ==> {
            &&& after.consumers@[j].same_subscription(before.consumers@[j])
            &&& after.consumers@[j].canceled == before.consumers@[j].canceled
            &&& after.consumers@[j].error == before.consumers@[j].error
            &&& assembled(
                before.consumers@[j].current_message,
                before.consumers@[j].deliveries@,
                after.consumers@[j].current_message,
                after.consumers@[j].deliveries@,
                part,
                complete,
            )
        }
    }

    /// A part of the content of the Basic.Get message arrived.
    pub fn receive_get_part(&mut self, part: ContentPart, complete: bool)
        ensures
            Self::get_part_received(*old(self), *final(self), part, complete),
    {
        assemble(&mut self.current_get_message, &mut self.get_messages, part, complete);
    }

    /// `after` is `before` with a part of a content taken in by the
    /// Basic.Get message being put together.
    pub open spec fn get_part_received(
        before: Self,
        after: Self,
        part: ContentPart,
        complete: bool,
    ) -> bool {
        &&& after.same_but_get(before)
        &&& assembled(
            before.current_get_message,
            before.get_messages@,
            after.current_get_message,
            after.get_messages@,
            part,
            complete,
        )
    }

    /// A Basic.Get-Ok arrived: `delivery` is the message being put
    /// together from now on.
    pub fn start_get_delivery(&mut self, delivery: Delivery)
        ensures
            final(self).same_but_get(*old(self)),
            final(self).current_get_message == Some(delivery),
            final(self).get_messages == old(self).get_messages,
    {
        self.current_get_message = Some(delivery);
    }
}

} // verus!
