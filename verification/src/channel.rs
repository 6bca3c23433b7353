use crate::acknowledgement::{
    lemma_all_keeps_none, Acknowledgements, Confirmation, DeliveryTag, Resolution, Selection,
};
use crate::api::Answer;
use crate::consumer::{Consumer, ConsumerChange};
use crate::error::{AMQPError, ChannelState, Error};
use crate::frames::{Frame, Method};
use crate::id_sequence::IdSequence;
use crate::message::{BasicReturnMessage, ContentPart, Delivery};
use crate::protocol::{
    hard_error_code, hard_error_id, precondition_failed_code, HardError, BASIC_CLASS,
};
use crate::queue::{first_true, lemma_first_true, Binding, Queue};
use crate::returned_messages::ReturnedMessages;
use amq_protocol::protocol::basic::AMQPProperties;
use amq_protocol::types::FieldTable;
use vstd::prelude::*;

verus! {

/// The parts of a channel that an operation may touch.
pub struct Parts {
    pub frame_queue: bool,
    pub state: bool,
    pub flow: bool,
    pub queues: bool,
    pub prefetch: bool,
    pub awaiting: bool,
    pub confirm: bool,
    pub acknowledgements: bool,
    pub delivery_tag: bool,
    pub returned_messages: bool,
}

impl Parts {
    pub open spec fn none() -> Parts {
        Parts {
            frame_queue: false,
            state: false,
            flow: false,
            queues: false,
            prefetch: false,
            awaiting: false,
            confirm: false,
            acknowledgements: false,
            delivery_tag: false,
            returned_messages: false,
        }
    }
}

/// `r` is a protocol error with this reply code.
pub open spec fn is_protocol_error(r: Result<(), Error>, code: u16) -> bool {
    &&& r is Err
    &&& r->Err_0 is ProtocolError
    &&& r->Err_0->ProtocolError_0.code == code
}

/// One channel of a connection: its state, the replies it awaits, what it
/// knows of its queues and consumers, and its publisher confirms.
pub struct Channel {
    pub id: u16,
    pub state: ChannelState,
    /// Methods that arrived and were set aside.
    pub frame_queue: Vec<Frame>,
    pub send_flow: bool,
    pub receive_flow: bool,
    pub queues: Vec<Queue>,
    pub prefetch_size: u32,
    pub prefetch_count: u16,
    /// The replies that the channel awaits, oldest first.
    pub awaiting: Vec<Answer>,
    /// Whether the broker confirms the publishes on this channel.
    pub confirm: bool,
    pub acknowledgements: Acknowledgements,
    pub delivery_tag: IdSequence,
    pub returned_messages: ReturnedMessages,
}

impl Channel {
    /// Outside of `parts`, the channel is as `other`. The id is never
    /// among the parts.
    pub open spec fn same_outside(self, other: Self, parts: Parts) -> bool {
        &&& self.id == other.id
        &&& parts.frame_queue || self.frame_queue == other.frame_queue
        &&& parts.state || self.state == other.state
        &&& parts.flow || (self.send_flow == other.send_flow && self.receive_flow
            == other.receive_flow)
        &&& parts.queues || self.queues == other.queues
        &&& parts.prefetch || (self.prefetch_size == other.prefetch_size && self.prefetch_count
            == other.prefetch_count)
        &&& parts.awaiting || self.awaiting == other.awaiting
        &&& parts.confirm || self.confirm == other.confirm
        &&& parts.acknowledgements || self.acknowledgements == other.acknowledgements
        &&& parts.delivery_tag || self.delivery_tag == other.delivery_tag
        &&& parts.returned_messages || self.returned_messages == other.returned_messages
    }

    /// A channel with this id that has not been opened: nothing is
    /// queued, awaited, known, pending or returned, the flow is free in
    /// both directions, and publishes are not confirmed.
    pub open spec fn is_new(self, channel_id: u16) -> bool {
        &&& self.id == channel_id
        &&& self.state == ChannelState::Initial
        &&& self.frame_queue@.len() == 0
        &&& self.send_flow && self.receive_flow
        &&& self.queues@.len() == 0
        &&& self.prefetch_size == 0 && self.prefetch_count == 0
        &&& self.awaiting@.len() == 0
        &&& !self.confirm
        &&& self.acknowledgements.pending@.len() == 0
        &&& self.acknowledgements.resolved@.len() == 0
        &&& self.acknowledgements.channel_error is None
        &&& self.delivery_tag == (IdSequence { allow_zero: false, id: 0 })
        &&& self.returned_messages.current_message is None
        &&& self.returned_messages.non_confirm_messages@.len() == 0
        &&& self.returned_messages.waiting_messages@.len() == 0
        &&& self.returned_messages.refused@.len() == 0
    }

    pub fn new(channel_id: u16) -> (r: Channel)
        ensures
            r.is_new(channel_id),
    {
        Channel {
            id: channel_id,
            state: ChannelState::Initial,
            frame_queue: Vec::new(),
            send_flow: true,
            receive_flow: true,
            queues: Vec::new(),
            prefetch_size: 0,
            prefetch_count: 0,
            awaiting: Vec::new(),
            confirm: false,
            acknowledgements: Acknowledgements::new(),
            delivery_tag: IdSequence::new(false),
            returned_messages: ReturnedMessages::new(),
        }
    }

    /// The channel with id 0, which carries the connection's own methods.
    pub fn global() -> (r: Channel)
        ensures
            r.is_new(0),
    {
        Channel::new(0)
    }

    pub fn id(&self) -> (r: u16)
        ensures
            r == self.id,
    {
        self.id
    }

    pub fn status(&self) -> (r: &ChannelState)
        ensures
            *r == self.state,
    {
        &self.state
    }

    /// Sets a method that arrived aside, behind those set aside before.
    pub fn received_method(&mut self, m: Method)
        ensures
            final(self).frame_queue@ == old(self).frame_queue@.push(Frame::Method(old(self).id, m)),
            final(self).same_outside(*old(self), Parts { frame_queue: true, ..Parts::none() }),
    {
        self.frame_queue.push(Frame::Method(self.id, m));
    }

    /// Whether the channel has been opened and neither closed nor failed.
    pub open spec fn connected(self) -> bool {
        !(self.state is Initial) && !(self.state is Closed) && !(self.state is Error)
    }

    pub fn is_connected(&self) -> (r: bool)
        ensures
            r == self.connected(),
    {
        match &self.state {
            ChannelState::Initial => false,
            ChannelState::Closed => false,
            ChannelState::Error => false,
            _ => true,
        }
    }

    /// Whether the channel is open and between two contents, the only
    /// state in which it takes requests and replies.
    pub fn is_ready(&self) -> (r: bool)
        ensures
            r == (self.state is Connected),
    {
        match &self.state {
            ChannelState::Connected => true,
            _ => false,
        }
    }

    /// Whether a content is being received: its method arrived and its
    /// last body frame has not.
    pub open spec fn receiving(self) -> bool {
        self.state is WillReceiveContent || self.state is ReceivingContent
    }

    pub fn set_state(&mut self, state: ChannelState)
        ensures
            final(self).state == state,
            final(self).same_outside(*old(self), Parts { state: true, ..Parts::none() }),
    {
        self.state = state;
    }

    /// The index of the first queue with this name, or the number of
    /// queues if none has it.
    pub open spec fn queue_index(self, name: Seq<char>) -> int {
        first_true(Seq::new(self.queues@.len(), |i: int| self.queues@[i].name@ == name))
    }

    pub open spec fn has_queue(self, name: Seq<char>) -> bool {
        self.queue_index(name) < self.queues@.len()
    }

    /// The index of the first queue that has a consumer with this tag, or
    /// the number of queues if none has one.
    pub open spec fn holder_index(self, tag: Seq<char>) -> int {
        first_true(Seq::new(self.queues@.len(), |i: int| self.queues@[i].has_consumer(tag)))
    }

    pub open spec fn has_consumer(self, tag: Seq<char>) -> bool {
        self.holder_index(tag) < self.queues@.len()
    }

    /// The queues of `after` are those of `before`, but for the one at
    /// `index`.
    pub open spec fn queues_same_but(before: Self, after: Self, index: int) -> bool {
        &&& after.queues@.len() == before.queues@.len()
        &&& forall|k: int|
            0 <= k < before.queues@.len() && k != index ==> after.queues@[k] == before.queues@[k]
    }

    pub fn find_queue(&self, name: &String) -> (r: Option<usize>)
        ensures
            r is Some == self.has_queue(name@),
            r is Some ==> r->0 == self.queue_index(name@),
    {
        let ghost flags = Seq::new(self.queues@.len(), |i: int| self.queues@[i].name@ == name@);
        let mut found: Option<usize> = None;
        let mut i: usize = 0;
        while i < self.queues.len()
            invariant
                i <= self.queues.len(),
                flags == Seq::new(self.queues@.len(), |i: int| self.queues@[i].name@ == name@),
                found is Some ==> found->0 < i && found->0 == first_true(flags.take(i as int)),
                found is None ==> first_true(flags.take(i as int)) == i,
            decreases self.queues.len() - i,
        {
            proof {
                assert(flags.take(i + 1).drop_last() == flags.take(i as int));
            }
            if found.is_none() && self.queues[i].name == *name {
                found = Some(i);
            }
            i += 1;
        }
        proof {
            assert(flags.take(i as int) == flags);
        }
        found
    }

    pub fn find_holder(&self, tag: &String) -> (r: Option<usize>)
        ensures
            r is Some == self.has_consumer(tag@),
            r is Some ==> r->0 == self.holder_index(tag@),
    {
        let ghost flags = Seq::new(self.queues@.len(), |i: int| self.queues@[i].has_consumer(tag@));
        let mut found: Option<usize> = None;
        let mut i: usize = 0;
        while i < self.queues.len()
            invariant
                i <= self.queues.len(),
                flags == Seq::new(self.queues@.len(), |i: int| self.queues@[i].has_consumer(tag@)),
                found is Some ==> found->0 < i && found->0 == first_true(flags.take(i as int)),
                found is None ==> first_true(flags.take(i as int)) == i,
            decreases self.queues.len() - i,
        {
            proof {
                assert(flags.take(i + 1).drop_last() == flags.take(i as int));
            }
            if found.is_none() && self.queues[i].find_consumer(tag).is_some() {
                found = Some(i);
            }
            i += 1;
        }
        proof {
            assert(flags.take(i as int) == flags);
        }
        found
    }

    /// Adds a queue to those the channel knows; one with the same name is
    /// replaced.
    pub fn register_queue(&mut self, queue: Queue)
        ensures
            final(self).same_outside(*old(self), Parts { queues: true, ..Parts::none() }),
            old(self).has_queue(queue.name@) ==> final(self).queues@ == old(self).queues@.update(
                old(self).queue_index(queue.name@),
                queue,
            ),
            !old(self).has_queue(queue.name@) ==> final(self).queues@ == old(self).queues@.push(
                queue,
            ),
    {
        match self.find_queue(&queue.name) {
            Some(i) => {
                self.queues[i] = queue;
            },
            None => {
                self.queues.push(queue);
            },
        }
    }

    /// `after` is `before` without the first queue of this name.
    pub open spec fn queue_deregistered(before: Self, after: Self, name: String) -> bool {
        &&& after.same_outside(before, Parts { queues: true, ..Parts::none() })
        &&& before.has_queue(name@) ==> after.queues@ == before.queues@.remove(
            before.queue_index(name@),
        )
        &&& !before.has_queue(name@) ==> after.queues == before.queues
    }

    /// Forgets the queue with this name, its consumers with it.
    pub fn deregister_queue(&mut self, name: &String)
        ensures
            Self::queue_deregistered(*old(self), *final(self), *name),
    {
        match self.find_queue(name) {
            Some(i) => {
                self.queues.remove(i);
            },
            None => {},
        }
    }

    /// Applies `change` to every consumer of every queue.
    pub fn change_consumers(&mut self, change: &ConsumerChange)
        ensures
            final(self).same_outside(*old(self), Parts { queues: true, ..Parts::none() }),
            Self::consumers_changed(*old(self), *final(self), *change),
    {
        let mut i: usize = 0;
        while i < self.queues.len()
            invariant
                i <= self.queues.len(),
                self.same_outside(*old(self), Parts { queues: true, ..Parts::none() }),
                self.queues@.len() == old(self).queues@.len(),
                forall|k: int| i <= k < self.queues@.len() ==> self.queues@[k] == old(self).queues@[k],
                forall|k: int|
                    0 <= k < i ==> Queue::consumers_changed(
                        old(self).queues@[k],
                        #[trigger] self.queues@[k],
                        *change,
                    ),
            decreases self.queues.len() - i,
        {
            self.queues[i].change_consumers(change);
            i += 1;
        }
    }

    /// `after` has the queues of `before`, with `change` applied to every
    /// consumer.
    pub open spec fn consumers_changed(before: Self, after: Self, change: ConsumerChange) -> bool {
        &&& after.queues@.len() == before.queues@.len()
        &&& forall|k: int|
            0 <= k < before.queues@.len() ==> Queue::consumers_changed(
                before.queues@[k],
                #[trigger] after.queues@[k],
                change,
            )
    }

    /// Forgets, for every consumer, the whole deliveries that the
    /// application has not taken.
    pub fn drop_prefetched_messages(&mut self)
        ensures
            final(self).same_outside(*old(self), Parts { queues: true, ..Parts::none() }),
            Self::consumers_changed(*old(self), *final(self), ConsumerChange::DropPrefetched),
    {
        self.change_consumers(&ConsumerChange::DropPrefetched);
    }

    pub fn cancel_consumers(&mut self)
        ensures
            final(self).same_outside(*old(self), Parts { queues: true, ..Parts::none() }),
            Self::consumers_changed(*old(self), *final(self), ConsumerChange::Cancel),
    {
        self.change_consumers(&ConsumerChange::Cancel);
    }

    pub fn error_consumers(&mut self, error: Error)
        ensures
            final(self).same_outside(*old(self), Parts { queues: true, ..Parts::none() }),
            Self::consumers_changed(*old(self), *final(self), ConsumerChange::Fail(error)),
    {
        self.change_consumers(&ConsumerChange::Fail(error));
    }

    /// Settles every pending publish with the channel's error.
    pub fn error_publisher_confirms(&mut self, error: Error)
        ensures
            final(self).same_outside(*old(self), Parts { acknowledgements: true, ..Parts::none() }),
            Self::confirms_failed(*old(self), *final(self), error),
    {
        self.acknowledgements.on_channel_error(error);
    }

    /// `after` has no pending publish left: those of `before` are all
    /// settled with the channel's error, which is `error`.
    pub open spec fn confirms_failed(before: Self, after: Self, error: Error) -> bool {
        &&& after.acknowledgements.pending@ == crate::acknowledgement::kept(
            before.acknowledgements.pending@,
            Selection::All,
        )
        &&& after.acknowledgements.resolved@ == before.acknowledgements.resolved@
            + crate::acknowledgement::settled(
            before.acknowledgements.pending@,
            Selection::All,
            Confirmation::ChannelError,
        )
        &&& after.acknowledgements.channel_error == Some(error)
    }

    /// `after` is `before` once it ended with `error`: no reply is
    /// awaited any more and every pending publish is settled with the
    /// error.
    pub open spec fn ended(before: Self, after: Self, error: Error) -> bool {
        &&& after.same_outside(
            before,
            Parts {
                state: true,
                queues: true,
                awaiting: true,
                acknowledgements: true,
                ..Parts::none()
            },
        )
        &&& after.awaiting@.len() == 0
        &&& Self::confirms_failed(before, after, error)
    }

    /// The channel is closed: every pending publish is settled with
    /// `error`, every consumer is cancelled, no reply is awaited any
    /// more.
    pub fn set_closed(&mut self, error: Error)
        ensures
            final(self).state == ChannelState::Closed,
            Self::ended(*old(self), *final(self), error),
            Self::consumers_changed(*old(self), *final(self), ConsumerChange::Cancel),
    {
        self.set_state(ChannelState::Closed);
        self.awaiting.clear();
        self.error_publisher_confirms(error);
        self.cancel_consumers();
    }

    /// The channel failed: every pending publish is settled with `error`,
    /// every consumer's stream fails with it, no reply is awaited any
    /// more.
    pub fn set_error(&mut self, error: Error)
        ensures
            final(self).state == ChannelState::Error,
            Self::ended(*old(self), *final(self), error),
            Self::consumers_changed(*old(self), *final(self), ConsumerChange::Fail(error)),
    {
        self.set_state(ChannelState::Error);
        self.awaiting.clear();
        self.error_publisher_confirms(error.duplicate());
        self.error_consumers(error);
    }

    /// `after` is `before` once the broker declared the queue `name`:
    /// the first queue of that name has the counts, or, if there is
    /// none, a queue of that name with the counts and nothing else is
    /// added behind the others.
    pub open spec fn queue_declared(
        before: Self,
        after: Self,
        name: String,
        message_count: u32,
        consumer_count: u32,
    ) -> bool {
        let i = before.queue_index(name@);
        if before.has_queue(name@) {
            &&& Self::queues_same_but(before, after, i)
            &&& after.queues@[i].name == before.queues@[i].name
            &&& after.queues@[i].message_count == message_count
            &&& after.queues@[i].consumer_count == consumer_count
            &&& after.queues@[i].bindings == before.queues@[i].bindings
            &&& after.queues@[i].consumers == before.queues@[i].consumers
            &&& after.queues@[i].current_get_message == before.queues@[i].current_get_message
            &&& after.queues@[i].get_messages == before.queues@[i].get_messages
        } else {
            &&& after.queues@.len() == before.queues@.len() + 1
            &&& after.queues@.drop_last() == before.queues@
            &&& after.queues@.last().name == name
            &&& after.queues@.last().message_count == message_count
            &&& after.queues@.last().consumer_count == consumer_count
            &&& after.queues@.last().bindings@.len() == 0
            &&& after.queues@.last().consumers@.len() == 0
            &&& after.queues@.last().current_get_message is None
            &&& after.queues@.last().get_messages@.len() == 0
        }
    }

    pub fn on_queue_declare_ok_received(
        &mut self,
        queue: String,
        message_count: u32,
        consumer_count: u32,
    )
        ensures
            final(self).same_outside(*old(self), Parts { queues: true, ..Parts::none() }),
            Self::queue_declared(*old(self), *final(self), queue, message_count, consumer_count),
    {
        match self.find_queue(&queue) {
            Some(i) => {
                self.queues[i].message_count = message_count;
                self.queues[i].consumer_count = consumer_count;
            },
            None => {
                self.queues.push(Queue::new(queue, message_count, consumer_count));
                assert(self.queues@.drop_last() == old(self).queues@);
            },
        }
    }

    /// Records, on the queue with this name, a binding that the broker
    /// has not confirmed yet; without such a queue nothing changes.
    pub fn add_binding(&mut self, queue: &String, binding: Binding)
        ensures
            final(self).same_outside(*old(self), Parts { queues: true, ..Parts::none() }),
            Self::binding_added(*old(self), *final(self), queue@, binding),
    {
        match self.find_queue(queue) {
            Some(i) => {
                self.queues[i].add_binding(binding);
            },
            None => {},
        }
    }

    pub open spec fn binding_added(
        before: Self,
        after: Self,
        queue: Seq<char>,
        binding: Binding,
    ) -> bool {
        let i = before.queue_index(queue);
        &&& Self::queues_same_but(before, after, i)
        &&& before.has_queue(queue) ==> {
            &&& after.queues@[i].same_but_bindings(before.queues@[i])
            &&& after.queues@[i].bindings@ == before.queues@[i].bindings@.push(binding)
        }
    }

    /// `after` has the queues of `before`, each with its bindings of this
    /// key marked as confirmed.
    pub open spec fn bindings_activated(
        before: Self,
        after: Self,
        exchange: Seq<char>,
        routing_key: Seq<char>,
    ) -> bool {
        &&& after.queues@.len() == before.queues@.len()
        &&& forall|k: int|
            0 <= k < before.queues@.len() ==> Queue::bindings_activated(
                before.queues@[k],
                #[trigger] after.queues@[k],
                exchange,
                routing_key,
            )
    }

    /// `after` has the queues of `before`, each without its bindings of
    /// this key.
    pub open spec fn bindings_removed(
        before: Self,
        after: Self,
        exchange: Seq<char>,
        routing_key: Seq<char>,
    ) -> bool {
        &&& after.queues@.len() == before.queues@.len()
        &&& forall|k: int|
            0 <= k < before.queues@.len() ==> Queue::bindings_removed(
                before.queues@[k],
                #[trigger] after.queues@[k],
                exchange,
                routing_key,
            )
    }

    /// The broker confirmed a binding: every queue marks its bindings of
    /// this key as confirmed.
    pub fn on_queue_bind_ok_received(&mut self, exchange: &String, routing_key: &String)
        ensures
            final(self).same_outside(*old(self), Parts { queues: true, ..Parts::none() }),
            Self::bindings_activated(*old(self), *final(self), exchange@, routing_key@),
    {
        let mut i: usize = 0;
        while i < self.queues.len()
            invariant
                i <= self.queues.len(),
                self.same_outside(*old(self), Parts { queues: true, ..Parts::none() }),
                self.queues@.len() == old(self).queues@.len(),
                forall|k: int| i <= k < self.queues@.len() ==> self.queues@[k] == old(self).queues@[k],
                forall|k: int|
                    0 <= k < i ==> Queue::bindings_activated(
                        old(self).queues@[k],
                        #[trigger] self.queues@[k],
                        exchange@,
                        routing_key@,
                    ),
            decreases self.queues.len() - i,
        {
            self.queues[i].activate_bindings(exchange, routing_key);
            i += 1;
        }
    }

    /// The broker removed a binding: every queue forgets its bindings of
    /// this key.
    pub fn on_queue_unbind_ok_received(&mut self, exchange: &String, routing_key: &String)
        ensures
            final(self).same_outside(*old(self), Parts { queues: true, ..Parts::none() }),
            Self::bindings_removed(*old(self), *final(self), exchange@, routing_key@),
    {
        let mut i: usize = 0;
        while i < self.queues.len()
            invariant
                i <= self.queues.len(),
                self.same_outside(*old(self), Parts { queues: true, ..Parts::none() }),
                self.queues@.len() == old(self).queues@.len(),
                forall|k: int| i <= k < self.queues@.len() ==> self.queues@[k] == old(self).queues@[k],
                forall|k: int|
                    0 <= k < i ==> Queue::bindings_removed(
                        old(self).queues@[k],
                        #[trigger] self.queues@[k],
                        exchange@,
                        routing_key@,
                    ),
            decreases self.queues.len() - i,
        {
            self.queues[i].remove_bindings(exchange, routing_key);
            i += 1;
        }
    }

    /// Adds a consumer to the queue with this name; without such a queue
    /// nothing changes.
    pub fn register_consumer(&mut self, queue: &String, consumer: Consumer)
        ensures
            final(self).same_outside(*old(self), Parts { queues: true, ..Parts::none() }),
            Self::queues_same_but(*old(self), *final(self), old(self).queue_index(queue@)),
            old(self).has_queue(queue@) ==> Queue::consumer_registered(
                old(self).queues@[old(self).queue_index(queue@)],
                final(self).queues@[old(self).queue_index(queue@)],
                consumer,
            ),
    {
        match self.find_queue(queue) {
            Some(i) => {
                self.queues[i].register_consumer(consumer);
            },
            None => {},
        }
    }

    /// `after` is `before` without the first consumer of this tag, and
    /// `r` is that consumer, cancelled; or there is none and nothing
    /// changed.
    pub open spec fn consumer_deregistered(before: Self, after: Self, tag: String, r: Option<Consumer>) -> bool {
        &&& after.same_outside(before, Parts { queues: true, ..Parts::none() })
        &&& Self::queues_same_but(before, after, before.holder_index(tag@))
        &&& r is Some == before.has_consumer(tag@)
        &&& before.has_consumer(tag@) ==> Queue::consumer_deregistered(
            before.queues@[before.holder_index(tag@)],
            after.queues@[before.holder_index(tag@)],
            tag@,
            r,
        )
    }

    /// Removes the consumer with this tag from the first queue that has
    /// one and hands it out, cancelled.
    pub fn deregister_consumer(&mut self, tag: &String) -> (r: Option<Consumer>)
        ensures
            Self::consumer_deregistered(*old(self), *final(self), *tag, r),
    {
        match self.find_holder(tag) {
            Some(i) => {
                proof {
                    lemma_first_true(
                        Seq::new(self.queues@.len(), |i: int| self.queues@[i].has_consumer(tag@)),
                    );
                }
                self.queues[i].deregister_consumer(tag)
            },
            None => None,
        }
    }

    /// A delivery for the consumer with this tag begins. Gives the name
    /// of the consumer's queue, or nothing if no queue has such a
    /// consumer.
    pub fn start_consumer_delivery(&mut self, tag: &String, delivery: Delivery) -> (r: Option<
        String,
    >)
        ensures
            final(self).same_outside(*old(self), Parts { queues: true, ..Parts::none() }),
            Self::queues_same_but(*old(self), *final(self), old(self).holder_index(tag@)),
            r is Some == old(self).has_consumer(tag@),
            old(self).has_consumer(tag@) ==> {
                &&& r->0 == old(self).queues@[old(self).holder_index(tag@)].name
                &&& Queue::consumer_delivery_started(
                    old(self).queues@[old(self).holder_index(tag@)],
                    final(self).queues@[old(self).holder_index(tag@)],
                    tag@,
                    delivery,
                )
            },
    {
        match self.find_holder(tag) {
            Some(i) => {
                self.queues[i].start_consumer_delivery(tag, delivery);
                Some(self.queues[i].name.clone())
            },
            None => None,
        }
    }

    /// A Basic.Get message for the queue with this name begins; without
    /// such a queue nothing changes.
    pub fn start_basic_get_delivery(&mut self, queue: &String, delivery: Delivery)
        ensures
            final(self).same_outside(*old(self), Parts { queues: true, ..Parts::none() }),
            Self::queues_same_but(*old(self), *final(self), old(self).queue_index(queue@)),
            old(self).has_queue(queue@) ==> {
                let i = old(self).queue_index(queue@);
                &&& final(self).queues@[i].same_but_get(old(self).queues@[i])
                &&& final(self).queues@[i].current_get_message == Some(delivery)
                &&& final(self).queues@[i].get_messages == old(self).queues@[i].get_messages
            },
    {
        match self.find_queue(queue) {
            Some(i) => {
                self.queues[i].start_get_delivery(delivery);
            },
            None => {},
        }
    }

    /// `after` is `before` with a part of a content taken in where the
    /// cursor points: by the consumer if there is a consumer tag, by the
    /// queue's Basic.Get message if there is only a queue, by the
    /// returned message if there is neither.
    pub open spec fn part_routed(
        before: Self,
        after: Self,
        queue: Option<String>,
        tag: Option<String>,
        part: ContentPart,
        complete: bool,
        confirm_mode: bool,
    ) -> bool {
        match queue {
            Some(name) => {
                let i = before.queue_index(name@);
                &&& after.returned_messages == before.returned_messages
                &&& Self::queues_same_but(before, after, i)
                &&& before.has_queue(name@) ==> match tag {
                    Some(t) => Queue::consumer_part_received(
                        before.queues@[i],
                        after.queues@[i],
                        t@,
                        part,
                        complete,
                    ),
                    None => Queue::get_part_received(
                        before.queues@[i],
                        after.queues@[i],
                        part,
                        complete,
                    ),
                }
            },
            None => {
                &&& after.queues == before.queues
                &&& ReturnedMessages::part_received(
                    before.returned_messages,
                    after.returned_messages,
                    part,
                    complete,
                    confirm_mode,
                )
            },
        }
    }

    /// Hands a part of a content to where the cursor points: see
    /// `part_routed`.
    pub fn route_part(
        &mut self,
        queue: &Option<String>,
        tag: &Option<String>,
        part: ContentPart,
        complete: bool,
        confirm_mode: bool,
    )
        ensures
            final(self).same_outside(
                *old(self),
                Parts { queues: true, returned_messages: true, ..Parts::none() },
            ),
            Self::part_routed(*old(self), *final(self), *queue, *tag, part, complete, confirm_mode),
    {
        match queue {
            Some(name) => {
                match self.find_queue(name) {
                    Some(i) => {
                        match tag {
                            Some(t) => self.queues[i].receive_consumer_part(t, part, complete),
                            None => self.queues[i].receive_get_part(part, complete),
                        }
                    },
                    None => {},
                }
            },
            None => {
                self.returned_messages.receive_part(part, complete, confirm_mode);
            },
        }
    }

    /// `after` is `before` once a Basic.Deliver with these fields arrived.
    pub open spec fn delivery_started(before: Self, after: Self, consumer_tag: String, delivery_tag: u64, redelivered: bool, exchange: String, routing_key: String) -> bool {
        &&& after.same_outside(
            before,
            Parts { state: true, queues: true, ..Parts::none() },
        )
        &&& Self::queues_same_but(before, after, before.holder_index(consumer_tag@))
        &&& !before.has_consumer(consumer_tag@) ==> after.state == before.state
        &&& before.has_consumer(consumer_tag@) ==> {
            let i = before.holder_index(consumer_tag@);
            let j = before.queues@[i].consumer_index(consumer_tag@);
            let started = after.queues@[i].consumers@[j].current_message;
            &&& after.state == ChannelState::WillReceiveContent(
                Some(before.queues@[i].name),
                Some(consumer_tag),
                before.confirm,
            )
            &&& started is Some
            &&& started->0.is_new(delivery_tag, exchange, routing_key, redelivered)
            &&& Queue::consumer_delivery_started(
                before.queues@[i],
                after.queues@[i],
                consumer_tag@,
                started->0,
            )
        }
    }

    /// A Basic.Deliver arrived. If a queue has a consumer with this tag,
    /// a delivery begins for it and the channel awaits the content
    /// header; if none has, nothing changes.
    pub fn on_basic_deliver_received(
        &mut self,
        consumer_tag: String,
        delivery_tag: u64,
        redelivered: bool,
        exchange: String,
        routing_key: String,
    )
        ensures
            Self::delivery_started(*old(self), *final(self), consumer_tag, delivery_tag, redelivered, exchange, routing_key),
    {
        let delivery = Delivery::new(delivery_tag, exchange, routing_key, redelivered);
        proof {
            lemma_first_true(
                Seq::new(
                    self.queues@.len(),
                    |i: int| self.queues@[i].has_consumer(consumer_tag@),
                ),
            );
        }
        match self.start_consumer_delivery(&consumer_tag, delivery) {
            Some(queue_name) => {
                self.state = ChannelState::WillReceiveContent(
                    Some(queue_name),
                    Some(consumer_tag),
                    self.confirm,
                );
            },
            None => {},
        }
    }

    /// `after` is `before` once a Basic.Get-Ok with these fields arrived
    /// for a Basic.Get on `queue`.
    pub open spec fn get_started(before: Self, after: Self, queue: String, delivery_tag: u64, redelivered: bool, exchange: String, routing_key: String) -> bool {
        &&& after.same_outside(
            before,
            Parts { state: true, queues: true, ..Parts::none() },
        )
        &&& after.state == ChannelState::WillReceiveContent(
            Some(queue),
            None,
            before.confirm,
        )
        &&& Self::queues_same_but(before, after, before.queue_index(queue@))
        &&& before.has_queue(queue@) ==> {
            let i = before.queue_index(queue@);
            let started = after.queues@[i].current_get_message;
            &&& after.queues@[i].same_but_get(before.queues@[i])
            &&& after.queues@[i].get_messages == before.queues@[i].get_messages
            &&& started is Some
            &&& started->0.is_new(delivery_tag, exchange, routing_key, redelivered)
        }
    }

    /// A Basic.Get-Ok arrived for a Basic.Get on `queue`: its message
    /// begins and the channel awaits the content header.
    pub fn on_basic_get_ok_received(
        &mut self,
        queue: String,
        delivery_tag: u64,
        redelivered: bool,
        exchange: String,
        routing_key: String,
    )
        ensures
            Self::get_started(*old(self), *final(self), queue, delivery_tag, redelivered, exchange, routing_key),
    {
        let delivery = Delivery::new(delivery_tag, exchange, routing_key, redelivered);
        self.start_basic_get_delivery(&queue, delivery);
        self.state = ChannelState::WillReceiveContent(Some(queue), None, self.confirm);
    }

    /// `after` is `before` once a Basic.Return with these fields arrived.
    pub open spec fn return_started(before: Self, after: Self, reply_code: u16, reply_text: String, exchange: String, routing_key: String) -> bool {
        &&& after.same_outside(
            before,
            Parts { state: true, returned_messages: true, ..Parts::none() },
        )
        &&& after.state == ChannelState::WillReceiveContent(None, None, before.confirm)
        &&& after.returned_messages.non_confirm_messages == before.returned_messages.non_confirm_messages
        &&& after.returned_messages.waiting_messages == before.returned_messages.waiting_messages
        &&& after.returned_messages.refused == before.returned_messages.refused
        &&& after.returned_messages.current_message is Some
        &&& after.returned_messages.current_message->0.reply_code == reply_code
        &&& after.returned_messages.current_message->0.reply_text == reply_text
        &&& after.returned_messages.current_message->0.delivery.is_new(
            0,
            exchange,
            routing_key,
            false,
        )
    }

    /// A Basic.Return arrived: the returned message begins and the
    /// channel awaits the content header.
    pub fn on_basic_return_received(
        &mut self,
        reply_code: u16,
        reply_text: String,
        exchange: String,
        routing_key: String,
    )
        ensures
            Self::return_started(*old(self), *final(self), reply_code, reply_text, exchange, routing_key),
    {
        self.returned_messages.start_new_delivery(
            BasicReturnMessage::new(exchange, routing_key, reply_code, reply_text),
        );
        self.state = ChannelState::WillReceiveContent(None, None, self.confirm);
    }

    /// `after` is `before` once a content header with these fields
    /// arrived, and `r` is what the channel answers.
    pub open spec fn header_received(before: Self, after: Self, class_id: u16, size: u64, properties: AMQPProperties, r: Result<(), Error>) -> bool {
        &&& match before.state {
            ChannelState::WillReceiveContent(queue, tag, confirm_mode) => if class_id
                == BASIC_CLASS {
                &&& r is Ok
                &&& after.same_outside(
                    before,
                    Parts {
                        state: true,
                        queues: true,
                        returned_messages: true,
                        ..Parts::none()
                    },
                )
                &&& Self::part_routed(
                    before,
                    after,
                    queue,
                    tag,
                    ContentPart::Properties(properties),
                    size == 0,
                    confirm_mode,
                )
                &&& after.state == if size == 0 {
                    ChannelState::Connected
                } else {
                    ChannelState::ReceivingContent(queue, tag, size, confirm_mode)
                }
            } else {
                &&& is_protocol_error(r, hard_error_code(HardError::FrameError))
                &&& after.state == ChannelState::Error
                &&& Self::ended(before, after, r->Err_0)
                &&& Self::consumers_changed(
                    before,
                    after,
                    ConsumerChange::Fail(r->Err_0),
                )
            },
            _ => is_protocol_error(r, hard_error_code(HardError::UnexpectedFrame))
                && after == before,
        }
    }

    /// A content header arrived. The channel must await one, and the
    /// header must be of the Basic class; then the properties go to
    /// where the cursor points, and the channel awaits `size` bytes of
    /// body, or is ready again if `size` is 0. A header of another class
    /// fails the channel with FRAME-ERROR; a header that is not awaited
    /// is refused with UNEXPECTED-FRAME and changes nothing.
    pub fn handle_content_header_frame(
        &mut self,
        class_id: u16,
        size: u64,
        properties: AMQPProperties,
    ) -> (r: Result<(), Error>)
        ensures
            Self::header_received(*old(self), *final(self), class_id, size, properties, r),
    {
        let mut state = ChannelState::Error;
        std::mem::swap(&mut state, &mut self.state);
        match state {
            ChannelState::WillReceiveContent(queue, tag, confirm_mode) => {
                if class_id == BASIC_CLASS {
                    self.route_part(
                        &queue,
                        &tag,
                        ContentPart::Properties(properties),
                        size == 0,
                        confirm_mode,
                    );
                    if size == 0 {
                        self.state = ChannelState::Connected;
                    } else {
                        self.state = ChannelState::ReceivingContent(queue, tag, size, confirm_mode);
                    }
                    Ok(())
                } else {
                    self.state = ChannelState::WillReceiveContent(queue, tag, confirm_mode);
                    let error = Error::ProtocolError(
                        AMQPError::new(hard_error_id(HardError::FrameError), String::new()),
                    );
                    self.set_error(error.duplicate());
                    Err(error)
                }
            },
            other => {
                self.state = other;
                Err(
                    Error::ProtocolError(
                        AMQPError::new(hard_error_id(HardError::UnexpectedFrame), String::new()),
                    ),
                )
            },
        }
    }

    /// `after` is `before` once a body frame with this payload arrived,
    /// and `r` is what the channel answers.
    pub open spec fn body_received(before: Self, after: Self, payload: Vec<u8>, r: Result<(), Error>) -> bool {
        &&& match before.state {
            ChannelState::ReceivingContent(queue, tag, remaining, confirm_mode) => if 0
                < remaining && payload@.len() <= remaining {
                &&& r is Ok
                &&& after.same_outside(
                    before,
                    Parts {
                        state: true,
                        queues: true,
                        returned_messages: true,
                        ..Parts::none()
                    },
                )
                &&& Self::part_routed(
                    before,
                    after,
                    queue,
                    tag,
                    ContentPart::Body(payload),
                    payload@.len() == remaining,
                    confirm_mode,
                )
                &&& after.state == if payload@.len() == remaining {
                    ChannelState::Connected
                } else {
                    ChannelState::ReceivingContent(
                        queue,
                        tag,
                        (remaining - payload@.len()) as u64,
                        confirm_mode,
                    )
                }
            } else {
                is_protocol_error(r, hard_error_code(HardError::FrameError)) && after
                    == before
            },
            _ => is_protocol_error(r, hard_error_code(HardError::FrameError)) && after
                == before,
        }
    }

    /// A body frame arrived. The channel must be receiving a body of
    /// which at least as many bytes are still awaited as the frame
    /// brings; then the bytes go to where the cursor points, and the
    /// channel awaits the rest, or is ready again once nothing is left.
    /// Any other body frame is refused with FRAME-ERROR and changes
    /// nothing.
    pub fn handle_body_frame(&mut self, payload: Vec<u8>) -> (r: Result<(), Error>)
        ensures
            Self::body_received(*old(self), *final(self), payload, r),
    {
        let mut state = ChannelState::Error;
        std::mem::swap(&mut state, &mut self.state);
        match state {
            ChannelState::ReceivingContent(queue, tag, remaining, confirm_mode) => {
                let len: usize = payload.len();
                if 0 < remaining && len as u64 <= remaining {
                    let left: u64 = remaining - len as u64;
                    self.route_part(
                        &queue,
                        &tag,
                        ContentPart::Body(payload),
                        left == 0,
                        confirm_mode,
                    );
                    if left == 0 {
                        self.state = ChannelState::Connected;
                    } else {
                        self.state = ChannelState::ReceivingContent(queue, tag, left, confirm_mode);
                    }
                    Ok(())
                } else {
                    self.state = ChannelState::ReceivingContent(
                        queue,
                        tag,
                        remaining,
                        confirm_mode,
                    );
                    Err(Self::frame_error())
                }
            },
            other => {
                self.state = other;
                Err(Self::frame_error())
            },
        }
    }

    fn frame_error() -> (r: Error)
        ensures
            is_protocol_error(Err(r), hard_error_code(HardError::FrameError)),
    {
        Error::ProtocolError(AMQPError::new(hard_error_id(HardError::FrameError), String::new()))
    }

    /// `after` is `before` once a publish was registered, and `tag` is
    /// the delivery tag that it got: none outside confirm mode, where
    /// nothing changes; in confirm mode the upcoming one, which is
    /// pending from now on.
    pub open spec fn publish_registered(before: Self, after: Self, tag: Option<DeliveryTag>) -> bool {
        &&& after.same_outside(
            before,
            Parts { acknowledgements: true, delivery_tag: true, ..Parts::none() },
        )
        &&& !before.confirm ==> tag is None && after.acknowledgements == before.acknowledgements
            && after.delivery_tag == before.delivery_tag
        &&& before.confirm ==> {
            let next = before.delivery_tag.upcoming();
            &&& tag == Some(next)
            &&& after.delivery_tag.allow_zero == before.delivery_tag.allow_zero
            &&& after.delivery_tag.id == if next == u64::MAX {
                0
            } else {
                next + 1
            }
            &&& after.acknowledgements.pending@ == if before.acknowledgements.pending@.contains(
                next,
            ) {
                before.acknowledgements.pending@
            } else {
                before.acknowledgements.pending@.push(next)
            }
            &&& after.acknowledgements.resolved == before.acknowledgements.resolved
            &&& after.acknowledgements.channel_error == before.acknowledgements.channel_error
        }
    }

    /// Before a publish: in confirm mode the publish gets the next
    /// delivery tag and awaits its confirmation under it.
    pub fn before_basic_publish(&mut self) -> (r: Option<DeliveryTag>)
        ensures
            Self::publish_registered(*old(self), *final(self), r),
    {
        if self.confirm {
            let delivery_tag = self.delivery_tag.next();
            self.acknowledgements.register_pending(delivery_tag);
            Some(delivery_tag)
        } else {
            None
        }
    }

    /// The pending publishes that an acknowledgement with this tag and
    /// this `multiple` flag addresses.
    pub open spec fn addressed(delivery_tag: DeliveryTag, multiple: bool) -> Selection {
        if multiple {
            if delivery_tag > 0 {
                Selection::UpTo(delivery_tag)
            } else {
                Selection::All
            }
        } else {
            Selection::Exactly(delivery_tag)
        }
    }

    /// `after` is `before` once the broker answered the publishes that
    /// `delivery_tag` and `multiple` address with `confirmation`. Outside
    /// confirm mode nothing changes. With a refusal, the oldest returned
    /// messages that wait go with the refused publishes, one each. An
    /// answer to a single publish that is not pending is refused with
    /// PRECONDITION-FAILED.
    pub open spec fn acknowledged(
        before: Self,
        after: Self,
        delivery_tag: DeliveryTag,
        multiple: bool,
        confirmation: Confirmation,
        r: Result<(), Error>,
    ) -> bool {
        &&& after.same_outside(
            before,
            Parts { acknowledgements: true, returned_messages: true, ..Parts::none() },
        )
        &&& Self::settled_with_returns(before, after, delivery_tag, multiple, confirmation)
        &&& if !before.confirm || multiple || before.acknowledgements.pending@.contains(
            delivery_tag,
        ) {
            r is Ok
        } else {
            is_protocol_error(r, precondition_failed_code())
        }
    }

    /// What an answer of the broker to publishes does to the pending
    /// publishes and to the returned messages: see `acknowledged`.
    pub open spec fn settled_with_returns(
        before: Self,
        after: Self,
        delivery_tag: DeliveryTag,
        multiple: bool,
        confirmation: Confirmation,
    ) -> bool {
        if before.confirm {
            &&& Acknowledgements::settles(
                before.acknowledgements,
                after.acknowledgements,
                Self::addressed(delivery_tag, multiple),
                confirmation,
            )
            &&& if confirmation == Confirmation::Nack {
                ReturnedMessages::attached(
                    before.returned_messages,
                    after.returned_messages,
                    crate::acknowledgement::settled(
                        before.acknowledgements.pending@,
                        Self::addressed(delivery_tag, multiple),
                        confirmation,
                    ),
                )
            } else {
                after.returned_messages == before.returned_messages
            }
        } else {
            after.acknowledgements == before.acknowledgements && after.returned_messages
                == before.returned_messages
        }
    }

    pub fn on_basic_ack_received(&mut self, delivery_tag: DeliveryTag, multiple: bool) -> (r:
        Result<(), Error>)
        ensures
            Self::acknowledged(
                *old(self),
                *final(self),
                delivery_tag,
                multiple,
                Confirmation::Ack,
                r,
            ),
    {
        if self.confirm {
            if multiple {
                if delivery_tag > 0 {
                    self.acknowledgements.ack_all_before(delivery_tag);
                } else {
                    self.acknowledgements.ack_all_pending();
                }
            } else {
                match self.acknowledgements.ack(delivery_tag) {
                    Ok(()) => {},
                    Err(error) => {
                        return Err(Error::ProtocolError(error));
                    },
                }
            }
        }
        Ok(())
    }

    pub fn on_basic_nack_received(&mut self, delivery_tag: DeliveryTag, multiple: bool) -> (r:
        Result<(), Error>)
        ensures
            Self::acknowledged(
                *old(self),
                *final(self),
                delivery_tag,
                multiple,
                Confirmation::Nack,
                r,
            ),
    {
        if self.confirm {
            let from: usize = self.acknowledgements.resolved.len();
            let outcome = if multiple {
                if delivery_tag > 0 {
                    self.acknowledgements.nack_all_before(delivery_tag);
                } else {
                    self.acknowledgements.nack_all_pending();
                }
                Ok(())
            } else {
                self.acknowledgements.nack(delivery_tag)
            };
            proof {
                assert(self.acknowledgements.resolved@.skip(from as int)
                    == crate::acknowledgement::settled(
                    old(self).acknowledgements.pending@,
                    Self::addressed(delivery_tag, multiple),
                    Confirmation::Nack,
                ));
            }
            self.returned_messages.attach_to_refusals(&self.acknowledgements.resolved, from);
            match outcome {
                Ok(()) => Ok(()),
                Err(error) => Err(Error::ProtocolError(error)),
            }
        } else {
            Ok(())
        }
    }

    /// `after` is `before` once an acknowledgement with this tag and
    /// flag was sent: one that addresses every delivery makes every
    /// consumer forget the whole deliveries that the application has not
    /// taken.
    pub open spec fn acknowledgement_sent(
        before: Self,
        after: Self,
        multiple: bool,
        delivery_tag: DeliveryTag,
    ) -> bool {
        &&& after.same_outside(before, Parts { queues: true, ..Parts::none() })
        &&& if multiple && delivery_tag == 0 {
            Self::consumers_changed(before, after, ConsumerChange::DropPrefetched)
        } else {
            after.queues == before.queues
        }
    }

    pub fn on_basic_ack_sent(&mut self, multiple: bool, delivery_tag: DeliveryTag)
        ensures
            Self::acknowledgement_sent(*old(self), *final(self), multiple, delivery_tag),
    {
        if multiple && delivery_tag == 0 {
            self.drop_prefetched_messages();
        }
    }

    pub fn on_basic_nack_sent(&mut self, multiple: bool, delivery_tag: DeliveryTag)
        ensures
            Self::acknowledgement_sent(*old(self), *final(self), multiple, delivery_tag),
    {
        if multiple && delivery_tag == 0 {
            self.drop_prefetched_messages();
        }
    }

    /// Once no publish awaits its confirmation, hands out the messages
    /// that the broker sent back and forgets them; while one does, gives
    /// nothing and changes nothing.
    pub fn wait_for_confirms(&mut self) -> (r: Option<Vec<BasicReturnMessage>>)
        ensures
            final(self).same_outside(
                *old(self),
                Parts { returned_messages: true, ..Parts::none() },
            ),
            old(self).acknowledgements.pending@.len() > 0 ==> r is None && final(self).returned_messages == old(self).returned_messages,
            old(self).acknowledgements.pending@.len() == 0 ==> {
                &&& r is Some
                &&& r->0@ == old(self).returned_messages.non_confirm_messages@ + old(self).returned_messages.waiting_messages@
                &&& final(self).returned_messages.non_confirm_messages@.len() == 0
                &&& final(self).returned_messages.waiting_messages@.len() == 0
                &&& final(self).returned_messages.current_message == old(self).returned_messages.current_message
                &&& final(self).returned_messages.refused == old(self).returned_messages.refused
            },
    {
        if self.acknowledgements.get_last_pending().is_some() {
            None
        } else {
            Some(self.returned_messages.drain())
        }
    }

    /// Begins to close the channel and gives the method to send for it.
    /// Only a channel that is open and between two contents can; another
    /// one stays as it is.
    pub fn close(&mut self, reply_code: u16, reply_text: String) -> (r: Result<Method, Error>)
        ensures
            old(self).state is Connected ==> {
                &&& r == Ok::<Method, Error>(
                    Method::ChannelClose { reply_code, reply_text, class_id: 0, method_id: 0 },
                )
                &&& final(self).state == ChannelState::Closing
                &&& final(self).same_outside(*old(self), Parts { state: true, ..Parts::none() })
            },
            !(old(self).state is Connected) ==> r == Err::<Method, Error>(
                Error::InvalidChannelState(old(self).state),
            ) && *final(self) == *old(self),
    {
        if self.is_ready() {
            self.state = ChannelState::Closing;
            Ok(Method::ChannelClose { reply_code, reply_text, class_id: 0, method_id: 0 })
        } else {
            Err(Error::InvalidChannelState(self.state.duplicate()))
        }
    }

    /// Gives the method that declares an exchange of this kind. Only a
    /// channel that is open and between two contents can.
    pub fn exchange_declare(
        &self,
        exchange: String,
        kind: ExchangeKind,
        passive: bool,
        durable: bool,
        auto_delete: bool,
        internal: bool,
        nowait: bool,
        arguments: FieldTable,
    ) -> (r: Result<Method, Error>)
        ensures
            self.state is Connected ==> r is Ok && (r->Ok_0 matches Method::ExchangeDeclare {
                ticket: t,
                exchange: e,
                kind: k,
                passive: p,
                durable: d,
                auto_delete: a,
                internal: i,
                nowait: n,
                arguments: g,
            } && t == 0 && e == exchange && k@ == kind.name() && p == passive && d == durable && a
                == auto_delete && i == internal && n == nowait && g == arguments),
            !(self.state is Connected) ==> r == Err::<Method, Error>(
                Error::InvalidChannelState(self.state),
            ),
    {
        if self.is_ready() {
            Ok(
                Method::ExchangeDeclare {
                    ticket: 0,
                    exchange,
                    kind: kind.kind(),
                    passive,
                    durable,
                    auto_delete,
                    internal,
                    nowait,
                    arguments,
                },
            )
        } else {
            Err(Error::InvalidChannelState(self.state.duplicate()))
        }
    }
}

/// The kinds of exchange.
#[derive(Debug, PartialEq, Eq)]
pub enum ExchangeKind {
    Custom(String),
    Direct,
    Fanout,
    Headers,
    Topic,
}

impl ExchangeKind {
    /// The name under which the kind is declared.
    pub open spec fn name(self) -> Seq<char> {
        match self {
            ExchangeKind::Custom(c) => c@,
            ExchangeKind::Direct => "direct"@,
            ExchangeKind::Fanout => "fanout"@,
            ExchangeKind::Headers => "headers"@,
            ExchangeKind::Topic => "topic"@,
        }
    }

    pub fn kind(&self) -> (r: String)
        ensures
            r@ == self.name(),
    {
        match self {
            ExchangeKind::Custom(c) => c.clone(),
            ExchangeKind::Direct => "direct".to_owned(),
            ExchangeKind::Fanout => "fanout".to_owned(),
            ExchangeKind::Headers => "headers".to_owned(),
            ExchangeKind::Topic => "topic".to_owned(),
        }
    }
}

/// A channel that ended, closed or failed, has no pending publish left:
/// every publish that was pending is settled, once and in the order of
/// publishing, with the channel's error, which is kept.
pub proof fn lemma_ended_channel_settles_every_publish(before: Channel, after: Channel, error: Error)
    requires
        Channel::ended(before, after, error),
    ensures
        after.acknowledgements.pending@.len() == 0,
        after.acknowledgements.channel_error == Some(error),
        after.acknowledgements.resolved@.len() == before.acknowledgements.resolved@.len()
            + before.acknowledgements.pending@.len(),
        forall|k: int|
            0 <= k < before.acknowledgements.pending@.len() ==> (
            #[trigger] after.acknowledgements.resolved@[before.acknowledgements.resolved@.len() + k])
                == (Resolution {
                delivery_tag: before.acknowledgements.pending@[k],
                confirmation: Confirmation::ChannelError,
            }),
        forall|k: int|
            0 <= k < before.acknowledgements.resolved@.len() ==> (
            #[trigger] after.acknowledgements.resolved@[k]) == before.acknowledgements.resolved@[k],
{
    lemma_all_keeps_none(before.acknowledgements.pending@, Confirmation::ChannelError);
}

} // verus!
