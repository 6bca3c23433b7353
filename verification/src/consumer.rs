use crate::error::Error;
use crate::message::{assemble, assembled, ContentPart, Delivery};
use vstd::prelude::*;

verus! {

/// What a consumer's delivery stream gives when it is asked for its next
/// item.
#[derive(Debug, PartialEq)]
pub enum ConsumerPoll {
    /// The oldest whole delivery.
    Delivery(Delivery),
    /// The stream is over: the consumer was cancelled.
    End,
    /// The stream is over: the channel failed.
    Failed(Error),
    /// Nothing yet.
    Pending,
}

/// Something that happens to every consumer of a channel at once.
#[derive(Debug, PartialEq)]
pub enum ConsumerChange {
    /// The whole deliveries that the application has not taken are
    /// forgotten.
    DropPrefetched,
    /// The consumer is cancelled.
    Cancel,
    /// The channel failed with this error.
    Fail(Error),
}

/// What the delivery stream of a consumer depends on.
pub struct ConsumerStream {
    pub deliveries: Seq<Delivery>,
    pub canceled: bool,
    pub error: Option<Error>,
}

impl ConsumerStream {
    /// The item that the stream gives next.
    pub open spec fn head(self) -> ConsumerPoll {
        if self.deliveries.len() > 0 {
            ConsumerPoll::Delivery(self.deliveries[0])
        } else if self.error is Some {
            ConsumerPoll::Failed(self.error->0)
        } else if self.canceled {
            ConsumerPoll::End
        } else {
            ConsumerPoll::Pending
        }
    }

    /// The stream after it gave its next item. A failure is reported
    /// once; after it the stream is over.
    pub open spec fn tail(self) -> Self {
        if self.deliveries.len() > 0 {
            ConsumerStream { deliveries: self.deliveries.skip(1), ..self }
        } else if self.error is Some {
            ConsumerStream { canceled: true, error: None, ..self }
        } else {
            self
        }
    }

    /// The stream after it gave `n` items.
    pub open spec fn after(self, n: nat) -> Self
        decreases n,
    {
        if n == 0 {
            self
        } else {
            self.tail().after((n - 1) as nat)
        }
    }

    /// The stream once the consumer is cancelled.
    pub open spec fn cancelled(self) -> Self {
        ConsumerStream { canceled: true, ..self }
    }
}

/// A subscription to a queue: its tag and flags, the delivery being put
/// together, and the whole deliveries that the application has not taken
/// yet.
#[derive(Debug, PartialEq)]
pub struct Consumer {
    pub tag: String,
    pub queue: String,
    pub no_local: bool,
    pub no_ack: bool,
    pub exclusive: bool,
    pub nowait: bool,
    pub current_message: Option<Delivery>,
    pub deliveries: Vec<Delivery>,
    pub canceled: bool,
    pub error: Option<Error>,
}

impl Consumer {
    pub open spec fn stream(self) -> ConsumerStream {
        ConsumerStream {
            deliveries: self.deliveries@,
            canceled: self.canceled,
            error: self.error,
        }
    }

    /// Tag, queue and flags are those of `other`.
    pub open spec fn same_subscription(self, other: Self) -> bool {
        &&& self.tag == other.tag
        &&& self.queue == other.queue
        &&& self.no_local == other.no_local
        &&& self.no_ack == other.no_ack
        &&& self.exclusive == other.exclusive
        &&& self.nowait == other.nowait
    }

    /// A consumer that has just been made, with this tag, queue and
    /// flags.
    pub open spec fn is_new(
        self,
        tag: String,
        queue: String,
        no_local: bool,
        no_ack: bool,
        exclusive: bool,
        nowait: bool,
    ) -> bool {
        &&& self.tag == tag
        &&& self.queue == queue
        &&& self.no_local == no_local
        &&& self.no_ack == no_ack
        &&& self.exclusive == exclusive
        &&& self.nowait == nowait
        &&& self.current_message is None
        &&& self.deliveries@.len() == 0
        &&& !self.canceled
        &&& self.error is None
    }

    pub fn new(
        tag: String,
        queue: String,
        no_local: bool,
        no_ack: bool,
        exclusive: bool,
        nowait: bool,
    ) -> (r: Self)
        ensures
            r.tag == tag,
            r.queue == queue,
            r.no_local == no_local,
            r.no_ack == no_ack,
            r.exclusive == exclusive,
            r.nowait == nowait,
            r.current_message is None,
            r.deliveries@.len() == 0,
            !r.canceled,
            r.error is None,
    {
        Consumer {
            tag,
            queue,
            no_local,
            no_ack,
            exclusive,
            nowait,
            current_message: None,
            deliveries: Vec::new(),
            canceled: false,
            error: None,
        }
    }

    pub fn update_consumer_tag(&mut self, consumer_tag: String)
        ensures
            final(self).tag == consumer_tag,
            final(self).queue == old(self).queue,
            final(self).no_local == old(self).no_local,
            final(self).no_ack == old(self).no_ack,
            final(self).exclusive == old(self).exclusive,
            final(self).nowait == old(self).nowait,
            final(self).current_message == old(self).current_message,
            final(self).stream() == old(self).stream(),
    {
        self.tag = consumer_tag;
    }

    /// A Basic.Deliver arrived: `delivery` is the one being put together
    /// from now on.
    pub fn start_delivery(&mut self, delivery: Delivery)
        ensures
            final(self).current_message == Some(delivery),
            final(self).same_subscription(*old(self)),
            final(self).stream() == old(self).stream(),
    {
        self.current_message = Some(delivery);
    }

    /// A part of the content of the delivery being put together arrived;
    /// `complete` tells whether it is the last one.
    pub fn receive_part(&mut self, part: ContentPart, complete: bool)
        ensures
            final(self).same_subscription(*old(self)),
            final(self).canceled == old(self).canceled,
            final(self).error == old(self).error,
            assembled(
                old(self).current_message,
                old(self).deliveries@,
                final(self).current_message,
                final(self).deliveries@,
                part,
                complete,
            ),
    {
        assemble(&mut self.current_message, &mut self.deliveries, part, complete);
    }

    /// A whole delivery joins the end of those that await the
    /// application.
    pub fn new_delivery(&mut self, delivery: Delivery)
        ensures
            final(self).same_subscription(*old(self)),
            final(self).current_message == old(self).current_message,
            final(self).canceled == old(self).canceled,
            final(self).error == old(self).error,
            final(self).deliveries@ == old(self).deliveries@.push(delivery),
    {
        self.deliveries.push(delivery);
    }

    /// Forgets the whole deliveries that the application has not taken.
    pub fn drop_prefetched_messages(&mut self)
        ensures
            final(self).same_subscription(*old(self)),
            final(self).current_message == old(self).current_message,
            final(self).canceled == old(self).canceled,
            final(self).error == old(self).error,
            final(self).deliveries@.len() == 0,
    {
        self.deliveries.clear();
    }

    /// The consumer is cancelled. The deliveries that are whole stay for
    /// the application to take; the one being put together is dropped.
    pub fn cancel(&mut self)
        ensures
            final(self).same_subscription(*old(self)),
            final(self).current_message is None,
            final(self).stream() == old(self).stream().cancelled(),
    {
        self.current_message = None;
        self.canceled = true;
    }

    /// The channel failed with `error`.
    pub fn set_error(&mut self, error: Error)
        ensures
            final(self).same_subscription(*old(self)),
            final(self).current_message is None,
            final(self).deliveries == old(self).deliveries,
            final(self).canceled == old(self).canceled,
            final(self).error == Some(error),
    {
        self.current_message = None;
        self.error = Some(error);
    }

    /// `after` is `before` with `change` applied.
    pub open spec fn changed(before: Self, after: Self, change: ConsumerChange) -> bool {
        &&& after.same_subscription(before)
        &&& match change {
            ConsumerChange::DropPrefetched => {
                &&& after.current_message == before.current_message
                &&& after.canceled == before.canceled
                &&& after.error == before.error
                &&& after.deliveries@.len() == 0
            },
            ConsumerChange::Cancel => {
                &&& after.current_message is None
                &&& after.stream() == before.stream().cancelled()
            },
            ConsumerChange::Fail(error) => {
                &&& after.current_message is None
                &&& after.deliveries == before.deliveries
                &&& after.canceled == before.canceled
                &&& after.error == Some(error)
            },
        }
    }

    pub fn apply(&mut self, change: &ConsumerChange)
        ensures
            Self::changed(*old(self), *final(self), *change),
    {
        match change {
            ConsumerChange::DropPrefetched => self.drop_prefetched_messages(),
            ConsumerChange::Cancel => self.cancel(),
            ConsumerChange::Fail(error) => self.set_error(error.duplicate()),
        }
    }

    /// Takes the next item of the delivery stream.
    pub fn next_delivery(&mut self) -> (r: ConsumerPoll)
        ensures
            r == old(self).stream().head(),
            final(self).stream() == old(self).stream().tail(),
            final(self).same_subscription(*old(self)),
            final(self).current_message == old(self).current_message,
    {
        if self.deliveries.len() > 0 {
            let delivery = self.deliveries.remove(0);
            assert(self.deliveries@ == old(self).deliveries@.skip(1));
            ConsumerPoll::Delivery(delivery)
        } else {
            let mut error: Option<Error> = None;
            std::mem::swap(&mut error, &mut self.error);
            match error {
                Some(e) => {
                    self.canceled = true;
                    ConsumerPoll::Failed(e)
                },
                None => {
                    if self.canceled {
                        ConsumerPoll::End
                    } else {
                        ConsumerPoll::Pending
                    }
                },
            }
        }
    }
}

/// Once a consumer is cancelled, its stream gives every delivery that was
/// whole at that moment, in the order of arrival, and then ends, provided
/// the channel has not failed.
pub proof fn lemma_cancelled_stream_drains_then_ends(stream: ConsumerStream, index: nat)
    requires
        stream.error is None,
    ensures
        index < stream.deliveries.len() ==> stream.cancelled().after(index).head()
            == ConsumerPoll::Delivery(stream.deliveries[index as int]),
        index >= stream.deliveries.len() ==> stream.cancelled().after(index).head()
            == ConsumerPoll::End,
    decreases index,
{
    let c = stream.cancelled();
    if index > 0 {
        if stream.deliveries.len() > 0 {
            let rest = ConsumerStream { deliveries: stream.deliveries.skip(1), ..stream };
            assert(c.tail() == rest.cancelled());
            lemma_cancelled_stream_drains_then_ends(rest, (index - 1) as nat);
        } else {
            assert(c.tail() == c);
            lemma_cancelled_stream_drains_then_ends(stream, (index - 1) as nat);
        }
    }
}

} // verus!
