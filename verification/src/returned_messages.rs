use crate::acknowledgement::{DeliveryTag, Resolution};
use crate::message::{BasicReturnMessage, ContentPart, Delivery};
use amq_protocol::protocol::basic::AMQPProperties;
use vstd::prelude::*;

verus! {

/// A returned message that goes with the refusal of a publish.
#[derive(Debug, PartialEq)]
pub struct RefusedReturn {
    pub delivery_tag: DeliveryTag,
    pub message: BasicReturnMessage,
}

/// How many of `waiting` returned messages go with `refusals` refused
/// publishes: one each, as far as there are.
pub open spec fn attached_count(refusals: int, waiting: int) -> int {
    if refusals < waiting {
        refusals
    } else {
        waiting
    }
}

/// The messages that the broker sent back on one channel.
pub struct ReturnedMessages {
    /// The returned message being put together, if any.
    pub current_message: Option<BasicReturnMessage>,
    /// Whole messages returned while the channel was not confirming
    /// publishes.
    pub non_confirm_messages: Vec<BasicReturnMessage>,
    /// Whole messages returned while the channel was confirming publishes.
    pub waiting_messages: Vec<BasicReturnMessage>,
    /// Returned messages that went with the refusal of a publish.
    pub refused: Vec<RefusedReturn>,
}

impl ReturnedMessages {
    pub fn new() -> (r: Self)
        ensures
            r.current_message is None,
            r.non_confirm_messages@.len() == 0,
            r.waiting_messages@.len() == 0,
            r.refused@.len() == 0,
    {
        ReturnedMessages {
            current_message: None,
            non_confirm_messages: Vec::new(),
            waiting_messages: Vec::new(),
            refused: Vec::new(),
        }
    }

    /// The broker refused publishes: the oldest returned messages that
    /// wait go with the refusals in `resolved` from position `from` on,
    /// one each and in order, as far as there are.
    pub fn attach_to_refusals(&mut self, resolved: &Vec<Resolution>, from: usize)
        requires
            from <= resolved@.len(),
        ensures
            Self::attached(*old(self), *final(self), resolved@.skip(from as int)),
    {
        let ghost refusals = resolved@.skip(from as int);
        let total: usize = resolved.len();
        let n: usize = total - from;
        let mut i: usize = 0;
        while i < n && self.waiting_messages.len() > 0
            invariant
                i <= n,
                total == resolved@.len(),
                n == refusals.len(),
                from + n == resolved@.len(),
                refusals == resolved@.skip(from as int),
                i <= old(self).waiting_messages@.len(),
                self.current_message == old(self).current_message,
                self.non_confirm_messages == old(self).non_confirm_messages,
                self.waiting_messages@ == old(self).waiting_messages@.skip(i as int),
                self.refused@.len() == old(self).refused@.len() + i,
                forall|k: int|
                    0 <= k < old(self).refused@.len() ==> self.refused@[k] == old(self).refused@[k],
                forall|k: int|
                    0 <= k < i ==> (#[trigger] self.refused@[old(self).refused@.len() + k]) == (
                    RefusedReturn {
                        delivery_tag: refusals[k].delivery_tag,
                        message: old(self).waiting_messages@[k],
                    }),
            decreases n - i,
        {
            let message = self.waiting_messages.remove(0);
            assert(self.waiting_messages@ == old(self).waiting_messages@.skip(i + 1));
            let delivery_tag = resolved[from + i].delivery_tag;
            self.refused.push(RefusedReturn { delivery_tag, message });
            i += 1;
        }
    }

    /// `after` is `before` with the oldest waiting messages gone with
    /// `refusals`, one each and in order, as far as there are.
    pub open spec fn attached(before: Self, after: Self, refusals: Seq<Resolution>) -> bool {
        let count = attached_count(refusals.len() as int, before.waiting_messages@.len() as int);
        &&& after.current_message == before.current_message
        &&& after.non_confirm_messages == before.non_confirm_messages
        &&& after.waiting_messages@ == before.waiting_messages@.skip(count)
        &&& after.refused@.len() == before.refused@.len() + count
        &&& forall|k: int|
            0 <= k < before.refused@.len() ==> after.refused@[k] == before.refused@[k]
        &&& forall|k: int|
            0 <= k < count ==> (#[trigger] after.refused@[before.refused@.len() + k]) == (
            RefusedReturn {
                delivery_tag: refusals[k].delivery_tag,
                message: before.waiting_messages@[k],
            })
    }

    /// Hands out the returned messages that went with refusals and
    /// forgets them.
    pub fn drain_refused(&mut self) -> (r: Vec<RefusedReturn>)
        ensures
            r@ == old(self).refused@,
            final(self).refused@.len() == 0,
            final(self).current_message == old(self).current_message,
            final(self).non_confirm_messages == old(self).non_confirm_messages,
            final(self).waiting_messages == old(self).waiting_messages,
    {
        let mut out: Vec<RefusedReturn> = Vec::new();
        std::mem::swap(&mut out, &mut self.refused);
        out
    }

    /// A Basic.Return arrived: its message replaces whatever was being put
    /// together.
    pub fn start_new_delivery(&mut self, message: BasicReturnMessage)
        ensures
            final(self).current_message == Some(message),
            final(self).non_confirm_messages == old(self).non_confirm_messages,
            final(self).waiting_messages == old(self).waiting_messages,
            final(self).refused == old(self).refused,
    {
        self.current_message = Some(message);
    }

    /// The content header arrived.
    pub fn set_delivery_properties(&mut self, properties: AMQPProperties)
        ensures
            final(self).non_confirm_messages@ == old(self).non_confirm_messages@,
            final(self).waiting_messages@ == old(self).waiting_messages@,
            final(self).refused == old(self).refused,
            old(self).current_message is None ==> final(self).current_message is None,
            old(self).current_message is Some ==> {
                &&& final(self).current_message is Some
                &&& Delivery::with_properties(
                    old(self).current_message->0.delivery,
                    final(self).current_message->0.delivery,
                    properties,
                )
                &&& final(self).current_message->0.reply_code == old(
                    self,
                ).current_message->0.reply_code
                &&& final(self).current_message->0.reply_text == old(
                    self,
                ).current_message->0.reply_text
            },
    {
        match &mut self.current_message {
            Some(message) => {
                message.delivery.set_properties(properties);
            },
            None => {},
        }
    }

    /// A piece of the body arrived.
    pub fn receive_delivery_content(&mut self, payload: Vec<u8>)
        ensures
            final(self).non_confirm_messages@ == old(self).non_confirm_messages@,
            final(self).waiting_messages@ == old(self).waiting_messages@,
            final(self).refused == old(self).refused,
            old(self).current_message is None ==> final(self).current_message is None,
            old(self).current_message is Some ==> {
                &&& final(self).current_message is Some
                &&& Delivery::with_content(
                    old(self).current_message->0.delivery,
                    final(self).current_message->0.delivery,
                    payload@,
                )
                &&& final(self).current_message->0.reply_code == old(
                    self,
                ).current_message->0.reply_code
                &&& final(self).current_message->0.reply_text == old(
                    self,
                ).current_message->0.reply_text
            },
    {
        match &mut self.current_message {
            Some(message) => {
                message.delivery.receive_content(payload);
            },
            None => {},
        }
    }

    /// The message being put together is whole: it joins the waiting ones
    /// if the channel confirms publishes, the others if not.
    pub fn new_delivery_complete(&mut self, confirm_mode: bool)
        ensures
            final(self).current_message is None,
            final(self).refused == old(self).refused,
            final(self).waiting_messages@ == if old(self).current_message is Some && confirm_mode {
                old(self).waiting_messages@.push(old(self).current_message->0)
            } else {
                old(self).waiting_messages@
            },
            final(self).non_confirm_messages@ == if old(self).current_message is Some
                && !confirm_mode {
                old(self).non_confirm_messages@.push(old(self).current_message->0)
            } else {
                old(self).non_confirm_messages@
            },
    {
        let mut current: Option<BasicReturnMessage> = None;
        std::mem::swap(&mut current, &mut self.current_message);
        match current {
            Some(message) => {
                if confirm_mode {
                    self.waiting_messages.push(message);
                } else {
                    self.non_confirm_messages.push(message);
                }
            },
            None => {},
        }
    }

    /// A part of the content of the returned message arrived; `complete`
    /// tells whether it is the last one.
    pub fn receive_part(&mut self, part: ContentPart, complete: bool, confirm_mode: bool)
        ensures
            Self::part_received(*old(self), *final(self), part, complete, confirm_mode),
    {
        match part {
            ContentPart::Properties(properties) => self.set_delivery_properties(properties),
            ContentPart::Body(payload) => self.receive_delivery_content(payload),
        }
        if complete {
            let ghost between = *self;
            self.new_delivery_complete(confirm_mode);
            proof {
                if old(self).current_message is Some {
                    if confirm_mode {
                        assert(self.waiting_messages@.drop_last() == old(self).waiting_messages@);
                    } else {
                        assert(self.non_confirm_messages@.drop_last() == old(
                            self,
                        ).non_confirm_messages@);
                    }
                }
            }
        }
    }

    /// `after` is `before` with a part of a content taken in by the
    /// returned message being put together: if the part is the last one,
    /// the message joins the end of the waiting ones when the channel
    /// confirms publishes, of the others when not. Without a message
    /// being put together nothing changes.
    pub open spec fn part_received(
        before: Self,
        after: Self,
        part: ContentPart,
        complete: bool,
        confirm_mode: bool,
    ) -> bool {
        &&& after.refused == before.refused
        &&& Self::part_assembled(before, after, part, complete, confirm_mode)
    }

    pub open spec fn part_assembled(
        before: Self,
        after: Self,
        part: ContentPart,
        complete: bool,
        confirm_mode: bool,
    ) -> bool {
        if before.current_message is None {
            &&& after.current_message is None
            &&& after.waiting_messages@ == before.waiting_messages@
            &&& after.non_confirm_messages@ == before.non_confirm_messages@
        } else if complete {
            let target_before = if confirm_mode {
                before.waiting_messages@
            } else {
                before.non_confirm_messages@
            };
            let target_after = if confirm_mode {
                after.waiting_messages@
            } else {
                after.non_confirm_messages@
            };
            &&& after.current_message is None
            &&& confirm_mode ==> after.non_confirm_messages@ == before.non_confirm_messages@
            &&& !confirm_mode ==> after.waiting_messages@ == before.waiting_messages@
            &&& target_after.len() == target_before.len() + 1
            &&& target_after.drop_last() == target_before
            &&& Self::part_taken(before.current_message->0, target_after.last(), part)
        } else {
            &&& after.current_message is Some
            &&& Self::part_taken(before.current_message->0, after.current_message->0, part)
            &&& after.waiting_messages@ == before.waiting_messages@
            &&& after.non_confirm_messages@ == before.non_confirm_messages@
        }
    }

    /// `after` is the returned message `before` with `part` taken in.
    pub open spec fn part_taken(
        before: BasicReturnMessage,
        after: BasicReturnMessage,
        part: ContentPart,
    ) -> bool {
        &&& part.applied(before.delivery, after.delivery)
        &&& after.reply_code == before.reply_code
        &&& after.reply_text == before.reply_text
    }

    /// Hands out every whole returned message, those returned outside
    /// confirm mode first, and forgets them.
    pub fn drain(&mut self) -> (r: Vec<BasicReturnMessage>)
        ensures
            r@ == old(self).non_confirm_messages@ + old(self).waiting_messages@,
            final(self).non_confirm_messages@.len() == 0,
            final(self).waiting_messages@.len() == 0,
            final(self).current_message == old(self).current_message,
            final(self).refused == old(self).refused,
    {
        let mut out: Vec<BasicReturnMessage> = Vec::new();
        std::mem::swap(&mut out, &mut self.non_confirm_messages);
        out.append(&mut self.waiting_messages);
        out
    }
}

} // verus!
