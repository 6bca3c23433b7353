use amq_protocol::protocol::basic::AMQPProperties;
use vstd::prelude::*;

verus! {

/// A message on its way to the application, whole or still being put
/// together from its frames.
#[derive(Debug, PartialEq)]
pub struct Delivery {
    pub delivery_tag: u64,
    pub exchange: String,
    pub routing_key: String,
    pub redelivered: bool,
    /// Set when the content header arrives.
    pub properties: Option<AMQPProperties>,
    /// The body received so far.
    pub data: Vec<u8>,
}

impl Delivery {
    pub fn new(delivery_tag: u64, exchange: String, routing_key: String, redelivered: bool) -> (r:
        Self)
        ensures
            r.delivery_tag == delivery_tag,
            r.exchange == exchange,
            r.routing_key == routing_key,
            r.redelivered == redelivered,
            r.properties is None,
            r.data@.len() == 0,
    {
        Delivery {
            delivery_tag,
            exchange,
            routing_key,
            redelivered,
            properties: None,
            data: Vec::new(),
        }
    }

    /// A delivery that has just begun: the method's fields, no properties
    /// and no body yet.
    pub open spec fn is_new(
        self,
        delivery_tag: u64,
        exchange: String,
        routing_key: String,
        redelivered: bool,
    ) -> bool {
        &&& self.delivery_tag == delivery_tag
        &&& self.exchange == exchange
        &&& self.routing_key == routing_key
        &&& self.redelivered == redelivered
        &&& self.properties is None
        &&& self.data@.len() == 0
    }

    /// `after` is `before` with `properties` set and nothing else touched.
    pub open spec fn with_properties(before: Self, after: Self, properties: AMQPProperties) -> bool {
        &&& after.properties == Some(properties)
        &&& after.data == before.data
        &&& after.delivery_tag == before.delivery_tag
        &&& after.exchange == before.exchange
        &&& after.routing_key == before.routing_key
        &&& after.redelivered == before.redelivered
    }

    /// `after` is `before` with `payload` appended to the body and nothing
    /// else touched.
    pub open spec fn with_content(before: Self, after: Self, payload: Seq<u8>) -> bool {
        &&& after.data@ == before.data@ + payload
        &&& after.properties == before.properties
        &&& after.delivery_tag == before.delivery_tag
        &&& after.exchange == before.exchange
        &&& after.routing_key == before.routing_key
        &&& after.redelivered == before.redelivered
    }

    pub fn set_properties(&mut self, properties: AMQPProperties)
        ensures
            Self::with_properties(*old(self), *final(self), properties),
    {
        self.properties = Some(properties);
    }

    pub fn receive_part(&mut self, part: ContentPart)
        ensures
            part.applied(*old(self), *final(self)),
    {
        match part {
            ContentPart::Properties(properties) => self.set_properties(properties),
            ContentPart::Body(payload) => self.receive_content(payload),
        }
    }

    pub fn receive_content(&mut self, payload: Vec<u8>)
        ensures
            Self::with_content(*old(self), *final(self), payload@),
    {
        let mut payload = payload;
        self.data.append(&mut payload);
    }
}

/// One frame's worth of a content: the properties that the header
/// brings, or a piece of the body.
#[derive(Debug, PartialEq)]
pub enum ContentPart {
    Properties(AMQPProperties),
    Body(Vec<u8>),
}

impl ContentPart {
    /// `after` is `before` with this part taken in.
    pub open spec fn applied(self, before: Delivery, after: Delivery) -> bool {
        match self {
            ContentPart::Properties(properties) => Delivery::with_properties(
                before,
                after,
                properties,
            ),
            ContentPart::Body(payload) => Delivery::with_content(before, after, payload@),
        }
    }
}

/// The delivery being put together and the whole ones, `after` a part of
/// its content arrived: the part is taken in, and if it is the last one
/// the delivery joins the end of the whole ones. Without a delivery being
/// put together nothing changes.
pub open spec fn assembled(
    current_before: Option<Delivery>,
    whole_before: Seq<Delivery>,
    current_after: Option<Delivery>,
    whole_after: Seq<Delivery>,
    part: ContentPart,
    complete: bool,
) -> bool {
    if current_before is None {
        current_after is None && whole_after == whole_before
    } else if complete {
        &&& current_after is None
        &&& whole_after.len() == whole_before.len() + 1
        &&& whole_after.drop_last() == whole_before
        &&& part.applied(current_before->0, whole_after.last())
    } else {
        &&& current_after is Some
        &&& part.applied(current_before->0, current_after->0)
        &&& whole_after == whole_before
    }
}

/// Takes a part of a content into the delivery being put together: see
/// `assembled`.
pub fn assemble(
    current: &mut Option<Delivery>,
    whole: &mut Vec<Delivery>,
    part: ContentPart,
    complete: bool,
)
    ensures
        assembled(*old(current), old(whole)@, *final(current), final(whole)@, part, complete),
{
    let mut taken: Option<Delivery> = None;
    std::mem::swap(&mut taken, current);
    match taken {
        Some(delivery) => {
            let mut delivery = delivery;
            delivery.receive_part(part);
            if complete {
                whole.push(delivery);
                assert(whole@.drop_last() == old(whole)@);
            } else {
                *current = Some(delivery);
            }
        },
        None => {},
    }
}

/// A message that the broker could not route and sent back.
#[derive(Debug, PartialEq)]
pub struct BasicReturnMessage {
    pub delivery: Delivery,
    pub reply_code: u16,
    pub reply_text: String,
}

impl BasicReturnMessage {
    pub fn new(exchange: String, routing_key: String, reply_code: u16, reply_text: String) -> (r:
        Self)
        ensures
            r.delivery.delivery_tag == 0,
            r.delivery.exchange == exchange,
            r.delivery.routing_key == routing_key,
            r.delivery.redelivered == false,
            r.delivery.properties is None,
            r.delivery.data@.len() == 0,
            r.reply_code == reply_code,
            r.reply_text == reply_text,
    {
        BasicReturnMessage {
            delivery: Delivery::new(0, exchange, routing_key, false),
            reply_code,
            reply_text,
        }
    }
}

} // verus!
