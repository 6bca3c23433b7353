use amq_protocol::protocol::basic::AMQPProperties;
use amq_protocol::types::FieldTable;
use vstd::prelude::*;
use vstd::slice::slice_subrange;

verus! {

/// Bytes of a body frame that are not payload.
pub const BODY_FRAME_OVERHEAD: u32 = 8;

/// The methods that this client sends or receives, with their arguments.
#[derive(Debug, PartialEq)]
pub enum Method {
    ConnectionStart { mechanisms: String, locales: String },
    ConnectionStartOk { client_properties: FieldTable, mechanism: String, response: String, locale: String },
    ConnectionSecure { challenge: String },
    ConnectionSecureOk { response: String },
    ConnectionTune { channel_max: u16, frame_max: u32, heartbeat: u16 },
    ConnectionTuneOk { channel_max: u16, frame_max: u32, heartbeat: u16 },
    ConnectionOpen { virtual_host: String },
    ConnectionOpenOk,
    ConnectionClose { reply_code: u16, reply_text: String, class_id: u16, method_id: u16 },
    ConnectionCloseOk,
    ConnectionBlocked { reason: String },
    ConnectionUnblocked,
    ChannelOpen { out_of_band: String },
    ChannelOpenOk,
    ChannelFlow { active: bool },
    ChannelFlowOk { active: bool },
    ChannelClose { reply_code: u16, reply_text: String, class_id: u16, method_id: u16 },
    ChannelCloseOk,
    ExchangeDeclare {
        ticket: u16,
        exchange: String,
        kind: String,
        passive: bool,
        durable: bool,
        auto_delete: bool,
        internal: bool,
        nowait: bool,
        arguments: FieldTable,
    },
    ExchangeDeclareOk,
    ExchangeDelete { ticket: u16, exchange: String, if_unused: bool, nowait: bool },
    ExchangeDeleteOk,
    ExchangeBind {
        ticket: u16,
        destination: String,
        source: String,
        routing_key: String,
        nowait: bool,
        arguments: FieldTable,
    },
    ExchangeBindOk,
    ExchangeUnbind {
        ticket: u16,
        destination: String,
        source: String,
        routing_key: String,
        nowait: bool,
        arguments: FieldTable,
    },
    ExchangeUnbindOk,
    QueueDeclare {
        ticket: u16,
        queue: String,
        passive: bool,
        durable: bool,
        exclusive: bool,
        auto_delete: bool,
        nowait: bool,
        arguments: FieldTable,
    },
    QueueDeclareOk { queue: String, message_count: u32, consumer_count: u32 },
    QueueBind {
        ticket: u16,
        queue: String,
        exchange: String,
        routing_key: String,
        nowait: bool,
        arguments: FieldTable,
    },
    QueueBindOk,
    QueuePurge { ticket: u16, queue: String, nowait: bool },
    QueuePurgeOk { message_count: u32 },
    QueueDelete { ticket: u16, queue: String, if_unused: bool, if_empty: bool, nowait: bool },
    QueueDeleteOk { message_count: u32 },
    QueueUnbind {
        ticket: u16,
        queue: String,
        exchange: String,
        routing_key: String,
        arguments: FieldTable,
    },
    QueueUnbindOk,
    BasicQos { prefetch_size: u32, prefetch_count: u16, global: bool },
    BasicQosOk,
    BasicConsume {
        ticket: u16,
        queue: String,
        consumer_tag: String,
        no_local: bool,
        no_ack: bool,
        exclusive: bool,
        nowait: bool,
        arguments: FieldTable,
    },
    BasicConsumeOk { consumer_tag: String },
    BasicCancel { consumer_tag: String, nowait: bool },
    BasicCancelOk { consumer_tag: String },
    BasicPublish {
        ticket: u16,
        exchange: String,
        routing_key: String,
        mandatory: bool,
        immediate: bool,
    },
    BasicReturn { reply_code: u16, reply_text: String, exchange: String, routing_key: String },
    BasicDeliver {
        consumer_tag: String,
        delivery_tag: u64,
        redelivered: bool,
        exchange: String,
        routing_key: String,
    },
    BasicGet { ticket: u16, queue: String, no_ack: bool },
    BasicGetOk {
        delivery_tag: u64,
        redelivered: bool,
        exchange: String,
        routing_key: String,
        message_count: u32,
    },
    BasicGetEmpty,
    BasicAck { delivery_tag: u64, multiple: bool },
    BasicReject { delivery_tag: u64, requeue: bool },
    BasicRecoverAsync { requeue: bool },
    BasicRecover { requeue: bool },
    BasicRecoverOk,
    BasicNack { delivery_tag: u64, multiple: bool, requeue: bool },
    ConfirmSelect { nowait: bool },
    ConfirmSelectOk,
}

/// A frame as the codec takes and gives it.
#[derive(Debug, PartialEq)]
pub enum Frame {
    ProtocolHeader,
    /// Channel and method.
    Method(u16, Method),
    /// Channel, class id, size of the body that follows, properties.
    Header(u16, u16, u64, AMQPProperties),
    /// Channel and a piece of the body.
    Body(u16, Vec<u8>),
    Heartbeat(u16),
}

/// The most payload that one body frame carries when frames are limited
/// to `frame_max` bytes.
pub open spec fn chunk_size(frame_max: u32) -> int {
    frame_max - BODY_FRAME_OVERHEAD
}

/// Where the piece with index `index` ends in a payload of `len` bytes cut
/// into pieces of `size` bytes.
pub open spec fn chunk_end(index: int, size: int, len: int) -> int {
    if (index + 1) * size < len {
        (index + 1) * size
    } else {
        len
    }
}

/// `count` is the number of pieces of at most `size` bytes that a payload
/// of `len` bytes is cut into: the least number of them that holds it.
pub open spec fn is_chunk_count(count: int, size: int, len: int) -> bool {
    &&& 0 <= count
    &&& count * size >= len
    &&& count == 0 || (count - 1) * size < len
}

/// `frames` is what publishing `payload` puts on the wire: the method, the
/// content header with the payload's length, then the payload in order,
/// cut into body frames that all but the last carry exactly
/// `chunk_size(frame_max)` bytes.
pub open spec fn is_content_batch(
    frames: Seq<Frame>,
    channel_id: u16,
    method: Method,
    class_id: u16,
    payload: Seq<u8>,
    properties: AMQPProperties,
    frame_max: u32,
) -> bool {
    let size = chunk_size(frame_max);
    &&& frames.len() >= 2
    &&& is_chunk_count(frames.len() - 2, size, payload.len() as int)
    &&& frames[0] == Frame::Method(channel_id, method)
    &&& frames[1] == Frame::Header(channel_id, class_id, payload.len() as u64, properties)
    &&& forall|i: int|
        0 <= i < frames.len() - 2 ==> {
            &&& (#[trigger] frames[i + 2]) is Body
            &&& frames[i + 2]->Body_0 == channel_id
            &&& frames[i + 2]->Body_1@ == payload.subrange(
                i * size,
                chunk_end(i, size, payload.len() as int),
            )
        }
}

/// Cuts `payload` into pieces of at most `frame_max - 8` bytes, one body
/// frame on `channel_id` each, in order.
pub fn body_frames(channel_id: u16, payload: &Vec<u8>, frame_max: u32) -> (frames: Vec<Frame>)
    requires
        frame_max > BODY_FRAME_OVERHEAD,
    ensures
        is_chunk_count(frames@.len() as int, chunk_size(frame_max), payload@.len() as int),
        forall|i: int|
            0 <= i < frames@.len() ==> {
                &&& (#[trigger] frames@[i]) is Body
                &&& frames@[i]->Body_0 == channel_id
                &&& frames@[i]->Body_1@ == payload@.subrange(
                    i * chunk_size(frame_max),
                    chunk_end(i, chunk_size(frame_max), payload@.len() as int),
                )
            },
{
    let size: usize = (frame_max - BODY_FRAME_OVERHEAD) as usize;
    let len: usize = payload.len();
    let mut frames: Vec<Frame> = Vec::new();
    let mut offset: usize = 0;
    proof {
        assert(frames@.len() * size == 0) by (nonlinear_arith)
            requires
                frames@.len() == 0,
        ;
    }
    while offset < len
        invariant
            size == chunk_size(frame_max),
            size > 0,
            len == payload@.len(),
            offset <= len,
            offset == if frames@.len() * size < len {
                frames@.len() * size
            } else {
                len as int
            },
            frames@.len() == 0 || (frames@.len() - 1) * size < len,
            forall|i: int|
                0 <= i < frames@.len() ==> {
                    &&& (#[trigger] frames@[i]) is Body
                    &&& frames@[i]->Body_0 == channel_id
                    &&& frames@[i]->Body_1@ == payload@.subrange(
                        i * size,
                        chunk_end(i, size as int, len as int),
                    )
                },
        decreases len - offset,
    {
        let end: usize = if len - offset > size {
            offset + size
        } else {
            len
        };
        let ghost count = frames@.len() as int;
        proof {
            assert((count + 1) * size == count * size + size) by (nonlinear_arith);
            assert(end == chunk_end(count, size as int, len as int));
        }
        let mut chunk: Vec<u8> = Vec::new();
        chunk.extend_from_slice(slice_subrange(payload.as_slice(), offset, end));
        assert(chunk@ == payload@.subrange(offset as int, end as int));
        frames.push(Frame::Body(channel_id, chunk));
        offset = end;
    }
    frames
}

/// The frames that publish `payload` with `method`: see
/// `is_content_batch`.
pub fn content_frames(
    channel_id: u16,
    method: Method,
    class_id: u16,
    payload: &Vec<u8>,
    properties: AMQPProperties,
    frame_max: u32,
) -> (frames: Vec<Frame>)
    requires
        frame_max > BODY_FRAME_OVERHEAD,
    ensures
        is_content_batch(frames@, channel_id, method, class_id, payload@, properties, frame_max),
{
    let mut frames: Vec<Frame> = Vec::new();
    frames.push(Frame::Method(channel_id, method));
    frames.push(Frame::Header(channel_id, class_id, payload.len() as u64, properties));
    let mut bodies = body_frames(channel_id, payload, frame_max);
    let ghost pieces = bodies@;
    frames.append(&mut bodies);
    proof {
        assert forall|i: int| 0 <= i < frames@.len() - 2 implies {
            &&& (#[trigger] frames@[i + 2]) is Body
            &&& frames@[i + 2]->Body_0 == channel_id
            &&& frames@[i + 2]->Body_1@ == payload@.subrange(
                i * chunk_size(frame_max),
                chunk_end(i, chunk_size(frame_max), payload@.len() as int),
            )
        } by {
            assert(frames@[i + 2] == pieces[i]);
        }
    }
    frames
}

/// No body frame of a content batch carries more than `frame_max - 8`
/// bytes, and together the body frames carry the payload's length.
pub proof fn lemma_body_frames_within_frame_max(
    frames: Seq<Frame>,
    channel_id: u16,
    method: Method,
    class_id: u16,
    payload: Seq<u8>,
    properties: AMQPProperties,
    frame_max: u32,
    index: int,
)
    requires
        frame_max > BODY_FRAME_OVERHEAD,
        is_content_batch(frames, channel_id, method, class_id, payload, properties, frame_max),
        0 <= index < frames.len() - 2,
    ensures
        frames[index + 2] is Body,
        frames[index + 2]->Body_1@.len() <= frame_max - BODY_FRAME_OVERHEAD,
        frames[index + 2]->Body_1@.len() > 0,
        index < frames.len() - 3 ==> frames[index + 2]->Body_1@.len() == frame_max
            - BODY_FRAME_OVERHEAD,
        index == frames.len() - 3 ==> index * chunk_size(frame_max) + frames[index
            + 2]->Body_1@.len() == payload.len(),
{
    let size = chunk_size(frame_max);
    let count = frames.len() - 2;
    let len = payload.len() as int;
    assert(frames[index + 2]->Body_1@ == payload.subrange(
        index * size,
        chunk_end(index, size, len),
    ));
    assert((index + 1) * size == index * size + size) by (nonlinear_arith);
    assert(index * size <= (count - 1) * size) by (nonlinear_arith)
        requires
            index <= count - 1,
            size > 0,
    ;
    if index < count - 1 {
        assert((index + 1) * size <= (count - 1) * size) by (nonlinear_arith)
            requires
                index + 1 <= count - 1,
                size > 0,
        ;
    } else {
        assert(count * size == (count - 1) * size + size) by (nonlinear_arith);
    }
}

} // verus!
