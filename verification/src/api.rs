use crate::acknowledgement::{Acknowledgements, Confirmation, DeliveryTag};
use crate::channel::{is_protocol_error, Channel, Parts};
use crate::connection::{Connection, ConnectionParts, StartCheck};
use crate::consumer::{Consumer, ConsumerChange};
use crate::error::{AMQPError, ConnectionState, Error};
use crate::frames::{content_frames, is_content_batch, Frame, Method, BODY_FRAME_OVERHEAD};
use amq_protocol::types::FieldTable;
use crate::id_sequence::IdSequence;
use crate::protocol::{
    is_error_code, known_error_code, precondition_failed_code, HardError, BASIC_ACK_METHOD,
    BASIC_CLASS, BASIC_NACK_METHOD, CONNECTION_BLOCKED_METHOD, CONNECTION_CLASS,
    CONNECTION_CLOSE_METHOD, CONNECTION_CLOSE_OK_METHOD, CONNECTION_OPEN_OK_METHOD,
    CONNECTION_SECURE_METHOD, CONNECTION_START_METHOD, CONNECTION_TUNE_METHOD,
    CONNECTION_UNBLOCKED_METHOD,
};
use crate::queue::{lemma_first_true, Binding, Queue};
use amq_protocol::protocol::basic::AMQPProperties;
use vstd::prelude::*;

pub use crate::error::ChannelState;

verus! {

pub type RequestId = u64;

/// A reply that a channel awaits, with what the request captured for the
/// moment the reply arrives.
#[derive(Clone, Debug, PartialEq, Eq)]
pub enum Answer {
    AwaitingChannelOpenOk(RequestId),
    AwaitingChannelFlowOk(RequestId),
    AwaitingChannelCloseOk(RequestId),
    AwaitingExchangeDeclareOk(RequestId),
    AwaitingExchangeDeleteOk(RequestId),
    AwaitingExchangeBindOk(RequestId),
    AwaitingExchangeUnbindOk(RequestId),
    AwaitingQueueDeclareOk(RequestId),
    /// Exchange and routing key.
    AwaitingQueueBindOk(RequestId, String, String),
    /// Queue.
    AwaitingQueuePurgeOk(RequestId, String),
    /// Queue.
    AwaitingQueueDeleteOk(RequestId, String),
    /// Exchange and routing key.
    AwaitingQueueUnbindOk(RequestId, String, String),
    /// Prefetch size, prefetch count, global.
    AwaitingBasicQosOk(RequestId, u32, u16, bool),
    /// Queue, requested consumer tag, no_local, no_ack, exclusive, nowait.
    AwaitingBasicConsumeOk(RequestId, String, String, bool, bool, bool, bool),
    AwaitingBasicCancelOk(RequestId),
    /// Queue.
    AwaitingBasicGetAnswer(RequestId, String),
    AwaitingBasicRecoverOk(RequestId),
    AwaitingConfirmSelectOk(RequestId),
}

/// The kinds of reply that a channel can await.
#[derive(Clone, Copy, Debug, PartialEq, Eq, Structural)]
pub enum ReplyKind {
    ChannelOpenOk,
    ChannelFlowOk,
    ChannelCloseOk,
    ExchangeDeclareOk,
    ExchangeDeleteOk,
    ExchangeBindOk,
    ExchangeUnbindOk,
    QueueDeclareOk,
    QueueBindOk,
    QueuePurgeOk,
    QueueDeleteOk,
    QueueUnbindOk,
    BasicQosOk,
    BasicConsumeOk,
    BasicCancelOk,
    BasicGetAnswer,
    BasicRecoverOk,
    ConfirmSelectOk,
}

/// The state that a channel must be in for a request or a reply.
#[derive(Clone, Copy, Debug, PartialEq, Eq, Structural)]
pub enum Phase {
    /// Not opened yet: for Channel.Open and its reply.
    Opening,
    /// Open and between two contents: for everything else.
    Ready,
    /// Channel.Close was sent: for its reply.
    Closing,
    /// Opened and neither closed nor failed: for the broker's
    /// Channel.Close.
    Alive,
}

impl Phase {
    pub open spec fn admits(self, state: ChannelState) -> bool {
        match self {
            Phase::Opening => state is Initial,
            Phase::Ready => state is Connected,
            Phase::Closing => state is Closing,
            Phase::Alive => !(state is Initial) && !(state is Closed) && !(state is Error),
        }
    }

    pub fn allows(&self, state: &ChannelState) -> (r: bool)
        ensures
            r == self.admits(*state),
    {
        match self {
            Phase::Opening => match state {
                ChannelState::Initial => true,
                _ => false,
            },
            Phase::Ready => match state {
                ChannelState::Connected => true,
                _ => false,
            },
            Phase::Closing => match state {
                ChannelState::Closing => true,
                _ => false,
            },
            Phase::Alive => match state {
                ChannelState::Initial => false,
                ChannelState::Closed => false,
                ChannelState::Error => false,
                _ => true,
            },
        }
    }
}

/// The result without what it holds when it is a success.
pub open spec fn unit<T>(r: Result<T, Error>) -> Result<(), Error> {
    match r {
        Ok(_) => Ok(()),
        Err(e) => Err(e),
    }
}

/// A result that holds no cancelled consumer.
pub fn plain(r: Result<(), Error>) -> (full: Result<Option<Consumer>, Error>)
    ensures
        unit(full) == r,
        full is Ok ==> full->Ok_0 is None,
{
    match r {
        Ok(done) => {
            assert(done == ());
            Ok(None)
        },
        Err(e) => Err(e),
    }
}

/// The error of a result, if it is one.
pub open spec fn err_of<T>(r: Result<T, Error>) -> Option<Error> {
    match r {
        Ok(_) => None,
        Err(e) => Some(e),
    }
}

/// Whether a channel that awaits `awaiting`, oldest first, takes the
/// replies `replies` one after the other: each must be of the kind that
/// is awaited first at its turn.
pub open spec fn takes_replies(awaiting: Seq<Answer>, replies: Seq<ReplyKind>) -> bool
    decreases replies.len(),
{
    if replies.len() == 0 {
        true
    } else {
        &&& awaiting.len() > 0
        &&& awaiting[0].kind() == replies[0]
        &&& takes_replies(awaiting.skip(1), replies.skip(1))
    }
}

/// The replies that a channel takes match, one by one and in order, the
/// replies that were recorded as awaited when the requests were sent:
/// they are matched against a prefix of them.
pub proof fn lemma_replies_match_prefix_of_awaited(awaiting: Seq<Answer>, replies: Seq<ReplyKind>)
    requires
        takes_replies(awaiting, replies),
    ensures
        replies.len() <= awaiting.len(),
        forall|k: int| 0 <= k < replies.len() ==> (#[trigger] awaiting[k]).kind() == replies[k],
    decreases replies.len(),
{
    if replies.len() > 0 {
        lemma_replies_match_prefix_of_awaited(awaiting.skip(1), replies.skip(1));
        assert forall|k: int| 0 <= k < replies.len() implies (#[trigger] awaiting[k]).kind()
            == replies[k] by {
            if k > 0 {
                assert(awaiting.skip(1)[k - 1] == awaiting[k]);
                assert(replies.skip(1)[k - 1] == replies[k]);
            }
        }
    }
}

impl Answer {
    pub fn reply_kind(&self) -> (r: ReplyKind)
        ensures
            r == self.kind(),
    {
        match self {
            Answer::AwaitingChannelOpenOk(_) => ReplyKind::ChannelOpenOk,
            Answer::AwaitingChannelFlowOk(_) => ReplyKind::ChannelFlowOk,
            Answer::AwaitingChannelCloseOk(_) => ReplyKind::ChannelCloseOk,
            Answer::AwaitingExchangeDeclareOk(_) => ReplyKind::ExchangeDeclareOk,
            Answer::AwaitingExchangeDeleteOk(_) => ReplyKind::ExchangeDeleteOk,
            Answer::AwaitingExchangeBindOk(_) => ReplyKind::ExchangeBindOk,
            Answer::AwaitingExchangeUnbindOk(_) => ReplyKind::ExchangeUnbindOk,
            Answer::AwaitingQueueDeclareOk(_) => ReplyKind::QueueDeclareOk,
            Answer::AwaitingQueueBindOk(_, _, _) => ReplyKind::QueueBindOk,
            Answer::AwaitingQueuePurgeOk(_, _) => ReplyKind::QueuePurgeOk,
            Answer::AwaitingQueueDeleteOk(_, _) => ReplyKind::QueueDeleteOk,
            Answer::AwaitingQueueUnbindOk(_, _, _) => ReplyKind::QueueUnbindOk,
            Answer::AwaitingBasicQosOk(_, _, _, _) => ReplyKind::BasicQosOk,
            Answer::AwaitingBasicConsumeOk(_, _, _, _, _, _, _) => ReplyKind::BasicConsumeOk,
            Answer::AwaitingBasicCancelOk(_) => ReplyKind::BasicCancelOk,
            Answer::AwaitingBasicGetAnswer(_, _) => ReplyKind::BasicGetAnswer,
            Answer::AwaitingBasicRecoverOk(_) => ReplyKind::BasicRecoverOk,
            Answer::AwaitingConfirmSelectOk(_) => ReplyKind::ConfirmSelectOk,
        }
    }

    pub fn id(&self) -> (r: RequestId)
        ensures
            r == self.request_id(),
    {
        match self {
            Answer::AwaitingChannelOpenOk(id) => *id,
            Answer::AwaitingChannelFlowOk(id) => *id,
            Answer::AwaitingChannelCloseOk(id) => *id,
            Answer::AwaitingExchangeDeclareOk(id) => *id,
            Answer::AwaitingExchangeDeleteOk(id) => *id,
            Answer::AwaitingExchangeBindOk(id) => *id,
            Answer::AwaitingExchangeUnbindOk(id) => *id,
            Answer::AwaitingQueueDeclareOk(id) => *id,
            Answer::AwaitingQueueBindOk(id, _, _) => *id,
            Answer::AwaitingQueuePurgeOk(id, _) => *id,
            Answer::AwaitingQueueDeleteOk(id, _) => *id,
            Answer::AwaitingQueueUnbindOk(id, _, _) => *id,
            Answer::AwaitingBasicQosOk(id, _, _, _) => *id,
            Answer::AwaitingBasicConsumeOk(id, _, _, _, _, _, _) => *id,
            Answer::AwaitingBasicCancelOk(id) => *id,
            Answer::AwaitingBasicGetAnswer(id, _) => *id,
            Answer::AwaitingBasicRecoverOk(id) => *id,
            Answer::AwaitingConfirmSelectOk(id) => *id,
        }
    }

    pub open spec fn kind(self) -> ReplyKind {
        match self {
            Answer::AwaitingChannelOpenOk(_) => ReplyKind::ChannelOpenOk,
            Answer::AwaitingChannelFlowOk(_) => ReplyKind::ChannelFlowOk,
            Answer::AwaitingChannelCloseOk(_) => ReplyKind::ChannelCloseOk,
            Answer::AwaitingExchangeDeclareOk(_) => ReplyKind::ExchangeDeclareOk,
            Answer::AwaitingExchangeDeleteOk(_) => ReplyKind::ExchangeDeleteOk,
            Answer::AwaitingExchangeBindOk(_) => ReplyKind::ExchangeBindOk,
            Answer::AwaitingExchangeUnbindOk(_) => ReplyKind::ExchangeUnbindOk,
            Answer::AwaitingQueueDeclareOk(_) => ReplyKind::QueueDeclareOk,
            Answer::AwaitingQueueBindOk(_, _, _) => ReplyKind::QueueBindOk,
            Answer::AwaitingQueuePurgeOk(_, _) => ReplyKind::QueuePurgeOk,
            Answer::AwaitingQueueDeleteOk(_, _) => ReplyKind::QueueDeleteOk,
            Answer::AwaitingQueueUnbindOk(_, _, _) => ReplyKind::QueueUnbindOk,
            Answer::AwaitingBasicQosOk(_, _, _, _) => ReplyKind::BasicQosOk,
            Answer::AwaitingBasicConsumeOk(_, _, _, _, _, _, _) => ReplyKind::BasicConsumeOk,
            Answer::AwaitingBasicCancelOk(_) => ReplyKind::BasicCancelOk,
            Answer::AwaitingBasicGetAnswer(_, _) => ReplyKind::BasicGetAnswer,
            Answer::AwaitingBasicRecoverOk(_) => ReplyKind::BasicRecoverOk,
            Answer::AwaitingConfirmSelectOk(_) => ReplyKind::ConfirmSelectOk,
        }
    }

    /// The id of the request that awaits this reply.
    pub open spec fn request_id(self) -> RequestId {
        match self {
            Answer::AwaitingChannelOpenOk(id) => id,
            Answer::AwaitingChannelFlowOk(id) => id,
            Answer::AwaitingChannelCloseOk(id) => id,
            Answer::AwaitingExchangeDeclareOk(id) => id,
            Answer::AwaitingExchangeDeleteOk(id) => id,
            Answer::AwaitingExchangeBindOk(id) => id,
            Answer::AwaitingExchangeUnbindOk(id) => id,
            Answer::AwaitingQueueDeclareOk(id) => id,
            Answer::AwaitingQueueBindOk(id, _, _) => id,
            Answer::AwaitingQueuePurgeOk(id, _) => id,
            Answer::AwaitingQueueDeleteOk(id, _) => id,
            Answer::AwaitingQueueUnbindOk(id, _, _) => id,
            Answer::AwaitingBasicQosOk(id, _, _, _) => id,
            Answer::AwaitingBasicConsumeOk(id, _, _, _, _, _, _) => id,
            Answer::AwaitingBasicCancelOk(id) => id,
            Answer::AwaitingBasicGetAnswer(id, _) => id,
            Answer::AwaitingBasicRecoverOk(id) => id,
            Answer::AwaitingConfirmSelectOk(id) => id,
        }
    }
}

impl Connection {
    /// The error with which a request or a reply on this channel is
    /// turned away before anything happens, if it is: the connection is
    /// not open, there is no such channel, or the channel's state is not
    /// the one that `phase` asks for.
    pub open spec fn refusal(self, channel_id: u16, phase: Phase) -> Option<Error> {
        if !(self.state is Connected) {
            Some(Error::InvalidConnectionState(self.state))
        } else if !self.has_channel(channel_id) {
            Some(Error::InvalidChannel)
        } else {
            let state = self.channels@[self.channel_index(channel_id)].state;
            if phase.admits(state) {
                None
            } else {
                Some(Error::InvalidChannelState(state))
            }
        }
    }

    /// `after` is `before` with `method` on `channel_id` added to the
    /// frames that wait to be written.
    pub open spec fn method_queued(before: Self, after: Self, channel_id: u16, method: Method) -> bool {
        after.frame_queue@ == before.frame_queue@.push(Frame::Method(channel_id, method))
    }

    /// The id sequence after it handed out its upcoming id.
    pub open spec fn advanced(sequence: IdSequence) -> IdSequence {
        IdSequence {
            allow_zero: sequence.allow_zero,
            id: if sequence.upcoming() == u64::MAX {
                0
            } else {
                (sequence.upcoming() + 1) as u64
            },
        }
    }

    /// The outcome of a request that awaits a reply. Turned away, it
    /// changes nothing. Else its method is queued, it gets the
    /// upcoming request id, and `answer` joins the end of what the
    /// channel awaits; of the channel, only `parts` may change besides.
    pub open spec fn requested(
        before: Self,
        after: Self,
        channel_id: u16,
        phase: Phase,
        method: Method,
        answer: Answer,
        parts: Parts,
        r: Result<RequestId, Error>,
    ) -> bool {
        match before.refusal(channel_id, phase) {
            Some(e) => r == Err::<RequestId, Error>(e) && after == before,
            None => {
                let i = before.channel_index(channel_id);
                &&& r == Ok::<RequestId, Error>(before.request_id.upcoming())
                &&& after.same_outside(
                    before,
                    ConnectionParts {
                        channels: true,
                        frame_queue: true,
                        request_id: true,
                        ..ConnectionParts::none()
                    },
                )
                &&& Self::method_queued(before, after, channel_id, method)
                &&& after.request_id == Self::advanced(before.request_id)
                &&& Self::channels_same_but(before, after, i)
                &&& after.channels@[i].same_outside(
                    before.channels@[i],
                    Parts { awaiting: true, ..parts },
                )
                &&& after.channels@[i].awaiting@ == before.channels@[i].awaiting@.push(answer)
            },
        }
    }

    /// The outcome of sending a method that awaits no reply. Turned away,
    /// it changes nothing. Else the method is queued; of the
    /// channel, only `parts` may change.
    pub open spec fn sent(
        before: Self,
        after: Self,
        channel_id: u16,
        phase: Phase,
        method: Method,
        parts: Parts,
        r: Result<(), Error>,
    ) -> bool {
        match before.refusal(channel_id, phase) {
            Some(e) => r == Err::<(), Error>(e) && after == before,
            None => {
                let i = before.channel_index(channel_id);
                &&& r is Ok
                &&& after.same_outside(
                    before,
                    ConnectionParts { channels: true, frame_queue: true, ..ConnectionParts::none() },
                )
                &&& Self::method_queued(before, after, channel_id, method)
                &&& Self::channels_same_but(before, after, i)
                &&& after.channels@[i].same_outside(before.channels@[i], parts)
            },
        }
    }

    /// Whether a reply of this kind on this channel is let through
    /// and is the one that the channel awaits first.
    pub open spec fn awaited(self, channel_id: u16, phase: Phase, kind: ReplyKind) -> bool {
        let i = self.channel_index(channel_id);
        &&& self.refusal(channel_id, phase) is None
        &&& self.channels@[i].awaiting@.len() > 0
        &&& self.channels@[i].awaiting@[0].kind() == kind
    }

    /// The reply that the channel awaits first.
    pub open spec fn first_awaited(self, channel_id: u16) -> Answer {
        self.channels@[self.channel_index(channel_id)].awaiting@[0]
    }

    /// The outcome of a reply of kind `kind`. Turned away, it
    /// changes nothing. If it is the reply that the channel awaits
    /// first, that one leaves the awaited ones; of the channel only
    /// `parts` may change besides, of the connection only `touched`. Any
    /// other reply fails the channel with an unexpected answer.
    pub open spec fn replied(
        before: Self,
        after: Self,
        channel_id: u16,
        phase: Phase,
        kind: ReplyKind,
        parts: Parts,
        touched: ConnectionParts,
        error: Option<Error>,
    ) -> bool {
        match before.refusal(channel_id, phase) {
            Some(e) => error == Some(e) && after == before,
            None => {
                let i = before.channel_index(channel_id);
                &&& Self::channels_same_but(before, after, i)
                &&& if before.awaited(channel_id, phase, kind) {
                    &&& error is None
                    &&& after.same_outside(before, ConnectionParts { channels: true, ..touched })
                    &&& after.channels@[i].same_outside(
                        before.channels@[i],
                        Parts { awaiting: true, ..parts },
                    )
                    &&& parts.awaiting || after.channels@[i].awaiting@
                        == before.channels@[i].awaiting@.skip(1)
                } else {
                    &&& error == Some(Error::UnexpectedAnswer)
                    &&& after.same_outside(
                        before,
                        ConnectionParts { channels: true, ..ConnectionParts::none() },
                    )
                    &&& Self::channel_failed(before, after, i, Error::UnexpectedAnswer)
                }
            },
        }
    }

    /// The channel at `index` failed with `error`: see `Channel::ended`.
    pub open spec fn channel_failed(before: Self, after: Self, index: int, error: Error) -> bool {
        &&& after.channels@[index].state == ChannelState::Error
        &&& Channel::ended(before.channels@[index], after.channels@[index], error)
        &&& Channel::consumers_changed(
            before.channels@[index],
            after.channels@[index],
            ConsumerChange::Fail(error),
        )
    }

    /// `after` is `before` with one more request recorded as answered.
    pub open spec fn finished(before: Self, after: Self, request_id: RequestId) -> bool {
        after.finished_reqs@ == before.finished_reqs@.push(request_id)
    }

    /// Lets a request or a reply through, or gives the error that turns
    /// it away: see `refusal`.
    pub fn admission(&self, channel_id: u16, phase: Phase) -> (r: Result<usize, Error>)
        ensures
            err_of(r) == self.refusal(channel_id, phase),
            r is Ok ==> r->Ok_0 == self.channel_index(channel_id) && r->Ok_0
                < self.channels@.len() && self.channels@[r->Ok_0 as int].id == channel_id,
    {
        if self.state != ConnectionState::Connected {
            return Err(Error::InvalidConnectionState(self.state));
        }
        match self.find_channel(channel_id) {
            None => Err(Error::InvalidChannel),
            Some(i) => {
                if phase.allows(&self.channels[i].state) {
                    Ok(i)
                } else {
                    Err(Error::InvalidChannelState(self.channels[i].state.duplicate()))
                }
            },
        }
    }

    /// Adds a method to the frames that wait to be written.
    pub fn send_method_frame(&mut self, channel_id: u16, method: Method)
        ensures
            Self::method_queued(*old(self), *final(self), channel_id, method),
            final(self).same_outside(
                *old(self),
                ConnectionParts { frame_queue: true, ..ConnectionParts::none() },
            ),
    {
        self.frame_queue.push(Frame::Method(channel_id, method));
    }

    pub fn next_request_id(&mut self) -> (r: RequestId)
        ensures
            r == old(self).request_id.upcoming(),
            final(self).request_id == Self::advanced(old(self).request_id),
            final(self).same_outside(
                *old(self),
                ConnectionParts { request_id: true, ..ConnectionParts::none() },
            ),
    {
        self.request_id.next()
    }

    /// Records a reply as awaited by the channel at `index`, behind
    /// those awaited already.
    pub fn push_back_answer(&mut self, index: usize, answer: Answer)
        requires
            index < old(self).channels@.len(),
        ensures
            final(self).same_outside(
                *old(self),
                ConnectionParts { channels: true, ..ConnectionParts::none() },
            ),
            Self::channels_same_but(*old(self), *final(self), index as int),
            final(self).channels@[index as int].same_outside(
                old(self).channels@[index as int],
                Parts { awaiting: true, ..Parts::none() },
            ),
            final(self).channels@[index as int].awaiting@ == old(self).channels@[index as int].awaiting@.push(answer),
    {
        self.channels[index].awaiting.push(answer);
    }

    /// Takes the reply that the channel at `index` awaits first, if it
    /// awaits one.
    pub fn get_next_answer(&mut self, index: usize) -> (r: Option<Answer>)
        requires
            index < old(self).channels@.len(),
        ensures
            final(self).same_outside(
                *old(self),
                ConnectionParts { channels: true, ..ConnectionParts::none() },
            ),
            Self::channels_same_but(*old(self), *final(self), index as int),
            final(self).channels@[index as int].same_outside(
                old(self).channels@[index as int],
                Parts { awaiting: true, ..Parts::none() },
            ),
            old(self).channels@[index as int].awaiting@.len() == 0 ==> r is None && final(self).channels@[index as int].awaiting@.len() == 0,
            old(self).channels@[index as int].awaiting@.len() > 0 ==> r == Some(
                old(self).channels@[index as int].awaiting@[0],
            ) && final(self).channels@[index as int].awaiting@ == old(self).channels@[index as int].awaiting@.skip(1),
    {
        if self.channels[index].awaiting.len() > 0 {
            let answer = self.channels[index].awaiting.remove(0);
            assert(self.channels@[index as int].awaiting@ == old(self).channels@[index as int].awaiting@.skip(1));
            Some(answer)
        } else {
            None
        }
    }

    /// Fails the channel at `index` because the reply that arrived is
    /// not the one it awaited.
    pub fn unexpected_answer(&mut self, index: usize) -> (r: Error)
        requires
            index < old(self).channels@.len(),
        ensures
            r == Error::UnexpectedAnswer,
            final(self).same_outside(
                *old(self),
                ConnectionParts { channels: true, ..ConnectionParts::none() },
            ),
            Self::channels_same_but(*old(self), *final(self), index as int),
            Self::channel_failed(*old(self), *final(self), index as int, Error::UnexpectedAnswer),
    {
        self.channels[index].set_error(Error::UnexpectedAnswer);
        Error::UnexpectedAnswer
    }

    /// Records a request as answered.
    pub fn finish_request(&mut self, request_id: RequestId)
        ensures
            Self::finished(*old(self), *final(self), request_id),
            final(self).same_outside(
                *old(self),
                ConnectionParts { finished_reqs: true, ..ConnectionParts::none() },
            ),
    {
        self.finished_reqs.push(request_id);
    }

    /// Asks the broker to open the channel. Only a channel that has not
    /// been opened can.
    pub fn channel_open(&mut self, channel_id: u16, out_of_band: String) -> (r: Result<
        RequestId,
        Error,
    >)
        ensures
            Self::requested(
                *old(self),
                *final(self),
                channel_id,
                Phase::Opening,
                Method::ChannelOpen { out_of_band },
                Answer::AwaitingChannelOpenOk(old(self).request_id.upcoming()),
                Parts::none(),
                r,
            ),
    {
        let request_id = self.request_id.peek();
        self.request(
            channel_id,
            Phase::Opening,
            Method::ChannelOpen { out_of_band },
            Answer::AwaitingChannelOpenOk(request_id),
        )
    }

    /// The broker opened the channel: it is ready from now on.
    pub fn receive_channel_open_ok(&mut self, channel_id: u16) -> (r: Result<(), Error>)
        ensures
            Self::channel_open_ok_received(*old(self), *final(self), channel_id, r),
    {
        let i = match self.admission(channel_id, Phase::Opening) {
            Ok(i) => i,
            Err(e) => {
                return Err(e);
            },
        };
        match self.get_next_answer(i) {
            Some(Answer::AwaitingChannelOpenOk(request_id)) => {
                self.finish_request(request_id);
                self.channels[i].set_state(ChannelState::Connected);
                Ok(())
            },
            _ => Err(self.unexpected_answer(i)),
        }
    }

    pub open spec fn channel_open_ok_received(
        before: Self,
        after: Self,
        channel_id: u16,
        r: Result<(), Error>,
    ) -> bool {
        &&& Self::replied(
            before,
            after,
            channel_id,
            Phase::Opening,
            ReplyKind::ChannelOpenOk,
            Parts { state: true, ..Parts::none() },
            ConnectionParts { finished_reqs: true, ..ConnectionParts::none() },
            err_of(r),
        )
        &&& before.awaited(channel_id, Phase::Opening, ReplyKind::ChannelOpenOk) ==> {
            &&& Self::finished(before, after, before.first_awaited(channel_id).request_id())
            &&& after.channels@[before.channel_index(channel_id)].state == ChannelState::Connected
        }
    }

    /// Sends a request that awaits a reply: see `requested`.
    pub fn request(&mut self, channel_id: u16, phase: Phase, method: Method, answer: Answer) -> (r:
        Result<RequestId, Error>)
        ensures
            Self::requested(
                *old(self),
                *final(self),
                channel_id,
                phase,
                method,
                answer,
                Parts::none(),
                r,
            ),
    {
        let i = match self.admission(channel_id, phase) {
            Ok(i) => i,
            Err(e) => {
                return Err(e);
            },
        };
        self.send_method_frame(channel_id, method);
        let request_id = self.next_request_id();
        self.push_back_answer(i, answer);
        Ok(request_id)
    }

    /// Sends a method that awaits no reply: see `sent`.
    pub fn send(&mut self, channel_id: u16, phase: Phase, method: Method) -> (r: Result<(), Error>)
        ensures
            Self::sent(*old(self), *final(self), channel_id, phase, method, Parts::none(), r),
    {
        match self.admission(channel_id, phase) {
            Ok(_) => {
                self.send_method_frame(channel_id, method);
                Ok(())
            },
            Err(e) => Err(e),
        }
    }

    /// Takes the reply that the channel awaits first, if it is of kind
    /// `kind`, and gives it with the channel's index. Any other reply
    /// fails the channel: see `replied`.
    pub fn take_reply(&mut self, channel_id: u16, phase: Phase, kind: ReplyKind) -> (r: Result<
        (usize, Answer),
        Error,
    >)
        ensures
            match r {
                Ok((i, answer)) => {
                    &&& old(self).awaited(channel_id, phase, kind)
                    &&& i == old(self).channel_index(channel_id)
                    &&& i < old(self).channels@.len()
                    &&& answer == old(self).first_awaited(channel_id)
                    &&& final(self).same_outside(
                        *old(self),
                        ConnectionParts { channels: true, ..ConnectionParts::none() },
                    )
                    &&& Self::channels_same_but(*old(self), *final(self), i as int)
                    &&& final(self).channels@[i as int].same_outside(
                        old(self).channels@[i as int],
                        Parts { awaiting: true, ..Parts::none() },
                    )
                    &&& final(self).channels@[i as int].awaiting@ == old(self).channels@[i as int].awaiting@.skip(1)
                },
                Err(e) => {
                    &&& !old(self).awaited(channel_id, phase, kind)
                    &&& Self::replied(
                        *old(self),
                        *final(self),
                        channel_id,
                        phase,
                        kind,
                        Parts::none(),
                        ConnectionParts::none(),
                        Some(e),
                    )
                },
            },
    {
        let i = match self.admission(channel_id, phase) {
            Ok(i) => i,
            Err(e) => {
                return Err(e);
            },
        };
        match self.get_next_answer(i) {
            Some(answer) => {
                if answer.reply_kind() == kind {
                    Ok((i, answer))
                } else {
                    Err(self.unexpected_answer(i))
                }
            },
            None => Err(self.unexpected_answer(i)),
        }
    }

    /// The outcome of a reply that only tells that its request was
    /// carried out.
    pub open spec fn plainly_replied(
        before: Self,
        after: Self,
        channel_id: u16,
        kind: ReplyKind,
        r: Result<(), Error>,
    ) -> bool {
        &&& Self::replied(
            before,
            after,
            channel_id,
            Phase::Ready,
            kind,
            Parts::none(),
            ConnectionParts { finished_reqs: true, ..ConnectionParts::none() },
            err_of(r),
        )
        &&& before.awaited(channel_id, Phase::Ready, kind) ==> Self::finished(
            before,
            after,
            before.first_awaited(channel_id).request_id(),
        )
    }

    pub fn receive_plain_reply(&mut self, channel_id: u16, kind: ReplyKind) -> (r: Result<(), Error>)
        ensures
            Self::plainly_replied(*old(self), *final(self), channel_id, kind, r),
    {
        match self.take_reply(channel_id, Phase::Ready, kind) {
            Ok((_, answer)) => {
                self.finish_request(answer.id());
                Ok(())
            },
            Err(e) => Err(e),
        }
    }

    /// Asks the broker to pause or resume its deliveries.
    pub fn channel_flow(
        &mut self,
        channel_id: u16,
        active: bool,
    ) -> (r: Result<RequestId, Error>)
        ensures
            Self::requested(
                *old(self),
                *final(self),
                channel_id,
                Phase::Ready,
                Method::ChannelFlow { active },
                Answer::AwaitingChannelFlowOk(old(self).request_id.upcoming()),
                Parts::none(),
                r,
            ),
    {
        let request_id = self.request_id.peek();
        self.request(channel_id, Phase::Ready, Method::ChannelFlow { active }, Answer::AwaitingChannelFlowOk(request_id))
    }

    /// Confirms to the broker that the client paused or resumed its
    /// publishes.
    pub fn channel_flow_ok(
        &mut self,
        channel_id: u16,
        active: bool,
    ) -> (r: Result<(), Error>)
        ensures
            Self::sent(
                *old(self),
                *final(self),
                channel_id,
                Phase::Ready,
                Method::ChannelFlowOk { active },
                Parts::none(),
                r,
            ),
    {
        self.send(channel_id, Phase::Ready, Method::ChannelFlowOk { active })
    }

    pub fn exchange_declare(
        &mut self,
        channel_id: u16,
        ticket: u16,
        exchange: String,
        kind: String,
        passive: bool,
        durable: bool,
        auto_delete: bool,
        internal: bool,
        nowait: bool,
        arguments: FieldTable,
    ) -> (r: Result<RequestId, Error>)
        ensures
            Self::requested(
                *old(self),
                *final(self),
                channel_id,
                Phase::Ready,
                Method::ExchangeDeclare { ticket, exchange, kind, passive, durable, auto_delete, internal, nowait, arguments },
                Answer::AwaitingExchangeDeclareOk(old(self).request_id.upcoming()),
                Parts::none(),
                r,
            ),
    {
        let request_id = self.request_id.peek();
        self.request(channel_id, Phase::Ready, Method::ExchangeDeclare { ticket, exchange, kind, passive, durable, auto_delete, internal, nowait, arguments }, Answer::AwaitingExchangeDeclareOk(request_id))
    }

    pub fn receive_exchange_declare_ok(&mut self, channel_id: u16) -> (r: Result<(), Error>)
        ensures
            Self::plainly_replied(*old(self), *final(self), channel_id, ReplyKind::ExchangeDeclareOk, r),
    {
        self.receive_plain_reply(channel_id, ReplyKind::ExchangeDeclareOk)
    }

    pub fn exchange_delete(
        &mut self,
        channel_id: u16,
        ticket: u16,
        exchange: String,
        if_unused: bool,
        nowait: bool,
    ) -> (r: Result<RequestId, Error>)
        ensures
            Self::requested(
                *old(self),
                *final(self),
                channel_id,
                Phase::Ready,
                Method::ExchangeDelete { ticket, exchange, if_unused, nowait },
                Answer::AwaitingExchangeDeleteOk(old(self).request_id.upcoming()),
                Parts::none(),
                r,
            ),
    {
        let request_id = self.request_id.peek();
        self.request(channel_id, Phase::Ready, Method::ExchangeDelete { ticket, exchange, if_unused, nowait }, Answer::AwaitingExchangeDeleteOk(request_id))
    }

    pub fn receive_exchange_delete_ok(&mut self, channel_id: u16) -> (r: Result<(), Error>)
        ensures
            Self::plainly_replied(*old(self), *final(self), channel_id, ReplyKind::ExchangeDeleteOk, r),
    {
        self.receive_plain_reply(channel_id, ReplyKind::ExchangeDeleteOk)
    }

    pub fn exchange_bind(
        &mut self,
        channel_id: u16,
        ticket: u16,
        destination: String,
        source: String,
        routing_key: String,
        nowait: bool,
        arguments: FieldTable,
    ) -> (r: Result<RequestId, Error>)
        ensures
            Self::requested(
                *old(self),
                *final(self),
                channel_id,
                Phase::Ready,
                Method::ExchangeBind { ticket, destination, source, routing_key, nowait, arguments },
                Answer::AwaitingExchangeBindOk(old(self).request_id.upcoming()),
                Parts::none(),
                r,
            ),
    {
        let request_id = self.request_id.peek();
        self.request(channel_id, Phase::Ready, Method::ExchangeBind { ticket, destination, source, routing_key, nowait, arguments }, Answer::AwaitingExchangeBindOk(request_id))
    }

    pub fn receive_exchange_bind_ok(&mut self, channel_id: u16) -> (r: Result<(), Error>)
        ensures
            Self::plainly_replied(*old(self), *final(self), channel_id, ReplyKind::ExchangeBindOk, r),
    {
        self.receive_plain_reply(channel_id, ReplyKind::ExchangeBindOk)
    }

    pub fn exchange_unbind(
        &mut self,
        channel_id: u16,
        ticket: u16,
        destination: String,
        source: String,
        routing_key: String,
        nowait: bool,
        arguments: FieldTable,
    ) -> (r: Result<RequestId, Error>)
        ensures
            Self::requested(
                *old(self),
                *final(self),
                channel_id,
                Phase::Ready,
                Method::ExchangeUnbind { ticket, destination, source, routing_key, nowait, arguments },
                Answer::AwaitingExchangeUnbindOk(old(self).request_id.upcoming()),
                Parts::none(),
                r,
            ),
    {
        let request_id = self.request_id.peek();
        self.request(channel_id, Phase::Ready, Method::ExchangeUnbind { ticket, destination, source, routing_key, nowait, arguments }, Answer::AwaitingExchangeUnbindOk(request_id))
    }

    pub fn receive_exchange_unbind_ok(&mut self, channel_id: u16) -> (r: Result<(), Error>)
        ensures
            Self::plainly_replied(*old(self), *final(self), channel_id, ReplyKind::ExchangeUnbindOk, r),
    {
        self.receive_plain_reply(channel_id, ReplyKind::ExchangeUnbindOk)
    }

    pub fn queue_declare(
        &mut self,
        channel_id: u16,
        ticket: u16,
        queue: String,
        passive: bool,
        durable: bool,
        exclusive: bool,
        auto_delete: bool,
        nowait: bool,
        arguments: FieldTable,
    ) -> (r: Result<RequestId, Error>)
        ensures
            Self::requested(
                *old(self),
                *final(self),
                channel_id,
                Phase::Ready,
                Method::QueueDeclare { ticket, queue, passive, durable, exclusive, auto_delete, nowait, arguments },
                Answer::AwaitingQueueDeclareOk(old(self).request_id.upcoming()),
                Parts::none(),
                r,
            ),
    {
        let request_id = self.request_id.peek();
        self.request(channel_id, Phase::Ready, Method::QueueDeclare { ticket, queue, passive, durable, exclusive, auto_delete, nowait, arguments }, Answer::AwaitingQueueDeclareOk(request_id))
    }

    pub fn queue_purge(
        &mut self,
        channel_id: u16,
        ticket: u16,
        queue: String,
        nowait: bool,
    ) -> (r: Result<RequestId, Error>)
        ensures
            Self::requested(
                *old(self),
                *final(self),
                channel_id,
                Phase::Ready,
                Method::QueuePurge { ticket, queue, nowait },
                Answer::AwaitingQueuePurgeOk(old(self).request_id.upcoming(), queue),
                Parts::none(),
                r,
            ),
    {
        let request_id = self.request_id.peek();
        let queue_kept = queue.clone();
        self.request(channel_id, Phase::Ready, Method::QueuePurge { ticket, queue, nowait }, Answer::AwaitingQueuePurgeOk(request_id, queue_kept))
    }

    pub fn receive_queue_purge_ok(&mut self, channel_id: u16) -> (r: Result<(), Error>)
        ensures
            Self::plainly_replied(*old(self), *final(self), channel_id, ReplyKind::QueuePurgeOk, r),
    {
        self.receive_plain_reply(channel_id, ReplyKind::QueuePurgeOk)
    }

    pub fn queue_delete(
        &mut self,
        channel_id: u16,
        ticket: u16,
        queue: String,
        if_unused: bool,
        if_empty: bool,
        nowait: bool,
    ) -> (r: Result<RequestId, Error>)
        ensures
            Self::requested(
                *old(self),
                *final(self),
                channel_id,
                Phase::Ready,
                Method::QueueDelete { ticket, queue, if_unused, if_empty, nowait },
                Answer::AwaitingQueueDeleteOk(old(self).request_id.upcoming(), queue),
                Parts::none(),
                r,
            ),
    {
        let request_id = self.request_id.peek();
        let queue_kept = queue.clone();
        self.request(channel_id, Phase::Ready, Method::QueueDelete { ticket, queue, if_unused, if_empty, nowait }, Answer::AwaitingQueueDeleteOk(request_id, queue_kept))
    }

    pub fn queue_unbind(
        &mut self,
        channel_id: u16,
        ticket: u16,
        queue: String,
        exchange: String,
        routing_key: String,
        arguments: FieldTable,
    ) -> (r: Result<RequestId, Error>)
        ensures
            Self::requested(
                *old(self),
                *final(self),
                channel_id,
                Phase::Ready,
                Method::QueueUnbind { ticket, queue, exchange, routing_key, arguments },
                Answer::AwaitingQueueUnbindOk(old(self).request_id.upcoming(), exchange, routing_key),
                Parts::none(),
                r,
            ),
    {
        let request_id = self.request_id.peek();
        let exchange_kept = exchange.clone();
        let routing_key_kept = routing_key.clone();
        self.request(channel_id, Phase::Ready, Method::QueueUnbind { ticket, queue, exchange, routing_key, arguments }, Answer::AwaitingQueueUnbindOk(request_id, exchange_kept, routing_key_kept))
    }

    pub fn basic_qos(
        &mut self,
        channel_id: u16,
        prefetch_size: u32,
        prefetch_count: u16,
        global: bool,
    ) -> (r: Result<RequestId, Error>)
        ensures
            Self::requested(
                *old(self),
                *final(self),
                channel_id,
                Phase::Ready,
                Method::BasicQos { prefetch_size, prefetch_count, global },
                Answer::AwaitingBasicQosOk(old(self).request_id.upcoming(), prefetch_size, prefetch_count, global),
                Parts::none(),
                r,
            ),
    {
        let request_id = self.request_id.peek();
        self.request(channel_id, Phase::Ready, Method::BasicQos { prefetch_size, prefetch_count, global }, Answer::AwaitingBasicQosOk(request_id, prefetch_size, prefetch_count, global))
    }

    pub fn basic_consume(
        &mut self,
        channel_id: u16,
        ticket: u16,
        queue: String,
        consumer_tag: String,
        no_local: bool,
        no_ack: bool,
        exclusive: bool,
        nowait: bool,
        arguments: FieldTable,
    ) -> (r: Result<RequestId, Error>)
        ensures
            Self::requested(
                *old(self),
                *final(self),
                channel_id,
                Phase::Ready,
                Method::BasicConsume { ticket, queue, consumer_tag, no_local, no_ack, exclusive, nowait, arguments },
                Answer::AwaitingBasicConsumeOk(old(self).request_id.upcoming(), queue, consumer_tag, no_local, no_ack, exclusive, nowait),
                Parts::none(),
                r,
            ),
    {
        let request_id = self.request_id.peek();
        let queue_kept = queue.clone();
        let consumer_tag_kept = consumer_tag.clone();
        self.request(channel_id, Phase::Ready, Method::BasicConsume { ticket, queue, consumer_tag, no_local, no_ack, exclusive, nowait, arguments }, Answer::AwaitingBasicConsumeOk(request_id, queue_kept, consumer_tag_kept, no_local, no_ack, exclusive, nowait))
    }

    pub fn basic_cancel(
        &mut self,
        channel_id: u16,
        consumer_tag: String,
        nowait: bool,
    ) -> (r: Result<RequestId, Error>)
        ensures
            Self::requested(
                *old(self),
                *final(self),
                channel_id,
                Phase::Ready,
                Method::BasicCancel { consumer_tag, nowait },
                Answer::AwaitingBasicCancelOk(old(self).request_id.upcoming()),
                Parts::none(),
                r,
            ),
    {
        let request_id = self.request_id.peek();
        self.request(channel_id, Phase::Ready, Method::BasicCancel { consumer_tag, nowait }, Answer::AwaitingBasicCancelOk(request_id))
    }

    pub fn basic_get(
        &mut self,
        channel_id: u16,
        ticket: u16,
        queue: String,
        no_ack: bool,
    ) -> (r: Result<RequestId, Error>)
        ensures
            Self::requested(
                *old(self),
                *final(self),
                channel_id,
                Phase::Ready,
                Method::BasicGet { ticket, queue, no_ack },
                Answer::AwaitingBasicGetAnswer(old(self).request_id.upcoming(), queue),
                Parts::none(),
                r,
            ),
    {
        let request_id = self.request_id.peek();
        let queue_kept = queue.clone();
        self.request(channel_id, Phase::Ready, Method::BasicGet { ticket, queue, no_ack }, Answer::AwaitingBasicGetAnswer(request_id, queue_kept))
    }

    pub fn basic_recover(
        &mut self,
        channel_id: u16,
        requeue: bool,
    ) -> (r: Result<RequestId, Error>)
        ensures
            Self::requested(
                *old(self),
                *final(self),
                channel_id,
                Phase::Ready,
                Method::BasicRecover { requeue },
                Answer::AwaitingBasicRecoverOk(old(self).request_id.upcoming()),
                Parts::none(),
                r,
            ),
    {
        let request_id = self.request_id.peek();
        self.request(channel_id, Phase::Ready, Method::BasicRecover { requeue }, Answer::AwaitingBasicRecoverOk(request_id))
    }

    /// Asks the broker to confirm the publishes on this channel from now
    /// on.
    pub fn confirm_select(
        &mut self,
        channel_id: u16,
        nowait: bool,
    ) -> (r: Result<RequestId, Error>)
        ensures
            Self::requested(
                *old(self),
                *final(self),
                channel_id,
                Phase::Ready,
                Method::ConfirmSelect { nowait },
                Answer::AwaitingConfirmSelectOk(old(self).request_id.upcoming()),
                Parts::none(),
                r,
            ),
    {
        let request_id = self.request_id.peek();
        self.request(channel_id, Phase::Ready, Method::ConfirmSelect { nowait }, Answer::AwaitingConfirmSelectOk(request_id))
    }

    pub fn basic_reject(
        &mut self,
        channel_id: u16,
        delivery_tag: u64,
        requeue: bool,
    ) -> (r: Result<(), Error>)
        ensures
            Self::sent(
                *old(self),
                *final(self),
                channel_id,
                Phase::Ready,
                Method::BasicReject { delivery_tag, requeue },
                Parts::none(),
                r,
            ),
    {
        self.send(channel_id, Phase::Ready, Method::BasicReject { delivery_tag, requeue })
    }

    /// The outcome of a reply that says more than that its request was
    /// carried out: as `replied`, with the request recorded as answered.
    pub open spec fn replied_and_finished(
        before: Self,
        after: Self,
        channel_id: u16,
        phase: Phase,
        kind: ReplyKind,
        parts: Parts,
        r: Result<(), Error>,
    ) -> bool {
        &&& Self::replied(
            before,
            after,
            channel_id,
            phase,
            kind,
            parts,
            ConnectionParts { finished_reqs: true, ..ConnectionParts::none() },
            err_of(r),
        )
        &&& before.awaited(channel_id, phase, kind) ==> Self::finished(
            before,
            after,
            before.first_awaited(channel_id).request_id(),
        )
    }

    pub open spec fn channel_flow_ok_received(
        before: Self,
        after: Self,
        channel_id: u16,
        active: bool,
        r: Result<(), Error>,
    ) -> bool {
        let i = before.channel_index(channel_id);
        &&& Self::replied_and_finished(
            before,
            after,
            channel_id,
            Phase::Ready,
            ReplyKind::ChannelFlowOk,
            Parts { flow: true, ..Parts::none() },
            r,
        )
        &&& before.awaited(channel_id, Phase::Ready, ReplyKind::ChannelFlowOk) ==> {
            &&& after.channels@[i].receive_flow == active
            &&& after.channels@[i].send_flow == before.channels@[i].send_flow
        }
    }

    /// The broker confirmed that it paused or resumed its deliveries.
    pub fn receive_channel_flow_ok(&mut self, channel_id: u16, active: bool) -> (r: Result<
        (),
        Error,
    >)
        ensures
            Self::channel_flow_ok_received(*old(self), *final(self), channel_id, active, r),
    {
        match self.take_reply(channel_id, Phase::Ready, ReplyKind::ChannelFlowOk) {
            Ok((i, answer)) => {
                self.finish_request(answer.id());
                self.channels[i].receive_flow = active;
                Ok(())
            },
            Err(e) => Err(e),
        }
    }

    /// Asks the broker to close the channel, which is closing from then
    /// on.
    pub fn channel_close(
        &mut self,
        channel_id: u16,
        reply_code: u16,
        reply_text: String,
        class_id: u16,
        method_id: u16,
    ) -> (r: Result<RequestId, Error>)
        ensures
            Self::requested(
                *old(self),
                *final(self),
                channel_id,
                Phase::Ready,
                Method::ChannelClose { reply_code, reply_text, class_id, method_id },
                Answer::AwaitingChannelCloseOk(old(self).request_id.upcoming()),
                Parts { state: true, ..Parts::none() },
                r,
            ),
            r is Ok ==> final(self).channels@[old(self).channel_index(channel_id)].state
                == ChannelState::Closing,
    {
        let request_id = self.request_id.peek();
        match self.request(
            channel_id,
            Phase::Ready,
            Method::ChannelClose { reply_code, reply_text, class_id, method_id },
            Answer::AwaitingChannelCloseOk(request_id),
        ) {
            Ok(id) => {
                let ghost i = old(self).channel_index(channel_id);
                match self.find_channel(channel_id) {
                    Some(i) => {
                        proof {
                            lemma_channel_index_kept(*old(self), *self, channel_id);
                        }
                        self.channels[i].set_state(ChannelState::Closing);
                    },
                    None => {
                        proof {
                            lemma_channel_index_kept(*old(self), *self, channel_id);
                        }
                    },
                }
                Ok(id)
            },
            Err(e) => Err(e),
        }
    }

    /// Confirms to the broker that the channel is closed.
    pub fn channel_close_ok(&mut self, channel_id: u16) -> (r: Result<(), Error>)
        ensures
            Self::sent(
                *old(self),
                *final(self),
                channel_id,
                Phase::Alive,
                Method::ChannelCloseOk,
                Parts::none(),
                r,
            ),
    {
        self.send(channel_id, Phase::Alive, Method::ChannelCloseOk)
    }

    /// The channel at `index` is closed with `error`: see
    /// `Channel::ended`.
    pub open spec fn channel_closed(before: Self, after: Self, index: int, error: Error) -> bool {
        &&& after.channels@[index].state == ChannelState::Closed
        &&& Channel::ended(before.channels@[index], after.channels@[index], error)
        &&& Channel::consumers_changed(
            before.channels@[index],
            after.channels@[index],
            ConsumerChange::Cancel,
        )
    }

    pub open spec fn channel_close_ok_received(
        before: Self,
        after: Self,
        channel_id: u16,
        r: Result<(), Error>,
    ) -> bool {
        &&& Self::replied_and_finished(
            before,
            after,
            channel_id,
            Phase::Closing,
            ReplyKind::ChannelCloseOk,
            Parts {
                state: true,
                queues: true,
                awaiting: true,
                acknowledgements: true,
                ..Parts::none()
            },
            r,
        )
        &&& before.awaited(channel_id, Phase::Closing, ReplyKind::ChannelCloseOk)
            ==> Self::channel_closed(
            before,
            after,
            before.channel_index(channel_id),
            Error::InvalidChannelState(ChannelState::Closed),
        )
    }

    /// The broker confirmed that the channel is closed: every pending
    /// publish is settled with the channel's end, every consumer is
    /// cancelled.
    pub fn receive_channel_close_ok(&mut self, channel_id: u16) -> (r: Result<(), Error>)
        ensures
            Self::channel_close_ok_received(*old(self), *final(self), channel_id, r),
    {
        match self.take_reply(channel_id, Phase::Closing, ReplyKind::ChannelCloseOk) {
            Ok((i, answer)) => {
                self.finish_request(answer.id());
                self.channels[i].set_closed(Error::InvalidChannelState(ChannelState::Closed));
                Ok(())
            },
            Err(e) => Err(e),
        }
    }

    /// The error that a Close with this reply code and text stands for:
    /// a protocol error if the code is one of AMQP's error codes, else
    /// `otherwise`.
    pub open spec fn close_error(reply_code: u16, reply_text: String, otherwise: Error) -> Error {
        if is_error_code(reply_code) {
            Error::ProtocolError(AMQPError { code: reply_code, message: reply_text })
        } else {
            otherwise
        }
    }

    pub fn error_of_close(reply_code: u16, reply_text: String, otherwise: Error) -> (r: Error)
        ensures
            r == Self::close_error(reply_code, reply_text, otherwise),
    {
        if known_error_code(reply_code) {
            Error::ProtocolError(AMQPError::new(reply_code, reply_text))
        } else {
            otherwise
        }
    }

    pub open spec fn channel_close_received(
        before: Self,
        after: Self,
        channel_id: u16,
        reply_code: u16,
        reply_text: String,
        r: Result<(), Error>,
    ) -> bool {
        &&& Self::sent(
            before,
            after,
            channel_id,
            Phase::Alive,
            Method::ChannelCloseOk,
            Parts {
                state: true,
                queues: true,
                awaiting: true,
                acknowledgements: true,
                ..Parts::none()
            },
            r,
        )
        &&& r is Ok ==> Self::channel_closed(
            before,
            after,
            before.channel_index(channel_id),
            Self::close_error(
                reply_code,
                reply_text,
                Error::InvalidChannelState(ChannelState::Closing),
            ),
        )
    }

    /// The broker closed the channel: Channel.CloseOk is queued, every
    /// reply that the channel awaited is given up, every pending publish
    /// is settled with the error that the broker gave, every consumer is
    /// cancelled.
    pub fn receive_channel_close(
        &mut self,
        channel_id: u16,
        reply_code: u16,
        reply_text: String,
    ) -> (r: Result<(), Error>)
        ensures
            Self::channel_close_received(
                *old(self),
                *final(self),
                channel_id,
                reply_code,
                reply_text,
                r,
            ),
    {
        let i = match self.admission(channel_id, Phase::Alive) {
            Ok(i) => i,
            Err(e) => {
                return Err(e);
            },
        };
        let error = Self::error_of_close(
            reply_code,
            reply_text,
            Error::InvalidChannelState(ChannelState::Closing),
        );
        self.send_method_frame(channel_id, Method::ChannelCloseOk);
        self.channels[i].set_closed(error);
        Ok(())
    }

    pub open spec fn channel_flow_received(
        before: Self,
        after: Self,
        channel_id: u16,
        active: bool,
        r: Result<(), Error>,
    ) -> bool {
        let i = before.channel_index(channel_id);
        &&& Self::sent(
            before,
            after,
            channel_id,
            Phase::Ready,
            Method::ChannelFlowOk { active },
            Parts { flow: true, ..Parts::none() },
            r,
        )
        &&& r is Ok ==> {
            &&& after.channels@[i].send_flow == active
            &&& after.channels@[i].receive_flow == before.channels@[i].receive_flow
        }
    }

    /// The broker asked the client to pause or resume its publishes: the
    /// channel notes it and Channel.FlowOk with the same value is queued.
    pub fn receive_channel_flow(&mut self, channel_id: u16, active: bool) -> (r: Result<(), Error>)
        ensures
            Self::channel_flow_received(*old(self), *final(self), channel_id, active, r),
    {
        let i = match self.admission(channel_id, Phase::Ready) {
            Ok(i) => i,
            Err(e) => {
                return Err(e);
            },
        };
        self.channels[i].send_flow = active;
        self.send_method_frame(channel_id, Method::ChannelFlowOk { active });
        Ok(())
    }

    pub open spec fn queue_declare_ok_received(
        before: Self,
        after: Self,
        channel_id: u16,
        queue: String,
        message_count: u32,
        consumer_count: u32,
        r: Result<(), Error>,
    ) -> bool {
        let i = before.channel_index(channel_id);
        &&& Self::replied_and_finished(
            before,
            after,
            channel_id,
            Phase::Ready,
            ReplyKind::QueueDeclareOk,
            Parts { queues: true, ..Parts::none() },
            r,
        )
        &&& before.awaited(channel_id, Phase::Ready, ReplyKind::QueueDeclareOk)
            ==> Channel::queue_declared(
            before.channels@[i],
            after.channels@[i],
            queue,
            message_count,
            consumer_count,
        )
    }

    /// The broker declared a queue: the channel knows it from now on,
    /// with the counts that the broker gave.
    pub fn receive_queue_declare_ok(
        &mut self,
        channel_id: u16,
        queue: String,
        message_count: u32,
        consumer_count: u32,
    ) -> (r: Result<(), Error>)
        ensures
            Self::queue_declare_ok_received(
                *old(self),
                *final(self),
                channel_id,
                queue,
                message_count,
                consumer_count,
                r,
            ),
    {
        match self.take_reply(channel_id, Phase::Ready, ReplyKind::QueueDeclareOk) {
            Ok((i, answer)) => {
                self.finish_request(answer.id());
                self.channels[i].on_queue_declare_ok_received(queue, message_count, consumer_count);
                Ok(())
            },
            Err(e) => Err(e),
        }
    }

    /// Asks the broker to bind a queue to an exchange. The queue, if the
    /// channel knows it, records the binding as not confirmed yet.
    pub fn queue_bind(
        &mut self,
        channel_id: u16,
        ticket: u16,
        queue: String,
        exchange: String,
        routing_key: String,
        nowait: bool,
        arguments: FieldTable,
    ) -> (r: Result<RequestId, Error>)
        ensures
            Self::requested(
                *old(self),
                *final(self),
                channel_id,
                Phase::Ready,
                Method::QueueBind { ticket, queue, exchange, routing_key, nowait, arguments },
                Answer::AwaitingQueueBindOk(
                    old(self).request_id.upcoming(),
                    exchange,
                    routing_key,
                ),
                Parts { queues: true, ..Parts::none() },
                r,
            ),
            r is Ok ==> {
                let i = old(self).channel_index(channel_id);
                let q = old(self).channels@[i].queue_index(queue@);
                &&& Channel::queues_same_but(old(self).channels@[i], final(self).channels@[i], q)
                &&& old(self).channels@[i].has_queue(queue@) ==> {
                    let added = final(self).channels@[i].queues@[q].bindings@.last();
                    &&& final(self).channels@[i].queues@[q].same_but_bindings(
                        old(self).channels@[i].queues@[q],
                    )
                    &&& final(self).channels@[i].queues@[q].bindings@.len() == old(self).channels@[i].queues@[q].bindings@.len() + 1
                    &&& final(self).channels@[i].queues@[q].bindings@.drop_last() == old(self).channels@[i].queues@[q].bindings@
                    &&& added.exchange == exchange
                    &&& added.routing_key == routing_key
                    &&& added.nowait == nowait
                    &&& !added.active
                }
            },
    {
        let i = match self.admission(channel_id, Phase::Ready) {
            Ok(i) => i,
            Err(e) => {
                return Err(e);
            },
        };
        let binding = Binding::new(exchange.clone(), routing_key.clone(), nowait);
        let answer_exchange = exchange.clone();
        let answer_key = routing_key.clone();
        self.channels[i].add_binding(&queue, binding);
        proof {
            let q = old(self).channels@[i as int].queue_index(queue@);
            if old(self).channels@[i as int].has_queue(queue@) {
                assert(self.channels@[i as int].queues@[q].bindings@.drop_last() == old(self).channels@[i as int].queues@[q].bindings@);
            }
        }
        self.send_method_frame(
            channel_id,
            Method::QueueBind { ticket, queue, exchange, routing_key, nowait, arguments },
        );
        let request_id = self.next_request_id();
        self.push_back_answer(i, Answer::AwaitingQueueBindOk(request_id, answer_exchange, answer_key));
        Ok(request_id)
    }

    pub open spec fn queue_bind_ok_received(
        before: Self,
        after: Self,
        channel_id: u16,
        r: Result<(), Error>,
    ) -> bool {
        let i = before.channel_index(channel_id);
        &&& Self::replied_and_finished(
            before,
            after,
            channel_id,
            Phase::Ready,
            ReplyKind::QueueBindOk,
            Parts { queues: true, ..Parts::none() },
            r,
        )
        &&& before.awaited(channel_id, Phase::Ready, ReplyKind::QueueBindOk) ==> (
        before.first_awaited(channel_id) matches Answer::AwaitingQueueBindOk(_, exchange, routing_key)
            && Channel::bindings_activated(
            before.channels@[i],
            after.channels@[i],
            exchange@,
            routing_key@,
        ))
    }

    /// The broker confirmed a binding: it is active from now on.
    pub fn receive_queue_bind_ok(&mut self, channel_id: u16) -> (r: Result<(), Error>)
        ensures
            Self::queue_bind_ok_received(*old(self), *final(self), channel_id, r),
    {
        match self.take_reply(channel_id, Phase::Ready, ReplyKind::QueueBindOk) {
            Ok((i, answer)) => {
                self.finish_request(answer.id());
                match answer {
                    Answer::AwaitingQueueBindOk(_, exchange, routing_key) => {
                        self.channels[i].on_queue_bind_ok_received(&exchange, &routing_key);
                    },
                    _ => {},
                }
                Ok(())
            },
            Err(e) => Err(e),
        }
    }

    pub open spec fn queue_unbind_ok_received(
        before: Self,
        after: Self,
        channel_id: u16,
        r: Result<(), Error>,
    ) -> bool {
        let i = before.channel_index(channel_id);
        &&& Self::replied_and_finished(
            before,
            after,
            channel_id,
            Phase::Ready,
            ReplyKind::QueueUnbindOk,
            Parts { queues: true, ..Parts::none() },
            r,
        )
        &&& before.awaited(channel_id, Phase::Ready, ReplyKind::QueueUnbindOk) ==> (
        before.first_awaited(channel_id) matches Answer::AwaitingQueueUnbindOk(
            _,
            exchange,
            routing_key,
        ) && Channel::bindings_removed(
            before.channels@[i],
            after.channels@[i],
            exchange@,
            routing_key@,
        ))
    }

    /// The broker removed a binding: the queues forget it.
    pub fn receive_queue_unbind_ok(&mut self, channel_id: u16) -> (r: Result<(), Error>)
        ensures
            Self::queue_unbind_ok_received(*old(self), *final(self), channel_id, r),
    {
        match self.take_reply(channel_id, Phase::Ready, ReplyKind::QueueUnbindOk) {
            Ok((i, answer)) => {
                self.finish_request(answer.id());
                match answer {
                    Answer::AwaitingQueueUnbindOk(_, exchange, routing_key) => {
                        self.channels[i].on_queue_unbind_ok_received(&exchange, &routing_key);
                    },
                    _ => {},
                }
                Ok(())
            },
            Err(e) => Err(e),
        }
    }

    pub open spec fn queue_delete_ok_received(
        before: Self,
        after: Self,
        channel_id: u16,
        r: Result<(), Error>,
    ) -> bool {
        let i = before.channel_index(channel_id);
        &&& Self::replied_and_finished(
            before,
            after,
            channel_id,
            Phase::Ready,
            ReplyKind::QueueDeleteOk,
            Parts { queues: true, ..Parts::none() },
            r,
        )
        &&& before.awaited(channel_id, Phase::Ready, ReplyKind::QueueDeleteOk) ==> (
        before.first_awaited(channel_id) matches Answer::AwaitingQueueDeleteOk(_, queue) && {
            let q = before.channels@[i].queue_index(queue@);
            if before.channels@[i].has_queue(queue@) {
                after.channels@[i].queues@ == before.channels@[i].queues@.remove(q)
            } else {
                after.channels@[i].queues == before.channels@[i].queues
            }
        })
    }

    /// The broker deleted a queue: the channel forgets it.
    pub fn receive_queue_delete_ok(&mut self, channel_id: u16) -> (r: Result<(), Error>)
        ensures
            Self::queue_delete_ok_received(*old(self), *final(self), channel_id, r),
    {
        match self.take_reply(channel_id, Phase::Ready, ReplyKind::QueueDeleteOk) {
            Ok((i, answer)) => {
                self.finish_request(answer.id());
                match answer {
                    Answer::AwaitingQueueDeleteOk(_, queue) => {
                        self.channels[i].deregister_queue(&queue);
                    },
                    _ => {},
                }
                Ok(())
            },
            Err(e) => Err(e),
        }
    }

    pub open spec fn basic_qos_ok_received(
        before: Self,
        after: Self,
        channel_id: u16,
        r: Result<(), Error>,
    ) -> bool {
        let i = before.channel_index(channel_id);
        &&& Self::replied(
            before,
            after,
            channel_id,
            Phase::Ready,
            ReplyKind::BasicQosOk,
            Parts { prefetch: true, ..Parts::none() },
            ConnectionParts { finished_reqs: true, prefetch: true, ..ConnectionParts::none() },
            err_of(r),
        )
        &&& before.awaited(channel_id, Phase::Ready, ReplyKind::BasicQosOk) ==> (
        before.first_awaited(channel_id) matches Answer::AwaitingBasicQosOk(
            id,
            prefetch_size,
            prefetch_count,
            global,
        ) && {
            &&& Self::finished(before, after, id)
            &&& after.prefetch_size == if global {
                prefetch_size
            } else {
                before.prefetch_size
            }
            &&& after.prefetch_count == if global {
                prefetch_count
            } else {
                before.prefetch_count
            }
            &&& after.channels@[i].prefetch_size == if global {
                before.channels@[i].prefetch_size
            } else {
                prefetch_size
            }
            &&& after.channels@[i].prefetch_count == if global {
                before.channels@[i].prefetch_count
            } else {
                prefetch_count
            }
        })
    }

    /// The broker took the prefetch limits: they hold for the connection
    /// if they were asked for all channels, else for this channel.
    pub fn receive_basic_qos_ok(&mut self, channel_id: u16) -> (r: Result<(), Error>)
        ensures
            Self::basic_qos_ok_received(*old(self), *final(self), channel_id, r),
    {
        match self.take_reply(channel_id, Phase::Ready, ReplyKind::BasicQosOk) {
            Ok((i, answer)) => {
                self.finish_request(answer.id());
                match answer {
                    Answer::AwaitingBasicQosOk(_, prefetch_size, prefetch_count, global) => {
                        if global {
                            self.prefetch_size = prefetch_size;
                            self.prefetch_count = prefetch_count;
                        } else {
                            self.channels[i].prefetch_size = prefetch_size;
                            self.channels[i].prefetch_count = prefetch_count;
                        }
                    },
                    _ => {},
                }
                Ok(())
            },
            Err(e) => Err(e),
        }
    }

    pub open spec fn basic_consume_ok_received(
        before: Self,
        after: Self,
        channel_id: u16,
        consumer_tag: String,
        r: Result<(), Error>,
    ) -> bool {
        let i = before.channel_index(channel_id);
        &&& Self::replied_and_finished(
            before,
            after,
            channel_id,
            Phase::Ready,
            ReplyKind::BasicConsumeOk,
            Parts { queues: true, ..Parts::none() },
            r,
        )
        &&& before.awaited(channel_id, Phase::Ready, ReplyKind::BasicConsumeOk) ==> (
        before.first_awaited(channel_id) matches Answer::AwaitingBasicConsumeOk(
            _,
            queue,
            _,
            no_local,
            no_ack,
            exclusive,
            nowait,
        ) && {
            let q = before.channels@[i].queue_index(queue@);
            let known = before.channels@[i].queues@[q];
            let at = if known.has_consumer(consumer_tag@) {
                known.consumer_index(consumer_tag@)
            } else {
                known.consumers@.len() as int
            };
            let consumer = after.channels@[i].queues@[q].consumers@[at];
            &&& Channel::queues_same_but(before.channels@[i], after.channels@[i], q)
            &&& before.channels@[i].has_queue(queue@) ==> {
                &&& Queue::consumer_registered(known, after.channels@[i].queues@[q], consumer)
                &&& consumer.is_new(consumer_tag, queue, no_local, no_ack, exclusive, nowait)
            }
        })
    }

    /// The broker started a consumer: the queue it consumes from, if the
    /// channel knows it, has a consumer with the tag that the broker gave
    /// and the flags of the request.
    pub fn receive_basic_consume_ok(&mut self, channel_id: u16, consumer_tag: String) -> (r:
        Result<(), Error>)
        ensures
            Self::basic_consume_ok_received(*old(self), *final(self), channel_id, consumer_tag, r),
    {
        match self.take_reply(channel_id, Phase::Ready, ReplyKind::BasicConsumeOk) {
            Ok((i, answer)) => {
                self.finish_request(answer.id());
                match answer {
                    Answer::AwaitingBasicConsumeOk(
                        _,
                        queue,
                        _,
                        no_local,
                        no_ack,
                        exclusive,
                        nowait,
                    ) => {
                        let consumer = Consumer::new(
                            consumer_tag,
                            queue.clone(),
                            no_local,
                            no_ack,
                            exclusive,
                            nowait,
                        );
                        proof {
                            let known = self.channels@[i as int].queues@[self.channels@[i as int].queue_index(
                                queue@,
                            )];
                            lemma_first_true(
                                Seq::new(
                                    known.consumers@.len(),
                                    |j: int| known.consumers@[j].tag@ == consumer_tag@,
                                ),
                            );
                        }
                        self.channels[i].register_consumer(&queue, consumer);
                    },
                    _ => {},
                }
                Ok(())
            },
            Err(e) => Err(e),
        }
    }

    pub open spec fn basic_cancel_ok_received(
        before: Self,
        after: Self,
        channel_id: u16,
        consumer_tag: String,
        r: Result<Option<Consumer>, Error>,
    ) -> bool {
        let i = before.channel_index(channel_id);
        &&& Self::replied(
            before,
            after,
            channel_id,
            Phase::Ready,
            ReplyKind::BasicCancelOk,
            Parts { queues: true, ..Parts::none() },
            ConnectionParts { finished_reqs: true, ..ConnectionParts::none() },
            err_of(r),
        )
        &&& before.awaited(channel_id, Phase::Ready, ReplyKind::BasicCancelOk) ==> {
            &&& Self::finished(before, after, before.first_awaited(channel_id).request_id())
            &&& r is Ok
            &&& Channel::consumer_deregistered(
                Channel { awaiting: after.channels@[i].awaiting, ..before.channels@[i] },
                after.channels@[i],
                consumer_tag,
                r->Ok_0,
            )
        }
    }

    /// The broker cancelled a consumer at the client's request: the
    /// channel forgets it and hands it out, cancelled.
    pub fn receive_basic_cancel_ok(&mut self, channel_id: u16, consumer_tag: String) -> (r: Result<
        Option<Consumer>,
        Error,
    >)
        ensures
            Self::basic_cancel_ok_received(*old(self), *final(self), channel_id, consumer_tag, r),
    {
        match self.take_reply(channel_id, Phase::Ready, ReplyKind::BasicCancelOk) {
            Ok((i, answer)) => {
                self.finish_request(answer.id());
                Ok(self.channels[i].deregister_consumer(&consumer_tag))
            },
            Err(e) => Err(e),
        }
    }

    pub open spec fn basic_cancel_received(
        before: Self,
        after: Self,
        channel_id: u16,
        consumer_tag: String,
        nowait: bool,
        r: Result<Option<Consumer>, Error>,
    ) -> bool {
        match before.refusal(channel_id, Phase::Ready) {
            Some(e) => r == Err::<Option<Consumer>, Error>(e) && after == before,
            None => {
                let i = before.channel_index(channel_id);
                &&& r is Ok
                &&& after.same_outside(
                    before,
                    ConnectionParts { channels: true, frame_queue: true, ..ConnectionParts::none() },
                )
                &&& Self::channels_same_but(before, after, i)
                &&& Channel::consumer_deregistered(
                    before.channels@[i],
                    after.channels@[i],
                    consumer_tag,
                    r->Ok_0,
                )
                &&& if nowait {
                    after.frame_queue == before.frame_queue
                } else {
                    Self::method_queued(
                        before,
                        after,
                        channel_id,
                        Method::BasicCancelOk { consumer_tag },
                    )
                }
            },
        }
    }

    /// The broker cancelled a consumer on its own: the channel forgets
    /// it and hands it out, cancelled, with the deliveries that were
    /// whole still in it; unless the broker wants no answer,
    /// Basic.CancelOk is queued.
    pub fn receive_basic_cancel(&mut self, channel_id: u16, consumer_tag: String, nowait: bool) -> (r:
        Result<Option<Consumer>, Error>)
        ensures
            Self::basic_cancel_received(
                *old(self),
                *final(self),
                channel_id,
                consumer_tag,
                nowait,
                r,
            ),
    {
        let i = match self.admission(channel_id, Phase::Ready) {
            Ok(i) => i,
            Err(e) => {
                return Err(e);
            },
        };
        let consumer = self.channels[i].deregister_consumer(&consumer_tag);
        if !nowait {
            self.send_method_frame(channel_id, Method::BasicCancelOk { consumer_tag });
        }
        Ok(consumer)
    }

    pub open spec fn basic_get_ok_received(
        before: Self,
        after: Self,
        channel_id: u16,
        delivery_tag: u64,
        redelivered: bool,
        exchange: String,
        routing_key: String,
        r: Result<(), Error>,
    ) -> bool {
        let i = before.channel_index(channel_id);
        &&& Self::replied(
            before,
            after,
            channel_id,
            Phase::Ready,
            ReplyKind::BasicGetAnswer,
            Parts { state: true, queues: true, ..Parts::none() },
            ConnectionParts { finished_get_reqs: true, ..ConnectionParts::none() },
            err_of(r),
        )
        &&& before.awaited(channel_id, Phase::Ready, ReplyKind::BasicGetAnswer) ==> (
        before.first_awaited(channel_id) matches Answer::AwaitingBasicGetAnswer(id, queue) && {
            &&& after.finished_get_reqs@ == before.finished_get_reqs@.push((id, true))
            &&& Channel::get_started(
                Channel { awaiting: after.channels@[i].awaiting, ..before.channels@[i] },
                after.channels@[i],
                queue,
                delivery_tag,
                redelivered,
                exchange,
                routing_key,
            )
        })
    }

    /// The broker answered a Basic.Get with a message: the message
    /// begins and the channel awaits its content header.
    pub fn receive_basic_get_ok(
        &mut self,
        channel_id: u16,
        delivery_tag: u64,
        redelivered: bool,
        exchange: String,
        routing_key: String,
    ) -> (r: Result<(), Error>)
        ensures
            Self::basic_get_ok_received(
                *old(self),
                *final(self),
                channel_id,
                delivery_tag,
                redelivered,
                exchange,
                routing_key,
                r,
            ),
    {
        match self.take_reply(channel_id, Phase::Ready, ReplyKind::BasicGetAnswer) {
            Ok((i, answer)) => {
                match answer {
                    Answer::AwaitingBasicGetAnswer(id, queue) => {
                        self.finished_get_reqs.push((id, true));
                        self.channels[i].on_basic_get_ok_received(
                            queue,
                            delivery_tag,
                            redelivered,
                            exchange,
                            routing_key,
                        );
                    },
                    _ => {},
                }
                Ok(())
            },
            Err(e) => Err(e),
        }
    }

    pub open spec fn basic_get_empty_received(
        before: Self,
        after: Self,
        channel_id: u16,
        r: Result<(), Error>,
    ) -> bool {
        &&& Self::replied(
            before,
            after,
            channel_id,
            Phase::Ready,
            ReplyKind::BasicGetAnswer,
            Parts::none(),
            ConnectionParts { finished_get_reqs: true, ..ConnectionParts::none() },
            err_of(r),
        )
        &&& before.awaited(channel_id, Phase::Ready, ReplyKind::BasicGetAnswer)
            ==> after.finished_get_reqs@ == before.finished_get_reqs@.push(
            (before.first_awaited(channel_id).request_id(), false),
        )
    }

    /// The broker answered a Basic.Get with no message.
    pub fn receive_basic_get_empty(&mut self, channel_id: u16) -> (r: Result<(), Error>)
        ensures
            Self::basic_get_empty_received(*old(self), *final(self), channel_id, r),
    {
        match self.take_reply(channel_id, Phase::Ready, ReplyKind::BasicGetAnswer) {
            Ok((_, answer)) => {
                self.finished_get_reqs.push((answer.id(), false));
                Ok(())
            },
            Err(e) => Err(e),
        }
    }

    pub open spec fn basic_recover_ok_received(
        before: Self,
        after: Self,
        channel_id: u16,
        r: Result<(), Error>,
    ) -> bool {
        let i = before.channel_index(channel_id);
        &&& Self::replied_and_finished(
            before,
            after,
            channel_id,
            Phase::Ready,
            ReplyKind::BasicRecoverOk,
            Parts { queues: true, ..Parts::none() },
            r,
        )
        &&& before.awaited(channel_id, Phase::Ready, ReplyKind::BasicRecoverOk)
            ==> Channel::consumers_changed(
            before.channels@[i],
            after.channels@[i],
            ConsumerChange::DropPrefetched,
        )
    }

    /// The broker will deliver the unacknowledged messages again: every
    /// consumer forgets the whole deliveries that the application has
    /// not taken.
    pub fn receive_basic_recover_ok(&mut self, channel_id: u16) -> (r: Result<(), Error>)
        ensures
            Self::basic_recover_ok_received(*old(self), *final(self), channel_id, r),
    {
        match self.take_reply(channel_id, Phase::Ready, ReplyKind::BasicRecoverOk) {
            Ok((i, answer)) => {
                self.finish_request(answer.id());
                self.channels[i].drop_prefetched_messages();
                Ok(())
            },
            Err(e) => Err(e),
        }
    }

    pub open spec fn confirm_select_ok_received(
        before: Self,
        after: Self,
        channel_id: u16,
        r: Result<(), Error>,
    ) -> bool {
        &&& Self::replied_and_finished(
            before,
            after,
            channel_id,
            Phase::Ready,
            ReplyKind::ConfirmSelectOk,
            Parts { confirm: true, ..Parts::none() },
            r,
        )
        &&& before.awaited(channel_id, Phase::Ready, ReplyKind::ConfirmSelectOk)
            ==> after.channels@[before.channel_index(channel_id)].confirm
    }

    /// The broker confirms the publishes on this channel from now on.
    pub fn receive_confirm_select_ok(&mut self, channel_id: u16) -> (r: Result<(), Error>)
        ensures
            Self::confirm_select_ok_received(*old(self), *final(self), channel_id, r),
    {
        match self.take_reply(channel_id, Phase::Ready, ReplyKind::ConfirmSelectOk) {
            Ok((i, answer)) => {
                self.finish_request(answer.id());
                self.channels[i].confirm = true;
                Ok(())
            },
            Err(e) => Err(e),
        }
    }

    /// The outcome of a method that the broker sends on its own and that
    /// only the channel deals with: turned away, it changes
    /// nothing; else only the channel changes.
    pub open spec fn channel_only(before: Self, after: Self, channel_id: u16, r: Result<(), Error>) -> bool {
        match before.refusal(channel_id, Phase::Ready) {
            Some(e) => r == Err::<(), Error>(e) && after == before,
            None => {
                &&& r is Ok
                &&& after.same_outside(
                    before,
                    ConnectionParts { channels: true, ..ConnectionParts::none() },
                )
                &&& Self::channels_same_but(before, after, before.channel_index(channel_id))
            },
        }
    }

    pub open spec fn basic_deliver_received(
        before: Self,
        after: Self,
        channel_id: u16,
        consumer_tag: String,
        delivery_tag: u64,
        redelivered: bool,
        exchange: String,
        routing_key: String,
        r: Result<(), Error>,
    ) -> bool {
        let i = before.channel_index(channel_id);
        &&& Self::channel_only(before, after, channel_id, r)
        &&& r is Ok ==> Channel::delivery_started(
            before.channels@[i],
            after.channels@[i],
            consumer_tag,
            delivery_tag,
            redelivered,
            exchange,
            routing_key,
        )
    }

    /// The broker delivers a message to a consumer: its content is
    /// awaited next.
    pub fn receive_basic_deliver(
        &mut self,
        channel_id: u16,
        consumer_tag: String,
        delivery_tag: u64,
        redelivered: bool,
        exchange: String,
        routing_key: String,
    ) -> (r: Result<(), Error>)
        ensures
            Self::basic_deliver_received(
                *old(self),
                *final(self),
                channel_id,
                consumer_tag,
                delivery_tag,
                redelivered,
                exchange,
                routing_key,
                r,
            ),
    {
        let i = match self.admission(channel_id, Phase::Ready) {
            Ok(i) => i,
            Err(e) => {
                return Err(e);
            },
        };
        self.channels[i].on_basic_deliver_received(
            consumer_tag,
            delivery_tag,
            redelivered,
            exchange,
            routing_key,
        );
        Ok(())
    }

    pub open spec fn basic_amqp_return_received(
        before: Self,
        after: Self,
        channel_id: u16,
        reply_code: u16,
        reply_text: String,
        exchange: String,
        routing_key: String,
        r: Result<(), Error>,
    ) -> bool {
        let i = before.channel_index(channel_id);
        &&& Self::channel_only(before, after, channel_id, r)
        &&& r is Ok ==> Channel::return_started(
            before.channels@[i],
            after.channels@[i],
            reply_code,
            reply_text,
            exchange,
            routing_key,
        )
    }

    /// The broker sends a message back: its content is awaited next.
    pub fn receive_basic_amqp_return(
        &mut self,
        channel_id: u16,
        reply_code: u16,
        reply_text: String,
        exchange: String,
        routing_key: String,
    ) -> (r: Result<(), Error>)
        ensures
            Self::basic_amqp_return_received(
                *old(self),
                *final(self),
                channel_id,
                reply_code,
                reply_text,
                exchange,
                routing_key,
                r,
            ),
    {
        let i = match self.admission(channel_id, Phase::Ready) {
            Ok(i) => i,
            Err(e) => {
                return Err(e);
            },
        };
        self.channels[i].on_basic_return_received(reply_code, reply_text, exchange, routing_key);
        Ok(())
    }

    pub open spec fn acknowledgement_sent(
        before: Self,
        after: Self,
        channel_id: u16,
        method: Method,
        multiple: bool,
        delivery_tag: u64,
        r: Result<(), Error>,
    ) -> bool {
        let i = before.channel_index(channel_id);
        &&& Self::sent(
            before,
            after,
            channel_id,
            Phase::Ready,
            method,
            Parts { queues: true, ..Parts::none() },
            r,
        )
        &&& r is Ok ==> Channel::acknowledgement_sent(
            before.channels@[i],
            after.channels@[i],
            multiple,
            delivery_tag,
        )
    }

    /// Acknowledges one delivery, or all up to it. An acknowledgement of
    /// everything makes every consumer forget the whole deliveries that
    /// the application has not taken.
    pub fn basic_ack(&mut self, channel_id: u16, delivery_tag: u64, multiple: bool) -> (r: Result<
        (),
        Error,
    >)
        ensures
            Self::acknowledgement_sent(
                *old(self),
                *final(self),
                channel_id,
                Method::BasicAck { delivery_tag, multiple },
                multiple,
                delivery_tag,
                r,
            ),
    {
        let i = match self.admission(channel_id, Phase::Ready) {
            Ok(i) => i,
            Err(e) => {
                return Err(e);
            },
        };
        self.send_method_frame(channel_id, Method::BasicAck { delivery_tag, multiple });
        self.channels[i].on_basic_ack_sent(multiple, delivery_tag);
        Ok(())
    }

    /// Refuses one delivery, or all up to it.
    pub fn basic_nack(
        &mut self,
        channel_id: u16,
        delivery_tag: u64,
        multiple: bool,
        requeue: bool,
    ) -> (r: Result<(), Error>)
        ensures
            Self::acknowledgement_sent(
                *old(self),
                *final(self),
                channel_id,
                Method::BasicNack { delivery_tag, multiple, requeue },
                multiple,
                delivery_tag,
                r,
            ),
    {
        let i = match self.admission(channel_id, Phase::Ready) {
            Ok(i) => i,
            Err(e) => {
                return Err(e);
            },
        };
        self.send_method_frame(channel_id, Method::BasicNack { delivery_tag, multiple, requeue });
        self.channels[i].on_basic_nack_sent(multiple, delivery_tag);
        Ok(())
    }

    /// Asks the broker to deliver the unacknowledged messages again,
    /// without awaiting a reply: every consumer forgets the whole
    /// deliveries that the application has not taken.
    pub fn basic_recover_async(&mut self, channel_id: u16, requeue: bool) -> (r: Result<(), Error>)
        ensures
            Self::sent(
                *old(self),
                *final(self),
                channel_id,
                Phase::Ready,
                Method::BasicRecoverAsync { requeue },
                Parts { queues: true, ..Parts::none() },
                r,
            ),
            r is Ok ==> Channel::consumers_changed(
                old(self).channels@[old(self).channel_index(channel_id)],
                final(self).channels@[old(self).channel_index(channel_id)],
                ConsumerChange::DropPrefetched,
            ),
    {
        let i = match self.admission(channel_id, Phase::Ready) {
            Ok(i) => i,
            Err(e) => {
                return Err(e);
            },
        };
        self.send_method_frame(channel_id, Method::BasicRecoverAsync { requeue });
        self.channels[i].drop_prefetched_messages();
        Ok(())
    }

    /// The outcome of a publish. Turned away, it changes
    /// nothing. Else the method, the content header and the body frames
    /// join the frames that wait to be written, together and in this
    /// order, and in confirm mode the publish awaits its confirmation
    /// under the delivery tag that is given.
    pub open spec fn published(
        before: Self,
        after: Self,
        channel_id: u16,
        method: Method,
        payload: Seq<u8>,
        properties: AMQPProperties,
        r: Result<Option<DeliveryTag>, Error>,
    ) -> bool {
        match before.refusal(channel_id, Phase::Ready) {
            Some(e) => r == Err::<Option<DeliveryTag>, Error>(e) && after == before,
            None => {
                let i = before.channel_index(channel_id);
                let queued = before.frame_queue@.len() as int;
                &&& r is Ok
                &&& after.same_outside(
                    before,
                    ConnectionParts { channels: true, frame_queue: true, ..ConnectionParts::none() },
                )
                &&& Self::channels_same_but(before, after, i)
                &&& Channel::publish_registered(before.channels@[i], after.channels@[i], r->Ok_0)
                &&& after.frame_queue@.len() >= queued
                &&& after.frame_queue@.take(queued) == before.frame_queue@
                &&& is_content_batch(
                    after.frame_queue@.skip(queued),
                    channel_id,
                    method,
                    BASIC_CLASS,
                    payload,
                    properties,
                    before.configuration.frame_max,
                )
            },
        }
    }

    /// Publishes a message.
    pub fn basic_publish(
        &mut self,
        channel_id: u16,
        ticket: u16,
        exchange: String,
        routing_key: String,
        mandatory: bool,
        immediate: bool,
        payload: &Vec<u8>,
        properties: AMQPProperties,
    ) -> (r: Result<Option<DeliveryTag>, Error>)
        requires
            old(self).configuration.frame_max > BODY_FRAME_OVERHEAD,
        ensures
            Self::published(
                *old(self),
                *final(self),
                channel_id,
                Method::BasicPublish { ticket, exchange, routing_key, mandatory, immediate },
                payload@,
                properties,
                r,
            ),
    {
        let i = match self.admission(channel_id, Phase::Ready) {
            Ok(i) => i,
            Err(e) => {
                return Err(e);
            },
        };
        let tag = self.channels[i].before_basic_publish();
        let mut frames = content_frames(
            channel_id,
            Method::BasicPublish { ticket, exchange, routing_key, mandatory, immediate },
            BASIC_CLASS,
            payload,
            properties,
            self.configuration.frame_max,
        );
        let ghost batch = frames@;
        self.frame_queue.append(&mut frames);
        proof {
            let queued = old(self).frame_queue@.len() as int;
            assert(self.frame_queue@.take(queued) == old(self).frame_queue@);
            assert(self.frame_queue@.skip(queued) == batch);
        }
        Ok(tag)
    }

    /// The outcome of an acknowledgement from the broker. Turned away,
    /// it changes nothing. Else the publishes that it
    /// addresses are settled with `confirmation`; outside confirm mode
    /// nothing changes. An acknowledgement of a single publish that is
    /// not pending is an error: the client asks the broker to close the
    /// channel with PRECONDITION-FAILED.
    pub open spec fn acknowledged(
        before: Self,
        after: Self,
        channel_id: u16,
        delivery_tag: u64,
        multiple: bool,
        confirmation: Confirmation,
        method_id: u16,
        r: Result<(), Error>,
    ) -> bool {
        match before.refusal(channel_id, Phase::Ready) {
            Some(e) => r == Err::<(), Error>(e) && after == before,
            None => {
                let i = before.channel_index(channel_id);
                let channel = before.channels@[i];
                &&& Self::channels_same_but(before, after, i)
                &&& Channel::settled_with_returns(
                    channel,
                    after.channels@[i],
                    delivery_tag,
                    multiple,
                    confirmation,
                )
                &&& if !channel.confirm || multiple || channel.acknowledgements.pending@.contains(
                    delivery_tag,
                ) {
                    &&& r is Ok
                    &&& after.same_outside(
                        before,
                        ConnectionParts { channels: true, ..ConnectionParts::none() },
                    )
                    &&& after.channels@[i].same_outside(
                        channel,
                        Parts { acknowledgements: true, returned_messages: true, ..Parts::none() },
                    )
                } else {
                    &&& is_protocol_error(r, precondition_failed_code())
                    &&& after.same_outside(
                        before,
                        ConnectionParts {
                            channels: true,
                            frame_queue: true,
                            request_id: true,
                            ..ConnectionParts::none()
                        },
                    )
                    &&& Self::method_queued(
                        before,
                        after,
                        channel_id,
                        Method::ChannelClose {
                            reply_code: precondition_failed_code(),
                            reply_text: r->Err_0->ProtocolError_0.message,
                            class_id: BASIC_CLASS,
                            method_id,
                        },
                    )
                    &&& after.request_id == Self::advanced(before.request_id)
                    &&& after.channels@[i].same_outside(
                        channel,
                        Parts {
                            acknowledgements: true,
                            returned_messages: true,
                            state: true,
                            awaiting: true,
                            ..Parts::none()
                        },
                    )
                    &&& after.channels@[i].state == ChannelState::Closing
                    &&& after.channels@[i].awaiting@ == channel.awaiting@.push(
                        Answer::AwaitingChannelCloseOk(before.request_id.upcoming()),
                    )
                }
            },
        }
    }

    /// After a bad acknowledgement: asks the broker to close the channel
    /// at `index` with the error's code and text.
    pub fn acknowledgement_error(
        &mut self,
        index: usize,
        error: AMQPError,
        class_id: u16,
        method_id: u16,
    ) -> (r: Error)
        requires
            index < old(self).channels@.len(),
        ensures
            r == Error::ProtocolError(error),
            final(self).same_outside(
                *old(self),
                ConnectionParts {
                    channels: true,
                    frame_queue: true,
                    request_id: true,
                    ..ConnectionParts::none()
                },
            ),
            Self::method_queued(
                *old(self),
                *final(self),
                old(self).channels@[index as int].id,
                Method::ChannelClose {
                    reply_code: error.code,
                    reply_text: error.message,
                    class_id,
                    method_id,
                },
            ),
            final(self).request_id == Self::advanced(old(self).request_id),
            Self::channels_same_but(*old(self), *final(self), index as int),
            final(self).channels@[index as int].same_outside(
                old(self).channels@[index as int],
                Parts { state: true, awaiting: true, ..Parts::none() },
            ),
            final(self).channels@[index as int].state == ChannelState::Closing,
            final(self).channels@[index as int].awaiting@ == old(self).channels@[index as int].awaiting@.push(
                Answer::AwaitingChannelCloseOk(old(self).request_id.upcoming()),
            ),
    {
        let channel_id = self.channels[index].id;
        self.send_method_frame(
            channel_id,
            Method::ChannelClose {
                reply_code: error.code,
                reply_text: error.message.clone(),
                class_id,
                method_id,
            },
        );
        let request_id = self.next_request_id();
        self.push_back_answer(index, Answer::AwaitingChannelCloseOk(request_id));
        self.channels[index].set_state(ChannelState::Closing);
        Error::ProtocolError(error)
    }

    /// The broker acknowledged one publish, or all up to it.
    pub fn receive_basic_ack(&mut self, channel_id: u16, delivery_tag: u64, multiple: bool) -> (r:
        Result<(), Error>)
        ensures
            Self::acknowledged(
                *old(self),
                *final(self),
                channel_id,
                delivery_tag,
                multiple,
                Confirmation::Ack,
                BASIC_ACK_METHOD,
                r,
            ),
    {
        let i = match self.admission(channel_id, Phase::Ready) {
            Ok(i) => i,
            Err(e) => {
                return Err(e);
            },
        };
        match self.channels[i].on_basic_ack_received(delivery_tag, multiple) {
            Ok(()) => Ok(()),
            Err(Error::ProtocolError(error)) => Err(
                self.acknowledgement_error(i, error, BASIC_CLASS, BASIC_ACK_METHOD),
            ),
            Err(e) => Err(e),
        }
    }

    /// The broker refused one publish, or all up to it.
    pub fn receive_basic_nack(&mut self, channel_id: u16, delivery_tag: u64, multiple: bool) -> (r:
        Result<(), Error>)
        ensures
            Self::acknowledged(
                *old(self),
                *final(self),
                channel_id,
                delivery_tag,
                multiple,
                Confirmation::Nack,
                BASIC_NACK_METHOD,
                r,
            ),
    {
        let i = match self.admission(channel_id, Phase::Ready) {
            Ok(i) => i,
            Err(e) => {
                return Err(e);
            },
        };
        match self.channels[i].on_basic_nack_received(delivery_tag, multiple) {
            Ok(()) => Ok(()),
            Err(Error::ProtocolError(error)) => Err(
                self.acknowledgement_error(i, error, BASIC_CLASS, BASIC_NACK_METHOD),
            ),
            Err(e) => Err(e),
        }
    }

    /// The outcome of a method of the Connection class with this method
    /// id, which `handled` describes when it arrives on channel 0: on
    /// another channel it is a violation.
    pub open spec fn on_channel0(
        before: Self,
        after: Self,
        channel_id: u16,
        method_id: u16,
        r: Result<Option<Consumer>, Error>,
        handled: bool,
    ) -> bool {
        if channel_id == 0 {
            handled && (r is Ok ==> r->Ok_0 is None)
        } else {
            Self::violated(
                before,
                after,
                HardError::CommandInvalid,
                CONNECTION_CLASS,
                method_id,
                unit(r),
            )
        }
    }

    /// The outcome of a method that arrives on `channel_id`: that of the
    /// function that deals with it. A method that a client never
    /// receives is refused and changes nothing. The result holds the
    /// consumer that the method cancelled, if it cancelled one.
    pub open spec fn method_received(
        before: Self,
        after: Self,
        channel_id: u16,
        method: Method,
        r: Result<Option<Consumer>, Error>,
    ) -> bool {
        match method {
            Method::BasicCancelOk { consumer_tag } => Self::basic_cancel_ok_received(
                before,
                after,
                channel_id,
                consumer_tag,
                r,
            ),
            Method::BasicCancel { consumer_tag, nowait } => Self::basic_cancel_received(
                before,
                after,
                channel_id,
                consumer_tag,
                nowait,
                r,
            ),
            Method::ConnectionStart { mechanisms, locales } => Self::on_channel0(
                before,
                after,
                channel_id,
                CONNECTION_START_METHOD,
                r,
                exists|full: Result<StartCheck, Error>|
                    Self::start_received(before, after, mechanisms@, locales@, full) && unit(full)
                        == unit(r),
            ),
            Method::ConnectionSecure { challenge } => Self::on_channel0(
                before,
                after,
                channel_id,
                CONNECTION_SECURE_METHOD,
                r,
                Self::secure_received(before, after, unit(r)),
            ),
            Method::ConnectionTune { channel_max, frame_max, heartbeat } => Self::on_channel0(
                before,
                after,
                channel_id,
                CONNECTION_TUNE_METHOD,
                r,
                Self::tune_received(before, after, channel_max, frame_max, heartbeat, unit(r)),
            ),
            Method::ConnectionOpenOk => Self::on_channel0(
                before,
                after,
                channel_id,
                CONNECTION_OPEN_OK_METHOD,
                r,
                Self::open_ok_received(before, after, unit(r)),
            ),
            Method::ConnectionClose { reply_code, reply_text, class_id, method_id } => Self::on_channel0(
                before,
                after,
                channel_id,
                CONNECTION_CLOSE_METHOD,
                r,
                r is Ok && Self::close_received(before, after, reply_code, reply_text),
            ),
            Method::ConnectionCloseOk => Self::on_channel0(
                before,
                after,
                channel_id,
                CONNECTION_CLOSE_OK_METHOD,
                r,
                r is Ok && Self::close_ok_received(before, after),
            ),
            Method::ConnectionBlocked { reason } => Self::on_channel0(
                before,
                after,
                channel_id,
                CONNECTION_BLOCKED_METHOD,
                r,
                r is Ok && Self::blocked_set(before, after, true),
            ),
            Method::ConnectionUnblocked => Self::on_channel0(
                before,
                after,
                channel_id,
                CONNECTION_UNBLOCKED_METHOD,
                r,
                r is Ok && Self::blocked_set(before, after, false),
            ),
            _ => (r is Ok ==> r->Ok_0 is None) && Self::channel_method_received(
                before,
                after,
                channel_id,
                method,
                unit(r),
            ),
        }
    }

    /// The outcome of a method of a channel that cancels no consumer.
    pub open spec fn channel_method_received(
        before: Self,
        after: Self,
        channel_id: u16,
        method: Method,
        r: Result<(), Error>,
    ) -> bool {
        match method {
            Method::ChannelOpenOk => Self::channel_open_ok_received(before, after, channel_id, r),
            Method::ChannelFlow { active } => Self::channel_flow_received(
                before,
                after,
                channel_id,
                active,
                r,
            ),
            Method::ChannelFlowOk { active } => Self::channel_flow_ok_received(
                before,
                after,
                channel_id,
                active,
                r,
            ),
            Method::ChannelClose {
                reply_code,
                reply_text,
                class_id,
                method_id,
            } => Self::channel_close_received(before, after, channel_id, reply_code, reply_text, r),
            Method::ChannelCloseOk => Self::channel_close_ok_received(before, after, channel_id, r),
            Method::ExchangeDeclareOk => Self::plainly_replied(
                before,
                after,
                channel_id,
                ReplyKind::ExchangeDeclareOk,
                r,
            ),
            Method::ExchangeDeleteOk => Self::plainly_replied(
                before,
                after,
                channel_id,
                ReplyKind::ExchangeDeleteOk,
                r,
            ),
            Method::ExchangeBindOk => Self::plainly_replied(
                before,
                after,
                channel_id,
                ReplyKind::ExchangeBindOk,
                r,
            ),
            Method::ExchangeUnbindOk => Self::plainly_replied(
                before,
                after,
                channel_id,
                ReplyKind::ExchangeUnbindOk,
                r,
            ),
            Method::QueueDeclareOk {
                queue,
                message_count,
                consumer_count,
            } => Self::queue_declare_ok_received(
                before,
                after,
                channel_id,
                queue,
                message_count,
                consumer_count,
                r,
            ),
            Method::QueueBindOk => Self::queue_bind_ok_received(before, after, channel_id, r),
            Method::QueuePurgeOk { message_count } => Self::plainly_replied(
                before,
                after,
                channel_id,
                ReplyKind::QueuePurgeOk,
                r,
            ),
            Method::QueueDeleteOk { message_count } => Self::queue_delete_ok_received(
                before,
                after,
                channel_id,
                r,
            ),
            Method::QueueUnbindOk => Self::queue_unbind_ok_received(before, after, channel_id, r),
            Method::BasicQosOk => Self::basic_qos_ok_received(before, after, channel_id, r),
            Method::BasicConsumeOk { consumer_tag } => Self::basic_consume_ok_received(
                before,
                after,
                channel_id,
                consumer_tag,
                r,
            ),
            Method::BasicReturn {
                reply_code,
                reply_text,
                exchange,
                routing_key,
            } => Self::basic_amqp_return_received(
                before,
                after,
                channel_id,
                reply_code,
                reply_text,
                exchange,
                routing_key,
                r,
            ),
            Method::BasicDeliver {
                consumer_tag,
                delivery_tag,
                redelivered,
                exchange,
                routing_key,
            } => Self::basic_deliver_received(
                before,
                after,
                channel_id,
                consumer_tag,
                delivery_tag,
                redelivered,
                exchange,
                routing_key,
                r,
            ),
            Method::BasicGetOk {
                delivery_tag,
                redelivered,
                exchange,
                routing_key,
                message_count,
            } => Self::basic_get_ok_received(
                before,
                after,
                channel_id,
                delivery_tag,
                redelivered,
                exchange,
                routing_key,
                r,
            ),
            Method::BasicGetEmpty => Self::basic_get_empty_received(before, after, channel_id, r),
            Method::BasicRecoverOk => Self::basic_recover_ok_received(before, after, channel_id, r),
            Method::BasicAck { delivery_tag, multiple } => Self::acknowledged(
                before,
                after,
                channel_id,
                delivery_tag,
                multiple,
                Confirmation::Ack,
                BASIC_ACK_METHOD,
                r,
            ),
            Method::BasicNack { delivery_tag, multiple, requeue } => Self::acknowledged(
                before,
                after,
                channel_id,
                delivery_tag,
                multiple,
                Confirmation::Nack,
                BASIC_NACK_METHOD,
                r,
            ),
            Method::ConfirmSelectOk => Self::confirm_select_ok_received(
                before,
                after,
                channel_id,
                r,
            ),
            _ => r == Err::<(), Error>(Error::InvalidState) && after == before,
        }
    }

    /// Deals with a method that arrived on `channel_id`.
    pub fn receive_method(&mut self, channel_id: u16, method: Method) -> (r: Result<
        Option<Consumer>,
        Error,
    >)
        ensures
            Self::method_received(*old(self), *final(self), channel_id, method, r),
    {
        match method {
            Method::BasicCancelOk { consumer_tag } => self.receive_basic_cancel_ok(
                channel_id,
                consumer_tag,
            ),
            Method::BasicCancel { consumer_tag, nowait } => self.receive_basic_cancel(
                channel_id,
                consumer_tag,
                nowait,
            ),
            Method::ConnectionStart { mechanisms, locales } => {
                match self.assert_channel0(channel_id, CONNECTION_CLASS, CONNECTION_START_METHOD) {
                    Ok(()) => {
                        let full = self.on_connection_start_received(
                            mechanisms.as_str(),
                            locales.as_str(),
                        );
                        let ghost answer = full;
                        let r = match full {
                            Ok(_) => Ok(None),
                            Err(e) => Err(e),
                        };
                        proof {
                            assert(Self::start_received(
                                *old(self),
                                *self,
                                mechanisms@,
                                locales@,
                                answer,
                            ) && unit(answer) == unit(r));
                        }
                        r
                    },
                    Err(e) => Err(e),
                }
            },
            Method::ConnectionSecure { challenge: _ } => {
                match self.assert_channel0(channel_id, CONNECTION_CLASS, CONNECTION_SECURE_METHOD) {
                    Ok(()) => plain(self.on_connection_secure_received()),
                    Err(e) => Err(e),
                }
            },
            Method::ConnectionTune { channel_max, frame_max, heartbeat } => {
                match self.assert_channel0(channel_id, CONNECTION_CLASS, CONNECTION_TUNE_METHOD) {
                    Ok(()) => plain(
                        self.on_connection_tune_received(channel_max, frame_max, heartbeat),
                    ),
                    Err(e) => Err(e),
                }
            },
            Method::ConnectionOpenOk => {
                match self.assert_channel0(channel_id, CONNECTION_CLASS, CONNECTION_OPEN_OK_METHOD) {
                    Ok(()) => plain(self.on_connection_open_ok_received()),
                    Err(e) => Err(e),
                }
            },
            Method::ConnectionClose { reply_code, reply_text, class_id: _, method_id: _ } => {
                match self.assert_channel0(channel_id, CONNECTION_CLASS, CONNECTION_CLOSE_METHOD) {
                    Ok(()) => {
                        self.on_connection_close_received(reply_code, reply_text);
                        Ok(None)
                    },
                    Err(e) => Err(e),
                }
            },
            Method::ConnectionCloseOk => {
                match self.assert_channel0(channel_id, CONNECTION_CLASS, CONNECTION_CLOSE_OK_METHOD) {
                    Ok(()) => {
                        self.on_connection_close_ok_received();
                        Ok(None)
                    },
                    Err(e) => Err(e),
                }
            },
            Method::ConnectionBlocked { reason: _ } => {
                match self.assert_channel0(channel_id, CONNECTION_CLASS, CONNECTION_BLOCKED_METHOD) {
                    Ok(()) => {
                        self.on_connection_blocked_received();
                        Ok(None)
                    },
                    Err(e) => Err(e),
                }
            },
            Method::ConnectionUnblocked => {
                match self.assert_channel0(
                    channel_id,
                    CONNECTION_CLASS,
                    CONNECTION_UNBLOCKED_METHOD,
                ) {
                    Ok(()) => {
                        self.on_connection_unblocked_received();
                        Ok(None)
                    },
                    Err(e) => Err(e),
                }
            },
            other => plain(self.receive_channel_method(channel_id, other)),
        }
    }

    /// Deals with a method of a channel that cancels no consumer.
    pub fn receive_channel_method(&mut self, channel_id: u16, method: Method) -> (r: Result<
        (),
        Error,
    >)
        ensures
            Self::channel_method_received(*old(self), *final(self), channel_id, method, r),
    {
        match method {
            Method::ChannelOpenOk => self.receive_channel_open_ok(channel_id),
            Method::ChannelFlow { active } => self.receive_channel_flow(channel_id, active),
            Method::ChannelFlowOk { active } => self.receive_channel_flow_ok(channel_id, active),
            Method::ChannelClose {
                reply_code,
                reply_text,
                class_id: _,
                method_id: _,
            } => self.receive_channel_close(channel_id, reply_code, reply_text),
            Method::ChannelCloseOk => self.receive_channel_close_ok(channel_id),
            Method::ExchangeDeclareOk => self.receive_exchange_declare_ok(channel_id),
            Method::ExchangeDeleteOk => self.receive_exchange_delete_ok(channel_id),
            Method::ExchangeBindOk => self.receive_exchange_bind_ok(channel_id),
            Method::ExchangeUnbindOk => self.receive_exchange_unbind_ok(channel_id),
            Method::QueueDeclareOk {
                queue,
                message_count,
                consumer_count,
            } => self.receive_queue_declare_ok(channel_id, queue, message_count, consumer_count),
            Method::QueueBindOk => self.receive_queue_bind_ok(channel_id),
            Method::QueuePurgeOk { message_count: _ } => self.receive_queue_purge_ok(channel_id),
            Method::QueueDeleteOk { message_count: _ } => self.receive_queue_delete_ok(channel_id),
            Method::QueueUnbindOk => self.receive_queue_unbind_ok(channel_id),
            Method::BasicQosOk => self.receive_basic_qos_ok(channel_id),
            Method::BasicConsumeOk { consumer_tag } => self.receive_basic_consume_ok(
                channel_id,
                consumer_tag,
            ),
            Method::BasicReturn {
                reply_code,
                reply_text,
                exchange,
                routing_key,
            } => self.receive_basic_amqp_return(
                channel_id,
                reply_code,
                reply_text,
                exchange,
                routing_key,
            ),
            Method::BasicDeliver {
                consumer_tag,
                delivery_tag,
                redelivered,
                exchange,
                routing_key,
            } => self.receive_basic_deliver(
                channel_id,
                consumer_tag,
                delivery_tag,
                redelivered,
                exchange,
                routing_key,
            ),
            Method::BasicGetOk {
                delivery_tag,
                redelivered,
                exchange,
                routing_key,
                message_count: _,
            } => self.receive_basic_get_ok(
                channel_id,
                delivery_tag,
                redelivered,
                exchange,
                routing_key,
            ),
            Method::BasicGetEmpty => self.receive_basic_get_empty(channel_id),
            Method::BasicRecoverOk => self.receive_basic_recover_ok(channel_id),
            Method::BasicAck { delivery_tag, multiple } => self.receive_basic_ack(
                channel_id,
                delivery_tag,
                multiple,
            ),
            Method::BasicNack { delivery_tag, multiple, requeue: _ } => self.receive_basic_nack(
                channel_id,
                delivery_tag,
                multiple,
            ),
            Method::ConfirmSelectOk => self.receive_confirm_select_ok(channel_id),
            _ => Err(Error::InvalidState),
        }
    }
}

/// A reply that a channel takes is of the kind that the channel awaited
/// first, and with it that one leaves the awaited ones: taking replies
/// one after the other walks through them in the order in which the
/// requests recorded them.
pub proof fn lemma_taken_reply_was_awaited_first(
    before: Connection,
    after: Connection,
    channel_id: u16,
    phase: Phase,
    kind: ReplyKind,
    parts: Parts,
    touched: ConnectionParts,
)
    requires
        Connection::replied(before, after, channel_id, phase, kind, parts, touched, None),
    ensures
        before.has_channel(channel_id),
        takes_replies(before.channels@[before.channel_index(channel_id)].awaiting@, seq![kind]),
        !parts.awaiting ==> after.channels@[before.channel_index(channel_id)].awaiting@
            == before.channels@[before.channel_index(channel_id)].awaiting@.skip(1),
{
    let awaiting = before.channels@[before.channel_index(channel_id)].awaiting@;
    assert(seq![kind].skip(1).len() == 0);
    assert(takes_replies(awaiting.skip(1), seq![kind].skip(1)));
}

/// While a channel receives a content, from the method that begins it
/// to its last body frame, no request and no reply passes on that
/// channel, whatever phase it asks for, short of the closing of the
/// channel by the broker: each is turned away with the channel's state.
pub proof fn lemma_no_method_passes_while_receiving(
    connection: Connection,
    channel_id: u16,
    phase: Phase,
)
    requires
        connection.state is Connected,
        connection.has_channel(channel_id),
        connection.channels@[connection.channel_index(channel_id)].receiving(),
        phase != Phase::Alive,
    ensures
        connection.refusal(channel_id, phase) == Some(
            Error::InvalidChannelState(
                connection.channels@[connection.channel_index(channel_id)].state,
            ),
        ),
{
}

/// Adding frames, request ids and awaited replies leaves every channel
/// where it was.
pub proof fn lemma_channel_index_kept(before: Connection, after: Connection, channel_id: u16)
    requires
        after.channels@.len() == before.channels@.len(),
        forall|k: int| 0 <= k < before.channels@.len() ==> after.channels@[k].id == before.channels@[k].id,
    ensures
        after.channel_index(channel_id) == before.channel_index(channel_id),
        after.has_channel(channel_id) == before.has_channel(channel_id),
{
    assert(Seq::new(after.channels@.len(), |i: int| after.channels@[i].id == channel_id)
        =~= Seq::new(before.channels@.len(), |i: int| before.channels@[i].id == channel_id));
}

} // verus!
