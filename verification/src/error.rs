use vstd::prelude::*;

verus! {

/// Life cycle of a connection.
#[derive(Clone, Copy, Debug, PartialEq, Eq, Structural)]
pub enum ConnectionState {
    Initial,
    Connecting,
    Connected,
    Closing,
    Closed,
    Error,
}

/// Life cycle of a channel, with the cursor of the content being sent or
/// received.
#[derive(Clone, Debug, PartialEq, Eq)]
pub enum ChannelState {
    Initial,
    Connected,
    Closing,
    Closed,
    Error,
    /// Bytes of an outgoing body that are still to be sent.
    SendingContent(usize),
    /// A content-bearing method arrived; its header is awaited. Holds the
    /// queue, the consumer tag and whether the channel confirms publishes.
    WillReceiveContent(Option<String>, Option<String>, bool),
    /// The header arrived. Holds the queue, the consumer tag, the bytes of
    /// body still awaited, and whether the channel confirms publishes.
    ReceivingContent(Option<String>, Option<String>, u64, bool),
}

/// A copy of an optional string.
pub fn duplicate_name(name: &Option<String>) -> (r: Option<String>)
    ensures
        r == *name,
{
    match name {
        Some(s) => Some(s.clone()),
        None => None,
    }
}

impl ChannelState {
    /// A copy of this state.
    pub fn duplicate(&self) -> (r: Self)
        ensures
            r == *self,
    {
        match self {
            ChannelState::Initial => ChannelState::Initial,
            ChannelState::Connected => ChannelState::Connected,
            ChannelState::Closing => ChannelState::Closing,
            ChannelState::Closed => ChannelState::Closed,
            ChannelState::Error => ChannelState::Error,
            ChannelState::SendingContent(n) => ChannelState::SendingContent(*n),
            ChannelState::WillReceiveContent(q, t, c) => ChannelState::WillReceiveContent(
                duplicate_name(q),
                duplicate_name(t),
                *c,
            ),
            ChannelState::ReceivingContent(q, t, n, c) => ChannelState::ReceivingContent(
                duplicate_name(q),
                duplicate_name(t),
                *n,
                *c,
            ),
        }
    }
}

/// An AMQP reply code with the text that came with it.
#[derive(Clone, Debug, PartialEq, Eq)]
pub struct AMQPError {
    pub code: u16,
    pub message: String,
}

impl AMQPError {
    pub fn new(code: u16, message: String) -> (r: Self)
        ensures
            r == (AMQPError { code, message }),
    {
        AMQPError { code, message }
    }

    pub fn get_id(&self) -> (r: u16)
        ensures
            r == self.code,
    {
        self.code
    }

    pub fn get_message(&self) -> (r: &String)
        ensures
            *r == self.message,
    {
        &self.message
    }

    /// A copy of this error.
    pub fn duplicate(&self) -> (r: Self)
        ensures
            r == *self,
    {
        AMQPError { code: self.code, message: self.message.clone() }
    }
}

#[derive(Clone, Debug, PartialEq, Eq)]
pub enum Error {
    /// No channel with that id exists on the connection.
    InvalidChannel,
    /// A method arrived that a client never receives.
    InvalidState,
    /// A reply arrived that is not the one the channel awaited.
    UnexpectedAnswer,
    InvalidConnectionState(ConnectionState),
    InvalidChannelState(ChannelState),
    ProtocolError(AMQPError),
    IOError,
    SerializationError,
    ChannelsLimitReached,
}

impl Error {
    /// A copy of this error.
    pub fn duplicate(&self) -> (r: Self)
        ensures
            r == *self,
    {
        match self {
            Error::InvalidChannel => Error::InvalidChannel,
            Error::InvalidState => Error::InvalidState,
            Error::UnexpectedAnswer => Error::UnexpectedAnswer,
            Error::InvalidConnectionState(s) => Error::InvalidConnectionState(*s),
            Error::InvalidChannelState(s) => Error::InvalidChannelState(s.duplicate()),
            Error::ProtocolError(e) => Error::ProtocolError(e.duplicate()),
            Error::IOError => Error::IOError,
            Error::SerializationError => Error::SerializationError,
            Error::ChannelsLimitReached => Error::ChannelsLimitReached,
        }
    }
}

} // verus!
