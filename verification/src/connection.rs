use crate::api::RequestId;
use crate::channel::Channel;
use crate::configuration::Configuration;
use crate::consumer::ConsumerChange;
use crate::channel::is_protocol_error;
use crate::configuration::{negotiated, saturated};
use crate::error::{AMQPError, ChannelState, ConnectionState, Error};
use crate::protocol::{
    hard_error_code, hard_error_id, rabbit_cr_demo_answer, sasl_auth_string, sasl_response,
    table_contains_key, table_entries, table_insert, table_new, HardError, PropertyValue,
    TableValue,
};
use crate::words::{has_word, list_has_word};
use amq_protocol::protocol::basic::AMQPProperties;
use vstd::utf8::encode_utf8;
use crate::frames::{Frame, Method};
use crate::id_sequence::IdSequence;
use crate::protocol::SASLMechanism;
use crate::queue::{first_true, lemma_first_true};
use amq_protocol::types::FieldTable;
use vstd::prelude::*;

verus! {

/// The step of the opening handshake whose answer the client awaits.
#[derive(Clone, Copy, Debug, PartialEq, Eq, Structural)]
pub enum ConnectionStep {
    /// No handshake is under way.
    Idle,
    /// The protocol header was sent; Connection.Start is awaited.
    ProtocolHeader,
    /// Connection.StartOk was sent; Secure or Tune is awaited.
    StartOk,
    /// Connection.Open was sent; Connection.OpenOk is awaited.
    Open,
}

/// What the broker's Connection.Start says of the client's choices.
#[derive(Clone, Copy, Debug, PartialEq, Eq, Structural)]
pub struct StartCheck {
    /// Whether the broker lists the client's SASL mechanism.
    pub mechanism_supported: bool,
    /// Whether the broker lists the client's locale.
    pub locale_supported: bool,
}

/// The name under which a SASL mechanism is negotiated.
pub open spec fn mechanism_name_of(mechanism: SASLMechanism) -> Seq<char> {
    match mechanism {
        SASLMechanism::AMQPlain => "AMQPLAIN"@,
        SASLMechanism::External => "EXTERNAL"@,
        SASLMechanism::Plain => "PLAIN"@,
        SASLMechanism::RabbitCrDemo => "RABBIT-CR-DEMO"@,
    }
}

pub fn mechanism_name(mechanism: SASLMechanism) -> (r: &'static str)
    ensures
        r@ == mechanism_name_of(mechanism),
{
    match mechanism {
        SASLMechanism::AMQPlain => "AMQPLAIN",
        SASLMechanism::External => "EXTERNAL",
        SASLMechanism::Plain => "PLAIN",
        SASLMechanism::RabbitCrDemo => "RABBIT-CR-DEMO",
    }
}

/// The parts of a connection that an operation may touch.
pub struct ConnectionParts {
    pub state: bool,
    pub step: bool,
    pub configuration: bool,
    pub blocked: bool,
    pub channels: bool,
    pub frame_queue: bool,
    pub request_id: bool,
    pub finished_reqs: bool,
    pub finished_get_reqs: bool,
    pub prefetch: bool,
    pub client_properties: bool,
}

impl ConnectionParts {
    pub open spec fn none() -> ConnectionParts {
        ConnectionParts {
            state: false,
            step: false,
            configuration: false,
            blocked: false,
            channels: false,
            frame_queue: false,
            request_id: false,
            finished_reqs: false,
            finished_get_reqs: false,
            prefetch: false,
            client_properties: false,
        }
    }
}

/// A session with one broker: the handshake, the tunables, the channels,
/// the frames that wait to be written and the requests that were
/// answered.
pub struct Connection {
    pub state: ConnectionState,
    pub step: ConnectionStep,
    pub configuration: Configuration,
    pub vhost: String,
    pub username: String,
    pub password: String,
    pub mechanism: SASLMechanism,
    pub locale: String,
    pub client_properties: FieldTable,
    /// Whether the broker asked the client to hold its publishes back.
    pub blocked: bool,
    pub channels: Vec<Channel>,
    /// Frames that wait to be written, oldest first.
    pub frame_queue: Vec<Frame>,
    pub request_id: IdSequence,
    /// The requests whose reply arrived.
    pub finished_reqs: Vec<RequestId>,
    /// The Basic.Get requests whose reply arrived, each with whether a
    /// message came.
    pub finished_get_reqs: Vec<(RequestId, bool)>,
    pub prefetch_size: u32,
    pub prefetch_count: u16,
}

impl Connection {
    /// Outside of `parts`, the connection is as `other`. What the
    /// connection was made with is never among the parts.
    pub open spec fn same_outside(self, other: Self, parts: ConnectionParts) -> bool {
        &&& self.vhost == other.vhost
        &&& self.username == other.username
        &&& self.password == other.password
        &&& self.mechanism == other.mechanism
        &&& self.locale == other.locale
        &&& parts.client_properties || self.client_properties == other.client_properties
        &&& parts.state || self.state == other.state
        &&& parts.step || self.step == other.step
        &&& parts.configuration || self.configuration == other.configuration
        &&& parts.blocked || self.blocked == other.blocked
        &&& parts.channels || self.channels == other.channels
        &&& parts.frame_queue || self.frame_queue == other.frame_queue
        &&& parts.request_id || self.request_id == other.request_id
        &&& parts.finished_reqs || self.finished_reqs == other.finished_reqs
        &&& parts.finished_get_reqs || self.finished_get_reqs == other.finished_get_reqs
        &&& parts.prefetch || (self.prefetch_size == other.prefetch_size && self.prefetch_count
            == other.prefetch_count)
    }

    /// A connection that has not begun its handshake, with the channel 0
    /// that carries its own methods.
    pub fn new(
        configuration: Configuration,
        vhost: String,
        username: String,
        password: String,
        mechanism: SASLMechanism,
        locale: String,
        client_properties: FieldTable,
    ) -> (r: Self)
        ensures
            r.state == ConnectionState::Initial,
            r.step == ConnectionStep::Idle,
            r.configuration == configuration,
            r.vhost == vhost,
            r.username == username,
            r.password == password,
            r.mechanism == mechanism,
            r.locale == locale,
            r.client_properties == client_properties,
            !r.blocked,
            r.channels@.len() == 1,
            r.channels@[0].is_new(0),
            r.frame_queue@.len() == 0,
            r.request_id == (IdSequence { allow_zero: true, id: 0 }),
            r.finished_reqs@.len() == 0,
            r.finished_get_reqs@.len() == 0,
            r.prefetch_size == 0 && r.prefetch_count == 0,
    {
        let mut channels: Vec<Channel> = Vec::new();
        channels.push(Channel::global());
        Connection {
            state: ConnectionState::Initial,
            step: ConnectionStep::Idle,
            configuration,
            vhost,
            username,
            password,
            mechanism,
            locale,
            client_properties,
            blocked: false,
            channels,
            frame_queue: Vec::new(),
            request_id: IdSequence::new(true),
            finished_reqs: Vec::new(),
            finished_get_reqs: Vec::new(),
            prefetch_size: 0,
            prefetch_count: 0,
        }
    }

    pub fn status(&self) -> (r: ConnectionState)
        ensures
            r == self.state,
    {
        self.state
    }

    /// The index of the first channel with this id, or the number of
    /// channels if none has it.
    pub open spec fn channel_index(self, channel_id: u16) -> int {
        first_true(Seq::new(self.channels@.len(), |i: int| self.channels@[i].id == channel_id))
    }

    pub open spec fn has_channel(self, channel_id: u16) -> bool {
        self.channel_index(channel_id) < self.channels@.len()
    }

    /// The channels of `after` are those of `before`, but for the one at
    /// `index`.
    pub open spec fn channels_same_but(before: Self, after: Self, index: int) -> bool {
        &&& after.channels@.len() == before.channels@.len()
        &&& forall|k: int|
            0 <= k < before.channels@.len() && k != index ==> after.channels@[k]
                == before.channels@[k]
    }

    pub fn find_channel(&self, channel_id: u16) -> (r: Option<usize>)
        ensures
            r is Some == self.has_channel(channel_id),
            r is Some ==> r->0 == self.channel_index(channel_id) && r->0 < self.channels@.len()
                && self.channels@[r->0 as int].id == channel_id,
    {
        let ghost flags = Seq::new(
            self.channels@.len(),
            |i: int| self.channels@[i].id == channel_id,
        );
        let mut found: Option<usize> = None;
        let mut i: usize = 0;
        while i < self.channels.len()
            invariant
                i <= self.channels.len(),
                flags == Seq::new(self.channels@.len(), |i: int| self.channels@[i].id == channel_id),
                found is Some ==> found->0 < i && found->0 == first_true(flags.take(i as int)),
                found is None ==> first_true(flags.take(i as int)) == i,
            decreases self.channels.len() - i,
        {
            proof {
                assert(flags.take(i + 1).drop_last() == flags.take(i as int));
            }
            if found.is_none() && self.channels[i].id == channel_id {
                found = Some(i);
            }
            i += 1;
        }
        proof {
            assert(flags.take(i as int) == flags);
            lemma_first_true(flags);
        }
        found
    }

    /// Takes the first channel with this id out of the connection and
    /// hands it out, with what it still holds for the application.
    pub fn remove_channel(&mut self, channel_id: u16) -> (r: Option<Channel>)
        ensures
            final(self).same_outside(
                *old(self),
                ConnectionParts { channels: true, ..ConnectionParts::none() },
            ),
            r is Some == old(self).has_channel(channel_id),
            r is None ==> final(self).channels == old(self).channels,
            r is Some ==> {
                let i = old(self).channel_index(channel_id);
                &&& r->0 == old(self).channels@[i]
                &&& final(self).channels@ == old(self).channels@.remove(i)
            },
    {
        match self.find_channel(channel_id) {
            Some(i) => Some(self.channels.remove(i)),
            None => None,
        }
    }

    /// The lowest id from 1 up to the negotiated `channel_max` that no
    /// channel has.
    pub open spec fn lowest_free_id(self, id: u16) -> bool {
        &&& 1 <= id <= self.configuration.channel_max
        &&& !self.has_channel(id)
        &&& forall|other: u16| 1 <= other < id ==> self.has_channel(other)
    }

    /// Makes a channel with the lowest free id and gives the id. Fails
    /// unless the connection is open, and when every id up to
    /// `channel_max` is taken.
    pub fn create_channel(&mut self) -> (r: Result<u16, Error>)
        ensures
            !(old(self).state is Connected) ==> r == Err::<u16, Error>(
                Error::InvalidConnectionState(old(self).state),
            ) && *final(self) == *old(self),
            old(self).state is Connected ==> match r {
                Ok(id) => {
                    &&& old(self).lowest_free_id(id)
                    &&& final(self).same_outside(
                        *old(self),
                        ConnectionParts { channels: true, ..ConnectionParts::none() },
                    )
                    &&& final(self).channels@.len() == old(self).channels@.len() + 1
                    &&& final(self).channels@.drop_last() == old(self).channels@
                    &&& final(self).channels@.last().is_new(id)
                },
                Err(e) => {
                    &&& e == Error::ChannelsLimitReached
                    &&& *final(self) == *old(self)
                    &&& forall|id: u16|
                        1 <= id <= old(self).configuration.channel_max ==> old(self).has_channel(
                            id,
                        )
                },
            },
    {
        if self.state != ConnectionState::Connected {
            return Err(Error::InvalidConnectionState(self.state));
        }
        let max = self.configuration.channel_max;
        let mut id: u16 = 1;
        while id <= max
            invariant
                1 <= id,
                max == self.configuration.channel_max,
                *self == *old(self),
                self.state is Connected,
                forall|other: u16| 1 <= other < id ==> self.has_channel(other),
            decreases max - id + 1,
        {
            if self.find_channel(id).is_none() {
                self.channels.push(Channel::new(id));
                assert(self.channels@.drop_last() == old(self).channels@);
                return Ok(id);
            }
            if id == max {
                return Err(Error::ChannelsLimitReached);
            }
            id += 1;
        }
        Err(Error::ChannelsLimitReached)
    }

    /// Whether the opening handshake awaits the answer to `step`.
    pub open spec fn in_step(self, step: ConnectionStep) -> bool {
        self.state is Connecting && self.step == step
    }

    /// The outcome of a handshake method that arrives out of turn: the
    /// connection fails, and every channel with it.
    pub open spec fn handshake_refused(before: Self, after: Self, error: Error) -> bool {
        &&& error == Error::InvalidConnectionState(before.state)
        &&& after.state == ConnectionState::Error
        &&& after.same_outside(
            before,
            ConnectionParts { state: true, channels: true, ..ConnectionParts::none() },
        )
        &&& Self::channels_ended(before, after, error, false)
    }

    /// Every channel of `before` has ended with `error` in `after`:
    /// closed, with its consumers cancelled, if `closed`; failed, with
    /// its consumers failed, if not.
    pub open spec fn channels_ended(before: Self, after: Self, error: Error, closed: bool) -> bool {
        &&& after.channels@.len() == before.channels@.len()
        &&& forall|k: int|
            0 <= k < before.channels@.len() ==> Self::channel_ended(
                before.channels@[k],
                #[trigger] after.channels@[k],
                error,
                closed,
            )
    }

    pub open spec fn channel_ended(before: Channel, after: Channel, error: Error, closed: bool) -> bool {
        &&& Channel::ended(before, after, error)
        &&& if closed {
            after.state == ChannelState::Closed && Channel::consumers_changed(
                before,
                after,
                ConsumerChange::Cancel,
            )
        } else {
            after.state == ChannelState::Error && Channel::consumers_changed(
                before,
                after,
                ConsumerChange::Fail(error),
            )
        }
    }

    /// Ends every channel with `error`: see `channels_ended`.
    pub fn end_channels(&mut self, error: &Error, closed: bool)
        ensures
            final(self).same_outside(
                *old(self),
                ConnectionParts { channels: true, ..ConnectionParts::none() },
            ),
            Self::channels_ended(*old(self), *final(self), *error, closed),
    {
        let mut k: usize = 0;
        while k < self.channels.len()
            invariant
                k <= self.channels.len(),
                self.same_outside(
                    *old(self),
                    ConnectionParts { channels: true, ..ConnectionParts::none() },
                ),
                self.channels@.len() == old(self).channels@.len(),
                forall|j: int|
                    k <= j < self.channels@.len() ==> self.channels@[j] == old(self).channels@[j],
                forall|j: int|
                    0 <= j < k ==> Self::channel_ended(
                        old(self).channels@[j],
                        #[trigger] self.channels@[j],
                        *error,
                        closed,
                    ),
            decreases self.channels.len() - k,
        {
            if closed {
                self.channels[k].set_closed(error.duplicate());
            } else {
                self.channels[k].set_error(error.duplicate());
            }
            k += 1;
        }
    }

    /// Fails the connection because a handshake method arrived out of
    /// turn.
    pub fn refuse_handshake(&mut self) -> (error: Error)
        ensures
            Self::handshake_refused(*old(self), *final(self), error),
    {
        let error = Error::InvalidConnectionState(self.state);
        self.state = ConnectionState::Error;
        self.end_channels(&error, false);
        error
    }

    /// Begins the opening handshake: the protocol header is the first
    /// thing to be written. Only a connection that has not begun can.
    pub fn connect(&mut self) -> (r: Result<(), Error>)
        ensures
            !(old(self).state is Initial) ==> r == Err::<(), Error>(
                Error::InvalidConnectionState(old(self).state),
            ) && *final(self) == *old(self),
            old(self).state is Initial ==> {
                &&& r is Ok
                &&& final(self).state == ConnectionState::Connecting
                &&& final(self).step == ConnectionStep::ProtocolHeader
                &&& final(self).frame_queue@ == old(self).frame_queue@.push(Frame::ProtocolHeader)
                &&& final(self).same_outside(
                    *old(self),
                    ConnectionParts {
                        state: true,
                        step: true,
                        frame_queue: true,
                        ..ConnectionParts::none()
                    },
                )
            },
    {
        if self.state != ConnectionState::Initial {
            return Err(Error::InvalidConnectionState(self.state));
        }
        self.state = ConnectionState::Connecting;
        self.step = ConnectionStep::ProtocolHeader;
        self.frame_queue.push(Frame::ProtocolHeader);
        Ok(())
    }

    /// The client properties that go out with Connection.StartOk when
    /// the connection was made with `given`: product and version are
    /// filled in unless both are there, the platform is named, and
    /// `capabilities` is the table of what the client can do.
    pub open spec fn start_ok_properties(
        given: Map<Seq<char>, TableValue>,
        capabilities: FieldTable,
    ) -> Map<Seq<char>, TableValue> {
        let named = if given.contains_key("product"@) && given.contains_key("version"@) {
            given
        } else {
            given.insert("product"@, TableValue::LongString("lapin"@)).insert(
                "version"@,
                TableValue::LongString("0.1.0"@),
            )
        };
        named.insert("platform"@, TableValue::LongString("rust"@)).insert(
            "capabilities"@,
            TableValue::FieldTable(capabilities),
        )
    }

    /// What the client tells the broker it can do: each of these is
    /// declared as true.
    pub open spec fn capabilities() -> Map<Seq<char>, TableValue> {
        Map::<Seq<char>, TableValue>::empty().insert(
            "publisher_confirms"@,
            TableValue::Boolean(true),
        ).insert("exchange_exchange_bindings"@, TableValue::Boolean(true)).insert(
            "basic.nack"@,
            TableValue::Boolean(true),
        ).insert("consumer_cancel_notify"@, TableValue::Boolean(true)).insert(
            "connection.blocked"@,
            TableValue::Boolean(true),
        ).insert("consumer_priorities"@, TableValue::Boolean(true)).insert(
            "authentication_failure_close"@,
            TableValue::Boolean(true),
        ).insert("per_consumer_qos"@, TableValue::Boolean(true)).insert(
            "direct_reply_to"@,
            TableValue::Boolean(true),
        )
    }

    /// The table of what the client can do: see `capabilities`.
    pub fn capabilities_table() -> (r: FieldTable)
        ensures
            table_entries(r) == Self::capabilities(),
    {
        let mut table = table_new();
        assert(table_entries(table) =~= Map::<Seq<char>, TableValue>::empty());
        table_insert(&mut table, "publisher_confirms", PropertyValue::Boolean(true));
        table_insert(&mut table, "exchange_exchange_bindings", PropertyValue::Boolean(true));
        table_insert(&mut table, "basic.nack", PropertyValue::Boolean(true));
        table_insert(&mut table, "consumer_cancel_notify", PropertyValue::Boolean(true));
        table_insert(&mut table, "connection.blocked", PropertyValue::Boolean(true));
        table_insert(&mut table, "consumer_priorities", PropertyValue::Boolean(true));
        table_insert(&mut table, "authentication_failure_close", PropertyValue::Boolean(true));
        table_insert(&mut table, "per_consumer_qos", PropertyValue::Boolean(true));
        table_insert(&mut table, "direct_reply_to", PropertyValue::Boolean(true));
        table
    }

    /// The outcome of a Connection.Start. Awaited, it is answered with
    /// Connection.StartOk, which carries the client properties, the
    /// mechanism's name, the mechanism's SASL response and the locale;
    /// the result tells whether the broker listed the mechanism and the
    /// locale. The client properties leave the connection with the
    /// answer. Out of turn, it fails the connection.
    pub open spec fn start_received(
        before: Self,
        after: Self,
        mechanisms: Seq<char>,
        locales: Seq<char>,
        r: Result<StartCheck, Error>,
    ) -> bool {
        if before.in_step(ConnectionStep::ProtocolHeader) {
            &&& r == Ok::<StartCheck, Error>(
                StartCheck {
                    mechanism_supported: has_word(
                        encode_utf8(mechanisms),
                        encode_utf8(mechanism_name_of(before.mechanism)),
                    ),
                    locale_supported: has_word(encode_utf8(locales), encode_utf8(before.locale@)),
                },
            )
            &&& after.same_outside(
                before,
                ConnectionParts {
                    step: true,
                    frame_queue: true,
                    client_properties: true,
                    ..ConnectionParts::none()
                },
            )
            &&& after.step == ConnectionStep::StartOk
            &&& forall|key: Seq<char>| !table_entries(after.client_properties).contains_key(key)
            &&& after.frame_queue@.len() == before.frame_queue@.len() + 1
            &&& after.frame_queue@.drop_last() == before.frame_queue@
            &&& after.frame_queue@.last() matches Frame::Method(
                0,
                Method::ConnectionStartOk { client_properties, mechanism, response, locale },
            ) && {
                &&& mechanism@ == mechanism_name_of(before.mechanism)
                &&& response@ == sasl_auth_string(
                    before.username@,
                    before.password@,
                    before.mechanism,
                )
                &&& locale == before.locale
                &&& table_entries(client_properties).contains_key("capabilities"@)
                &&& table_entries(client_properties)["capabilities"@] matches TableValue::FieldTable(
                    capabilities,
                ) && {
                    &&& table_entries(capabilities) == Self::capabilities()
                    &&& table_entries(client_properties) == Self::start_ok_properties(
                        table_entries(before.client_properties),
                        capabilities,
                    )
                }
            }
        } else {
            r is Err && Self::handshake_refused(before, after, r->Err_0)
        }
    }

    pub fn on_connection_start_received(&mut self, mechanisms: &str, locales: &str) -> (r: Result<
        StartCheck,
        Error,
    >)
        ensures
            Self::start_received(*old(self), *final(self), mechanisms@, locales@, r),
    {
        if !(self.state == ConnectionState::Connecting && self.step
            == ConnectionStep::ProtocolHeader) {
            return Err(self.refuse_handshake());
        }
        let name = mechanism_name(self.mechanism);
        let check = StartCheck {
            mechanism_supported: list_has_word(mechanisms.as_bytes(), name.as_bytes()),
            locale_supported: list_has_word(locales.as_bytes(), self.locale.as_str().as_bytes()),
        };
        let mut properties = table_new();
        std::mem::swap(&mut properties, &mut self.client_properties);
        if !table_contains_key(&properties, "product") || !table_contains_key(
            &properties,
            "version",
        ) {
            table_insert(&mut properties, "product", PropertyValue::LongString("lapin".to_owned()));
            table_insert(&mut properties, "version", PropertyValue::LongString("0.1.0".to_owned()));
        }
        table_insert(&mut properties, "platform", PropertyValue::LongString("rust".to_owned()));
        let capabilities = Self::capabilities_table();
        table_insert(&mut properties, "capabilities", PropertyValue::FieldTable(capabilities));
        let response = sasl_response(&self.username, &self.password, self.mechanism);
        self.frame_queue.push(
            Frame::Method(
                0,
                Method::ConnectionStartOk {
                    client_properties: properties,
                    mechanism: name.to_owned(),
                    response,
                    locale: self.locale.clone(),
                },
            ),
        );
        self.step = ConnectionStep::StartOk;
        proof {
            assert(self.frame_queue@.drop_last() == old(self).frame_queue@);
            assert(table_entries(properties).contains_key("capabilities"@));
        }
        Ok(check)
    }

    /// The outcome of a Connection.Secure. Awaited, it is answered with
    /// Connection.SecureOk, which carries the answer to the broker's
    /// challenge. Out of turn, it fails the connection.
    pub open spec fn secure_received(before: Self, after: Self, r: Result<(), Error>) -> bool {
        if before.in_step(ConnectionStep::StartOk) {
            &&& r is Ok
            &&& after.same_outside(
                before,
                ConnectionParts { frame_queue: true, ..ConnectionParts::none() },
            )
            &&& after.frame_queue@.len() == before.frame_queue@.len() + 1
            &&& after.frame_queue@.drop_last() == before.frame_queue@
            &&& after.frame_queue@.last() matches Frame::Method(
                0,
                Method::ConnectionSecureOk { response },
            ) && response@ == "My password is "@ + before.password@
        } else {
            r is Err && Self::handshake_refused(before, after, r->Err_0)
        }
    }

    pub fn on_connection_secure_received(&mut self) -> (r: Result<(), Error>)
        ensures
            Self::secure_received(*old(self), *final(self), r),
    {
        if !(self.state == ConnectionState::Connecting && self.step == ConnectionStep::StartOk) {
            return Err(self.refuse_handshake());
        }
        let response = rabbit_cr_demo_answer(&self.password);
        self.frame_queue.push(Frame::Method(0, Method::ConnectionSecureOk { response }));
        proof {
            assert(self.frame_queue@.drop_last() == old(self).frame_queue@);
        }
        Ok(())
    }

    /// The outcome of a Connection.Tune. Awaited, the tunables are
    /// settled against the broker's values, and Connection.TuneOk with
    /// the settled values, then Connection.Open with the virtual host,
    /// are queued. Out of turn, it fails the connection.
    pub open spec fn tune_received(
        before: Self,
        after: Self,
        channel_max: u16,
        frame_max: u32,
        heartbeat: u16,
        r: Result<(), Error>,
    ) -> bool {
        if before.in_step(ConnectionStep::StartOk) {
            &&& r is Ok
            &&& after.same_outside(
                before,
                ConnectionParts {
                    step: true,
                    configuration: true,
                    frame_queue: true,
                    ..ConnectionParts::none()
                },
            )
            &&& after.step == ConnectionStep::Open
            &&& after.configuration.heartbeat == negotiated(
                before.configuration.heartbeat as int,
                heartbeat as int,
            )
            &&& after.configuration.channel_max == saturated(
                negotiated(before.configuration.channel_max as int, channel_max as int),
                u16::MAX as int,
            )
            &&& after.configuration.frame_max == saturated(
                negotiated(before.configuration.frame_max as int, frame_max as int),
                u32::MAX as int,
            )
            &&& after.frame_queue@ == before.frame_queue@.push(
                Frame::Method(
                    0,
                    Method::ConnectionTuneOk {
                        channel_max: after.configuration.channel_max,
                        frame_max: after.configuration.frame_max,
                        heartbeat: after.configuration.heartbeat,
                    },
                ),
            ).push(Frame::Method(0, Method::ConnectionOpen { virtual_host: before.vhost }))
        } else {
            r is Err && Self::handshake_refused(before, after, r->Err_0)
        }
    }

    pub fn on_connection_tune_received(&mut self, channel_max: u16, frame_max: u32, heartbeat: u16) -> (r:
        Result<(), Error>)
        ensures
            Self::tune_received(*old(self), *final(self), channel_max, frame_max, heartbeat, r),
    {
        if !(self.state == ConnectionState::Connecting && self.step == ConnectionStep::StartOk) {
            return Err(self.refuse_handshake());
        }
        self.configuration.tune_connection_configuration(channel_max, frame_max, heartbeat);
        self.frame_queue.push(
            Frame::Method(
                0,
                Method::ConnectionTuneOk {
                    channel_max: self.configuration.channel_max(),
                    frame_max: self.configuration.frame_max(),
                    heartbeat: self.configuration.heartbeat(),
                },
            ),
        );
        self.frame_queue.push(
            Frame::Method(0, Method::ConnectionOpen { virtual_host: self.vhost.clone() }),
        );
        self.step = ConnectionStep::Open;
        Ok(())
    }

    /// The outcome of a Connection.OpenOk. Awaited, the connection is
    /// open. Out of turn, it fails the connection.
    pub open spec fn open_ok_received(before: Self, after: Self, r: Result<(), Error>) -> bool {
        if before.in_step(ConnectionStep::Open) {
            &&& r is Ok
            &&& after.same_outside(
                before,
                ConnectionParts { state: true, step: true, ..ConnectionParts::none() },
            )
            &&& after.state == ConnectionState::Connected
            &&& after.step == ConnectionStep::Idle
        } else {
            r is Err && Self::handshake_refused(before, after, r->Err_0)
        }
    }

    pub fn on_connection_open_ok_received(&mut self) -> (r: Result<(), Error>)
        ensures
            Self::open_ok_received(*old(self), *final(self), r),
    {
        if !(self.state == ConnectionState::Connecting && self.step == ConnectionStep::Open) {
            return Err(self.refuse_handshake());
        }
        self.state = ConnectionState::Connected;
        self.step = ConnectionStep::Idle;
        Ok(())
    }

    /// `after` is `before` with the blocked flag set to `blocked`.
    pub open spec fn blocked_set(before: Self, after: Self, blocked: bool) -> bool {
        &&& after.blocked == blocked
        &&& after.same_outside(before, ConnectionParts { blocked: true, ..ConnectionParts::none() })
    }

    pub fn on_connection_blocked_received(&mut self)
        ensures
            Self::blocked_set(*old(self), *final(self), true),
    {
        self.blocked = true;
    }

    pub fn on_connection_unblocked_received(&mut self)
        ensures
            Self::blocked_set(*old(self), *final(self), false),
    {
        self.blocked = false;
    }

    /// `after` is `before` once the client asked the broker to close the
    /// connection: Connection.Close with these values is queued and the
    /// connection is closing.
    pub open spec fn closing(
        before: Self,
        after: Self,
        reply_code: u16,
        reply_text: String,
        class_id: u16,
        method_id: u16,
    ) -> bool {
        &&& after.state == ConnectionState::Closing
        &&& after.frame_queue@ == before.frame_queue@.push(
            Frame::Method(
                0,
                Method::ConnectionClose { reply_code, reply_text, class_id, method_id },
            ),
        )
        &&& after.same_outside(
            before,
            ConnectionParts { state: true, frame_queue: true, ..ConnectionParts::none() },
        )
    }

    /// Asks the broker to close the connection because of a protocol
    /// violation in the method `class_id`, `method_id`.
    pub fn close_connection(
        &mut self,
        reply_code: u16,
        reply_text: String,
        class_id: u16,
        method_id: u16,
    )
        ensures
            Self::closing(*old(self), *final(self), reply_code, reply_text, class_id, method_id),
    {
        self.frame_queue.push(
            Frame::Method(
                0,
                Method::ConnectionClose { reply_code, reply_text, class_id, method_id },
            ),
        );
        self.state = ConnectionState::Closing;
    }

    /// Asks the broker to close the connection. Only an open connection
    /// can.
    pub fn close(&mut self, reply_code: u16, reply_text: String) -> (r: Result<(), Error>)
        ensures
            !(old(self).state is Connected) ==> r == Err::<(), Error>(
                Error::InvalidConnectionState(old(self).state),
            ) && *final(self) == *old(self),
            old(self).state is Connected ==> r is Ok && Self::closing(
                *old(self),
                *final(self),
                reply_code,
                reply_text,
                0,
                0,
            ),
    {
        if self.state != ConnectionState::Connected {
            return Err(Error::InvalidConnectionState(self.state));
        }
        self.close_connection(reply_code, reply_text, 0, 0);
        Ok(())
    }

    /// The outcome of a protocol violation that the client answers by
    /// asking the broker to close the connection: `r` is the protocol
    /// error with the code of `violation`, and Connection.Close with
    /// that code and the error's text is queued.
    pub open spec fn violated(
        before: Self,
        after: Self,
        violation: HardError,
        class_id: u16,
        method_id: u16,
        r: Result<(), Error>,
    ) -> bool {
        &&& is_protocol_error(r, hard_error_code(violation))
        &&& Self::closing(
            before,
            after,
            hard_error_code(violation),
            r->Err_0->ProtocolError_0.message,
            class_id,
            method_id,
        )
    }

    /// A method of the Connection class is only taken on channel 0. On
    /// another channel it is a violation, COMMAND-INVALID.
    pub fn assert_channel0(&mut self, channel_id: u16, class_id: u16, method_id: u16) -> (r: Result<
        (),
        Error,
    >)
        ensures
            channel_id == 0 ==> r is Ok && *final(self) == *old(self),
            channel_id != 0 ==> Self::violated(
                *old(self),
                *final(self),
                HardError::CommandInvalid,
                class_id,
                method_id,
                r,
            ),
    {
        if channel_id == 0 {
            Ok(())
        } else {
            let code = hard_error_id(HardError::CommandInvalid);
            let text = "connection frame received on another channel than 0".to_owned();
            self.close_connection(code, text.clone(), class_id, method_id);
            Err(Error::ProtocolError(AMQPError::new(code, text)))
        }
    }

    /// The outcome of a Connection.Close from the broker: the frames
    /// that waited to be written are dropped, Connection.CloseOk is
    /// queued in their place, the connection is closed, and every
    /// channel ends with the error that the broker gave: failed if that
    /// is a protocol error, closed if not.
    pub open spec fn close_received(
        before: Self,
        after: Self,
        reply_code: u16,
        reply_text: String,
    ) -> bool {
        let error = Self::close_error(
            reply_code,
            reply_text,
            Error::InvalidConnectionState(ConnectionState::Closed),
        );
        &&& after.state == ConnectionState::Closed
        &&& after.step == ConnectionStep::Idle
        &&& after.frame_queue@ == seq![Frame::Method(0, Method::ConnectionCloseOk)]
        &&& after.same_outside(
            before,
            ConnectionParts {
                state: true,
                step: true,
                frame_queue: true,
                channels: true,
                ..ConnectionParts::none()
            },
        )
        &&& Self::channels_ended(before, after, error, !(error is ProtocolError))
    }

    pub fn on_connection_close_received(&mut self, reply_code: u16, reply_text: String)
        ensures
            Self::close_received(*old(self), *final(self), reply_code, reply_text),
    {
        let error = Self::error_of_close(
            reply_code,
            reply_text,
            Error::InvalidConnectionState(ConnectionState::Closed),
        );
        self.frame_queue.clear();
        self.frame_queue.push(Frame::Method(0, Method::ConnectionCloseOk));
        assert(self.frame_queue@ =~= seq![Frame::Method(0, Method::ConnectionCloseOk)]);
        self.state = ConnectionState::Closed;
        self.step = ConnectionStep::Idle;
        let closed = match &error {
            Error::ProtocolError(_) => false,
            _ => true,
        };
        self.end_channels(&error, closed);
    }

    /// The outcome of a Connection.CloseOk from the broker: the
    /// connection is closed and so is every channel.
    pub open spec fn close_ok_received(before: Self, after: Self) -> bool {
        &&& after.state == ConnectionState::Closed
        &&& after.same_outside(
            before,
            ConnectionParts { state: true, channels: true, ..ConnectionParts::none() },
        )
        &&& Self::channels_ended(
            before,
            after,
            Error::InvalidConnectionState(ConnectionState::Closed),
            true,
        )
    }

    pub fn on_connection_close_ok_received(&mut self)
        ensures
            Self::close_ok_received(*old(self), *final(self)),
    {
        self.state = ConnectionState::Closed;
        self.end_channels(&Error::InvalidConnectionState(ConnectionState::Closed), true);
    }

    /// The outcome of a content frame on `channel_id`, where `handled`
    /// tells how the channel takes it. Without such a channel nothing
    /// changes. If the channel refuses the frame with a protocol error,
    /// the client asks the broker to close the connection with the
    /// error's code and text.
    pub open spec fn content_frame_received(
        before: Self,
        after: Self,
        channel_id: u16,
        class_id: u16,
        r: Result<(), Error>,
    ) -> bool {
        if !before.has_channel(channel_id) {
            r == Err::<(), Error>(Error::InvalidChannel) && after == before
        } else {
            &&& Self::channels_same_but(before, after, before.channel_index(channel_id))
            &&& match r {
                Err(Error::ProtocolError(error)) => {
                    &&& after.state == ConnectionState::Closing
                    &&& after.frame_queue@ == before.frame_queue@.push(
                        Frame::Method(
                            0,
                            Method::ConnectionClose {
                                reply_code: error.code,
                                reply_text: error.message,
                                class_id,
                                method_id: 0,
                            },
                        ),
                    )
                    &&& after.same_outside(
                        before,
                        ConnectionParts {
                            state: true,
                            frame_queue: true,
                            channels: true,
                            ..ConnectionParts::none()
                        },
                    )
                },
                _ => after.same_outside(
                    before,
                    ConnectionParts { channels: true, ..ConnectionParts::none() },
                ),
            }
        }
    }

    /// After a channel dealt with a content frame: a protocol error
    /// makes the client ask the broker to close the connection.
    pub fn close_on_violation(&mut self, r: &Result<(), Error>, class_id: u16)
        ensures
            match *r {
                Err(Error::ProtocolError(error)) => Self::closing(
                    *old(self),
                    *final(self),
                    error.code,
                    error.message,
                    class_id,
                    0,
                ),
                _ => *final(self) == *old(self),
            },
    {
        match r {
            Err(Error::ProtocolError(error)) => {
                self.close_connection(error.code, error.message.clone(), class_id, 0);
            },
            _ => {},
        }
    }

    /// A content header arrived on `channel_id`.
    pub fn handle_content_header_frame(
        &mut self,
        channel_id: u16,
        class_id: u16,
        size: u64,
        properties: AMQPProperties,
    ) -> (r: Result<(), Error>)
        ensures
            Self::content_frame_received(*old(self), *final(self), channel_id, class_id, r),
            old(self).has_channel(channel_id) ==> Channel::header_received(
                old(self).channels@[old(self).channel_index(channel_id)],
                final(self).channels@[old(self).channel_index(channel_id)],
                class_id,
                size,
                properties,
                r,
            ),
    {
        let i = match self.find_channel(channel_id) {
            Some(i) => i,
            None => {
                return Err(Error::InvalidChannel);
            },
        };
        let r = self.channels[i].handle_content_header_frame(class_id, size, properties);
        self.close_on_violation(&r, class_id);
        r
    }

    /// A body frame arrived on `channel_id`.
    pub fn handle_body_frame(&mut self, channel_id: u16, payload: Vec<u8>) -> (r: Result<(), Error>)
        ensures
            Self::content_frame_received(*old(self), *final(self), channel_id, 0, r),
            old(self).has_channel(channel_id) ==> Channel::body_received(
                old(self).channels@[old(self).channel_index(channel_id)],
                final(self).channels@[old(self).channel_index(channel_id)],
                payload,
                r,
            ),
    {
        let i = match self.find_channel(channel_id) {
            Some(i) => i,
            None => {
                return Err(Error::InvalidChannel);
            },
        };
        let r = self.channels[i].handle_body_frame(payload);
        self.close_on_violation(&r, 0);
        r
    }
}

} // verus!
