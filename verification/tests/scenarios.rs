use amq_protocol::protocol::BasicProperties;
use amq_protocol::types::{AMQPValue, FieldTable};
use lapin::acknowledgement::{Confirmation, Resolution};
use lapin::api::Answer;
use lapin::configuration::Configuration;
use lapin::connection::{Connection, ConnectionStep, StartCheck};
use lapin::consumer::ConsumerPoll;
use lapin::error::{AMQPError, ChannelState, ConnectionState, Error};
use lapin::frames::{Frame, Method};
use lapin::protocol::SASLMechanism;

fn fresh(frame_max: u32) -> Connection {
    Connection::new(
        Configuration::new(0, frame_max, 0),
        "/".to_string(),
        "guest".to_string(),
        "guest".to_string(),
        SASLMechanism::Plain,
        "en_US".to_string(),
        FieldTable::default(),
    )
}

fn opened(frame_max: u32) -> Connection {
    let mut c = fresh(frame_max);
    c.connect().unwrap();
    c.on_connection_start_received("PLAIN AMQPLAIN", "en_US").unwrap();
    c.on_connection_tune_received(2047, 131072, 60).unwrap();
    c.on_connection_open_ok_received().unwrap();
    c.frame_queue.clear();
    c
}

fn with_channel(frame_max: u32) -> (Connection, u16) {
    let mut c = opened(frame_max);
    let id = c.create_channel().unwrap();
    c.channel_open(id, String::new()).unwrap();
    assert_eq!(c.receive_method(id, Method::ChannelOpenOk), Ok(None));
    c.frame_queue.clear();
    (c, id)
}

#[test]
fn handshake_reaches_connected() {
    let mut c = fresh(0);
    assert_eq!(c.status(), ConnectionState::Initial);
    c.connect().unwrap();
    assert_eq!(c.frame_queue, vec![Frame::ProtocolHeader]);
    assert_eq!(c.status(), ConnectionState::Connecting);
    let check = c.on_connection_start_received("AMQPLAIN PLAIN", "en_US fr_FR").unwrap();
    assert_eq!(check, StartCheck { mechanism_supported: true, locale_supported: true });
    assert_eq!(c.step, ConnectionStep::StartOk);
    match &c.frame_queue[1] {
        Frame::Method(0, Method::ConnectionStartOk { client_properties, mechanism, response, locale }) => {
            assert_eq!(mechanism, "PLAIN");
            assert_eq!(response, "\0guest\0guest");
            assert_eq!(locale, "en_US");
            let entries = client_properties.inner();
            assert_eq!(entries.get("product"), Some(&AMQPValue::LongString("lapin".into())));
            assert_eq!(entries.get("version"), Some(&AMQPValue::LongString("0.1.0".into())));
            assert_eq!(entries.get("platform"), Some(&AMQPValue::LongString("rust".into())));
            match entries.get("capabilities") {
                Some(AMQPValue::FieldTable(caps)) => {
                    assert_eq!(caps.inner().len(), 9);
                    for key in [
                        "publisher_confirms",
                        "exchange_exchange_bindings",
                        "basic.nack",
                        "consumer_cancel_notify",
                        "connection.blocked",
                        "consumer_priorities",
                        "authentication_failure_close",
                        "per_consumer_qos",
                        "direct_reply_to",
                    ] {
                        assert_eq!(caps.inner().get(key), Some(&AMQPValue::Boolean(true)));
                    }
                }
                other => panic!("no capabilities: {:?}", other),
            }
            assert_eq!(entries.len(), 4);
        }
        other => panic!("unexpected frame {:?}", other),
    }
    c.on_connection_tune_received(100, 4096, 30).unwrap();
    assert_eq!(c.configuration, Configuration::new(100, 4096, 30));
    assert_eq!(
        c.frame_queue[2],
        Frame::Method(0, Method::ConnectionTuneOk { channel_max: 100, frame_max: 4096, heartbeat: 30 })
    );
    assert_eq!(c.frame_queue[3], Frame::Method(0, Method::ConnectionOpen { virtual_host: "/".to_string() }));
    assert_eq!(c.step, ConnectionStep::Open);
    c.on_connection_open_ok_received().unwrap();
    assert_eq!(c.status(), ConnectionState::Connected);
}

#[test]
fn start_keeps_given_product_and_version() {
    let mut given = FieldTable::default();
    given.insert("product".into(), AMQPValue::LongString("mine".into()));
    given.insert("version".into(), AMQPValue::LongString("9".into()));
    let mut c = Connection::new(
        Configuration::new(0, 0, 0),
        "/".to_string(),
        "u".to_string(),
        "secret".to_string(),
        SASLMechanism::RabbitCrDemo,
        "en_US".to_string(),
        given,
    );
    c.connect().unwrap();
    let check = c.on_connection_start_received("PLAIN", "fr_FR").unwrap();
    assert_eq!(check, StartCheck { mechanism_supported: false, locale_supported: false });
    match &c.frame_queue[1] {
        Frame::Method(0, Method::ConnectionStartOk { client_properties, mechanism, response, .. }) => {
            assert_eq!(mechanism, "RABBIT-CR-DEMO");
            assert_eq!(response, "u");
            assert_eq!(client_properties.inner().get("product"), Some(&AMQPValue::LongString("mine".into())));
            assert_eq!(client_properties.inner().get("version"), Some(&AMQPValue::LongString("9".into())));
            assert!(client_properties.contains_key("platform"));
        }
        other => panic!("unexpected frame {:?}", other),
    }
    c.on_connection_secure_received().unwrap();
    assert_eq!(
        c.frame_queue[2],
        Frame::Method(0, Method::ConnectionSecureOk { response: "My password is secret".to_string() })
    );
}

#[test]
fn handshake_method_out_of_turn_fails_connection() {
    let mut c = fresh(0);
    assert_eq!(
        c.on_connection_tune_received(1, 1, 1),
        Err(Error::InvalidConnectionState(ConnectionState::Initial))
    );
    assert_eq!(c.status(), ConnectionState::Error);
    assert_eq!(c.channels[0].state, ChannelState::Error);
    assert_eq!(c.connect(), Err(Error::InvalidConnectionState(ConnectionState::Error)));
}

#[test]
fn declare_publish_get_round_trip() {
    let (mut c, id) = with_channel(4096);
    let req = c
        .queue_declare(id, 0, "hello".to_string(), false, false, false, false, false, FieldTable::default())
        .unwrap();
    assert_eq!(c.channels[1].awaiting, vec![Answer::AwaitingQueueDeclareOk(req)]);
    let tag = c
        .basic_publish(id, 0, String::new(), "hello".to_string(), false, false, &b"hi".to_vec(), BasicProperties::default())
        .unwrap();
    assert_eq!(tag, None);
    assert_eq!(c.frame_queue.len(), 4);
    assert_eq!(c.frame_queue[2], Frame::Header(id, 60, 2, BasicProperties::default()));
    assert_eq!(c.frame_queue[3], Frame::Body(id, b"hi".to_vec()));
    assert_eq!(
        c.receive_method(id, Method::QueueDeclareOk { queue: "hello".to_string(), message_count: 0, consumer_count: 0 }),
        Ok(None)
    );
    assert_eq!(c.finished_reqs, vec![0, req]);
    assert_eq!(c.channels[1].queues.len(), 1);
    assert_eq!(c.channels[1].queues[0].name, "hello");
    assert_eq!(c.channels[1].queues[0].message_count, 0);

    let get = c.basic_get(id, 0, "hello".to_string(), true).unwrap();
    assert_eq!(
        c.receive_method(
            id,
            Method::BasicGetOk {
                delivery_tag: 1,
                redelivered: false,
                exchange: String::new(),
                routing_key: "hello".to_string(),
                message_count: 0,
            }
        ),
        Ok(None)
    );
    assert_eq!(c.finished_get_reqs, vec![(get, true)]);
    assert_eq!(
        c.channels[1].state,
        ChannelState::WillReceiveContent(Some("hello".to_string()), None, false)
    );
    assert_eq!(c.handle_content_header_frame(id, 60, 2, BasicProperties::default()), Ok(()));
    assert_eq!(
        c.channels[1].state,
        ChannelState::ReceivingContent(Some("hello".to_string()), None, 2, false)
    );
    assert_eq!(c.handle_body_frame(id, b"hi".to_vec()), Ok(()));
    assert_eq!(c.channels[1].state, ChannelState::Connected);
    let got = &c.channels[1].queues[0].get_messages;
    assert_eq!(got.len(), 1);
    assert_eq!(got[0].data, b"hi".to_vec());
    assert_eq!(got[0].delivery_tag, 1);
    assert_eq!(got[0].properties, Some(BasicProperties::default()));
    assert!(c.channels[1].queues[0].current_get_message.is_none());
}

#[test]
fn basic_get_empty_resolves_with_no_message() {
    let (mut c, id) = with_channel(4096);
    let get = c.basic_get(id, 0, "q".to_string(), true).unwrap();
    assert_eq!(c.receive_method(id, Method::BasicGetEmpty), Ok(None));
    assert_eq!(c.finished_get_reqs, vec![(get, false)]);
    assert_eq!(c.channels[1].state, ChannelState::Connected);
}

#[test]
fn confirms_resolve_in_order() {
    let (mut c, id) = with_channel(4096);
    c.confirm_select(id, false).unwrap();
    assert_eq!(c.receive_method(id, Method::ConfirmSelectOk), Ok(None));
    assert!(c.channels[1].confirm);
    for expected in 1..=3u64 {
        let tag = c
            .basic_publish(id, 0, String::new(), "q".to_string(), false, false, &vec![1u8], BasicProperties::default())
            .unwrap();
        assert_eq!(tag, Some(expected));
    }
    assert_eq!(c.channels[1].acknowledgements.pending, vec![1, 2, 3]);
    assert_eq!(c.receive_method(id, Method::BasicAck { delivery_tag: 2, multiple: true }), Ok(None));
    assert_eq!(c.channels[1].acknowledgements.pending, vec![3]);
    assert_eq!(c.receive_method(id, Method::BasicAck { delivery_tag: 3, multiple: false }), Ok(None));
    assert!(c.channels[1].acknowledgements.pending.is_empty());
    assert_eq!(
        c.channels[1].acknowledgements.drain_resolved(),
        vec![
            Resolution { delivery_tag: 1, confirmation: Confirmation::Ack },
            Resolution { delivery_tag: 2, confirmation: Confirmation::Ack },
            Resolution { delivery_tag: 3, confirmation: Confirmation::Ack },
        ]
    );
    assert_eq!(c.channels[1].wait_for_confirms(), Some(vec![]));
}

#[test]
fn consumer_with_server_assigned_tag_yields_delivery() {
    let (mut c, id) = with_channel(4096);
    c.queue_declare(id, 0, "q".to_string(), false, false, false, false, false, FieldTable::default()).unwrap();
    c.receive_method(id, Method::QueueDeclareOk { queue: "q".to_string(), message_count: 0, consumer_count: 0 })
        .unwrap();
    c.basic_consume(id, 0, "q".to_string(), String::new(), false, true, false, false, FieldTable::default())
        .unwrap();
    assert_eq!(c.receive_method(id, Method::BasicConsumeOk { consumer_tag: "ctag-1".to_string() }), Ok(None));
    assert_eq!(c.channels[1].queues[0].consumers.len(), 1);
    assert_eq!(c.channels[1].queues[0].consumers[0].tag, "ctag-1");
    assert!(c.channels[1].queues[0].consumers[0].no_ack);
    assert_eq!(
        c.receive_method(
            id,
            Method::BasicDeliver {
                consumer_tag: "ctag-1".to_string(),
                delivery_tag: 7,
                redelivered: false,
                exchange: String::new(),
                routing_key: "q".to_string(),
            }
        ),
        Ok(None)
    );
    assert_eq!(
        c.channels[1].state,
        ChannelState::WillReceiveContent(Some("q".to_string()), Some("ctag-1".to_string()), false)
    );
    assert_eq!(c.handle_content_header_frame(id, 60, 5, BasicProperties::default()), Ok(()));
    assert_eq!(c.handle_body_frame(id, b"hel".to_vec()), Ok(()));
    assert_eq!(
        c.channels[1].state,
        ChannelState::ReceivingContent(Some("q".to_string()), Some("ctag-1".to_string()), 2, false)
    );
    assert_eq!(c.channels[1].queues[0].consumers[0].next_delivery(), ConsumerPoll::Pending);
    assert_eq!(c.handle_body_frame(id, b"lo".to_vec()), Ok(()));
    assert_eq!(c.channels[1].state, ChannelState::Connected);
    match c.channels[1].queues[0].consumers[0].next_delivery() {
        ConsumerPoll::Delivery(d) => {
            assert_eq!(d.data, b"hello".to_vec());
            assert_eq!(d.delivery_tag, 7);
            assert_eq!(d.routing_key, "q");
        }
        other => panic!("no delivery: {:?}", other),
    }
    assert_eq!(c.channels[1].queues[0].consumers[0].next_delivery(), ConsumerPoll::Pending);
}

#[test]
fn unexpected_reply_fails_channel() {
    let (mut c, id) = with_channel(4096);
    c.queue_declare(id, 0, "q".to_string(), false, false, false, false, false, FieldTable::default()).unwrap();
    assert_eq!(c.receive_method(id, Method::QueueBindOk), Err(Error::UnexpectedAnswer));
    assert_eq!(c.channels[1].state, ChannelState::Error);
    assert!(c.channels[1].awaiting.is_empty());
    assert_eq!(c.channels[1].acknowledgements.channel_error, Some(Error::UnexpectedAnswer));
    assert_eq!(
        c.queue_purge(id, 0, "q".to_string(), false),
        Err(Error::InvalidChannelState(ChannelState::Error))
    );
}

#[test]
fn server_close_fails_everything() {
    let (mut c, id) = with_channel(4096);
    c.confirm_select(id, false).unwrap();
    c.receive_method(id, Method::ConfirmSelectOk).unwrap();
    c.basic_publish(id, 0, String::new(), "q".to_string(), false, false, &vec![1u8], BasicProperties::default())
        .unwrap();
    c.queue_purge(id, 0, "q".to_string(), false).unwrap();
    assert_eq!(
        c.receive_method(
            0,
            Method::ConnectionClose { reply_code: 530, reply_text: "NOT_ALLOWED".to_string(), class_id: 0, method_id: 0 }
        ),
        Ok(None)
    );
    assert_eq!(c.frame_queue, vec![Frame::Method(0, Method::ConnectionCloseOk)]);
    assert_eq!(c.status(), ConnectionState::Closed);
    let error = Error::ProtocolError(AMQPError { code: 530, message: "NOT_ALLOWED".to_string() });
    assert!(c.channels[1].awaiting.is_empty());
    assert_eq!(c.channels[1].acknowledgements.channel_error, Some(error.clone()));
    assert_eq!(
        c.channels[1].acknowledgements.resolved,
        vec![Resolution { delivery_tag: 1, confirmation: Confirmation::ChannelError }]
    );
    assert_eq!(c.channels[1].state, ChannelState::Error);
    assert_eq!(
        c.queue_purge(id, 0, "q".to_string(), false),
        Err(Error::InvalidConnectionState(ConnectionState::Closed))
    );
    assert_eq!(c.create_channel(), Err(Error::InvalidConnectionState(ConnectionState::Closed)));
    assert_eq!(
        c.close(200, "bye".to_string()),
        Err(Error::InvalidConnectionState(ConnectionState::Closed))
    );
}

#[test]
fn server_close_with_unknown_code_closes_channels() {
    let (mut c, _id) = with_channel(4096);
    c.receive_method(
        0,
        Method::ConnectionClose { reply_code: 200, reply_text: "ok".to_string(), class_id: 0, method_id: 0 },
    )
    .unwrap();
    assert_eq!(c.channels[1].state, ChannelState::Closed);
    assert_eq!(
        c.channels[1].acknowledgements.channel_error,
        Some(Error::InvalidConnectionState(ConnectionState::Closed))
    );
}

#[test]
fn large_publish_is_chunked() {
    let (mut c, id) = with_channel(4096);
    c.configuration = Configuration::new(10, 4096, 0);
    let payload = vec![7u8; 32768];
    c.basic_publish(id, 0, "x".to_string(), "k".to_string(), true, false, &payload, BasicProperties::default())
        .unwrap();
    assert_eq!(
        c.frame_queue[0],
        Frame::Method(
            id,
            Method::BasicPublish {
                ticket: 0,
                exchange: "x".to_string(),
                routing_key: "k".to_string(),
                mandatory: true,
                immediate: false
            }
        )
    );
    assert_eq!(c.frame_queue[1], Frame::Header(id, 60, 32768, BasicProperties::default()));
    assert_eq!(c.frame_queue.len(), 2 + 9);
    let mut total = 0usize;
    for (k, frame) in c.frame_queue[2..].iter().enumerate() {
        match frame {
            Frame::Body(channel, bytes) => {
                assert_eq!(*channel, id);
                assert!(bytes.len() <= 4088);
                if k < 8 {
                    assert_eq!(bytes.len(), 4088);
                } else {
                    assert_eq!(bytes.len(), 32768 - 8 * 4088);
                }
                total += bytes.len();
            }
            other => panic!("not a body frame: {:?}", other),
        }
    }
    assert_eq!(total, 32768);
}

#[test]
fn connection_method_on_other_channel_is_command_invalid() {
    let (mut c, id) = with_channel(4096);
    let r = c.receive_method(id, Method::ConnectionOpenOk);
    match r {
        Err(Error::ProtocolError(e)) => assert_eq!(e.code, 503),
        other => panic!("unexpected {:?}", other),
    }
    assert_eq!(c.status(), ConnectionState::Closing);
    match &c.frame_queue[0] {
        Frame::Method(0, Method::ConnectionClose { reply_code, class_id, method_id, .. }) => {
            assert_eq!(*reply_code, 503);
            assert_eq!(*class_id, 10);
            assert_eq!(*method_id, 41);
        }
        other => panic!("unexpected frame {:?}", other),
    }
}

#[test]
fn method_a_client_never_receives_is_refused() {
    let (mut c, id) = with_channel(4096);
    assert_eq!(c.receive_method(id, Method::BasicGet { ticket: 0, queue: "q".to_string(), no_ack: true }), Err(Error::InvalidState));
    assert_eq!(c.channels[1].state, ChannelState::Connected);
}
