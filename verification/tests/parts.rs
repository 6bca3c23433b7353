use amq_protocol::protocol::BasicProperties;
use amq_protocol::types::FieldTable;
use lapin::acknowledgement::{Acknowledgements, Confirmation, Resolution, Selection};
use lapin::api::{Answer, Phase};
use lapin::channel::{Channel, ExchangeKind};
use lapin::configuration::Configuration;
use lapin::connection::{mechanism_name, Connection};
use lapin::consumer::{Consumer, ConsumerPoll};
use lapin::error::{AMQPError, ChannelState, ConnectionState, Error};
use lapin::frames::{body_frames, content_frames, Frame, Method};
use lapin::id_sequence::IdSequence;
use lapin::message::{BasicReturnMessage, ContentPart, Delivery};
use lapin::protocol::SASLMechanism;
use lapin::queue::{Binding, Queue};
use lapin::returned_messages::ReturnedMessages;
use lapin::stream::{HandshakeOutcome, MidHandshake, TcpStream};
use lapin::words::list_has_word;

fn ready() -> (Connection, u16) {
    let mut c = Connection::new(
        Configuration::new(0, 0, 0),
        "/".to_string(),
        "guest".to_string(),
        "guest".to_string(),
        SASLMechanism::AMQPlain,
        "en_US".to_string(),
        FieldTable::default(),
    );
    c.connect().unwrap();
    c.on_connection_start_received("AMQPLAIN", "en_US").unwrap();
    c.on_connection_tune_received(3, 4096, 60).unwrap();
    c.on_connection_open_ok_received().unwrap();
    let id = c.create_channel().unwrap();
    c.channel_open(id, String::new()).unwrap();
    c.receive_channel_open_ok(id).unwrap();
    c.frame_queue.clear();
    (c, id)
}

#[test]
fn amqplain_response_is_the_encoded_login_table() {
    let mut c = Connection::new(
        Configuration::new(0, 0, 0),
        "/".to_string(),
        "guest".to_string(),
        "guest".to_string(),
        SASLMechanism::AMQPlain,
        "en_US".to_string(),
        FieldTable::default(),
    );
    c.connect().unwrap();
    c.on_connection_start_received("AMQPLAIN", "en_US").unwrap();
    match &c.frame_queue[1] {
        Frame::Method(0, Method::ConnectionStartOk { response, mechanism, .. }) => {
            assert_eq!(mechanism, "AMQPLAIN");
            assert_eq!(
                response,
                "\u{5}LOGINS\u{0}\u{0}\u{0}\u{5}guest\u{8}PASSWORDS\u{0}\u{0}\u{0}\u{5}guest"
            );
        }
        other => panic!("unexpected frame {:?}", other),
    }
}

#[test]
fn mechanism_names() {
    assert_eq!(mechanism_name(SASLMechanism::AMQPlain), "AMQPLAIN");
    assert_eq!(mechanism_name(SASLMechanism::External), "EXTERNAL");
    assert_eq!(mechanism_name(SASLMechanism::Plain), "PLAIN");
    assert_eq!(mechanism_name(SASLMechanism::RabbitCrDemo), "RABBIT-CR-DEMO");
}

#[test]
fn tune_takes_peer_value_when_ours_is_zero() {
    let mut c = Configuration::new(0, 0, 0);
    c.tune_connection_configuration(2047, 131072, 60);
    assert_eq!(c, Configuration::new(2047, 131072, 60));
}

#[test]
fn tune_takes_the_lower_value() {
    let mut c = Configuration::new(10, 8192, 30);
    c.tune_connection_configuration(2047, 4096, 60);
    assert_eq!(c, Configuration::new(10, 4096, 30));
    let mut c = Configuration::new(10, 8192, 30);
    c.tune_connection_configuration(5, 131072, 10);
    assert_eq!(c, Configuration::new(5, 8192, 10));
}

#[test]
fn tune_saturates_limits_that_stay_zero() {
    let mut c = Configuration::new(0, 0, 0);
    c.tune_connection_configuration(0, 0, 0);
    assert_eq!(c, Configuration::new(u16::MAX, u32::MAX, 0));
    let mut c = Configuration::new(7, 9000, 5);
    c.tune_connection_configuration(0, 0, 0);
    assert_eq!(c, Configuration::new(7, 9000, 5));
    assert_eq!(c.channel_max(), 7);
    assert_eq!(c.frame_max(), 9000);
    assert_eq!(c.heartbeat(), 5);
}

#[test]
fn id_sequence_skips_zero_when_asked() {
    let mut s = IdSequence::new(false);
    assert_eq!(s.peek(), 1);
    assert_eq!(s.next(), 1);
    assert_eq!(s.next(), 2);
    let mut z = IdSequence::new(true);
    assert_eq!(z.next(), 0);
    assert_eq!(z.next(), 1);
}

#[test]
fn id_sequence_starts_again_after_the_largest() {
    let mut s = IdSequence { allow_zero: false, id: u64::MAX };
    assert_eq!(s.next(), u64::MAX);
    assert_eq!(s.next(), 1);
    let mut z = IdSequence { allow_zero: true, id: u64::MAX };
    assert_eq!(z.next(), u64::MAX);
    assert_eq!(z.next(), 0);
}

#[test]
fn words_of_a_list() {
    assert!(list_has_word(b"PLAIN AMQPLAIN", b"PLAIN"));
    assert!(list_has_word(b"PLAIN AMQPLAIN", b"AMQPLAIN"));
    assert!(list_has_word(b"AMQPLAIN  PLAIN ", b"PLAIN"));
    assert!(!list_has_word(b"AMQPLAIN", b"PLAIN"));
    assert!(!list_has_word(b"PLAINER", b"PLAIN"));
    assert!(!list_has_word(b"PLAIN", b""));
    assert!(!list_has_word(b"", b"PLAIN"));
    assert!(!list_has_word(b"A B", b"A B"));
    assert!(list_has_word(b"en_US", b"en_US"));
}

#[test]
fn body_frames_of_empty_payload() {
    assert!(body_frames(1, &vec![], 4096).is_empty());
    let frames = content_frames(
        2,
        Method::BasicPublish {
            ticket: 0,
            exchange: String::new(),
            routing_key: "k".to_string(),
            mandatory: false,
            immediate: false,
        },
        60,
        &vec![],
        BasicProperties::default(),
        4096,
    );
    assert_eq!(frames.len(), 2);
    assert_eq!(frames[1], Frame::Header(2, 60, 0, BasicProperties::default()));
}

#[test]
fn body_frames_cut_at_frame_max_minus_eight() {
    let payload: Vec<u8> = (0..25u8).collect();
    let frames = body_frames(3, &payload, 18);
    assert_eq!(
        frames,
        vec![
            Frame::Body(3, (0..10u8).collect()),
            Frame::Body(3, (10..20u8).collect()),
            Frame::Body(3, (20..25u8).collect()),
        ]
    );
    let exact = body_frames(3, &payload[..20].to_vec(), 18);
    assert_eq!(exact.len(), 2);
    let smallest = body_frames(3, &payload[..3].to_vec(), 9);
    assert_eq!(
        smallest,
        vec![Frame::Body(3, vec![0]), Frame::Body(3, vec![1]), Frame::Body(3, vec![2])]
    );
}

#[test]
fn cumulative_ack_settles_all_up_to_the_tag() {
    let mut a = Acknowledgements::new();
    for t in [1u64, 2, 3, 5, 8] {
        a.register_pending(t);
    }
    a.register_pending(3);
    assert_eq!(a.pending, vec![1, 2, 3, 5, 8]);
    assert_eq!(a.get_last_pending(), Some(8));
    a.ack_all_before(4);
    assert_eq!(a.pending, vec![5, 8]);
    assert_eq!(
        a.resolved,
        vec![
            Resolution { delivery_tag: 1, confirmation: Confirmation::Ack },
            Resolution { delivery_tag: 2, confirmation: Confirmation::Ack },
            Resolution { delivery_tag: 3, confirmation: Confirmation::Ack },
        ]
    );
    a.nack_all_before(5);
    assert_eq!(a.pending, vec![8]);
    assert_eq!(a.resolved[3], Resolution { delivery_tag: 5, confirmation: Confirmation::Nack });
    a.register_pending(9);
    a.nack_all_pending();
    assert!(a.pending.is_empty());
    assert_eq!(a.resolved.len(), 6);
    assert_eq!(a.get_last_pending(), None);
    assert_eq!(a.resolve(Selection::All, Confirmation::Ack), 0);
}

#[test]
fn single_ack_of_unknown_tag_is_precondition_failed() {
    let mut a = Acknowledgements::new();
    a.register_pending(1);
    assert_eq!(a.ack(1), Ok(()));
    let e = a.ack(1).unwrap_err();
    assert_eq!(e.get_id(), 406);
    let e = a.nack(0).unwrap_err();
    assert_eq!(e.code, 406);
    a.register_pending(2);
    assert_eq!(a.nack(2), Ok(()));
    assert!(!a.is_pending(2));
    assert_eq!(
        a.resolved,
        vec![
            Resolution { delivery_tag: 1, confirmation: Confirmation::Ack },
            Resolution { delivery_tag: 2, confirmation: Confirmation::Nack },
        ]
    );
}

#[test]
fn ack_all_with_tag_zero_settles_everything() {
    let (mut c, id) = ready();
    c.confirm_select(id, false).unwrap();
    c.receive_confirm_select_ok(id).unwrap();
    for _ in 0..3 {
        c.basic_publish(id, 0, String::new(), "q".to_string(), false, false, &vec![], BasicProperties::default())
            .unwrap();
    }
    assert_eq!(c.receive_basic_nack(id, 0, true), Ok(()));
    assert!(c.channels[1].acknowledgements.pending.is_empty());
    assert_eq!(c.channels[1].acknowledgements.resolved.len(), 3);
    assert_eq!(c.channels[1].acknowledgements.resolved[2].confirmation, Confirmation::Nack);
}

#[test]
fn bad_ack_asks_to_close_the_channel() {
    let (mut c, id) = ready();
    c.confirm_select(id, false).unwrap();
    c.receive_confirm_select_ok(id).unwrap();
    c.frame_queue.clear();
    let r = c.receive_basic_ack(id, 42, false);
    match r {
        Err(Error::ProtocolError(e)) => assert_eq!(e.code, 406),
        other => panic!("unexpected {:?}", other),
    }
    assert_eq!(c.channels[1].state, ChannelState::Closing);
    match &c.frame_queue[0] {
        Frame::Method(channel, Method::ChannelClose { reply_code, class_id, method_id, .. }) => {
            assert_eq!(*channel, id);
            assert_eq!(*reply_code, 406);
            assert_eq!(*class_id, 60);
            assert_eq!(*method_id, 80);
        }
        other => panic!("unexpected frame {:?}", other),
    }
    assert_eq!(c.channels[1].awaiting.len(), 1);
    assert_eq!(c.receive_channel_close_ok(id), Ok(()));
    assert_eq!(c.channels[1].state, ChannelState::Closed);
}

#[test]
fn acks_outside_confirm_mode_change_nothing() {
    let (mut c, id) = ready();
    assert_eq!(c.receive_basic_ack(id, 42, false), Ok(()));
    assert!(c.channels[1].acknowledgements.resolved.is_empty());
    assert_eq!(c.channels[1].state, ChannelState::Connected);
}

#[test]
fn closing_a_channel_fails_pending_confirms() {
    let (mut c, id) = ready();
    c.confirm_select(id, false).unwrap();
    c.receive_confirm_select_ok(id).unwrap();
    c.basic_publish(id, 0, String::new(), "q".to_string(), false, false, &vec![], BasicProperties::default())
        .unwrap();
    c.basic_publish(id, 0, String::new(), "q".to_string(), false, false, &vec![], BasicProperties::default())
        .unwrap();
    assert_eq!(c.channels[1].wait_for_confirms(), None);
    assert_eq!(c.receive_channel_close(id, 404, "NOT_FOUND".to_string()), Ok(()));
    assert_eq!(c.frame_queue.last(), Some(&Frame::Method(id, Method::ChannelCloseOk)));
    assert_eq!(c.channels[1].state, ChannelState::Closed);
    assert!(c.channels[1].acknowledgements.pending.is_empty());
    assert_eq!(
        c.channels[1].acknowledgements.resolved,
        vec![
            Resolution { delivery_tag: 1, confirmation: Confirmation::ChannelError },
            Resolution { delivery_tag: 2, confirmation: Confirmation::ChannelError },
        ]
    );
    assert_eq!(
        c.channels[1].acknowledgements.channel_error,
        Some(Error::ProtocolError(AMQPError { code: 404, message: "NOT_FOUND".to_string() }))
    );
}

#[test]
fn channel_close_with_unknown_code() {
    let (mut c, id) = ready();
    c.receive_channel_close(id, 200, "ok".to_string()).unwrap();
    assert_eq!(
        c.channels[1].acknowledgements.channel_error,
        Some(Error::InvalidChannelState(ChannelState::Closing))
    );
}

#[test]
fn replies_are_matched_in_the_order_of_the_requests() {
    let (mut c, id) = ready();
    let a = c.queue_purge(id, 0, "q".to_string(), false).unwrap();
    let b = c.basic_qos(id, 0, 10, false).unwrap();
    let d = c.basic_recover(id, true).unwrap();
    assert_eq!(
        c.channels[1].awaiting,
        vec![
            Answer::AwaitingQueuePurgeOk(a, "q".to_string()),
            Answer::AwaitingBasicQosOk(b, 0, 10, false),
            Answer::AwaitingBasicRecoverOk(d),
        ]
    );
    assert_eq!(c.receive_queue_purge_ok(id), Ok(()));
    assert_eq!(c.receive_basic_qos_ok(id), Ok(()));
    assert_eq!(c.channels[1].prefetch_count, 10);
    assert_eq!(c.prefetch_count, 0);
    assert_eq!(c.channels[1].awaiting, vec![Answer::AwaitingBasicRecoverOk(d)]);
    assert_eq!(c.receive_basic_qos_ok(id), Err(Error::UnexpectedAnswer));
    assert_eq!(c.channels[1].state, ChannelState::Error);
    assert_eq!(c.finished_reqs, vec![0, a, b]);
}

#[test]
fn global_qos_sets_the_connection_limits() {
    let (mut c, id) = ready();
    c.basic_qos(id, 5, 6, true).unwrap();
    c.receive_basic_qos_ok(id).unwrap();
    assert_eq!((c.prefetch_size, c.prefetch_count), (5, 6));
    assert_eq!((c.channels[1].prefetch_size, c.channels[1].prefetch_count), (0, 0));
}

#[test]
fn reply_without_request_fails_channel() {
    let (mut c, id) = ready();
    assert_eq!(c.receive_queue_purge_ok(id), Err(Error::UnexpectedAnswer));
    assert_eq!(c.channels[1].state, ChannelState::Error);
}

#[test]
fn unknown_channel_is_refused() {
    let (mut c, _) = ready();
    assert_eq!(c.queue_purge(9, 0, "q".to_string(), false), Err(Error::InvalidChannel));
    assert_eq!(c.receive_queue_purge_ok(9), Err(Error::InvalidChannel));
    assert_eq!(c.handle_body_frame(9, vec![1]), Err(Error::InvalidChannel));
    assert_eq!(c.basic_ack(9, 1, false), Err(Error::InvalidChannel));
}

#[test]
fn channel_open_on_open_channel_is_refused() {
    let (mut c, id) = ready();
    assert_eq!(
        c.channel_open(id, String::new()),
        Err(Error::InvalidChannelState(ChannelState::Connected))
    );
    assert_eq!(c.channels[1].state, ChannelState::Connected);
    assert!(c.frame_queue.is_empty());
}

#[test]
fn removed_channel_frees_its_id() {
    let (mut c, id) = ready();
    c.receive_channel_close(id, 404, "NOT_FOUND".to_string()).unwrap();
    let gone = c.remove_channel(id).unwrap();
    assert_eq!(gone.id(), id);
    assert_eq!(gone.state, ChannelState::Closed);
    assert!(c.remove_channel(id).is_none());
    assert_eq!(c.create_channel(), Ok(id));
}

#[test]
fn channels_get_the_lowest_free_id() {
    let (mut c, id) = ready();
    assert_eq!(id, 1);
    assert_eq!(c.create_channel(), Ok(2));
    assert_eq!(c.create_channel(), Ok(3));
    assert_eq!(c.create_channel(), Err(Error::ChannelsLimitReached));
    c.channels.remove(2);
    assert_eq!(c.create_channel(), Ok(2));
}

#[test]
fn no_method_is_taken_while_a_content_is_received() {
    let (mut c, id) = ready();
    c.receive_basic_amqp_return(id, 312, "NO_ROUTE".to_string(), "x".to_string(), "k".to_string()).unwrap();
    let state = ChannelState::WillReceiveContent(None, None, false);
    assert_eq!(c.channels[1].state, state);
    assert_eq!(
        c.queue_purge(id, 0, "q".to_string(), false),
        Err(Error::InvalidChannelState(state.clone()))
    );
    assert_eq!(
        c.receive_basic_deliver(id, "t".to_string(), 1, false, String::new(), String::new()),
        Err(Error::InvalidChannelState(state.clone()))
    );
    assert_eq!(c.receive_queue_purge_ok(id), Err(Error::InvalidChannelState(state.clone())));
    assert_eq!(c.channels[1].state, state);
    assert!(Phase::Alive.allows(&state));
    assert!(!Phase::Ready.allows(&state));
    c.handle_content_header_frame(id, 60, 3, BasicProperties::default()).unwrap();
    let receiving = ChannelState::ReceivingContent(None, None, 3, false);
    assert_eq!(
        c.basic_get(id, 0, "q".to_string(), false),
        Err(Error::InvalidChannelState(receiving))
    );
    c.handle_body_frame(id, vec![1, 2, 3]).unwrap();
    assert_eq!(c.channels[1].state, ChannelState::Connected);
    let returned = c.channels[1].wait_for_confirms().unwrap();
    assert_eq!(returned.len(), 1);
    assert_eq!(returned[0].reply_code, 312);
    assert_eq!(returned[0].reply_text, "NO_ROUTE");
    assert_eq!(returned[0].delivery.data, vec![1, 2, 3]);
    assert_eq!(returned[0].delivery.exchange, "x");
    assert_eq!(c.channels[1].wait_for_confirms(), Some(vec![]));
}

#[test]
fn body_frame_larger_than_awaited_is_a_frame_error() {
    let (mut c, id) = ready();
    c.receive_basic_amqp_return(id, 312, "NO_ROUTE".to_string(), String::new(), String::new()).unwrap();
    c.handle_content_header_frame(id, 60, 2, BasicProperties::default()).unwrap();
    match c.handle_body_frame(id, vec![1, 2, 3]) {
        Err(Error::ProtocolError(e)) => assert_eq!(e.code, 501),
        other => panic!("unexpected {:?}", other),
    }
    assert_eq!(c.status(), ConnectionState::Closing);
    match c.frame_queue.last() {
        Some(Frame::Method(0, Method::ConnectionClose { reply_code, .. })) => assert_eq!(*reply_code, 501),
        other => panic!("unexpected frame {:?}", other),
    }
}

#[test]
fn body_frame_that_is_not_awaited_is_a_frame_error() {
    let mut ch = Channel::new(4);
    ch.set_state(ChannelState::Connected);
    match ch.handle_body_frame(vec![1]) {
        Err(Error::ProtocolError(e)) => assert_eq!(e.code, 501),
        other => panic!("unexpected {:?}", other),
    }
    assert_eq!(ch.state, ChannelState::Connected);
}

#[test]
fn header_that_is_not_awaited_is_an_unexpected_frame() {
    let mut ch = Channel::new(4);
    ch.set_state(ChannelState::Connected);
    match ch.handle_content_header_frame(60, 1, BasicProperties::default()) {
        Err(Error::ProtocolError(e)) => assert_eq!(e.code, 505),
        other => panic!("unexpected {:?}", other),
    }
    assert_eq!(*ch.status(), ChannelState::Connected);
}

#[test]
fn header_of_another_class_fails_the_channel() {
    let mut ch = Channel::new(4);
    ch.set_state(ChannelState::Connected);
    ch.on_basic_return_received(312, "NO_ROUTE".to_string(), String::new(), String::new());
    match ch.handle_content_header_frame(50, 1, BasicProperties::default()) {
        Err(Error::ProtocolError(e)) => assert_eq!(e.code, 501),
        other => panic!("unexpected {:?}", other),
    }
    assert_eq!(ch.state, ChannelState::Error);
    assert!(!ch.is_connected());
}

#[test]
fn header_with_empty_body_completes_the_delivery() {
    let mut ch = Channel::new(4);
    ch.set_state(ChannelState::Connected);
    ch.confirm = true;
    ch.on_basic_return_received(313, "NO_CONSUMERS".to_string(), "x".to_string(), "k".to_string());
    assert_eq!(ch.state, ChannelState::WillReceiveContent(None, None, true));
    assert_eq!(ch.handle_content_header_frame(60, 0, BasicProperties::default()), Ok(()));
    assert_eq!(ch.state, ChannelState::Connected);
    assert!(ch.returned_messages.current_message.is_none());
    assert_eq!(ch.returned_messages.waiting_messages.len(), 1);
    assert!(ch.returned_messages.non_confirm_messages.is_empty());
}

#[test]
fn cancelled_consumer_yields_completed_deliveries_then_ends() {
    let (mut c, id) = ready();
    c.queue_declare(id, 0, "q".to_string(), false, false, false, false, false, FieldTable::default()).unwrap();
    c.receive_queue_declare_ok(id, "q".to_string(), 0, 0).unwrap();
    c.basic_consume(id, 0, "q".to_string(), "t".to_string(), false, false, false, false, FieldTable::default())
        .unwrap();
    c.receive_basic_consume_ok(id, "t".to_string()).unwrap();
    for tag in 1..=2u64 {
        c.receive_basic_deliver(id, "t".to_string(), tag, false, String::new(), "q".to_string()).unwrap();
        c.handle_content_header_frame(id, 60, 1, BasicProperties::default()).unwrap();
        c.handle_body_frame(id, vec![tag as u8]).unwrap();
    }
    c.frame_queue.clear();
    let mut consumer = c.receive_basic_cancel(id, "t".to_string(), false).unwrap().unwrap();
    assert_eq!(c.frame_queue, vec![Frame::Method(id, Method::BasicCancelOk { consumer_tag: "t".to_string() })]);
    assert!(c.channels[1].queues[0].consumers.is_empty());
    assert!(consumer.canceled);
    match consumer.next_delivery() {
        ConsumerPoll::Delivery(d) => assert_eq!((d.delivery_tag, d.data), (1, vec![1])),
        other => panic!("unexpected {:?}", other),
    }
    match consumer.next_delivery() {
        ConsumerPoll::Delivery(d) => assert_eq!((d.delivery_tag, d.data), (2, vec![2])),
        other => panic!("unexpected {:?}", other),
    }
    assert_eq!(consumer.next_delivery(), ConsumerPoll::End);
    assert_eq!(consumer.next_delivery(), ConsumerPoll::End);
    assert_eq!(c.receive_basic_cancel(id, "t".to_string(), true), Ok(None));
    assert_eq!(c.frame_queue.len(), 1);
}

#[test]
fn cancel_ok_hands_the_consumer_out() {
    let (mut c, id) = ready();
    c.receive_method(id, Method::BasicConsumeOk { consumer_tag: "x".to_string() }).unwrap_err();
    let (mut c, id) = { let _ = (c, id); ready() };
    c.queue_declare(id, 0, "q".to_string(), false, false, false, false, false, FieldTable::default()).unwrap();
    c.receive_queue_declare_ok(id, "q".to_string(), 3, 1).unwrap();
    c.basic_consume(id, 0, "q".to_string(), "t".to_string(), true, false, true, false, FieldTable::default())
        .unwrap();
    c.receive_basic_consume_ok(id, "t".to_string()).unwrap();
    c.basic_cancel(id, "t".to_string(), false).unwrap();
    let got = c.receive_method(id, Method::BasicCancelOk { consumer_tag: "t".to_string() }).unwrap();
    let consumer = got.unwrap();
    assert_eq!(consumer.tag, "t");
    assert_eq!(consumer.queue, "q");
    assert!(consumer.no_local && consumer.exclusive && consumer.canceled);
    assert!(c.channels[1].queues[0].consumers.is_empty());
}

#[test]
fn failed_channel_fails_consumer_streams() {
    let mut consumer = Consumer::new("t".to_string(), "q".to_string(), false, false, false, false);
    consumer.new_delivery(Delivery::new(1, String::new(), String::new(), false));
    consumer.set_error(Error::UnexpectedAnswer);
    assert!(matches!(consumer.next_delivery(), ConsumerPoll::Delivery(_)));
    assert_eq!(consumer.next_delivery(), ConsumerPoll::Failed(Error::UnexpectedAnswer));
    assert_eq!(consumer.next_delivery(), ConsumerPoll::End);
    consumer.update_consumer_tag("u".to_string());
    assert_eq!(consumer.tag, "u");
}

#[test]
fn recover_drops_prefetched_messages() {
    let (mut c, id) = ready();
    c.receive_method(id, Method::ChannelFlow { active: false }).unwrap();
    assert!(!c.channels[1].send_flow);
    assert_eq!(c.frame_queue, vec![Frame::Method(id, Method::ChannelFlowOk { active: false })]);
    let mut q = Queue::new("q".to_string(), 0, 0);
    let mut consumer = Consumer::new("t".to_string(), "q".to_string(), false, false, false, false);
    consumer.new_delivery(Delivery::new(1, String::new(), String::new(), false));
    q.register_consumer(consumer);
    c.channels[1].register_queue(q);
    c.basic_ack(id, 5, true).unwrap();
    assert_eq!(c.channels[1].queues[0].consumers[0].deliveries.len(), 1);
    c.basic_nack(id, 0, false, true).unwrap();
    assert_eq!(c.channels[1].queues[0].consumers[0].deliveries.len(), 1);
    c.basic_ack(id, 0, true).unwrap();
    assert!(c.channels[1].queues[0].consumers[0].deliveries.is_empty());
    c.channels[1].queues[0].consumers[0].new_delivery(Delivery::new(2, String::new(), String::new(), false));
    c.basic_recover_async(id, true).unwrap();
    assert!(c.channels[1].queues[0].consumers[0].deliveries.is_empty());
    c.channels[1].queues[0].consumers[0].new_delivery(Delivery::new(3, String::new(), String::new(), false));
    c.basic_recover(id, true).unwrap();
    c.receive_basic_recover_ok(id).unwrap();
    assert!(c.channels[1].queues[0].consumers[0].deliveries.is_empty());
    c.basic_reject(id, 3, false).unwrap();
    assert_eq!(c.frame_queue.last(), Some(&Frame::Method(id, Method::BasicReject { delivery_tag: 3, requeue: false })));
}

#[test]
fn bindings_follow_bind_and_unbind() {
    let (mut c, id) = ready();
    c.queue_declare(id, 0, "q".to_string(), false, false, false, false, false, FieldTable::default()).unwrap();
    c.receive_queue_declare_ok(id, "q".to_string(), 0, 0).unwrap();
    c.queue_bind(id, 0, "q".to_string(), "x".to_string(), "k".to_string(), false, FieldTable::default()).unwrap();
    assert_eq!(c.channels[1].queues[0].bindings, vec![Binding::new("x".to_string(), "k".to_string(), false)]);
    c.queue_bind(id, 0, "q".to_string(), "x".to_string(), "other".to_string(), false, FieldTable::default())
        .unwrap();
    c.receive_queue_bind_ok(id).unwrap();
    assert!(c.channels[1].queues[0].bindings[0].active);
    assert!(!c.channels[1].queues[0].bindings[1].active);
    c.receive_queue_bind_ok(id).unwrap();
    assert!(c.channels[1].queues[0].bindings[1].active);
    c.queue_unbind(id, 0, "q".to_string(), "x".to_string(), "k".to_string(), FieldTable::default()).unwrap();
    c.receive_queue_unbind_ok(id).unwrap();
    assert_eq!(c.channels[1].queues[0].bindings.len(), 1);
    assert_eq!(c.channels[1].queues[0].bindings[0].routing_key, "other");
    c.queue_delete(id, 0, "q".to_string(), false, false, false).unwrap();
    c.receive_queue_delete_ok(id).unwrap();
    assert!(c.channels[1].queues.is_empty());
}

#[test]
fn exchange_requests_and_replies() {
    let (mut c, id) = ready();
    let a = c
        .exchange_declare(id, 0, "x".to_string(), "topic".to_string(), false, true, false, false, false, FieldTable::default())
        .unwrap();
    let b = c.exchange_bind(id, 0, "d".to_string(), "s".to_string(), "k".to_string(), false, FieldTable::default()).unwrap();
    let d = c.exchange_unbind(id, 0, "d".to_string(), "s".to_string(), "k".to_string(), false, FieldTable::default()).unwrap();
    let e = c.exchange_delete(id, 0, "x".to_string(), false, false).unwrap();
    assert_eq!(c.frame_queue.len(), 4);
    assert_eq!(c.receive_exchange_declare_ok(id), Ok(()));
    assert_eq!(c.receive_exchange_bind_ok(id), Ok(()));
    assert_eq!(c.receive_exchange_unbind_ok(id), Ok(()));
    assert_eq!(c.receive_exchange_delete_ok(id), Ok(()));
    assert_eq!(c.finished_reqs, vec![0, a, b, d, e]);
    assert_eq!(ExchangeKind::Fanout.kind(), "fanout");
    assert_eq!(ExchangeKind::Custom("mine".to_string()).kind(), "mine");
    let method = c.channels[1]
        .exchange_declare("x".to_string(), ExchangeKind::Direct, false, false, false, false, false, FieldTable::default())
        .unwrap();
    assert!(matches!(method, Method::ExchangeDeclare { ref kind, .. } if kind == "direct"));
}

#[test]
fn channel_flow_and_close() {
    let (mut c, id) = ready();
    c.channel_flow(id, false).unwrap();
    c.receive_channel_flow_ok(id, false).unwrap();
    assert!(!c.channels[1].receive_flow);
    assert!(c.channels[1].send_flow);
    c.channel_flow_ok(id, true).unwrap();
    let req = c.channel_close(id, 200, "bye".to_string(), 0, 0).unwrap();
    assert_eq!(c.channels[1].state, ChannelState::Closing);
    assert_eq!(c.channels[1].awaiting, vec![Answer::AwaitingChannelCloseOk(req)]);
    assert_eq!(
        c.queue_purge(id, 0, "q".to_string(), false),
        Err(Error::InvalidChannelState(ChannelState::Closing))
    );
    c.channel_close_ok(id).unwrap();
    assert_eq!(c.receive_channel_close_ok(id), Ok(()));
    assert_eq!(c.channels[1].state, ChannelState::Closed);
    assert_eq!(
        c.channels[1].acknowledgements.channel_error,
        Some(Error::InvalidChannelState(ChannelState::Closed))
    );
    let mut ch = Channel::global();
    assert_eq!(ch.id(), 0);
    assert_eq!(
        ch.close(200, "bye".to_string()),
        Err(Error::InvalidChannelState(ChannelState::Initial))
    );
    ch.set_state(ChannelState::Connected);
    assert_eq!(
        ch.close(200, "bye".to_string()),
        Ok(Method::ChannelClose { reply_code: 200, reply_text: "bye".to_string(), class_id: 0, method_id: 0 })
    );
    ch.received_method(Method::BasicGetEmpty);
    assert_eq!(ch.frame_queue, vec![Frame::Method(0, Method::BasicGetEmpty)]);
}

#[test]
fn blocked_flag_follows_the_broker() {
    let (mut c, _) = ready();
    c.receive_method(0, Method::ConnectionBlocked { reason: "low memory".to_string() }).unwrap();
    assert!(c.blocked);
    c.receive_method(0, Method::ConnectionUnblocked).unwrap();
    assert!(!c.blocked);
    c.close(200, "bye".to_string()).unwrap();
    assert_eq!(c.status(), ConnectionState::Closing);
    c.receive_method(0, Method::ConnectionCloseOk).unwrap();
    assert_eq!(c.status(), ConnectionState::Closed);
    assert_eq!(c.channels[1].state, ChannelState::Closed);
}

#[test]
fn returned_messages_go_where_the_mode_says() {
    let mut r = ReturnedMessages::new();
    r.start_new_delivery(BasicReturnMessage::new("x".to_string(), "k".to_string(), 312, "NO_ROUTE".to_string()));
    r.receive_part(ContentPart::Properties(BasicProperties::default()), false, false);
    r.receive_part(ContentPart::Body(vec![1, 2]), false, false);
    r.receive_part(ContentPart::Body(vec![3]), true, false);
    assert_eq!(r.non_confirm_messages.len(), 1);
    assert_eq!(r.non_confirm_messages[0].delivery.data, vec![1, 2, 3]);
    r.start_new_delivery(BasicReturnMessage::new("x".to_string(), "k".to_string(), 312, "NO_ROUTE".to_string()));
    r.receive_part(ContentPart::Body(vec![9]), true, true);
    assert_eq!(r.waiting_messages.len(), 1);
    r.receive_part(ContentPart::Body(vec![9]), true, true);
    assert_eq!(r.waiting_messages.len(), 1);
    let all = r.drain();
    assert_eq!(all.len(), 2);
    assert_eq!(all[0].delivery.data, vec![1, 2, 3]);
    assert_eq!(all[1].delivery.data, vec![9]);
    assert!(r.drain().is_empty());
}

struct Stream(u8);

struct Shake(Stream);

impl MidHandshake<Stream> for Shake {
    fn get_ref(&self) -> &Stream {
        &self.0
    }

    fn get_mut(&mut self) -> &mut Stream {
        &mut self.0
    }
}

#[test]
fn stream_handshake_steps() {
    let mut s: TcpStream<Stream, Shake> = TcpStream::handshaking(Shake(Stream(1)));
    assert!(s.is_handshaking());
    assert_eq!(s.inner().0, 1);
    s.inner_mut().0 = 2;
    let h = s.take_handshaker().unwrap();
    assert_eq!(h.0 .0, 2);
    assert!(s.is_handshaking());
    assert!(s.take_handshaker().is_none());
    assert_eq!(s.handshake(HandshakeOutcome::WouldBlock(h)), Ok(()));
    assert!(s.is_handshaking());
    let h = s.take_handshaker().unwrap();
    assert_eq!(s.handshake(HandshakeOutcome::Connected(h.0)), Ok(()));
    assert!(!s.is_handshaking());
    assert_eq!(s.inner().0, 2);
    assert_eq!(s.handshake(HandshakeOutcome::Failed(Error::IOError)), Ok(()));
    assert!(!s.is_handshaking());
    s.inner_mut().0 = 3;
    assert_eq!(s.inner().0, 3);
}

#[test]
fn stream_handshake_failure() {
    let mut s: TcpStream<Stream, Shake> = TcpStream::handshaking(Shake(Stream(1)));
    let _ = s.take_handshaker();
    assert_eq!(s.handshake(HandshakeOutcome::Failed(Error::IOError)), Err(Error::IOError));
    assert!(s.is_handshaking());
    let c: TcpStream<Stream, Shake> = TcpStream::connected(Stream(4));
    assert!(!c.is_handshaking());
}

#[test]
fn refusal_takes_the_returned_message_along() {
    let (mut c, id) = ready();
    c.confirm_select(id, false).unwrap();
    c.receive_confirm_select_ok(id).unwrap();
    for _ in 0..3 {
        c.basic_publish(id, 0, "x".to_string(), "k".to_string(), true, false, &vec![5], BasicProperties::default())
            .unwrap();
    }
    c.receive_basic_amqp_return(id, 312, "NO_ROUTE".to_string(), "x".to_string(), "k".to_string()).unwrap();
    c.handle_content_header_frame(id, 60, 1, BasicProperties::default()).unwrap();
    c.handle_body_frame(id, vec![5]).unwrap();
    assert_eq!(c.channels[1].returned_messages.waiting_messages.len(), 1);
    assert_eq!(c.receive_basic_ack(id, 1, false), Ok(()));
    assert_eq!(c.channels[1].returned_messages.waiting_messages.len(), 1);
    assert_eq!(c.receive_basic_nack(id, 3, true), Ok(()));
    assert!(c.channels[1].returned_messages.waiting_messages.is_empty());
    let refused = c.channels[1].returned_messages.drain_refused();
    assert_eq!(refused.len(), 1);
    assert_eq!(refused[0].delivery_tag, 2);
    assert_eq!(refused[0].message.reply_code, 312);
    assert_eq!(refused[0].message.delivery.data, vec![5]);
    assert!(c.channels[1].returned_messages.drain_refused().is_empty());
    assert_eq!(
        c.channels[1].acknowledgements.resolved,
        vec![
            Resolution { delivery_tag: 1, confirmation: Confirmation::Ack },
            Resolution { delivery_tag: 2, confirmation: Confirmation::Nack },
            Resolution { delivery_tag: 3, confirmation: Confirmation::Nack },
        ]
    );
}
