use crossbeam::queue::SegQueue;
use vendctl::wire::{ACK, NACK, READ, READ_FAIL, WRITE};
use vendctl::{
    encode_server_msg, handle_msg, parse_client_msg, parse_server_msg, ClientMsg, ClientMsgType,
    Inbound, Progress, ProtocolError, Response, ServerMsg, ServerMsgType, Session, Turn,
    WireError, RW, TRIES,
};

const ALL_SERVER: [ServerMsg; 6] = [
    ServerMsg::VendSucceed,
    ServerMsg::VendFailed,
    ServerMsg::MoneyAdded(0),
    ServerMsg::MoneyAdded(42),
    ServerMsg::MoneyAdded(255),
    ServerMsg::Tampering,
];

#[test]
fn server_encoding_bytes() {
    assert_eq!(encode_server_msg(&ServerMsg::VendSucceed), vec![115]);
    assert_eq!(encode_server_msg(&ServerMsg::VendFailed), vec![102]);
    assert_eq!(encode_server_msg(&ServerMsg::MoneyAdded(9)), vec![109, 9]);
    assert_eq!(encode_server_msg(&ServerMsg::Tampering), vec![116]);
}

#[test]
fn server_round_trip_all_variants() {
    for m in ALL_SERVER {
        let b = encode_server_msg(&m);
        assert_eq!(parse_server_msg(&b, b.len()), Ok(Some(m)));
        for k in 0..b.len() {
            assert_eq!(parse_server_msg(&b, k), Ok(None));
        }
    }
}

#[test]
fn server_type_from_msg() {
    assert_eq!(ServerMsgType::from(ServerMsg::MoneyAdded(3)), ServerMsgType::MoneyAdded);
    assert_eq!(ServerMsgType::from(ServerMsg::Tampering).tag(), 116);
    assert_eq!(ServerMsgType::from_u8(102), Some(ServerMsgType::VendFailed));
    assert_eq!(ServerMsgType::MoneyAdded.msg_size(), 2);
    assert_eq!(ServerMsgType::from_u8(1), None);
}

#[test]
fn vend_seven_decodes_and_is_acked() {
    assert_eq!(parse_client_msg(&[118, 7], 2), Ok(Some(ClientMsg::Vend(7))));
    let mut s = Session::new();
    assert_eq!(s.begin_round(None), vec![READ]);
    let got = s.on_bytes(&[118, 7]);
    assert_eq!(got, Ok(Inbound::Message(ClientMsg::Vend(7))));
    let resp = handle_msg(&ClientMsg::Vend(7));
    assert_eq!(resp.byte(), 6);
    assert_eq!(s.reply(resp), Ok(Progress::Done));
    assert_eq!(s.turn(), Turn::Idle);
}

#[test]
fn client_commands_decode() {
    assert_eq!(parse_client_msg(&[119], 1), Ok(Some(ClientMsg::Watchdog)));
    assert_eq!(parse_client_msg(&[115, 0, 0], 1), Ok(Some(ClientMsg::Shutdown)));
    assert_eq!(parse_client_msg(&[99, 1, 2, 3], 4), Ok(Some(ClientMsg::ConfigChannel(1, 2, 3))));
    assert_eq!(parse_client_msg(&[98, 4, 5, 0], 3), Ok(Some(ClientMsg::ConfigBehavior(4, 5))));
    assert_eq!(parse_client_msg(&[99, 1, 2, 3], 3), Ok(None));
    assert_eq!(parse_client_msg(&[7, 1], 2), Err(WireError::BadHeader(7)));
    assert_eq!(parse_client_msg(&[7], 0), Ok(None));
    assert_eq!(ClientMsgType::from_u8(98), Some(ClientMsgType::ConfigBehavior));
    assert_eq!(ClientMsgType::ConfigChannel.msg_size(), 4);
    assert_eq!(ClientMsgType::Vend.tag(), 118);
}

#[test]
fn byte_at_a_time_waits_for_whole_message() {
    let mut s = Session::new();
    s.begin_round(None);
    let bytes = [99u8, 10, 20, 30];
    for b in &bytes[..3] {
        assert_eq!(s.on_bytes(&[*b]), Ok(Inbound::Incomplete));
    }
    assert_eq!(s.on_bytes(&bytes[3..]), Ok(Inbound::Message(ClientMsg::ConfigChannel(10, 20, 30))));
}

#[test]
fn malformed_read_retries_then_fails() {
    let mut s = Session::new();
    s.begin_round(None);
    for _ in 0..(TRIES - 1) {
        assert_eq!(s.on_bytes(&[1]), Ok(Inbound::Malformed));
        assert_eq!(s.reply(Response::ReadFail), Ok(Progress::ReadAgain));
    }
    assert_eq!(s.on_bytes(&[1]), Ok(Inbound::Malformed));
    assert_eq!(s.reply(Response::ReadFail), Err(ProtocolError::ReadRetriesExhausted));
    assert_eq!(s.turn(), Turn::Idle);
}

#[test]
fn read_recovers_after_malformed() {
    let mut s = Session::new();
    s.begin_round(None);
    assert_eq!(s.on_bytes(&[200, 1]), Ok(Inbound::Malformed));
    assert_eq!(s.reply(Response::ReadFail), Ok(Progress::ReadAgain));
    assert_eq!(s.on_bytes(&[118]), Ok(Inbound::Incomplete));
    assert_eq!(s.on_bytes(&[3]), Ok(Inbound::Message(ClientMsg::Vend(3))));
    assert_eq!(s.reply(Response::NACK), Ok(Progress::Done));
}

#[test]
fn zero_length_read_is_disconnect() {
    let mut s = Session::new();
    s.begin_round(None);
    assert_eq!(s.on_bytes(&[]), Err(ProtocolError::Disconnected));
    let mut w = Session::new();
    w.begin_round(Some(ServerMsg::Tampering));
    assert_eq!(w.on_ack(&[]), Err(ProtocolError::Disconnected));
}

#[test]
fn write_turn_sends_indicator_then_event() {
    let mut s = Session::new();
    assert_eq!(s.begin_round(Some(ServerMsg::MoneyAdded(5))), vec![WRITE, 109, 5]);
    assert_eq!(s.turn(), Turn::Writing(ServerMsg::MoneyAdded(5)));
    assert_eq!(s.on_ack(&[ACK]), Ok(None));
    assert_eq!(s.turn(), Turn::Idle);
    s.begin_round(Some(ServerMsg::VendFailed));
    assert_eq!(s.on_ack(&[NACK, 0, 0]), Ok(None));
}

#[test]
fn write_retry_exhaustion_is_fatal() {
    let mut s = Session::new();
    s.begin_round(Some(ServerMsg::MoneyAdded(5)));
    for _ in 0..(TRIES - 1) {
        assert_eq!(s.on_ack(&[READ_FAIL]), Ok(Some(vec![109, 5])));
    }
    assert_eq!(
        s.on_ack(&[READ_FAIL]),
        Err(ProtocolError::Undelivered(ServerMsg::MoneyAdded(5)))
    );
    assert_eq!(s.turn(), Turn::Idle);
    assert_eq!(s.on_ack(&[READ_FAIL]), Err(ProtocolError::OutOfTurn));
}

#[test]
fn bad_ack_is_fatal() {
    let mut s = Session::new();
    s.begin_round(Some(ServerMsg::VendSucceed));
    assert_eq!(s.on_ack(&[99]), Err(ProtocolError::BadAck(99)));
}

#[test]
fn calls_out_of_turn_are_refused() {
    let mut s = Session::new();
    assert_eq!(s.on_bytes(&[119]), Err(ProtocolError::OutOfTurn));
    assert_eq!(s.reply(Response::ACK), Err(ProtocolError::OutOfTurn));
    assert_eq!(s.on_ack(&[ACK]), Err(ProtocolError::OutOfTurn));
    s.begin_round(Some(ServerMsg::VendSucceed));
    assert_eq!(s.on_bytes(&[119]), Err(ProtocolError::OutOfTurn));
}

#[test]
fn start_round_takes_queue_in_order() {
    let q = SegQueue::new();
    q.push(ServerMsg::VendFailed);
    q.push(ServerMsg::MoneyAdded(2));
    let mut s = Session::new();
    assert_eq!(s.start_round(&q), vec![WRITE, 102]);
    assert_eq!(s.on_ack(&[ACK]), Ok(None));
    assert_eq!(s.start_round(&q), vec![WRITE, 109, 2]);
    assert_eq!(s.on_ack(&[ACK]), Ok(None));
    assert_eq!(s.start_round(&q), vec![READ]);
    assert_eq!(s.turn(), Turn::Reading);
}

#[test]
fn response_and_turn_bytes() {
    assert_eq!(Response::ACK.byte(), 6);
    assert_eq!(Response::NACK.byte(), 21);
    assert_eq!(Response::ReadFail.byte(), 33);
    assert_eq!(Response::from_u8(33), Some(Response::ReadFail));
    assert_eq!(Response::from_u8(0), None);
    assert_eq!(RW::Read.byte(), 60);
    assert_eq!(RW::Write.byte(), 62);
}

