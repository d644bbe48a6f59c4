use snowflake::lease::{
    decode_client_message, decode_server_message, encode_client_message, encode_server_message,
    ClientMessage, FrameEvent, ServerMessage, WorkerAction, WorkerWsClient, WorkerWsHandler,
};
use snowflake::pool::IdManager;

#[test]
fn wire_codec_has_the_expected_bytes() {
    assert_eq!(encode_client_message(&ClientMessage::GetId), vec![0, 0, 0, 0]);
    assert_eq!(
        encode_server_message(&ServerMessage::SetWorkerId(7)),
        vec![0, 0, 0, 0, 7, 0, 0, 0]
    );
    assert_eq!(
        encode_server_message(&ServerMessage::SetWorkerId(0x0102_0304)),
        vec![0, 0, 0, 0, 4, 3, 2, 1]
    );
    assert_eq!(encode_server_message(&ServerMessage::NoIdsAvailable), vec![1, 0, 0, 0]);
}

#[test]
fn wire_codec_round_trips() {
    let c = encode_client_message(&ClientMessage::GetId);
    assert_eq!(decode_client_message(&c), Some(ClientMessage::GetId));
    for m in [ServerMessage::SetWorkerId(0), ServerMessage::SetWorkerId(31), ServerMessage::NoIdsAvailable] {
        let b = encode_server_message(&m);
        assert_eq!(decode_server_message(&b), Some(m));
    }
}

#[test]
fn wire_codec_rejects_malformed_frames() {
    assert_eq!(decode_client_message(&[]), None);
    assert_eq!(decode_client_message(&[0, 0, 0]), None);
    assert_eq!(decode_client_message(&[1, 0, 0, 0]), None);
    assert_eq!(decode_client_message(&[0, 0, 0, 0, 0]), None);
    assert_eq!(decode_server_message(&[]), None);
    assert_eq!(decode_server_message(&[2, 0, 0, 0]), None);
    assert_eq!(decode_server_message(&[0, 0, 0, 0, 1, 2, 3]), None);
    assert_eq!(decode_server_message(&[1, 0, 0, 0, 9]), None);
}

#[test]
fn request_id_allocates_and_replies() {
    let mut pool = IdManager::new();
    let mut session = WorkerWsHandler::new(0);
    let reply = session.on_binary(&mut pool, &[0, 0, 0, 0]).unwrap();
    assert_eq!(decode_server_message(&reply), Some(ServerMessage::SetWorkerId(0)));
    assert_eq!(session.worker_id, Some(0));
}

#[test]
fn duplicate_request_returns_existing_lease() {
    let mut pool = IdManager::new();
    let mut session = WorkerWsHandler::new(0);
    let first = session.on_binary(&mut pool, &[0, 0, 0, 0]).unwrap();
    let second = session.on_binary(&mut pool, &[0, 0, 0, 0]).unwrap();
    assert_eq!(first, second);
    // Nothing was reallocated: only one id is leased.
    let leased = pool.usage_snapshot().iter().filter(|(_, used)| *used).count();
    assert_eq!(leased, 1);
}

#[test]
fn malformed_frame_is_ignored_and_connection_stays() {
    let mut pool = IdManager::new();
    let mut session = WorkerWsHandler::new(0);
    assert_eq!(session.on_binary(&mut pool, &[9, 9]), None);
    assert_eq!(session.worker_id, None);
    let leased = pool.usage_snapshot().iter().filter(|(_, used)| *used).count();
    assert_eq!(leased, 0);
}

#[test]
fn close_reclaims_the_id_immediately() {
    let mut pool = IdManager::new();
    let mut session = WorkerWsHandler::new(0);
    session.on_binary(&mut pool, &[0, 0, 0, 0]);
    assert_eq!(session.worker_id, Some(0));
    session.on_close(&mut pool);
    assert_eq!(session.worker_id, None);
    // The id is allocatable again at once.
    assert_eq!(pool.allocate(), Some(0));
}

#[test]
fn exhaustion_is_reported_not_bound() {
    let mut pool = IdManager::new_sized(1);
    let mut first = WorkerWsHandler::new(0);
    let mut second = WorkerWsHandler::new(0);
    first.on_binary(&mut pool, &[0, 0, 0, 0]);
    let reply = second.on_binary(&mut pool, &[0, 0, 0, 0]).unwrap();
    assert_eq!(decode_server_message(&reply), Some(ServerMessage::NoIdsAvailable));
    assert_eq!(second.worker_id, None);
    // The refused worker's close releases nothing.
    second.on_close(&mut pool);
    assert_eq!(pool.usage_snapshot(), vec![(0, true)]);
}

#[test]
fn thirty_two_leases_succeed_and_the_thirty_third_is_refused() {
    let mut pool = IdManager::new();
    let mut sessions: Vec<WorkerWsHandler> = (0..33).map(|_| WorkerWsHandler::new(0)).collect();
    let mut ids = Vec::new();
    let mut refused = 0;
    for s in sessions.iter_mut() {
        let reply = s.on_binary(&mut pool, &[0, 0, 0, 0]).unwrap();
        match decode_server_message(&reply).unwrap() {
            ServerMessage::SetWorkerId(w) => ids.push(w),
            ServerMessage::NoIdsAvailable => refused += 1,
        }
    }
    ids.sort();
    let expected: Vec<u32> = (0..32).collect();
    assert_eq!(ids, expected);
    assert_eq!(refused, 1);
}

#[test]
fn heartbeat_expires_past_the_timeout() {
    let mut session = WorkerWsHandler::new(0);
    assert!(!session.heartbeat_expired(10_000));
    assert!(session.heartbeat_expired(10_001));
    session.on_traffic(5_000);
    assert!(!session.heartbeat_expired(15_000));
    assert!(session.heartbeat_expired(15_001));
}

#[test]
fn timed_out_session_releases_its_lease() {
    let mut pool = IdManager::new();
    let mut session = WorkerWsHandler::new(0);
    session.on_binary(&mut pool, &[0, 0, 0, 0]);
    assert!(session.heartbeat_expired(60_000));
    session.on_close(&mut pool);
    assert_eq!(pool.allocate(), Some(0));
}

#[test]
fn worker_client_answers_pings_and_records_its_id() {
    let mut client = WorkerWsClient::new(0);
    assert_eq!(WorkerWsClient::init_message(), vec![0, 0, 0, 0]);
    let a = client.on_frame(FrameEvent::Ping(vec![1, 2]), 500);
    assert_eq!(a, WorkerAction::SendPong(vec![1, 2]));
    assert_eq!(client.hb_ms, 500);
    let a = client.on_frame(FrameEvent::Pong, 900);
    assert_eq!(a, WorkerAction::Ignore);
    assert_eq!(client.hb_ms, 900);
    let assigned = encode_server_message(&ServerMessage::SetWorkerId(9));
    let a = client.on_frame(FrameEvent::Binary(assigned), 901);
    assert_eq!(a, WorkerAction::PublishId(9));
    assert_eq!(client.worker_id, Some(9));
}

#[test]
fn worker_client_stops_on_exhaustion_and_reset() {
    let mut client = WorkerWsClient::new(0);
    let refused = encode_server_message(&ServerMessage::NoIdsAvailable);
    assert_eq!(client.on_frame(FrameEvent::Binary(refused), 1), WorkerAction::Stop);
    assert_eq!(client.on_frame(FrameEvent::ConnectionReset, 2), WorkerAction::Stop);
    assert_eq!(client.on_frame(FrameEvent::Binary(vec![9, 9]), 3), WorkerAction::Ignore);
    assert_eq!(client.on_frame(FrameEvent::Text(vec![104, 105]), 4), WorkerAction::Ignore);
    assert_eq!(client.on_frame(FrameEvent::Other, 5), WorkerAction::Ignore);
    assert!(!client.heartbeat_tick(10_000));
    assert!(client.heartbeat_tick(10_001));
}
