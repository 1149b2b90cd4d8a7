use airlink::device::{ControlEvent, DeviceRole, DeviceStatus, RegisterDeviceRequest};
use airlink::hub::Hub;
use airlink::sockets::{
    receiver_step, sender_step, ControlSession, ReceiverAction, ReceiverEvent, SenderAction,
    SenderMessage, SocketAction, SocketEvent,
};

fn hub_with(id: &str) -> Hub {
    let mut hub = Hub::new();
    let req = RegisterDeviceRequest {
        id: Some(id.to_string()),
        name: id.to_string(),
        role: DeviceRole::Speaker,
    };
    hub.register_device(req, 0);
    hub
}

fn text(session: &mut ControlSession, hub: &mut Hub, text: &str, now_ms: u64) -> SocketAction {
    session.step(hub, SocketEvent::Text { text: text.to_string(), now_ms })
}

#[test]
fn heartbeat_names_the_device_and_refreshes_it() {
    let mut hub = hub_with("d1");
    let mut session = ControlSession::new();
    let action =
        text(&mut session, &mut hub, "{\"type\":\"heartbeat\",\"device_id\":\"d1\"}", 42);
    assert!(matches!(action, SocketAction::Wait));
    assert_eq!(session.device_id.as_deref(), Some("d1"));
    assert_eq!(hub.list_devices()[0].last_seen, 42);
}

#[test]
fn heartbeat_of_an_offline_device_is_published() {
    let mut hub = hub_with("d1");
    hub.disconnect("d1");
    let mut session = ControlSession::new();
    match text(&mut session, &mut hub, " { \"device_id\" : \"d1\", \"type\" : \"heartbeat\" } ", 7) {
        SocketAction::Publish(ControlEvent::DeviceUpdated { device }) => {
            assert_eq!(device.id, "d1");
            assert_eq!(device.status, DeviceStatus::Online);
            assert_eq!(device.last_seen, 7);
        }
        other => panic!("{:?}", other),
    }
}

#[test]
fn session_keeps_the_first_device() {
    let mut hub = hub_with("d2");
    let mut session = ControlSession::new();
    text(&mut session, &mut hub, "{\"type\":\"heartbeat\",\"device_id\":\"unknown\"}", 1);
    text(&mut session, &mut hub, "{\"type\":\"heartbeat\",\"device_id\":\"d2\"}", 2);
    assert_eq!(session.device_id.as_deref(), Some("unknown"));
    assert_eq!(hub.list_devices()[0].last_seen, 2);
    assert!(session.close(&mut hub).is_none());
}

#[test]
fn ping_texts_are_answered() {
    let mut hub = Hub::new();
    let mut session = ControlSession::new();
    match text(&mut session, &mut hub, "{\"type\":\"ping\",\"ts\":1234567890123}", 1) {
        SocketAction::Answer { ts } => assert_eq!(ts, 1234567890123),
        other => panic!("{:?}", other),
    }
}

#[test]
fn other_texts_are_ignored() {
    let mut hub = hub_with("d1");
    let mut session = ControlSession::new();
    for t in [
        "",
        "not json",
        "[1,2]",
        "{}",
        "{\"type\":\"heartbeat\"}",
        "{\"type\":\"heartbeat\",\"device_id\":5}",
        "{\"type\":\"ping\"}",
        "{\"type\":\"ping\",\"ts\":-4}",
        "{\"type\":\"ping\",\"ts\":1.5}",
        "{\"type\":\"ping\",\"ts\":\"7\"}",
        "{\"type\":\"hello\",\"device_id\":\"d1\",\"ts\":1}",
        "{\"type\":7,\"device_id\":\"d1\"}",
        "\"heartbeat\"",
    ] {
        let action = text(&mut session, &mut hub, t, 99);
        assert!(matches!(action, SocketAction::Wait), "{}", t);
    }
    assert!(session.device_id.is_none());
    assert_eq!(hub.list_devices()[0].last_seen, 0);
}

#[test]
fn messages_are_heard_by_their_fields() {
    let mut hub = hub_with("d1");
    let mut session = ControlSession::new();
    let some = |s: &str| Some(s.to_string());
    let action = session.hear(&mut hub, some("heartbeat"), some("d1"), Some(3), 8);
    assert!(matches!(action, SocketAction::Wait));
    assert_eq!(hub.list_devices()[0].last_seen, 8);
    let action = session.hear(&mut hub, some("ping"), some("d1"), Some(3), 9);
    assert!(matches!(action, SocketAction::Answer { ts: 3 }));
    assert_eq!(hub.list_devices()[0].last_seen, 8);
    let action = session.hear(&mut hub, None, some("d1"), Some(3), 9);
    assert!(matches!(action, SocketAction::Wait));
}

const SECOND: u64 = 1_000_000_000;

/// A tick, with the ping that it asks for sent at once.
fn tick(session: &mut ControlSession, hub: &mut Hub, now: u64) -> SocketAction {
    let action = session.step(hub, SocketEvent::Tick { now });
    if matches!(action, SocketAction::Ping) {
        let sent = session.step(hub, SocketEvent::PingSent { ok: true, now });
        assert!(matches!(sent, SocketAction::Wait));
    }
    action
}

#[test]
fn unanswered_ping_ends_the_session_after_eight_seconds() {
    let mut hub = hub_with("d1");
    let mut session = ControlSession::new();
    text(&mut session, &mut hub, "{\"type\":\"heartbeat\",\"device_id\":\"d1\"}", 1);
    assert!(matches!(tick(&mut session, &mut hub, 5 * SECOND), SocketAction::Ping));
    assert_eq!(session.pong_deadline, Some(13 * SECOND));
    assert!(matches!(tick(&mut session, &mut hub, 10 * SECOND), SocketAction::Ping));
    assert_eq!(session.pong_deadline, Some(13 * SECOND));
    text(&mut session, &mut hub, "{\"type\":\"heartbeat\",\"device_id\":\"d1\"}", 2);
    assert!(matches!(tick(&mut session, &mut hub, 15 * SECOND), SocketAction::Stop));
    session.close(&mut hub).unwrap();
    assert_eq!(hub.list_devices()[0].status, DeviceStatus::Offline);
}

#[test]
fn deadline_is_met_to_the_nanosecond() {
    let mut hub = Hub::new();
    let mut session = ControlSession::new();
    tick(&mut session, &mut hub, 5 * SECOND);
    assert!(matches!(tick(&mut session, &mut hub, 13 * SECOND), SocketAction::Ping));
    assert!(matches!(tick(&mut session, &mut hub, 13 * SECOND + 1), SocketAction::Stop));
}

#[test]
fn answered_pings_keep_the_session() {
    let mut hub = Hub::new();
    let mut session = ControlSession::new();
    for i in 1..20u64 {
        assert!(matches!(tick(&mut session, &mut hub, 5 * i * SECOND), SocketAction::Ping));
        assert_eq!(session.pong_deadline, Some((5 * i + 8) * SECOND));
        assert!(matches!(session.step(&mut hub, SocketEvent::Pong), SocketAction::Wait));
        assert!(session.pong_deadline.is_none());
    }
}

#[test]
fn receiver_gets_the_sound_until_its_end() {
    let events = [
        (ReceiverEvent::Sound, 1),
        (ReceiverEvent::Forwarded { ok: true }, 0),
        (ReceiverEvent::Lagged, 0),
        (ReceiverEvent::Sound, 2),
        (ReceiverEvent::Other, 0),
        (ReceiverEvent::Sound, 3),
        (ReceiverEvent::Closed, 0),
        (ReceiverEvent::Sound, 4),
    ];
    let mut got = vec![];
    for (event, frame) in events {
        match receiver_step(event) {
            ReceiverAction::Forward => got.push(frame),
            ReceiverAction::Wait => {}
            ReceiverAction::Stop => break,
        }
    }
    assert_eq!(got, vec![1, 2, 3]);
}

#[test]
fn failed_sends_and_closed_ends_stop_the_session() {
    let mut hub = Hub::new();
    let mut session = ControlSession::new();
    assert!(matches!(session.step(&mut hub, SocketEvent::Published), SocketAction::Forward));
    assert!(matches!(
        session.step(&mut hub, SocketEvent::Forwarded { ok: true }),
        SocketAction::Wait
    ));
    assert!(matches!(
        session.step(&mut hub, SocketEvent::Forwarded { ok: false }),
        SocketAction::Stop
    ));
    assert!(matches!(
        session.step(&mut hub, SocketEvent::PingSent { ok: false, now: 1 }),
        SocketAction::Stop
    ));
    assert!(session.pong_deadline.is_none());
    assert!(matches!(session.step(&mut hub, SocketEvent::Lagged), SocketAction::Wait));
    assert!(matches!(session.step(&mut hub, SocketEvent::Other), SocketAction::Wait));
    assert!(matches!(session.step(&mut hub, SocketEvent::BusClosed), SocketAction::Stop));
    assert!(matches!(session.step(&mut hub, SocketEvent::Closed), SocketAction::Stop));
}

#[test]
fn closing_marks_the_device_offline() {
    let mut hub = hub_with("d1");
    let mut session = ControlSession::new();
    assert!(session.close(&mut hub).is_none());
    text(&mut session, &mut hub, "{\"type\":\"heartbeat\",\"device_id\":\"d1\"}", 42);
    match session.close(&mut hub) {
        Some(ControlEvent::DeviceUpdated { device }) => {
            assert_eq!(device.status, DeviceStatus::Offline);
            assert_eq!(device.last_seen, 42);
        }
        other => panic!("{:?}", other),
    }
}

#[test]
fn senders_are_served() {
    assert_eq!(sender_step(SenderMessage::Binary), SenderAction::Broadcast);
    assert_eq!(sender_step(SenderMessage::Ping), SenderAction::Answer);
    assert_eq!(sender_step(SenderMessage::Pong), SenderAction::Wait);
    assert_eq!(sender_step(SenderMessage::Other), SenderAction::Wait);
    assert_eq!(sender_step(SenderMessage::Close), SenderAction::Stop);
    assert_eq!(sender_step(SenderMessage::Failed), SenderAction::Stop);
    assert_eq!(sender_step(SenderMessage::Ended), SenderAction::Stop);
}

#[test]
fn receivers_are_served() {
    assert_eq!(receiver_step(ReceiverEvent::Sound), ReceiverAction::Forward);
    assert_eq!(receiver_step(ReceiverEvent::Lagged), ReceiverAction::Wait);
    assert_eq!(receiver_step(ReceiverEvent::StreamEnded), ReceiverAction::Stop);
    assert_eq!(receiver_step(ReceiverEvent::Forwarded { ok: true }), ReceiverAction::Wait);
    assert_eq!(receiver_step(ReceiverEvent::Forwarded { ok: false }), ReceiverAction::Stop);
    assert_eq!(receiver_step(ReceiverEvent::Closed), ReceiverAction::Stop);
    assert_eq!(receiver_step(ReceiverEvent::Other), ReceiverAction::Wait);
}

#[test]
fn sender_frames_are_passed_on_until_its_end() {
    for end in [SenderMessage::Close, SenderMessage::Failed, SenderMessage::Ended] {
        let messages = [
            (SenderMessage::Binary, 1),
            (SenderMessage::Ping, 0),
            (SenderMessage::Binary, 2),
            (SenderMessage::Pong, 0),
            (SenderMessage::Other, 0),
            (SenderMessage::Binary, 3),
            (end, 0),
            (SenderMessage::Binary, 4),
        ];
        let mut passed = vec![];
        for (message, frame) in messages {
            match sender_step(message) {
                SenderAction::Broadcast => passed.push(frame),
                SenderAction::Answer | SenderAction::Wait => {}
                SenderAction::Stop => break,
            }
        }
        assert_eq!(passed, vec![1, 2, 3]);
    }
}

/// The numbers of the events that a connection forwards.
fn forwarded(events: Vec<(SocketEvent, u32)>) -> Vec<u32> {
    let mut hub = hub_with("d1");
    let mut session = ControlSession::new();
    let mut sent = vec![];
    for (event, number) in events {
        match session.step(&mut hub, event) {
            SocketAction::Forward => sent.push(number),
            SocketAction::Stop => break,
            _ => {}
        }
    }
    sent
}

fn on_the_bus(lagged: bool) -> Vec<(SocketEvent, u32)> {
    let beat = "{\"type\":\"heartbeat\",\"device_id\":\"d1\"}".to_string();
    let mut events = vec![
        (SocketEvent::Published, 1),
        (SocketEvent::Forwarded { ok: true }, 0),
        (SocketEvent::Text { text: beat, now_ms: 3 }, 0),
        (SocketEvent::Tick { now: 5 * SECOND }, 0),
        (SocketEvent::PingSent { ok: true, now: 5 * SECOND }, 0),
        (SocketEvent::Published, 2),
        (SocketEvent::Tick { now: 14 * SECOND }, 0),
        (SocketEvent::Published, 3),
    ];
    if lagged {
        events.insert(2, (SocketEvent::Lagged, 0));
        events.insert(0, (SocketEvent::Lagged, 0));
    }
    events
}

#[test]
fn bus_forwards_every_event_until_its_end() {
    assert_eq!(forwarded(on_the_bus(false)), vec![1, 2]);
    assert_eq!(forwarded(on_the_bus(true)), vec![1, 2]);
}

#[test]
fn unreached_peer_changes_nothing() {
    let mut hub = hub_with("d1");
    let mut session = ControlSession::new();
    let action = session.step(&mut hub, SocketEvent::Forwarded { ok: false });
    assert!(matches!(action, SocketAction::Stop));
    assert!(session.close(&mut hub).is_none());
    assert_eq!(hub.list_devices()[0].status, DeviceStatus::Online);
}
