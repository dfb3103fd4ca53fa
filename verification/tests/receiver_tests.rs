use yandex_upd_monitor::receiver::{
    datagram_payload, mock_source, next_action, MockReceiver, ReceiveAction, ReceiveEvent,
    MOCK_SAMPLE_COUNT, RECEIVE_BUFFER_SIZE,
};

#[test]
fn payload_is_the_received_prefix() {
    let buf = [1u8, 2, 3, 4, 5];
    assert_eq!(datagram_payload(&buf, 3), &[1, 2, 3]);
    assert_eq!(datagram_payload(&buf, 0), &[] as &[u8]);
    assert_eq!(datagram_payload(&buf, 5), &buf);
}

#[test]
fn receive_loop_actions() {
    assert_eq!(next_action(ReceiveEvent::Datagram { size: 17 }), ReceiveAction::Decode { len: 17 });
    assert_eq!(
        next_action(ReceiveEvent::Datagram { size: RECEIVE_BUFFER_SIZE }),
        ReceiveAction::Decode { len: 1024 }
    );
    assert_eq!(next_action(ReceiveEvent::ReceiveFailed), ReceiveAction::ReportReceiveError);
    assert_eq!(next_action(ReceiveEvent::Decoded), ReceiveAction::Deliver);
    assert_eq!(next_action(ReceiveEvent::DecodeFailed), ReceiveAction::ReportDecodeError);
    assert_eq!(next_action(ReceiveEvent::Delivered), ReceiveAction::Receive);
    assert_eq!(next_action(ReceiveEvent::ChannelClosed), ReceiveAction::Stop);
    assert_eq!(next_action(ReceiveEvent::Reported), ReceiveAction::Receive);
}

#[test]
fn only_a_closed_channel_stops_the_loop() {
    let events = [
        ReceiveEvent::Datagram { size: 0 },
        ReceiveEvent::ReceiveFailed,
        ReceiveEvent::Decoded,
        ReceiveEvent::DecodeFailed,
        ReceiveEvent::Delivered,
        ReceiveEvent::Reported,
    ];
    for e in events {
        assert_ne!(next_action(e), ReceiveAction::Stop);
    }
}

#[test]
fn mock_samples_match_the_mock_data() {
    for i in 0..MOCK_SAMPLE_COUNT {
        let m = MockReceiver::sample(i, 99);
        assert_eq!(f32::from_bits(m.temperature_bits), 22.5 + i as f32);
        assert_eq!(m.temperature_bits, (22.5 + i as f32).to_bits());
        assert_eq!(f32::from_bits(m.humidity_bits), 45.0);
        assert_eq!(f32::from_bits(m.pressure_bits), 1013.0);
        assert_eq!(f32::from_bits(m.vibration_level_bits), 50.0);
        assert_eq!(m.door_open, i % 2 == 0);
        assert_eq!(m.timestamp, 99);
    }
}

#[test]
fn mock_samples_alternate_the_door() {
    let doors: Vec<bool> = (0..MOCK_SAMPLE_COUNT).map(|i| MockReceiver::sample(i, 0).door_open).collect();
    assert_eq!(doors, vec![true, false, true, false, true]);
}

#[test]
fn next_sample_is_stamped_now() {
    let now = chrono::Utc::now().timestamp() as u64;
    let m = MockReceiver::next_sample(1).expect("clock after the epoch");
    assert!(m.timestamp >= now && m.timestamp <= now + 5);
    assert_eq!(m, MockReceiver::sample(1, m.timestamp));
}

#[test]
fn mock_source_address() {
    assert_eq!(mock_source(), "127.0.0.1:9999");
}
