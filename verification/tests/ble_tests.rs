use capycoding::ble::{
    GattEvent, GattReply, Server, GITHUB_TOKEN_CHARACTERISTIC, WIFI_PASSWORD_CHARACTERISTIC,
    WIFI_SSID_CHARACTERISTIC,
};
use capycoding::config::CapyConfig;
use capycoding::flash::FlashMem;

#[test]
fn second_concurrent_link_is_refused() {
    let mut server = Server::new();
    assert!(server.on_connect(1));
    assert!(!server.on_connect(2));
    assert_eq!(server.link, Some(1));
}

#[test]
fn events_for_another_link_are_not_serviced() {
    let mut server = Server::new();
    let mut config: Option<CapyConfig> = None;
    let mut flash = FlashMem::new(1);
    assert!(server.on_connect(1));
    let event = GattEvent::Write { ch: WIFI_SSID_CHARACTERISTIC, data: b"home".to_vec() };
    let reply = server.service_gatt_event(2, &event, &mut config, &mut flash);
    assert!(reply.is_none());
    assert!(server.wifi_ssid.is_empty());
    assert!(config.is_none());
    assert_eq!(server.events_serviced, 0);
}

#[test]
fn every_serviced_event_gets_exactly_one_reply() {
    let mut server = Server::new();
    let mut config: Option<CapyConfig> = None;
    let mut flash = FlashMem::new(1);
    assert!(server.on_connect(7));
    let events = vec![
        GattEvent::Read { ch: WIFI_SSID_CHARACTERISTIC },
        GattEvent::Read { ch: 0x1234 },
        GattEvent::Write { ch: WIFI_PASSWORD_CHARACTERISTIC, data: b"secret123".to_vec() },
        GattEvent::Write { ch: 0x1234, data: b"ignored".to_vec() },
        GattEvent::Write { ch: WIFI_SSID_CHARACTERISTIC, data: vec![0u8; 30] },
    ];
    let mut replies = 0;
    for event in &events {
        let reply = server.service_gatt_event(7, event, &mut config, &mut flash);
        assert!(reply.is_some());
        replies += 1;
    }
    assert_eq!(replies, events.len());
    assert_eq!(server.events_serviced, events.len() as u64);
    assert_eq!(server.replies_sent, server.events_serviced);
}

#[test]
fn unmatched_events_are_still_acknowledged() {
    let mut server = Server::new();
    let mut config: Option<CapyConfig> = None;
    let mut flash = FlashMem::new(1);
    assert!(server.on_connect(1));
    let read = server.service_gatt_event(1, &GattEvent::Read { ch: 0xAAAA }, &mut config, &mut flash);
    assert!(matches!(read, Some(GattReply::UnmatchedAck)));
    let write = server.service_gatt_event(
        1,
        &GattEvent::Write { ch: 0xAAAA, data: b"x".to_vec() },
        &mut config,
        &mut flash,
    );
    assert!(matches!(write, Some(GattReply::UnmatchedAck)));
    assert!(config.is_none());
}

#[test]
fn read_returns_buffered_value() {
    let mut server = Server::new();
    let mut config: Option<CapyConfig> = None;
    let mut flash = FlashMem::new(1);
    assert!(server.on_connect(1));
    let write = GattEvent::Write { ch: GITHUB_TOKEN_CHARACTERISTIC, data: b"ghp_abc".to_vec() };
    let reply = server.service_gatt_event(1, &write, &mut config, &mut flash);
    assert!(matches!(reply, Some(GattReply::WriteAccepted)));
    let read = GattEvent::Read { ch: GITHUB_TOKEN_CHARACTERISTIC };
    let reply = server.service_gatt_event(1, &read, &mut config, &mut flash);
    match reply {
        Some(GattReply::ReadValue { value }) => assert_eq!(value, b"ghp_abc".to_vec()),
        other => panic!("expected a read value, got {}", reply_name(&other)),
    }
}

fn reply_name(reply: &Option<GattReply>) -> &'static str {
    match reply {
        None => "no reply",
        Some(GattReply::ReadValue { .. }) => "read value",
        Some(GattReply::WriteAccepted) => "write accepted",
        Some(GattReply::WriteRejected) => "write rejected",
        Some(GattReply::UnmatchedAck) => "unmatched ack",
    }
}

#[test]
fn accepted_write_persists_to_flash() {
    let mut server = Server::new();
    let mut config: Option<CapyConfig> = None;
    let mut flash = FlashMem::new(1);
    assert!(server.on_connect(1));
    let write = GattEvent::Write { ch: WIFI_SSID_CHARACTERISTIC, data: b"home".to_vec() };
    let reply = server.service_gatt_event(1, &write, &mut config, &mut flash);
    assert!(matches!(reply, Some(GattReply::WriteAccepted)));

    let stored = CapyConfig::load(&flash).expect("the write must be durable");
    assert_eq!(stored.wifi_credentials.ssid, b"home".to_vec());
    assert_eq!(config.as_ref().unwrap().wifi_credentials.ssid, b"home".to_vec());
}

#[test]
fn overlong_write_is_rejected_and_changes_nothing() {
    let mut server = Server::new();
    let mut config: Option<CapyConfig> = None;
    let mut flash = FlashMem::new(1);
    assert!(server.on_connect(1));
    // A 30-byte SSID fits the stored field but not the 24-byte wire
    // capacity: the policy is to reject, never to truncate.
    let long = vec![b's'; 30];
    let write = GattEvent::Write { ch: WIFI_SSID_CHARACTERISTIC, data: long };
    let reply = server.service_gatt_event(1, &write, &mut config, &mut flash);
    assert!(matches!(reply, Some(GattReply::WriteRejected)));
    assert!(server.wifi_ssid.is_empty());
    assert!(config.is_none());
    assert!(CapyConfig::load(&flash).is_none());
    // The reply was still counted: one event, one reply.
    assert_eq!(server.events_serviced, 1);
    assert_eq!(server.replies_sent, 1);
}

#[test]
fn disconnect_returns_to_advertising() {
    let mut server = Server::new();
    assert!(server.on_connect(1));
    server.on_disconnect();
    assert!(server.link.is_none());
    // A later central can connect again.
    assert!(server.on_connect(2));
    assert_eq!(server.link, Some(2));
}
