use capycoding::ble::{
    GattEvent, GattReply, Server, CONFIG_SERVICE_UUID, GITHUB_TOKEN_CHARACTERISTIC,
    PERIPHERAL_NAME, WIFI_PASSWORD_CHARACTERISTIC, WIFI_SSID_CHARACTERISTIC,
};
use capycoding::central::{
    contains_subrange, find_peripheral_by_name, CapyCoder, CentralError, ServiceInfo,
};
use capycoding::config::CapyConfig;
use capycoding::flash::FlashMem;

fn provisioning_service() -> ServiceInfo {
    ServiceInfo {
        uuid: CONFIG_SERVICE_UUID,
        characteristics: vec![
            GITHUB_TOKEN_CHARACTERISTIC,
            WIFI_SSID_CHARACTERISTIC,
            WIFI_PASSWORD_CHARACTERISTIC,
        ],
    }
}

#[test]
fn disconnect_with_no_link_is_a_noop_success() {
    let mut coder = CapyCoder::default();
    assert!(!coder.connected);
    let needs_io = coder.disconnect();
    assert!(!needs_io);
    assert!(!coder.connected);
}

#[test]
fn disconnect_after_connect_tears_the_link_down() {
    let mut coder = CapyCoder::default();
    coder.connect(Some(0)).unwrap();
    assert!(coder.connected);
    let needs_io = coder.disconnect();
    assert!(needs_io);
    assert!(!coder.connected);
    // Disconnecting again is again a no-op success.
    assert!(!coder.disconnect());
}

#[test]
fn connect_without_a_match_reports_device_not_found() {
    let mut coder = CapyCoder::default();
    let r = coder.connect(None);
    assert_eq!(r, Err(CentralError::DeviceNotFound));
    assert!(!coder.connected);
}

#[test]
fn scan_matches_advertised_name_as_substring() {
    let names: Vec<Vec<u8>> = vec![
        b"living room tv".to_vec(),
        b"xyCapyCoder-devzz".to_vec(),
        b"CapyCoder".to_vec(),
    ];
    let needle = PERIPHERAL_NAME.as_bytes().to_vec();
    assert_eq!(find_peripheral_by_name(&names, &needle), Some(1));

    let no_match: Vec<Vec<u8>> = vec![b"unknown".to_vec(), b"capycoder".to_vec()];
    assert_eq!(find_peripheral_by_name(&no_match, &needle), None);
}

#[test]
fn contains_subrange_edges() {
    assert!(contains_subrange(&b"abc".to_vec(), &b"".to_vec()));
    assert!(!contains_subrange(&b"ab".to_vec(), &b"abc".to_vec()));
    assert!(contains_subrange(&b"abc".to_vec(), &b"abc".to_vec()));
    assert!(contains_subrange(&b"xabcy".to_vec(), &b"abc".to_vec()));
    assert!(!contains_subrange(&b"axbxc".to_vec(), &b"abc".to_vec()));
}

#[test]
fn plan_requires_a_connection() {
    let coder = CapyCoder::default();
    let services = vec![provisioning_service()];
    let r = coder.plan_config_writes(
        &services,
        &b"home".to_vec(),
        &b"secret123".to_vec(),
        &b"ghp_abc".to_vec(),
    );
    assert!(matches!(r, Err(CentralError::NotConnected)));
}

#[test]
fn plan_reports_missing_service() {
    let mut coder = CapyCoder::default();
    coder.connect(Some(0)).unwrap();
    let services = vec![ServiceInfo { uuid: 0x180F, characteristics: vec![0x2A19] }];
    let r = coder.plan_config_writes(
        &services,
        &b"home".to_vec(),
        &b"secret123".to_vec(),
        &b"ghp_abc".to_vec(),
    );
    assert!(matches!(r, Err(CentralError::ServiceNotFound)));
}

#[test]
fn plan_reports_missing_characteristic() {
    let mut coder = CapyCoder::default();
    coder.connect(Some(0)).unwrap();
    let services = vec![ServiceInfo {
        uuid: CONFIG_SERVICE_UUID,
        characteristics: vec![GITHUB_TOKEN_CHARACTERISTIC, WIFI_SSID_CHARACTERISTIC],
    }];
    let r = coder.plan_config_writes(
        &services,
        &b"home".to_vec(),
        &b"secret123".to_vec(),
        &b"ghp_abc".to_vec(),
    );
    assert!(matches!(r, Err(CentralError::CharacteristicNotFound)));
}

#[test]
fn plan_orders_writes_token_ssid_password() {
    let mut coder = CapyCoder::default();
    coder.connect(Some(0)).unwrap();
    let services = vec![provisioning_service()];
    let cmds = coder
        .plan_config_writes(
            &services,
            &b"home".to_vec(),
            &b"secret123".to_vec(),
            &b"ghp_abc".to_vec(),
        )
        .unwrap();
    assert_eq!(cmds.len(), 3);
    assert_eq!(cmds[0].characteristic, GITHUB_TOKEN_CHARACTERISTIC);
    assert_eq!(cmds[0].value, b"ghp_abc".to_vec());
    assert_eq!(cmds[1].characteristic, WIFI_SSID_CHARACTERISTIC);
    assert_eq!(cmds[1].value, b"home".to_vec());
    assert_eq!(cmds[2].characteristic, WIFI_PASSWORD_CHARACTERISTIC);
    assert_eq!(cmds[2].value, b"secret123".to_vec());
}

#[test]
fn end_to_end_provisioning() {
    // Central side: plan the three writes.
    let mut coder = CapyCoder::default();
    coder.connect(Some(0)).unwrap();
    let services = vec![provisioning_service()];
    let cmds = coder
        .plan_config_writes(
            &services,
            &b"home".to_vec(),
            &b"secret123".to_vec(),
            &b"ghp_abc".to_vec(),
        )
        .unwrap();

    // Peripheral side: service each write on the one active link.
    let mut server = Server::new();
    let mut config: Option<CapyConfig> = None;
    let mut flash = FlashMem::new(1);
    assert!(server.on_connect(1));
    for cmd in cmds {
        let event = GattEvent::Write { ch: cmd.characteristic, data: cmd.value };
        let reply = server.service_gatt_event(1, &event, &mut config, &mut flash);
        assert!(matches!(reply, Some(GattReply::WriteAccepted)));
    }

    // The characteristic buffers hold exactly the written bytes.
    assert_eq!(server.wifi_ssid, b"home".to_vec());
    assert_eq!(server.wifi_password, b"secret123".to_vec());
    assert_eq!(server.github_token, b"ghp_abc".to_vec());

    // The record made it to flash: a fresh load returns the credentials.
    let stored = CapyConfig::load(&flash).expect("provisioned record must load");
    assert_eq!(stored.wifi_credentials.ssid, b"home".to_vec());
    assert_eq!(stored.wifi_credentials.password, b"secret123".to_vec());
    assert_eq!(stored.api_tokens.github, b"ghp_abc".to_vec());
}

#[test]
fn scan_window_is_as_designed() {
    assert_eq!(capycoding::central::SCAN_WINDOW_MS, 5000);
}
