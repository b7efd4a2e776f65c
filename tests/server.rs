use buttplug_core::conversion::VersionedServerMessage;
use buttplug_core::device::{
    LOVEHONEY_DESIRE_PROTOCOL, command_outcome, connection_outcome, connection_precheck, next_connection_state,
    ButtplugDeviceReturn, ConnectionEvent, DeviceConnectionState, DeviceWriteCmd,
};
use buttplug_core::device_manager::{
    BluetoothLESpecifier, DeviceManager, DeviceUserConfig, ProtocolDefinition, ScanningCommand,
};
use buttplug_core::errors::{ButtplugDeviceError, ButtplugError, ButtplugServerError, ButtplugUnknownError};
use buttplug_core::message_types::{ButtplugCurrentSpecDeviceMessageType, ButtplugMessageSpecVersion};
use buttplug_core::messages::{
    BatteryLevelReading, DeviceMessageAttributes, DeviceMessageAttributesMap, Endpoint, ErrorCode,
    OkMessage, Ping, RawWriteCmd, RequestDeviceList, RequestServerInfo, StartScanning,
    StopAllDevices, StopDeviceCmd, StopScanning, VibrateCmd, VibrateSubcommand, VALUE_SCALE,
};
use buttplug_core::server::{ButtplugServer, ServerResponse, PING_TIMED_OUT_TEXT};
use buttplug_core::unions::{ButtplugClientMessage, ButtplugMessage, ButtplugServerMessage, ButtplugSpecV0ServerMessage};

fn speed(x: f64) -> i64 {
    (x * VALUE_SCALE as f64).round() as i64
}

fn test_attributes(raw: bool) -> DeviceMessageAttributesMap {
    let mut m = DeviceMessageAttributesMap::new();
    m.insert(
        ButtplugCurrentSpecDeviceMessageType::VibrateCmd,
        DeviceMessageAttributes { feature_count: Some(2), step_count: Some(vec![20, 20]) },
    );
    m.insert(
        ButtplugCurrentSpecDeviceMessageType::StopDeviceCmd,
        DeviceMessageAttributes { feature_count: None, step_count: None },
    );
    if raw {
        m.insert(
            ButtplugCurrentSpecDeviceMessageType::RawWriteCmd,
            DeviceMessageAttributes { feature_count: None, step_count: None },
        );
    }
    m
}

fn handshake(server: &mut ButtplugServer, version: ButtplugMessageSpecVersion) -> ServerResponse {
    server.handle_message(ButtplugClientMessage::RequestServerInfo(RequestServerInfo {
        id: 1,
        client_name: "Test Client".to_string(),
        message_version: version,
    }))
}

fn vibrate_msg(id: u32, speeds: &[(u32, f64)]) -> ButtplugClientMessage {
    let mut cmd = VibrateCmd::new(1, speeds.iter().map(|(i, s)| VibrateSubcommand::new(*i, speed(*s))).collect());
    cmd.id = id;
    ButtplugClientMessage::VibrateCmd(cmd)
}

fn tx(data: Vec<u8>) -> DeviceWriteCmd {
    DeviceWriteCmd::new(Endpoint::Tx, data, false)
}

fn error_code(m: &ButtplugServerMessage) -> Option<ErrorCode> {
    match m {
        ButtplugServerMessage::Error(e) => Some(e.error_code),
        _ => None,
    }
}

fn connected_server() -> ButtplugServer {
    let mut server = ButtplugServer::new("Test Server", 100, false);
    handshake(&mut server, ButtplugMessageSpecVersion::Version2);
    server.device_manager.add_device(LOVEHONEY_DESIRE_PROTOCOL, "TestDevice", "AA:BB".to_string(), test_attributes(false)).unwrap();
    server
}

#[test]
fn handshake_and_device_enumeration() {
    let mut server = ButtplugServer::new("Test Server", 0, false);
    let info = handshake(&mut server, ButtplugMessageSpecVersion::Version2);
    match &info.message {
        ButtplugServerMessage::ServerInfo(s) => {
            assert_eq!(s.id, 1);
            assert_eq!(s.message_version, ButtplugMessageSpecVersion::Version2);
        }
        other => panic!("unexpected {:?}", other),
    }
    server.device_manager.add_comm_manager("TestCommManager".to_string()).unwrap();
    let scan = server.handle_message(ButtplugClientMessage::StartScanning(StartScanning { id: 2 }));
    assert_eq!(scan.message, ButtplugServerMessage::OkMessage(OkMessage { id: 2 }));
    assert_eq!(scan.scanning, Some(ScanningCommand::StartScanning));
    let added = server.device_manager.add_device(LOVEHONEY_DESIRE_PROTOCOL, "TestDevice", "AA:BB".to_string(), test_attributes(false)).unwrap();
    match &added {
        ButtplugServerMessage::DeviceAdded(d) => {
            assert_eq!(d.id, 0);
            assert_eq!(d.device_index, 1);
            assert_eq!(d.device_name, "TestDevice");
            let vib = d.device_messages.get(ButtplugCurrentSpecDeviceMessageType::VibrateCmd).unwrap();
            assert_eq!(vib.feature_count, Some(2));
            assert_eq!(vib.step_count, Some(vec![20, 20]));
        }
        other => panic!("unexpected {:?}", other),
    }
    let list = server.handle_message(ButtplugClientMessage::RequestDeviceList(RequestDeviceList { id: 3 }));
    match &list.message {
        ButtplugServerMessage::DeviceList(l) => {
            assert_eq!(l.id, 3);
            assert_eq!(l.devices.len(), 1);
            assert_eq!(l.devices[0].device_index, 1);
            assert_eq!(l.devices[0].device_name, "TestDevice");
            let vib = l.devices[0].device_messages.get(ButtplugCurrentSpecDeviceMessageType::VibrateCmd).unwrap();
            assert_eq!(vib.feature_count, Some(2));
            assert_eq!(vib.step_count, Some(vec![20, 20]));
        }
        other => panic!("unexpected {:?}", other),
    }
}

#[test]
fn vibration_deduplication_through_server() {
    let mut server = connected_server();
    let first = server.handle_message(vibrate_msg(4, &[(0, 0.5)]));
    assert_eq!(first.message.id(), 4);
    assert_eq!(first.writes.len(), 1);
    assert_eq!(first.writes[0].device_index, 1);
    assert_eq!(first.writes[0].commands, vec![tx(vec![0xF3, 0x01, 0x0A])]);
    let again = server.handle_message(vibrate_msg(5, &[(0, 0.5)]));
    assert!(again.writes[0].commands.is_empty());
    let both = server.handle_message(vibrate_msg(6, &[(0, 0.1), (1, 0.1)]));
    assert_eq!(both.writes[0].commands, vec![tx(vec![0xF3, 0x00, 0x02])]);
    let split = server.handle_message(vibrate_msg(7, &[(0, 0.0), (1, 0.5)]));
    assert_eq!(split.writes[0].commands, vec![tx(vec![0xF3, 0x01, 0x00]), tx(vec![0xF3, 0x02, 0x0A])]);
    let stop = server.handle_message(ButtplugClientMessage::StopDeviceCmd(StopDeviceCmd { id: 8, device_index: 1 }));
    assert_eq!(stop.message, ButtplugServerMessage::OkMessage(OkMessage { id: 8 }));
    assert_eq!(stop.writes[0].commands, vec![tx(vec![0xF3, 0x02, 0x00])]);
}

#[test]
fn ping_timeout_stops_devices_and_refuses_commands() {
    let mut server = connected_server();
    assert_eq!(server.max_ping_time(), 100);
    server.handle_message(vibrate_msg(2, &[(0, 0.5)]));
    let (event, writes) = server.ping_timeout();
    assert_eq!(event.id(), 0);
    assert_eq!(error_code(&event), Some(ErrorCode::ErrorPing));
    assert_eq!(writes.len(), 1);
    assert_eq!(writes[0].device_index, 1);
    // Motor 1 was never commanded, so both motors change to 0: one frame.
    assert_eq!(writes[0].commands, vec![tx(vec![0xF3, 0x00, 0x00])]);
    let refused = server.handle_message(vibrate_msg(3, &[(0, 0.5)]));
    assert_eq!(refused.message.id(), 3);
    assert_eq!(error_code(&refused.message), Some(ErrorCode::ErrorDevice));
    match &refused.message {
        ButtplugServerMessage::Error(e) => assert_eq!(e.error_message, PING_TIMED_OUT_TEXT),
        other => panic!("unexpected {:?}", other),
    }
    assert!(refused.writes.is_empty());
    // A new handshake lets commands through again.
    handshake(&mut server, ButtplugMessageSpecVersion::Version2);
    let accepted = server.handle_message(vibrate_msg(4, &[(0, 0.5)]));
    assert_eq!(accepted.message, ButtplugServerMessage::OkMessage(OkMessage { id: 4 }));
}

#[test]
fn version_zero_client_gets_no_battery_reading() {
    let mut server = ButtplugServer::new("Test Server", 0, false);
    handshake(&mut server, ButtplugMessageSpecVersion::Version0);
    assert_eq!(server.client_version(), Some(ButtplugMessageSpecVersion::Version0));
    let reading = ButtplugServerMessage::BatteryLevelReading(BatteryLevelReading { id: 0, device_index: 1, battery_level: VALUE_SCALE });
    assert_eq!(server.outgoing(reading), None);
    assert_eq!(
        server.outgoing(ButtplugServerMessage::OkMessage(OkMessage { id: 2 })),
        Some(VersionedServerMessage::V0(ButtplugSpecV0ServerMessage::OkMessage(OkMessage { id: 2 })))
    );
}

#[test]
fn responses_echo_request_ids() {
    let mut server = ButtplugServer::new("Test Server", 0, false);
    // Before the handshake: a handshake error, with the request's id.
    let early = server.handle_message(ButtplugClientMessage::Ping(Ping { id: 9 }));
    assert_eq!(early.message.id(), 9);
    assert_eq!(error_code(&early.message), Some(ErrorCode::ErrorHandshake));
    handshake(&mut server, ButtplugMessageSpecVersion::Version2);
    let ping = server.handle_message(ButtplugClientMessage::Ping(Ping { id: 10 }));
    assert_eq!(ping.message, ButtplugServerMessage::OkMessage(OkMessage { id: 10 }));
    assert!(ping.reset_ping_timer);
    // Invalid contents: a message error, still with the id.
    let invalid = server.handle_message(vibrate_msg(11, &[(0, 2.0)]));
    assert_eq!(invalid.message.id(), 11);
    assert_eq!(error_code(&invalid.message), Some(ErrorCode::ErrorMessage));
    // Unknown device.
    let unknown = server.handle_message(vibrate_msg(12, &[(0, 0.5)]));
    assert_eq!(unknown.message.id(), 12);
    assert_eq!(error_code(&unknown.message), Some(ErrorCode::ErrorDevice));
    // No comm manager registered.
    let scan = server.handle_message(ButtplugClientMessage::StartScanning(StartScanning { id: 13 }));
    assert_eq!(scan.message.id(), 13);
    assert_eq!(error_code(&scan.message), Some(ErrorCode::ErrorUnknown));
    // A fresh server takes the newest version.
    let mut fresh = ButtplugServer::new("Test Server", 0, false);
    let too_new = fresh.handle_message(ButtplugClientMessage::RequestServerInfo(RequestServerInfo {
        id: 14,
        client_name: "c".to_string(),
        message_version: ButtplugMessageSpecVersion::Version2,
    }));
    assert!(matches!(too_new.message, ButtplugServerMessage::ServerInfo(_)));
}

#[test]
fn scanning_finished_is_sent_once() {
    let mut manager = DeviceManager::new(false);
    manager.add_comm_manager("fast".to_string()).unwrap();
    manager.add_comm_manager("slow".to_string()).unwrap();
    manager.start_scanning().unwrap();
    assert!(manager.is_scanning());
    assert_eq!(manager.on_scanning_finished("fast"), None);
    let finished = manager.on_scanning_finished("slow").unwrap();
    assert_eq!(finished.id(), 0);
    assert!(matches!(finished, ButtplugServerMessage::ScanningFinished(_)));
    assert_eq!(manager.on_scanning_finished("slow"), None);
    assert_eq!(manager.on_scanning_finished("fast"), None);
}

#[test]
fn scanning_errors() {
    let mut manager = DeviceManager::new(false);
    assert_eq!(manager.start_scanning(), Err(ButtplugError::Unknown(ButtplugUnknownError::NoDeviceCommManagers)));
    assert_eq!(manager.stop_scanning(), Err(ButtplugError::Unknown(ButtplugUnknownError::NoDeviceCommManagers)));
    manager.add_comm_manager("bus".to_string()).unwrap();
    assert_eq!(
        manager.add_comm_manager("bus".to_string()),
        Err(ButtplugServerError::DeviceManagerTypeAlreadyAdded("bus".to_string()))
    );
    assert_eq!(manager.stop_scanning(), Err(ButtplugError::Device(ButtplugDeviceError::DeviceScanningAlreadyStopped)));
    manager.start_scanning().unwrap();
    assert_eq!(manager.start_scanning(), Err(ButtplugError::Device(ButtplugDeviceError::DeviceScanningAlreadyStarted)));
    assert_eq!(manager.stop_scanning(), Ok(()));
    let stop = manager.parse_message(ButtplugClientMessage::StopScanning(StopScanning { id: 5 })).unwrap();
    assert_eq!(stop.scanning, Some(ScanningCommand::StopScanning));
}

#[test]
fn device_indices_are_never_reused() {
    let mut manager = DeviceManager::new(false);
    let index_of = |m: ButtplugServerMessage| match m {
        ButtplugServerMessage::DeviceAdded(d) => d.device_index,
        other => panic!("unexpected {:?}", other),
    };
    let a = index_of(manager.add_device(LOVEHONEY_DESIRE_PROTOCOL, "A", "addr-a".to_string(), test_attributes(false)).unwrap());
    let b = index_of(manager.add_device(LOVEHONEY_DESIRE_PROTOCOL, "B", "addr-b".to_string(), test_attributes(false)).unwrap());
    assert_eq!((a, b), (1, 2));
    let removed = manager.on_device_removed(a).unwrap();
    assert_eq!(removed.id(), 0);
    assert_eq!(manager.on_device_removed(a), None);
    let c = index_of(manager.add_device(LOVEHONEY_DESIRE_PROTOCOL, "A", "addr-a".to_string(), test_attributes(false)).unwrap());
    assert_eq!(c, 3);
    assert_eq!(manager.device_info(a).unwrap_err(), ButtplugDeviceError::DeviceNotAvailable(1));
    let info = manager.device_info(c).unwrap();
    assert_eq!(info.address, "addr-a");
    assert_eq!(info.display_name, None);
}

#[test]
fn raw_messages_are_hidden_unless_allowed() {
    let mut hidden = DeviceManager::new(false);
    let mut shown = DeviceManager::new(true);
    let kinds = |m: ButtplugServerMessage| match m {
        ButtplugServerMessage::DeviceAdded(d) => d.device_messages.entries().iter().map(|(t, _)| *t).collect::<Vec<_>>(),
        other => panic!("unexpected {:?}", other),
    };
    let h = kinds(hidden.add_device(LOVEHONEY_DESIRE_PROTOCOL, "A", "a".to_string(), test_attributes(true)).unwrap());
    let s = kinds(shown.add_device(LOVEHONEY_DESIRE_PROTOCOL, "A", "a".to_string(), test_attributes(true)).unwrap());
    assert!(!h.contains(&ButtplugCurrentSpecDeviceMessageType::RawWriteCmd));
    assert!(s.contains(&ButtplugCurrentSpecDeviceMessageType::RawWriteCmd));
    assert_eq!(h.len() + 1, s.len());
}

#[test]
fn user_config_allows_and_denies() {
    let mut manager = DeviceManager::new(false);
    assert!(manager.device_permitted("a"));
    let mut deny = DeviceUserConfig::new();
    deny.set_deny(Some(true));
    manager.add_device_user_config("a", deny);
    assert!(!manager.device_permitted("a"));
    assert!(manager.device_permitted("b"));
    let mut allow = DeviceUserConfig::new();
    allow.set_allow(Some(true));
    allow.set_display_name(Some("Mine".to_string()));
    manager.add_device_user_config("c", allow);
    // An allow list is now in use: only listed devices may be enumerated.
    assert!(manager.device_permitted("c"));
    assert!(!manager.device_permitted("b"));
    manager.remove_device_user_config("c");
    assert!(manager.device_permitted("b"));
    manager.add_device_user_config("d", {
        let mut named = DeviceUserConfig::new();
        named.set_display_name(Some("Named".to_string()));
        named
    });
    let added = manager.add_device(LOVEHONEY_DESIRE_PROTOCOL, "D", "d".to_string(), test_attributes(false)).unwrap();
    assert!(added.is_server_event());
    let info = manager.device_info(1).unwrap();
    assert_eq!(info.display_name, Some("Named".to_string()));
}

#[test]
fn protocols_register_once() {
    let mut manager = DeviceManager::new(false);
    manager.add_protocol("lovehoney-desire").unwrap();
    assert!(manager.has_protocol("lovehoney-desire"));
    assert!(matches!(manager.add_protocol("lovehoney-desire"), Err(ButtplugServerError::ProtocolAlreadyAdded(_))));
    manager.remove_protocol("lovehoney-desire").unwrap();
    assert!(matches!(manager.remove_protocol("lovehoney-desire"), Err(ButtplugServerError::ProtocolDoesNotExist(_))));
    manager.add_protocol("a").unwrap();
    manager.add_protocol("b").unwrap();
    manager.remove_all_protocols();
    assert!(!manager.has_protocol("a"));
}

#[test]
fn manager_routes_messages() {
    let mut manager = DeviceManager::new(false);
    manager.add_device(LOVEHONEY_DESIRE_PROTOCOL, "TestDevice", "x".to_string(), test_attributes(false)).unwrap();
    let routed = manager.parse_message(vibrate_msg(2, &[(0, 0.5)])).unwrap();
    assert_eq!(routed.message.id(), 2);
    assert_eq!(routed.writes[0].commands, vec![tx(vec![0xF3, 0x01, 0x0A])]);
    let mut missing = VibrateCmd::new(7, vec![]);
    missing.id = 3;
    assert_eq!(
        manager.parse_message(ButtplugClientMessage::VibrateCmd(missing)).unwrap_err(),
        ButtplugError::Device(ButtplugDeviceError::DeviceNotAvailable(7))
    );
    assert!(matches!(
        manager.parse_message(ButtplugClientMessage::Ping(Ping { id: 4 })),
        Err(ButtplugError::Message(_))
    ));
    let raw = RawWriteCmd { id: 5, device_index: 1, endpoint: Endpoint::Tx, data: vec![1], write_with_response: false };
    assert!(matches!(
        manager.parse_message(ButtplugClientMessage::RawWriteCmd(raw)),
        Err(ButtplugError::Device(ButtplugDeviceError::MessageNotSupported(_)))
    ));
    let all = manager.parse_message(ButtplugClientMessage::StopAllDevices(StopAllDevices { id: 6 })).unwrap();
    assert_eq!(all.message, ButtplugServerMessage::OkMessage(OkMessage { id: 6 }));
    assert_eq!(all.writes.len(), 1);
    assert_eq!(all.writes[0].commands, vec![tx(vec![0xF3, 0x00, 0x00])]);
}

#[test]
fn device_connection_life_cycle() {

    assert_eq!(next_connection_state(DeviceConnectionState::Disconnected, ConnectionEvent::ConnectRequested), DeviceConnectionState::Connecting);
    assert_eq!(next_connection_state(DeviceConnectionState::Connecting, ConnectionEvent::ConnectSucceeded), DeviceConnectionState::Connected);
    assert_eq!(next_connection_state(DeviceConnectionState::Connecting, ConnectionEvent::ConnectFailed), DeviceConnectionState::Disconnected);
    assert_eq!(next_connection_state(DeviceConnectionState::Connected, ConnectionEvent::DisconnectRequested), DeviceConnectionState::Disconnecting);
    assert_eq!(next_connection_state(DeviceConnectionState::Disconnecting, ConnectionEvent::DisconnectFinished), DeviceConnectionState::Disconnected);
    assert_eq!(next_connection_state(DeviceConnectionState::Connected, ConnectionEvent::Lost), DeviceConnectionState::Disconnected);
    assert_eq!(next_connection_state(DeviceConnectionState::Connected, ConnectionEvent::ConnectRequested), DeviceConnectionState::Connected);
}

#[test]
fn bus_replies_become_results() {
    assert_eq!(command_outcome(ButtplugDeviceReturn::Done), Ok(()));
    assert_eq!(
        command_outcome(ButtplugDeviceReturn::Error("gone".to_string())),
        Err(ButtplugError::Device(ButtplugDeviceError::DeviceCommunicationError("gone".to_string())))
    );
    assert!(matches!(command_outcome(ButtplugDeviceReturn::Connected(vec![])), Err(ButtplugError::Unknown(_))));
    assert_eq!(connection_outcome(ButtplugDeviceReturn::Connected(vec![Endpoint::Tx])), Ok(vec![Endpoint::Tx]));
    assert!(matches!(connection_outcome(ButtplugDeviceReturn::Error("no".to_string())), Err(ButtplugError::Device(_))));
    assert!(matches!(connection_outcome(ButtplugDeviceReturn::Done), Err(ButtplugError::Unknown(_))));
    assert_eq!(connection_precheck(true, true), Ok(()));
    assert_eq!(
        connection_precheck(false, true),
        Err(ButtplugError::Device(ButtplugDeviceError::DeviceConnectionError(
            "Cannot call try_create_device_impl twice!".to_string()
        )))
    );
    assert_eq!(
        connection_precheck(true, false),
        Err(ButtplugError::Device(ButtplugDeviceError::DeviceConnectionError(
            "Got a protocol with no Bluetooth Definition!".to_string()
        )))
    );
}

fn btle_definition(names: &[&str]) -> ProtocolDefinition {
    ProtocolDefinition {
        btle: Some(BluetoothLESpecifier {
            names: names.iter().map(|n| n.to_string()).collect(),
            endpoints: vec![(Endpoint::Tx, "0000fff1-0000-1000-8000-00805f9b34fb".to_string())],
        }),
    }
}

#[test]
fn protocol_definitions_pick_first_match() {
    let mut manager = DeviceManager::new(false);
    assert_eq!(manager.protocol_for_device("PROSTATE VIBE"), None);
    manager.add_protocol_definition("lovehoney-desire", btle_definition(&["PROSTATE VIBE", "KNICKER VIBE"]));
    manager.add_protocol_definition("other", btle_definition(&["PROSTATE VIBE", "OTHER"]));
    manager.add_protocol_definition("serial-only", ProtocolDefinition { btle: None });
    assert_eq!(manager.protocol_for_device("KNICKER VIBE"), Some("lovehoney-desire".to_string()));
    assert_eq!(manager.protocol_for_device("PROSTATE VIBE"), Some("lovehoney-desire".to_string()));
    assert_eq!(manager.protocol_for_device("OTHER"), Some("other".to_string()));
    assert_eq!(manager.protocol_for_device("UNKNOWN"), None);
    // Replacing keeps the registration order.
    manager.add_protocol_definition("lovehoney-desire", btle_definition(&["KNICKER VIBE"]));
    assert_eq!(manager.protocol_for_device("PROSTATE VIBE"), Some("other".to_string()));
    manager.remove_protocol_definition("other");
    assert_eq!(manager.protocol_for_device("PROSTATE VIBE"), None);
    assert_eq!(manager.protocol_for_device("KNICKER VIBE"), Some("lovehoney-desire".to_string()));
}

#[test]
fn found_devices_need_a_protocol_and_permission() {
    let mut manager = DeviceManager::new(false);
    assert_eq!(manager.device_found("PROSTATE VIBE", "aa"), None);
    manager.add_protocol_definition("lovehoney-desire", btle_definition(&["PROSTATE VIBE"]));
    // The definition alone is not enough: the protocol must be registered.
    assert_eq!(manager.device_found("PROSTATE VIBE", "aa"), None);
    manager.add_protocol(LOVEHONEY_DESIRE_PROTOCOL).unwrap();
    assert_eq!(manager.device_found("PROSTATE VIBE", "aa"), Some("lovehoney-desire".to_string()));
    assert_eq!(manager.device_found("SOMETHING ELSE", "aa"), None);
    let mut deny = DeviceUserConfig::new();
    deny.set_deny(Some(true));
    manager.add_device_user_config("aa", deny);
    assert_eq!(manager.device_found("PROSTATE VIBE", "aa"), None);
    assert_eq!(manager.device_found("PROSTATE VIBE", "bb"), Some("lovehoney-desire".to_string()));
}

#[test]
fn add_device_refuses_unknown_protocols_and_inconsistent_attributes() {
    let mut manager = DeviceManager::new(false);
    assert!(matches!(
        manager.add_device("no-such-protocol", "A", "a".to_string(), test_attributes(false)),
        Err(ButtplugError::Device(ButtplugDeviceError::DeviceConnectionError(_)))
    ));
    let mut short = DeviceMessageAttributesMap::new();
    short.insert(
        ButtplugCurrentSpecDeviceMessageType::VibrateCmd,
        DeviceMessageAttributes { feature_count: Some(2), step_count: Some(vec![20]) },
    );
    assert!(manager.add_device(LOVEHONEY_DESIRE_PROTOCOL, "A", "a".to_string(), short).is_err());
    // Nothing was registered, so the first accepted device still gets index 1.
    match manager.add_device(LOVEHONEY_DESIRE_PROTOCOL, "A", "a".to_string(), test_attributes(false)).unwrap() {
        ButtplugServerMessage::DeviceAdded(d) => assert_eq!(d.device_index, 1),
        other => panic!("unexpected {:?}", other),
    }
}
