use buttplug_core::command_manager::{quantize_value, GenericCommandManager};
use buttplug_core::device::{create_device, ConnectionEvent, DeviceConnectionState, DeviceWriteCmd};
use buttplug_core::errors::{ButtplugDeviceError, ButtplugError};
use buttplug_core::lovehoney_desire::LovehoneyDesire;
use buttplug_core::message_types::ButtplugCurrentSpecDeviceMessageType;
use buttplug_core::messages::{
    ButtplugMessageError, DeviceMessageAttributes, DeviceMessageAttributesMap, Endpoint, ErrorCode,
    LinearCmd, RotateCmd, RotationSubcommand, StopDeviceCmd, VectorSubcommand, VibrateCmd,
    VibrateSubcommand, VALUE_SCALE,
};
use buttplug_core::unions::{ButtplugDeviceCommandMessageUnion, ButtplugServerMessage};

fn speed(x: f64) -> i64 {
    (x * VALUE_SCALE as f64).round() as i64
}

fn attributes(kind: ButtplugCurrentSpecDeviceMessageType, steps: Vec<u32>) -> DeviceMessageAttributesMap {
    let mut m = DeviceMessageAttributesMap::new();
    m.insert(
        kind,
        DeviceMessageAttributes { feature_count: Some(steps.len() as u32), step_count: Some(steps) },
    );
    m
}

fn desire(steps: u32) -> LovehoneyDesire {
    LovehoneyDesire::new(
        "PROSTATE VIBE",
        attributes(ButtplugCurrentSpecDeviceMessageType::VibrateCmd, vec![steps, steps]),
    )
}

fn tx(data: Vec<u8>) -> DeviceWriteCmd {
    DeviceWriteCmd::new(Endpoint::Tx, data, false)
}

fn vibrate(device: &mut LovehoneyDesire, speeds: &[(u32, f64)]) -> Vec<DeviceWriteCmd> {
    let subs = speeds.iter().map(|(i, s)| VibrateSubcommand::new(*i, speed(*s))).collect();
    let (response, writes) = device
        .parse_message(ButtplugDeviceCommandMessageUnion::VibrateCmd(VibrateCmd::new(0, subs)))
        .unwrap();
    assert!(matches!(response, ButtplugServerMessage::OkMessage(_)));
    writes
}

#[test]
fn test_lovehoney_desire_protocol() {
    let mut device = desire(127);
    // One speed to one motor: one frame for that motor.
    assert_eq!(vibrate(&mut device, &[(0, 0.5)]), vec![tx(vec![0xF3, 0x1, 0x3f])]);
    // The same speed to both motors: one frame for both.
    assert_eq!(vibrate(&mut device, &[(0, 0.1), (1, 0.1)]), vec![tx(vec![0xF3, 0x0, 0x0c])]);
    // Different speeds: one frame per motor, each with its number.
    assert_eq!(
        vibrate(&mut device, &[(0, 0.0), (1, 0.5)]),
        vec![tx(vec![0xF3, 0x01, 0x00]), tx(vec![0xF3, 0x02, 0x3f])]
    );
    let (_, writes) = device
        .parse_message(ButtplugDeviceCommandMessageUnion::StopDeviceCmd(StopDeviceCmd::new(0)))
        .unwrap();
    assert_eq!(writes, vec![tx(vec![0xF3, 0x02, 0x0])]);
}

#[test]
fn desire_deduplicates_with_twenty_steps() {
    let mut device = desire(20);
    assert_eq!(vibrate(&mut device, &[(0, 0.5)]), vec![tx(vec![0xF3, 0x01, 0x0A])]);
    assert_eq!(vibrate(&mut device, &[(0, 0.5)]), vec![]);
    assert_eq!(vibrate(&mut device, &[(0, 0.1), (1, 0.1)]), vec![tx(vec![0xF3, 0x00, 0x02])]);
    assert_eq!(
        vibrate(&mut device, &[(0, 0.0), (1, 0.5)]),
        vec![tx(vec![0xF3, 0x01, 0x00]), tx(vec![0xF3, 0x02, 0x0A])]
    );
    assert_eq!(device.handle_stop_device_cmd(), vec![tx(vec![0xF3, 0x02, 0x00])]);
}

#[test]
fn desire_rejects_unknown_motor_and_other_commands() {
    let mut device = desire(20);
    let bad = VibrateCmd::new(0, vec![VibrateSubcommand::new(2, speed(0.5))]);
    assert!(device.handle_vibrate_cmd(&bad).is_err());
    let rotate = RotateCmd { id: 3, device_index: 0, rotations: vec![] };
    assert!(device.parse_message(ButtplugDeviceCommandMessageUnion::RotateCmd(rotate)).is_err());
}

#[test]
fn desire_response_keeps_request_id() {
    let mut device = desire(20);
    let mut cmd = VibrateCmd::new(0, vec![VibrateSubcommand::new(0, speed(0.3))]);
    cmd.id = 42;
    let (response, _) = device.parse_message(ButtplugDeviceCommandMessageUnion::VibrateCmd(cmd)).unwrap();
    match response {
        ButtplugServerMessage::OkMessage(ok) => assert_eq!(ok.id, 42),
        other => panic!("unexpected response {:?}", other),
    }
}

#[test]
fn quantize_rounds_down() {
    assert_eq!(quantize_value(speed(0.5), 20), 10);
    assert_eq!(quantize_value(speed(0.5), 127), 63);
    assert_eq!(quantize_value(speed(0.1), 127), 12);
    assert_eq!(quantize_value(speed(1.0), 127), 127);
    assert_eq!(quantize_value(0, 127), 0);
}

#[test]
fn command_manager_has_one_entry_per_feature() {
    let mut attrs = attributes(ButtplugCurrentSpecDeviceMessageType::VibrateCmd, vec![20, 20, 20]);
    attrs.insert(
        ButtplugCurrentSpecDeviceMessageType::RotateCmd,
        DeviceMessageAttributes { feature_count: Some(1), step_count: Some(vec![10]) },
    );
    let mut manager = GenericCommandManager::new(&attrs);
    assert_eq!(manager.vibration_feature_count(), 3);
    assert_eq!(manager.rotation_feature_count(), 1);
    assert_eq!(manager.linear_feature_count(), 0);
    let cmd = VibrateCmd::new(0, vec![VibrateSubcommand::new(1, speed(1.0))]);
    let result = manager.update_vibration(&cmd, false).unwrap().unwrap();
    assert_eq!(result, vec![None, Some(20), None]);
    assert_eq!(manager.vibration_feature_count(), 3);
    let stops = manager.get_stop_commands();
    assert_eq!(stops.len(), 2);
    match &stops[0] {
        ButtplugDeviceCommandMessageUnion::VibrateCmd(v) => {
            assert_eq!(v.speeds.len(), 3);
            assert!(v.speeds.iter().all(|s| s.speed == 0));
        }
        other => panic!("unexpected stop command {:?}", other),
    }
    assert!(matches!(stops[1], ButtplugDeviceCommandMessageUnion::RotateCmd(_)));
}

#[test]
fn repeated_vibration_with_sent_all_once_is_silent() {
    let attrs = attributes(ButtplugCurrentSpecDeviceMessageType::VibrateCmd, vec![20, 20]);
    let mut manager = GenericCommandManager::new(&attrs);
    let cmd = VibrateCmd::new(0, vec![VibrateSubcommand::new(0, speed(0.5)), VibrateSubcommand::new(1, speed(0.25))]);
    assert_eq!(manager.update_vibration(&cmd, true).unwrap(), Some(vec![Some(10), Some(5)]));
    assert_eq!(manager.update_vibration(&cmd, true).unwrap(), None);
    // Without sent_all_once the unchanged motors come back as `None`.
    assert_eq!(manager.update_vibration(&cmd, false).unwrap(), Some(vec![None, None]));
}

#[test]
fn vibration_validation_errors() {
    let attrs = attributes(ButtplugCurrentSpecDeviceMessageType::VibrateCmd, vec![20, 20]);
    let mut manager = GenericCommandManager::new(&attrs);
    let out_of_range = VibrateCmd::new(0, vec![VibrateSubcommand::new(0, speed(1.5))]);
    assert!(matches!(
        manager.update_vibration(&out_of_range, false),
        Err(ButtplugMessageError::InvalidMessageContents(_))
    ));
    let negative = VibrateCmd::new(0, vec![VibrateSubcommand::new(0, -1)]);
    assert!(manager.update_vibration(&negative, false).is_err());
    let duplicate = VibrateCmd::new(0, vec![VibrateSubcommand::new(0, 0), VibrateSubcommand::new(0, 0)]);
    assert!(manager.update_vibration(&duplicate, false).is_err());
    let missing = VibrateCmd::new(0, vec![VibrateSubcommand::new(5, 0)]);
    assert!(manager.update_vibration(&missing, false).is_err());
    // A refused command leaves the cache as it was.
    let ok = VibrateCmd::new(0, vec![VibrateSubcommand::new(0, speed(0.5))]);
    assert_eq!(manager.update_vibration(&ok, false).unwrap(), Some(vec![Some(10), None]));
}

#[test]
fn rotation_and_linear_are_deduplicated() {
    let mut attrs = attributes(ButtplugCurrentSpecDeviceMessageType::RotateCmd, vec![100]);
    attrs.insert(
        ButtplugCurrentSpecDeviceMessageType::LinearCmd,
        DeviceMessageAttributes { feature_count: Some(1), step_count: Some(vec![99]) },
    );
    let mut manager = GenericCommandManager::new(&attrs);
    let rotate = RotateCmd {
        id: 1,
        device_index: 0,
        rotations: vec![RotationSubcommand { index: 0, speed: speed(0.5), clockwise: true }],
    };
    assert_eq!(manager.update_rotation(&rotate, true).unwrap(), Some(vec![Some((50, true))]));
    assert_eq!(manager.update_rotation(&rotate, true).unwrap(), None);
    let reverse = RotateCmd {
        id: 1,
        device_index: 0,
        rotations: vec![RotationSubcommand { index: 0, speed: speed(0.5), clockwise: false }],
    };
    assert_eq!(manager.update_rotation(&reverse, true).unwrap(), Some(vec![Some((50, false))]));
    let linear = LinearCmd {
        id: 1,
        device_index: 0,
        vectors: vec![VectorSubcommand { index: 0, duration: 500, position: speed(1.0) }],
    };
    assert_eq!(manager.update_linear(&linear, true).unwrap(), Some(vec![Some((500, 99))]));
    assert_eq!(manager.update_linear(&linear, true).unwrap(), None);
    let bad = LinearCmd {
        id: 1,
        device_index: 0,
        vectors: vec![VectorSubcommand { index: 0, duration: 500, position: speed(2.0) }],
    };
    assert!(manager.update_linear(&bad, true).is_err());
}

#[test]
fn only_connected_devices_take_commands() {
    let mut device = create_device(
        "PROSTATE VIBE",
        "11:22".to_string(),
        Some("Mine".to_string()),
        attributes(ButtplugCurrentSpecDeviceMessageType::VibrateCmd, vec![20, 20]),
    );
    assert_eq!(device.connection_state(), DeviceConnectionState::Connected);
    assert_eq!(device.address(), "11:22");
    assert_eq!(device.display_name(), &Some("Mine".to_string()));
    device.on_connection_event(ConnectionEvent::DisconnectRequested);
    assert_eq!(device.connection_state(), DeviceConnectionState::Disconnecting);
    let cmd = ButtplugDeviceCommandMessageUnion::StopDeviceCmd(StopDeviceCmd::new(0));
    assert!(matches!(
        device.parse_message(cmd),
        Err(ButtplugError::Device(
            ButtplugDeviceError::DeviceNotConnected(_)
        ))
    ));
}

#[test]
fn errors_map_to_protocol_codes() {
    let cases = vec![
        (ButtplugError::Ping("late".to_string()), ErrorCode::ErrorPing),
        (ButtplugError::Handshake("first".to_string()), ErrorCode::ErrorHandshake),
        (
            ButtplugError::Message(ButtplugMessageError::VersionError("ButtplugServerMessage".to_string(), "BatteryLevelReading".to_string(), "ButtplugSpecV0ServerMessage".to_string())),
            ErrorCode::ErrorMessage,
        ),
    ];
    for (error, code) in cases {
        let message = error.to_error_message(17);
        assert_eq!(message.id, 17);
        assert_eq!(message.error_code, code);
    }
}
