use buttplug_core::conversion::{downgrade_server_message, VersionedServerMessage};
use buttplug_core::message_types::{
    ButtplugCurrentSpecDeviceMessageType, ButtplugDeviceMessageType, ButtplugMessageSpecVersion,
};
use buttplug_core::messages::{
    BatteryLevelReading, ButtplugMessageError, DeviceAdded, DeviceList, DeviceMessageAttributes,
    DeviceMessageAttributesMap, DeviceMessageInfo, Error, ErrorCode, OkMessage, Ping,
    ServerInfo, SingleMotorVibrateCmd, VibrateCmd, VibrateSubcommand, VALUE_SCALE,
};
use buttplug_core::unions::{
    ButtplugDeviceMessage,
    ButtplugClientMessage, ButtplugDeviceCommandMessageUnion, ButtplugDeviceManagerMessageUnion,
    ButtplugMessage, ButtplugServerMessage, ButtplugSpecV0ServerMessage,
    ButtplugSpecV1ServerMessage, ButtplugSpecV2ClientMessage, ButtplugSpecV2ServerMessage,
};
use buttplug_core::validation::ButtplugMessageValidator;

const ALL_TYPES: [ButtplugDeviceMessageType; 15] = [
    ButtplugDeviceMessageType::VibrateCmd,
    ButtplugDeviceMessageType::LinearCmd,
    ButtplugDeviceMessageType::RotateCmd,
    ButtplugDeviceMessageType::StopDeviceCmd,
    ButtplugDeviceMessageType::RawWriteCmd,
    ButtplugDeviceMessageType::RawReadCmd,
    ButtplugDeviceMessageType::RawSubscribeCmd,
    ButtplugDeviceMessageType::RawUnsubscribeCmd,
    ButtplugDeviceMessageType::BatteryLevelCmd,
    ButtplugDeviceMessageType::RSSILevelCmd,
    ButtplugDeviceMessageType::SingleMotorVibrateCmd,
    ButtplugDeviceMessageType::FleshlightLaunchFW12Cmd,
    ButtplugDeviceMessageType::LovenseCmd,
    ButtplugDeviceMessageType::KiirooCmd,
    ButtplugDeviceMessageType::VorzeA10CycloneCmd,
];

fn attrs(count: u32) -> DeviceMessageAttributes {
    DeviceMessageAttributes { feature_count: Some(count), step_count: Some(vec![20; count as usize]) }
}

#[test]
fn message_types_order_by_name() {
    for a in ALL_TYPES.iter() {
        for b in ALL_TYPES.iter() {
            assert_eq!(a.sorts_before(b), a.name() < b.name(), "{} {}", a.name(), b.name());
            assert_eq!(a < b, a.name() < b.name());
        }
    }
    assert!(ButtplugDeviceMessageType::RSSILevelCmd.sorts_before(&ButtplugDeviceMessageType::RawReadCmd));
}

#[test]
fn attribute_map_keeps_name_order() {
    let mut m = DeviceMessageAttributesMap::new();
    m.insert(ButtplugCurrentSpecDeviceMessageType::VibrateCmd, attrs(2));
    m.insert(ButtplugCurrentSpecDeviceMessageType::BatteryLevelCmd, attrs(1));
    m.insert(ButtplugCurrentSpecDeviceMessageType::RawWriteCmd, attrs(1));
    m.insert(ButtplugCurrentSpecDeviceMessageType::RSSILevelCmd, attrs(1));
    m.insert(ButtplugCurrentSpecDeviceMessageType::VibrateCmd, attrs(3));
    let names: Vec<&str> = m.entries().iter().map(|(t, _)| t.name()).collect();
    assert_eq!(names, vec!["BatteryLevelCmd", "RSSILevelCmd", "RawWriteCmd", "VibrateCmd"]);
    assert_eq!(m.get(ButtplugCurrentSpecDeviceMessageType::VibrateCmd).unwrap().feature_count, Some(3));
    assert!(m.get(ButtplugCurrentSpecDeviceMessageType::LinearCmd).is_none());
}

#[test]
fn current_message_types_convert() {
    assert_eq!(
        ButtplugCurrentSpecDeviceMessageType::try_from_general(ButtplugDeviceMessageType::VibrateCmd),
        Ok(ButtplugCurrentSpecDeviceMessageType::VibrateCmd)
    );
    assert!(matches!(
        ButtplugCurrentSpecDeviceMessageType::try_from_general(ButtplugDeviceMessageType::KiirooCmd),
        Err(ButtplugMessageError::MessageConversionError(_))
    ));
    assert_eq!(
        ButtplugDeviceMessageType::from_current(ButtplugCurrentSpecDeviceMessageType::RawReadCmd),
        ButtplugDeviceMessageType::RawReadCmd
    );
    assert_eq!(ButtplugMessageSpecVersion::from_u32(1), Some(ButtplugMessageSpecVersion::Version1));
    assert_eq!(ButtplugMessageSpecVersion::from_u32(3), None);
    assert!(ButtplugMessageSpecVersion::Version0 < ButtplugMessageSpecVersion::Version2);
}

#[test]
fn client_validation_checks_ids_and_ranges() {
    let ok = ButtplugClientMessage::VibrateCmd(VibrateCmd::new(
        1,
        vec![VibrateSubcommand::new(0, 0), VibrateSubcommand::new(1, VALUE_SCALE)],
    ));
    assert!(ok.is_valid().is_ok());
    let high = ButtplugClientMessage::VibrateCmd(VibrateCmd::new(1, vec![VibrateSubcommand::new(0, VALUE_SCALE + 1)]));
    assert!(matches!(high.is_valid(), Err(ButtplugMessageError::InvalidMessageContents(_))));
    let low = ButtplugClientMessage::SingleMotorVibrateCmd(SingleMotorVibrateCmd { id: 1, device_index: 0, speed: -1 });
    assert!(low.is_valid().is_err());
    let zero_id = ButtplugClientMessage::Ping(Ping { id: 0 });
    assert!(zero_id.is_valid().is_err());
    assert!(ButtplugClientMessage::Ping(Ping { id: 7 }).is_valid().is_ok());
}

#[test]
fn server_validation_wants_event_ids_on_events() {
    let event = ButtplugServerMessage::DeviceAdded(DeviceAdded {
        id: 0,
        device_index: 1,
        device_name: "TestDevice".to_string(),
        device_messages: DeviceMessageAttributesMap::new(),
    });
    assert!(event.is_valid().is_ok());
    assert!(event.is_server_event());
    let mut bad = event.clone();
    bad.set_id(4);
    assert_eq!(bad.id(), 4);
    assert!(bad.is_valid().is_err());
    assert!(ButtplugServerMessage::OkMessage(OkMessage { id: 3 }).is_valid().is_ok());
}

#[test]
fn unions_pick_their_messages() {
    let vibrate = ButtplugClientMessage::VibrateCmd(VibrateCmd::new(3, vec![]));
    let device = ButtplugDeviceCommandMessageUnion::try_from_client(vibrate.clone()).unwrap();

    assert_eq!(device.device_index(), 3);
    assert_eq!(device.into_client_message(), vibrate);
    assert!(ButtplugDeviceManagerMessageUnion::try_from_client(vibrate.clone()).is_err());
    let ping = ButtplugClientMessage::Ping(Ping { id: 5 });
    assert_eq!(ButtplugDeviceCommandMessageUnion::try_from_client(ping.clone()), Err(ping.clone()));
    let v2 = ButtplugSpecV2ClientMessage::Ping(Ping { id: 5 });
    assert_eq!(v2.into_client_message(), ping);
}

fn battery() -> ButtplugServerMessage {
    ButtplugServerMessage::BatteryLevelReading(BatteryLevelReading { id: 9, device_index: 1, battery_level: VALUE_SCALE })
}

#[test]
fn down_conversion_follows_versions() {
    assert_eq!(
        ButtplugSpecV0ServerMessage::try_from_server(battery()),
        Err(ButtplugMessageError::VersionError(
            "ButtplugServerMessage".to_string(),
            "BatteryLevelReading".to_string(),
            "ButtplugSpecV0ServerMessage".to_string()
        ))
    );
    assert!(matches!(
        ButtplugSpecV1ServerMessage::try_from_server(battery()),
        Err(ButtplugMessageError::VersionError(..))
    ));
    assert!(matches!(
        ButtplugSpecV2ServerMessage::try_from_server(battery()),
        Ok(ButtplugSpecV2ServerMessage::BatteryLevelReading(_))
    ));
    let ok = ButtplugServerMessage::OkMessage(OkMessage { id: 2 });
    assert_eq!(
        downgrade_server_message(ok, ButtplugMessageSpecVersion::Version0),
        Ok(VersionedServerMessage::V0(ButtplugSpecV0ServerMessage::OkMessage(OkMessage { id: 2 })))
    );
    let error = ButtplugServerMessage::Error(Error { id: 4, error_code: ErrorCode::ErrorDevice, error_message: "x".to_string() });
    match ButtplugSpecV1ServerMessage::try_from_server(error).unwrap() {
        ButtplugSpecV1ServerMessage::Error(e) => {
            assert_eq!(e.id, 4);
            assert_eq!(e.error_code, ErrorCode::ErrorDevice);
        }
        other => panic!("unexpected {:?}", other),
    }
}

#[test]
fn old_versions_drop_and_synthesize_fields() {
    let info = ButtplugServerMessage::ServerInfo(ServerInfo {
        id: 1,
        server_name: "Server".to_string(),
        message_version: ButtplugMessageSpecVersion::Version2,
        max_ping_time: 100,
    });
    match ButtplugSpecV0ServerMessage::try_from_server(info).unwrap() {
        ButtplugSpecV0ServerMessage::ServerInfo(s) => {
            assert_eq!(s.server_name, "Server");
            assert_eq!((s.major_version, s.minor_version, s.build_version), (0, 0, 0));
            assert_eq!(s.max_ping_time, 100);
        }
        other => panic!("unexpected {:?}", other),
    }
    let mut messages = DeviceMessageAttributesMap::new();
    messages.insert(ButtplugCurrentSpecDeviceMessageType::VibrateCmd, attrs(2));
    messages.insert(ButtplugCurrentSpecDeviceMessageType::StopDeviceCmd, DeviceMessageAttributes { feature_count: None, step_count: None });
    let list = ButtplugServerMessage::DeviceList(DeviceList {
        id: 3,
        devices: vec![DeviceMessageInfo { device_index: 1, device_name: "TestDevice".to_string(), device_messages: messages.clone() }],
    });
    match ButtplugSpecV1ServerMessage::try_from_server(list.clone()).unwrap() {
        ButtplugSpecV1ServerMessage::DeviceList(l) => {
            assert_eq!(l.id, 3);
            assert_eq!(l.devices.len(), 1);
            assert_eq!(l.devices[0].device_messages.len(), 2);
            assert_eq!(l.devices[0].device_messages[1].0, ButtplugCurrentSpecDeviceMessageType::VibrateCmd);
            assert_eq!(l.devices[0].device_messages[1].1.feature_count, Some(2));
        }
        other => panic!("unexpected {:?}", other),
    }
    match ButtplugSpecV0ServerMessage::try_from_server(list).unwrap() {
        ButtplugSpecV0ServerMessage::DeviceList(l) => {
            assert_eq!(
                l.devices[0].device_messages,
                vec![ButtplugDeviceMessageType::StopDeviceCmd, ButtplugDeviceMessageType::VibrateCmd]
            );
        }
        other => panic!("unexpected {:?}", other),
    }
}
