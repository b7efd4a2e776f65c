//! Message unions: all client and server messages, their per-version
//! subsets, and the subsets that the device manager routes.
use vstd::prelude::*;

use crate::messages::{
    BatteryLevelCmd, BatteryLevelReading, DeviceAdded, DeviceAddedV0, DeviceAddedV1, DeviceList, DeviceListV0, DeviceListV1, DeviceRemoved, Error, ErrorV0, FleshlightLaunchFW12Cmd, KiirooCmd, LinearCmd, Log, LovenseCmd, OkMessage, Ping, RSSILevelCmd, RSSILevelReading, RawReadCmd, RawReading, RawSubscribeCmd, RawUnsubscribeCmd, RawWriteCmd, RequestDeviceList, RequestLog, RequestServerInfo, RotateCmd, ScanningFinished, ServerInfo, ServerInfoV0, SingleMotorVibrateCmd, StartScanning, StopAllDevices, StopDeviceCmd, StopScanning, Test, VibrateCmd, VorzeA10CycloneCmd, BUTTPLUG_SERVER_EVENT_ID,
};

verus! {

/// Id handling shared by every message.
pub trait ButtplugMessage: Sized {
    spec fn spec_id(&self) -> u32;

    /// The same message with another id.
    spec fn spec_with_id(self, id: u32) -> Self;

    fn id(&self) -> (r: u32)
        ensures
            r == self.spec_id(),
    ;

    fn set_id(&mut self, id: u32)
        ensures
            *final(self) == old(self).spec_with_id(id),
    ;

    /// True if the message is an event that the server sent on its own.
    fn is_server_event(&self) -> (r: bool)
        ensures
            r == (self.spec_id() == BUTTPLUG_SERVER_EVENT_ID),
    {
        self.id() == BUTTPLUG_SERVER_EVENT_ID
    }
}

/// Marks the messages that travel from client to server.
pub trait ButtplugClientMessageType: ButtplugMessage {}

/// Marks the messages that travel from server to client.
pub trait ButtplugServerMessageType: ButtplugMessage {}

/// Messages addressed to one device.
pub trait ButtplugDeviceMessage: ButtplugMessage {
    spec fn spec_device_index(&self) -> u32;

    spec fn spec_with_device_index(self, device_index: u32) -> Self;

    fn device_index(&self) -> (r: u32)
        ensures
            r == self.spec_device_index(),
    ;

    fn set_device_index(&mut self, device_index: u32)
        ensures
            *final(self) == old(self).spec_with_device_index(device_index),
    ;
}

/// Every message a client can send, in any protocol version.
#[derive(Debug, Clone, PartialEq)]
pub enum ButtplugClientMessage {
    Ping(Ping),
    RequestLog(RequestLog),
    RequestServerInfo(RequestServerInfo),
    StartScanning(StartScanning),
    StopScanning(StopScanning),
    RequestDeviceList(RequestDeviceList),
    StopAllDevices(StopAllDevices),
    VibrateCmd(VibrateCmd),
    LinearCmd(LinearCmd),
    RotateCmd(RotateCmd),
    RawWriteCmd(RawWriteCmd),
    RawReadCmd(RawReadCmd),
    StopDeviceCmd(StopDeviceCmd),
    RawSubscribeCmd(RawSubscribeCmd),
    RawUnsubscribeCmd(RawUnsubscribeCmd),
    BatteryLevelCmd(BatteryLevelCmd),
    RSSILevelCmd(RSSILevelCmd),
    SingleMotorVibrateCmd(SingleMotorVibrateCmd),
    FleshlightLaunchFW12Cmd(FleshlightLaunchFW12Cmd),
    LovenseCmd(LovenseCmd),
    KiirooCmd(KiirooCmd),
    VorzeA10CycloneCmd(VorzeA10CycloneCmd),
}

/// Every message a server can send, in its newest form.
#[derive(Debug, Clone, PartialEq)]
pub enum ButtplugServerMessage {
    OkMessage(OkMessage),
    Error(Error),
    Test(Test),
    Log(Log),
    ServerInfo(ServerInfo),
    DeviceList(DeviceList),
    DeviceAdded(DeviceAdded),
    DeviceRemoved(DeviceRemoved),
    ScanningFinished(ScanningFinished),
    RawReading(RawReading),
    BatteryLevelReading(BatteryLevelReading),
    RSSILevelReading(RSSILevelReading),
}

/// Client messages of protocol version 2.
#[derive(Debug, Clone, PartialEq)]
pub enum ButtplugSpecV2ClientMessage {
    RequestServerInfo(RequestServerInfo),
    Ping(Ping),
    StartScanning(StartScanning),
    StopScanning(StopScanning),
    RequestDeviceList(RequestDeviceList),
    StopAllDevices(StopAllDevices),
    VibrateCmd(VibrateCmd),
    LinearCmd(LinearCmd),
    RotateCmd(RotateCmd),
    RawWriteCmd(RawWriteCmd),
    RawReadCmd(RawReadCmd),
    StopDeviceCmd(StopDeviceCmd),
    RawSubscribeCmd(RawSubscribeCmd),
    RawUnsubscribeCmd(RawUnsubscribeCmd),
    BatteryLevelCmd(BatteryLevelCmd),
    RSSILevelCmd(RSSILevelCmd),
}

/// Server messages of protocol version 2.
#[derive(Debug, Clone, PartialEq)]
pub enum ButtplugSpecV2ServerMessage {
    OkMessage(OkMessage),
    Error(Error),
    ServerInfo(ServerInfo),
    DeviceList(DeviceList),
    DeviceAdded(DeviceAdded),
    DeviceRemoved(DeviceRemoved),
    ScanningFinished(ScanningFinished),
    RawReading(RawReading),
    BatteryLevelReading(BatteryLevelReading),
    RSSILevelReading(RSSILevelReading),
}

/// Client messages of protocol version 1.
#[derive(Debug, Clone, PartialEq)]
pub enum ButtplugSpecV1ClientMessage {
    RequestServerInfo(RequestServerInfo),
    Ping(Ping),
    StartScanning(StartScanning),
    StopScanning(StopScanning),
    RequestDeviceList(RequestDeviceList),
    StopAllDevices(StopAllDevices),
    VibrateCmd(VibrateCmd),
    LinearCmd(LinearCmd),
    RotateCmd(RotateCmd),
    StopDeviceCmd(StopDeviceCmd),
    SingleMotorVibrateCmd(SingleMotorVibrateCmd),
    FleshlightLaunchFW12Cmd(FleshlightLaunchFW12Cmd),
    LovenseCmd(LovenseCmd),
    KiirooCmd(KiirooCmd),
    VorzeA10CycloneCmd(VorzeA10CycloneCmd),
}

/// Server messages of protocol version 1.
#[derive(Debug, Clone, PartialEq)]
pub enum ButtplugSpecV1ServerMessage {
    OkMessage(OkMessage),
    Error(ErrorV0),
    Log(Log),
    ServerInfo(ServerInfoV0),
    DeviceList(DeviceListV1),
    DeviceAdded(DeviceAddedV1),
    DeviceRemoved(DeviceRemoved),
    ScanningFinished(ScanningFinished),
}

/// Client messages of protocol version 0.
#[derive(Debug, Clone, PartialEq)]
pub enum ButtplugSpecV0ClientMessage {
    RequestLog(RequestLog),
    Ping(Ping),
    RequestServerInfo(RequestServerInfo),
    StartScanning(StartScanning),
    StopScanning(StopScanning),
    RequestDeviceList(RequestDeviceList),
    StopAllDevices(StopAllDevices),
    StopDeviceCmd(StopDeviceCmd),
    SingleMotorVibrateCmd(SingleMotorVibrateCmd),
    FleshlightLaunchFW12Cmd(FleshlightLaunchFW12Cmd),
    LovenseCmd(LovenseCmd),
    KiirooCmd(KiirooCmd),
    VorzeA10CycloneCmd(VorzeA10CycloneCmd),
}

/// Server messages of protocol version 0.
#[derive(Debug, Clone, PartialEq)]
pub enum ButtplugSpecV0ServerMessage {
    OkMessage(OkMessage),
    Error(ErrorV0),
    Log(Log),
    ServerInfo(ServerInfoV0),
    DeviceList(DeviceListV0),
    DeviceAdded(DeviceAddedV0),
    DeviceRemoved(DeviceRemoved),
    ScanningFinished(ScanningFinished),
}

/// Client messages that the device manager handles itself.
#[derive(Debug, Clone, PartialEq)]
pub enum ButtplugDeviceManagerMessageUnion {
    RequestDeviceList(RequestDeviceList),
    StopAllDevices(StopAllDevices),
    StartScanning(StartScanning),
    StopScanning(StopScanning),
}

/// Client messages addressed to one device.
#[derive(Debug, Clone, PartialEq)]
pub enum ButtplugDeviceCommandMessageUnion {
    FleshlightLaunchFW12Cmd(FleshlightLaunchFW12Cmd),
    SingleMotorVibrateCmd(SingleMotorVibrateCmd),
    VorzeA10CycloneCmd(VorzeA10CycloneCmd),
    KiirooCmd(KiirooCmd),
    VibrateCmd(VibrateCmd),
    LinearCmd(LinearCmd),
    RotateCmd(RotateCmd),
    RawWriteCmd(RawWriteCmd),
    RawReadCmd(RawReadCmd),
    StopDeviceCmd(StopDeviceCmd),
    RawSubscribeCmd(RawSubscribeCmd),
    RawUnsubscribeCmd(RawUnsubscribeCmd),
    BatteryLevelCmd(BatteryLevelCmd),
    RSSILevelCmd(RSSILevelCmd),
}

impl ButtplugMessage for ButtplugClientMessage {
    open spec fn spec_id(&self) -> u32 {
        match self {
            ButtplugClientMessage::Ping(m) => m.id,
            ButtplugClientMessage::RequestLog(m) => m.id,
            ButtplugClientMessage::RequestServerInfo(m) => m.id,
            ButtplugClientMessage::StartScanning(m) => m.id,
            ButtplugClientMessage::StopScanning(m) => m.id,
            ButtplugClientMessage::RequestDeviceList(m) => m.id,
            ButtplugClientMessage::StopAllDevices(m) => m.id,
            ButtplugClientMessage::VibrateCmd(m) => m.id,
            ButtplugClientMessage::LinearCmd(m) => m.id,
            ButtplugClientMessage::RotateCmd(m) => m.id,
            ButtplugClientMessage::RawWriteCmd(m) => m.id,
            ButtplugClientMessage::RawReadCmd(m) => m.id,
            ButtplugClientMessage::StopDeviceCmd(m) => m.id,
            ButtplugClientMessage::RawSubscribeCmd(m) => m.id,
            ButtplugClientMessage::RawUnsubscribeCmd(m) => m.id,
            ButtplugClientMessage::BatteryLevelCmd(m) => m.id,
            ButtplugClientMessage::RSSILevelCmd(m) => m.id,
            ButtplugClientMessage::SingleMotorVibrateCmd(m) => m.id,
            ButtplugClientMessage::FleshlightLaunchFW12Cmd(m) => m.id,
            ButtplugClientMessage::LovenseCmd(m) => m.id,
            ButtplugClientMessage::KiirooCmd(m) => m.id,
            ButtplugClientMessage::VorzeA10CycloneCmd(m) => m.id,
        }
    }

    open spec fn spec_with_id(self, id: u32) -> Self {
        match self {
            ButtplugClientMessage::Ping(m) => ButtplugClientMessage::Ping(Ping { id, ..m }),
            ButtplugClientMessage::RequestLog(m) => ButtplugClientMessage::RequestLog(RequestLog { id, ..m }),
            ButtplugClientMessage::RequestServerInfo(m) => ButtplugClientMessage::RequestServerInfo(RequestServerInfo { id, ..m }),
            ButtplugClientMessage::StartScanning(m) => ButtplugClientMessage::StartScanning(StartScanning { id, ..m }),
            ButtplugClientMessage::StopScanning(m) => ButtplugClientMessage::StopScanning(StopScanning { id, ..m }),
            ButtplugClientMessage::RequestDeviceList(m) => ButtplugClientMessage::RequestDeviceList(RequestDeviceList { id, ..m }),
            ButtplugClientMessage::StopAllDevices(m) => ButtplugClientMessage::StopAllDevices(StopAllDevices { id, ..m }),
            ButtplugClientMessage::VibrateCmd(m) => ButtplugClientMessage::VibrateCmd(VibrateCmd { id, ..m }),
            ButtplugClientMessage::LinearCmd(m) => ButtplugClientMessage::LinearCmd(LinearCmd { id, ..m }),
            ButtplugClientMessage::RotateCmd(m) => ButtplugClientMessage::RotateCmd(RotateCmd { id, ..m }),
            ButtplugClientMessage::RawWriteCmd(m) => ButtplugClientMessage::RawWriteCmd(RawWriteCmd { id, ..m }),
            ButtplugClientMessage::RawReadCmd(m) => ButtplugClientMessage::RawReadCmd(RawReadCmd { id, ..m }),
            ButtplugClientMessage::StopDeviceCmd(m) => ButtplugClientMessage::StopDeviceCmd(StopDeviceCmd { id, ..m }),
            ButtplugClientMessage::RawSubscribeCmd(m) => ButtplugClientMessage::RawSubscribeCmd(RawSubscribeCmd { id, ..m }),
            ButtplugClientMessage::RawUnsubscribeCmd(m) => ButtplugClientMessage::RawUnsubscribeCmd(RawUnsubscribeCmd { id, ..m }),
            ButtplugClientMessage::BatteryLevelCmd(m) => ButtplugClientMessage::BatteryLevelCmd(BatteryLevelCmd { id, ..m }),
            ButtplugClientMessage::RSSILevelCmd(m) => ButtplugClientMessage::RSSILevelCmd(RSSILevelCmd { id, ..m }),
            ButtplugClientMessage::SingleMotorVibrateCmd(m) => ButtplugClientMessage::SingleMotorVibrateCmd(SingleMotorVibrateCmd { id, ..m }),
            ButtplugClientMessage::FleshlightLaunchFW12Cmd(m) => ButtplugClientMessage::FleshlightLaunchFW12Cmd(FleshlightLaunchFW12Cmd { id, ..m }),
            ButtplugClientMessage::LovenseCmd(m) => ButtplugClientMessage::LovenseCmd(LovenseCmd { id, ..m }),
            ButtplugClientMessage::KiirooCmd(m) => ButtplugClientMessage::KiirooCmd(KiirooCmd { id, ..m }),
            ButtplugClientMessage::VorzeA10CycloneCmd(m) => ButtplugClientMessage::VorzeA10CycloneCmd(VorzeA10CycloneCmd { id, ..m }),
        }
    }

    fn id(&self) -> (r: u32) {
        match self {
            ButtplugClientMessage::Ping(m) => m.id,
            ButtplugClientMessage::RequestLog(m) => m.id,
            ButtplugClientMessage::RequestServerInfo(m) => m.id,
            ButtplugClientMessage::StartScanning(m) => m.id,
            ButtplugClientMessage::StopScanning(m) => m.id,
            ButtplugClientMessage::RequestDeviceList(m) => m.id,
            ButtplugClientMessage::StopAllDevices(m) => m.id,
            ButtplugClientMessage::VibrateCmd(m) => m.id,
            ButtplugClientMessage::LinearCmd(m) => m.id,
            ButtplugClientMessage::RotateCmd(m) => m.id,
            ButtplugClientMessage::RawWriteCmd(m) => m.id,
            ButtplugClientMessage::RawReadCmd(m) => m.id,
            ButtplugClientMessage::StopDeviceCmd(m) => m.id,
            ButtplugClientMessage::RawSubscribeCmd(m) => m.id,
            ButtplugClientMessage::RawUnsubscribeCmd(m) => m.id,
            ButtplugClientMessage::BatteryLevelCmd(m) => m.id,
            ButtplugClientMessage::RSSILevelCmd(m) => m.id,
            ButtplugClientMessage::SingleMotorVibrateCmd(m) => m.id,
            ButtplugClientMessage::FleshlightLaunchFW12Cmd(m) => m.id,
            ButtplugClientMessage::LovenseCmd(m) => m.id,
            ButtplugClientMessage::KiirooCmd(m) => m.id,
            ButtplugClientMessage::VorzeA10CycloneCmd(m) => m.id,
        }
    }

    fn set_id(&mut self, id: u32) {
        match self {
            ButtplugClientMessage::Ping(m) => m.id = id,
            ButtplugClientMessage::RequestLog(m) => m.id = id,
            ButtplugClientMessage::RequestServerInfo(m) => m.id = id,
            ButtplugClientMessage::StartScanning(m) => m.id = id,
            ButtplugClientMessage::StopScanning(m) => m.id = id,
            ButtplugClientMessage::RequestDeviceList(m) => m.id = id,
            ButtplugClientMessage::StopAllDevices(m) => m.id = id,
            ButtplugClientMessage::VibrateCmd(m) => m.id = id,
            ButtplugClientMessage::LinearCmd(m) => m.id = id,
            ButtplugClientMessage::RotateCmd(m) => m.id = id,
            ButtplugClientMessage::RawWriteCmd(m) => m.id = id,
            ButtplugClientMessage::RawReadCmd(m) => m.id = id,
            ButtplugClientMessage::StopDeviceCmd(m) => m.id = id,
            ButtplugClientMessage::RawSubscribeCmd(m) => m.id = id,
            ButtplugClientMessage::RawUnsubscribeCmd(m) => m.id = id,
            ButtplugClientMessage::BatteryLevelCmd(m) => m.id = id,
            ButtplugClientMessage::RSSILevelCmd(m) => m.id = id,
            ButtplugClientMessage::SingleMotorVibrateCmd(m) => m.id = id,
            ButtplugClientMessage::FleshlightLaunchFW12Cmd(m) => m.id = id,
            ButtplugClientMessage::LovenseCmd(m) => m.id = id,
            ButtplugClientMessage::KiirooCmd(m) => m.id = id,
            ButtplugClientMessage::VorzeA10CycloneCmd(m) => m.id = id,
        }
    }
}

impl ButtplugMessage for ButtplugServerMessage {
    open spec fn spec_id(&self) -> u32 {
        match self {
            ButtplugServerMessage::OkMessage(m) => m.id,
            ButtplugServerMessage::Error(m) => m.id,
            ButtplugServerMessage::Test(m) => m.id,
            ButtplugServerMessage::Log(m) => m.id,
            ButtplugServerMessage::ServerInfo(m) => m.id,
            ButtplugServerMessage::DeviceList(m) => m.id,
            ButtplugServerMessage::DeviceAdded(m) => m.id,
            ButtplugServerMessage::DeviceRemoved(m) => m.id,
            ButtplugServerMessage::ScanningFinished(m) => m.id,
            ButtplugServerMessage::RawReading(m) => m.id,
            ButtplugServerMessage::BatteryLevelReading(m) => m.id,
            ButtplugServerMessage::RSSILevelReading(m) => m.id,
        }
    }

    open spec fn spec_with_id(self, id: u32) -> Self {
        match self {
            ButtplugServerMessage::OkMessage(m) => ButtplugServerMessage::OkMessage(OkMessage { id, ..m }),
            ButtplugServerMessage::Error(m) => ButtplugServerMessage::Error(Error { id, ..m }),
            ButtplugServerMessage::Test(m) => ButtplugServerMessage::Test(Test { id, ..m }),
            ButtplugServerMessage::Log(m) => ButtplugServerMessage::Log(Log { id, ..m }),
            ButtplugServerMessage::ServerInfo(m) => ButtplugServerMessage::ServerInfo(ServerInfo { id, ..m }),
            ButtplugServerMessage::DeviceList(m) => ButtplugServerMessage::DeviceList(DeviceList { id, ..m }),
            ButtplugServerMessage::DeviceAdded(m) => ButtplugServerMessage::DeviceAdded(DeviceAdded { id, ..m }),
            ButtplugServerMessage::DeviceRemoved(m) => ButtplugServerMessage::DeviceRemoved(DeviceRemoved { id, ..m }),
            ButtplugServerMessage::ScanningFinished(m) => ButtplugServerMessage::ScanningFinished(ScanningFinished { id, ..m }),
            ButtplugServerMessage::RawReading(m) => ButtplugServerMessage::RawReading(RawReading { id, ..m }),
            ButtplugServerMessage::BatteryLevelReading(m) => ButtplugServerMessage::BatteryLevelReading(BatteryLevelReading { id, ..m }),
            ButtplugServerMessage::RSSILevelReading(m) => ButtplugServerMessage::RSSILevelReading(RSSILevelReading { id, ..m }),
        }
    }

    fn id(&self) -> (r: u32) {
        match self {
            ButtplugServerMessage::OkMessage(m) => m.id,
            ButtplugServerMessage::Error(m) => m.id,
            ButtplugServerMessage::Test(m) => m.id,
            ButtplugServerMessage::Log(m) => m.id,
            ButtplugServerMessage::ServerInfo(m) => m.id,
            ButtplugServerMessage::DeviceList(m) => m.id,
            ButtplugServerMessage::DeviceAdded(m) => m.id,
            ButtplugServerMessage::DeviceRemoved(m) => m.id,
            ButtplugServerMessage::ScanningFinished(m) => m.id,
            ButtplugServerMessage::RawReading(m) => m.id,
            ButtplugServerMessage::BatteryLevelReading(m) => m.id,
            ButtplugServerMessage::RSSILevelReading(m) => m.id,
        }
    }

    fn set_id(&mut self, id: u32) {
        match self {
            ButtplugServerMessage::OkMessage(m) => m.id = id,
            ButtplugServerMessage::Error(m) => m.id = id,
            ButtplugServerMessage::Test(m) => m.id = id,
            ButtplugServerMessage::Log(m) => m.id = id,
            ButtplugServerMessage::ServerInfo(m) => m.id = id,
            ButtplugServerMessage::DeviceList(m) => m.id = id,
            ButtplugServerMessage::DeviceAdded(m) => m.id = id,
            ButtplugServerMessage::DeviceRemoved(m) => m.id = id,
            ButtplugServerMessage::ScanningFinished(m) => m.id = id,
            ButtplugServerMessage::RawReading(m) => m.id = id,
            ButtplugServerMessage::BatteryLevelReading(m) => m.id = id,
            ButtplugServerMessage::RSSILevelReading(m) => m.id = id,
        }
    }
}

impl ButtplugMessage for ButtplugSpecV2ClientMessage {
    open spec fn spec_id(&self) -> u32 {
        match self {
            ButtplugSpecV2ClientMessage::RequestServerInfo(m) => m.id,
            ButtplugSpecV2ClientMessage::Ping(m) => m.id,
            ButtplugSpecV2ClientMessage::StartScanning(m) => m.id,
            ButtplugSpecV2ClientMessage::StopScanning(m) => m.id,
            ButtplugSpecV2ClientMessage::RequestDeviceList(m) => m.id,
            ButtplugSpecV2ClientMessage::StopAllDevices(m) => m.id,
            ButtplugSpecV2ClientMessage::VibrateCmd(m) => m.id,
            ButtplugSpecV2ClientMessage::LinearCmd(m) => m.id,
            ButtplugSpecV2ClientMessage::RotateCmd(m) => m.id,
            ButtplugSpecV2ClientMessage::RawWriteCmd(m) => m.id,
            ButtplugSpecV2ClientMessage::RawReadCmd(m) => m.id,
            ButtplugSpecV2ClientMessage::StopDeviceCmd(m) => m.id,
            ButtplugSpecV2ClientMessage::RawSubscribeCmd(m) => m.id,
            ButtplugSpecV2ClientMessage::RawUnsubscribeCmd(m) => m.id,
            ButtplugSpecV2ClientMessage::BatteryLevelCmd(m) => m.id,
            ButtplugSpecV2ClientMessage::RSSILevelCmd(m) => m.id,
        }
    }

    open spec fn spec_with_id(self, id: u32) -> Self {
        match self {
            ButtplugSpecV2ClientMessage::RequestServerInfo(m) => ButtplugSpecV2ClientMessage::RequestServerInfo(RequestServerInfo { id, ..m }),
            ButtplugSpecV2ClientMessage::Ping(m) => ButtplugSpecV2ClientMessage::Ping(Ping { id, ..m }),
            ButtplugSpecV2ClientMessage::StartScanning(m) => ButtplugSpecV2ClientMessage::StartScanning(StartScanning { id, ..m }),
            ButtplugSpecV2ClientMessage::StopScanning(m) => ButtplugSpecV2ClientMessage::StopScanning(StopScanning { id, ..m }),
            ButtplugSpecV2ClientMessage::RequestDeviceList(m) => ButtplugSpecV2ClientMessage::RequestDeviceList(RequestDeviceList { id, ..m }),
            ButtplugSpecV2ClientMessage::StopAllDevices(m) => ButtplugSpecV2ClientMessage::StopAllDevices(StopAllDevices { id, ..m }),
            ButtplugSpecV2ClientMessage::VibrateCmd(m) => ButtplugSpecV2ClientMessage::VibrateCmd(VibrateCmd { id, ..m }),
            ButtplugSpecV2ClientMessage::LinearCmd(m) => ButtplugSpecV2ClientMessage::LinearCmd(LinearCmd { id, ..m }),
            ButtplugSpecV2ClientMessage::RotateCmd(m) => ButtplugSpecV2ClientMessage::RotateCmd(RotateCmd { id, ..m }),
            ButtplugSpecV2ClientMessage::RawWriteCmd(m) => ButtplugSpecV2ClientMessage::RawWriteCmd(RawWriteCmd { id, ..m }),
            ButtplugSpecV2ClientMessage::RawReadCmd(m) => ButtplugSpecV2ClientMessage::RawReadCmd(RawReadCmd { id, ..m }),
            ButtplugSpecV2ClientMessage::StopDeviceCmd(m) => ButtplugSpecV2ClientMessage::StopDeviceCmd(StopDeviceCmd { id, ..m }),
            ButtplugSpecV2ClientMessage::RawSubscribeCmd(m) => ButtplugSpecV2ClientMessage::RawSubscribeCmd(RawSubscribeCmd { id, ..m }),
            ButtplugSpecV2ClientMessage::RawUnsubscribeCmd(m) => ButtplugSpecV2ClientMessage::RawUnsubscribeCmd(RawUnsubscribeCmd { id, ..m }),
            ButtplugSpecV2ClientMessage::BatteryLevelCmd(m) => ButtplugSpecV2ClientMessage::BatteryLevelCmd(BatteryLevelCmd { id, ..m }),
            ButtplugSpecV2ClientMessage::RSSILevelCmd(m) => ButtplugSpecV2ClientMessage::RSSILevelCmd(RSSILevelCmd { id, ..m }),
        }
    }

    fn id(&self) -> (r: u32) {
        match self {
            ButtplugSpecV2ClientMessage::RequestServerInfo(m) => m.id,
            ButtplugSpecV2ClientMessage::Ping(m) => m.id,
            ButtplugSpecV2ClientMessage::StartScanning(m) => m.id,
            ButtplugSpecV2ClientMessage::StopScanning(m) => m.id,
            ButtplugSpecV2ClientMessage::RequestDeviceList(m) => m.id,
            ButtplugSpecV2ClientMessage::StopAllDevices(m) => m.id,
            ButtplugSpecV2ClientMessage::VibrateCmd(m) => m.id,
            ButtplugSpecV2ClientMessage::LinearCmd(m) => m.id,
            ButtplugSpecV2ClientMessage::RotateCmd(m) => m.id,
            ButtplugSpecV2ClientMessage::RawWriteCmd(m) => m.id,
            ButtplugSpecV2ClientMessage::RawReadCmd(m) => m.id,
            ButtplugSpecV2ClientMessage::StopDeviceCmd(m) => m.id,
            ButtplugSpecV2ClientMessage::RawSubscribeCmd(m) => m.id,
            ButtplugSpecV2ClientMessage::RawUnsubscribeCmd(m) => m.id,
            ButtplugSpecV2ClientMessage::BatteryLevelCmd(m) => m.id,
            ButtplugSpecV2ClientMessage::RSSILevelCmd(m) => m.id,
        }
    }

    fn set_id(&mut self, id: u32) {
        match self {
            ButtplugSpecV2ClientMessage::RequestServerInfo(m) => m.id = id,
            ButtplugSpecV2ClientMessage::Ping(m) => m.id = id,
            ButtplugSpecV2ClientMessage::StartScanning(m) => m.id = id,
            ButtplugSpecV2ClientMessage::StopScanning(m) => m.id = id,
            ButtplugSpecV2ClientMessage::RequestDeviceList(m) => m.id = id,
            ButtplugSpecV2ClientMessage::StopAllDevices(m) => m.id = id,
            ButtplugSpecV2ClientMessage::VibrateCmd(m) => m.id = id,
            ButtplugSpecV2ClientMessage::LinearCmd(m) => m.id = id,
            ButtplugSpecV2ClientMessage::RotateCmd(m) => m.id = id,
            ButtplugSpecV2ClientMessage::RawWriteCmd(m) => m.id = id,
            ButtplugSpecV2ClientMessage::RawReadCmd(m) => m.id = id,
            ButtplugSpecV2ClientMessage::StopDeviceCmd(m) => m.id = id,
            ButtplugSpecV2ClientMessage::RawSubscribeCmd(m) => m.id = id,
            ButtplugSpecV2ClientMessage::RawUnsubscribeCmd(m) => m.id = id,
            ButtplugSpecV2ClientMessage::BatteryLevelCmd(m) => m.id = id,
            ButtplugSpecV2ClientMessage::RSSILevelCmd(m) => m.id = id,
        }
    }
}

impl ButtplugMessage for ButtplugSpecV2ServerMessage {
    open spec fn spec_id(&self) -> u32 {
        match self {
            ButtplugSpecV2ServerMessage::OkMessage(m) => m.id,
            ButtplugSpecV2ServerMessage::Error(m) => m.id,
            ButtplugSpecV2ServerMessage::ServerInfo(m) => m.id,
            ButtplugSpecV2ServerMessage::DeviceList(m) => m.id,
            ButtplugSpecV2ServerMessage::DeviceAdded(m) => m.id,
            ButtplugSpecV2ServerMessage::DeviceRemoved(m) => m.id,
            ButtplugSpecV2ServerMessage::ScanningFinished(m) => m.id,
            ButtplugSpecV2ServerMessage::RawReading(m) => m.id,
            ButtplugSpecV2ServerMessage::BatteryLevelReading(m) => m.id,
            ButtplugSpecV2ServerMessage::RSSILevelReading(m) => m.id,
        }
    }

    open spec fn spec_with_id(self, id: u32) -> Self {
        match self {
            ButtplugSpecV2ServerMessage::OkMessage(m) => ButtplugSpecV2ServerMessage::OkMessage(OkMessage { id, ..m }),
            ButtplugSpecV2ServerMessage::Error(m) => ButtplugSpecV2ServerMessage::Error(Error { id, ..m }),
            ButtplugSpecV2ServerMessage::ServerInfo(m) => ButtplugSpecV2ServerMessage::ServerInfo(ServerInfo { id, ..m }),
            ButtplugSpecV2ServerMessage::DeviceList(m) => ButtplugSpecV2ServerMessage::DeviceList(DeviceList { id, ..m }),
            ButtplugSpecV2ServerMessage::DeviceAdded(m) => ButtplugSpecV2ServerMessage::DeviceAdded(DeviceAdded { id, ..m }),
            ButtplugSpecV2ServerMessage::DeviceRemoved(m) => ButtplugSpecV2ServerMessage::DeviceRemoved(DeviceRemoved { id, ..m }),
            ButtplugSpecV2ServerMessage::ScanningFinished(m) => ButtplugSpecV2ServerMessage::ScanningFinished(ScanningFinished { id, ..m }),
            ButtplugSpecV2ServerMessage::RawReading(m) => ButtplugSpecV2ServerMessage::RawReading(RawReading { id, ..m }),
            ButtplugSpecV2ServerMessage::BatteryLevelReading(m) => ButtplugSpecV2ServerMessage::BatteryLevelReading(BatteryLevelReading { id, ..m }),
            ButtplugSpecV2ServerMessage::RSSILevelReading(m) => ButtplugSpecV2ServerMessage::RSSILevelReading(RSSILevelReading { id, ..m }),
        }
    }

    fn id(&self) -> (r: u32) {
        match self {
            ButtplugSpecV2ServerMessage::OkMessage(m) => m.id,
            ButtplugSpecV2ServerMessage::Error(m) => m.id,
            ButtplugSpecV2ServerMessage::ServerInfo(m) => m.id,
            ButtplugSpecV2ServerMessage::DeviceList(m) => m.id,
            ButtplugSpecV2ServerMessage::DeviceAdded(m) => m.id,
            ButtplugSpecV2ServerMessage::DeviceRemoved(m) => m.id,
            ButtplugSpecV2ServerMessage::ScanningFinished(m) => m.id,
            ButtplugSpecV2ServerMessage::RawReading(m) => m.id,
            ButtplugSpecV2ServerMessage::BatteryLevelReading(m) => m.id,
            ButtplugSpecV2ServerMessage::RSSILevelReading(m) => m.id,
        }
    }

    fn set_id(&mut self, id: u32) {
        match self {
            ButtplugSpecV2ServerMessage::OkMessage(m) => m.id = id,
            ButtplugSpecV2ServerMessage::Error(m) => m.id = id,
            ButtplugSpecV2ServerMessage::ServerInfo(m) => m.id = id,
            ButtplugSpecV2ServerMessage::DeviceList(m) => m.id = id,
            ButtplugSpecV2ServerMessage::DeviceAdded(m) => m.id = id,
            ButtplugSpecV2ServerMessage::DeviceRemoved(m) => m.id = id,
            ButtplugSpecV2ServerMessage::ScanningFinished(m) => m.id = id,
            ButtplugSpecV2ServerMessage::RawReading(m) => m.id = id,
            ButtplugSpecV2ServerMessage::BatteryLevelReading(m) => m.id = id,
            ButtplugSpecV2ServerMessage::RSSILevelReading(m) => m.id = id,
        }
    }
}

impl ButtplugMessage for ButtplugSpecV1ClientMessage {
    open spec fn spec_id(&self) -> u32 {
        match self {
            ButtplugSpecV1ClientMessage::RequestServerInfo(m) => m.id,
            ButtplugSpecV1ClientMessage::Ping(m) => m.id,
            ButtplugSpecV1ClientMessage::StartScanning(m) => m.id,
            ButtplugSpecV1ClientMessage::StopScanning(m) => m.id,
            ButtplugSpecV1ClientMessage::RequestDeviceList(m) => m.id,
            ButtplugSpecV1ClientMessage::StopAllDevices(m) => m.id,
            ButtplugSpecV1ClientMessage::VibrateCmd(m) => m.id,
            ButtplugSpecV1ClientMessage::LinearCmd(m) => m.id,
            ButtplugSpecV1ClientMessage::RotateCmd(m) => m.id,
            ButtplugSpecV1ClientMessage::StopDeviceCmd(m) => m.id,
            ButtplugSpecV1ClientMessage::SingleMotorVibrateCmd(m) => m.id,
            ButtplugSpecV1ClientMessage::FleshlightLaunchFW12Cmd(m) => m.id,
            ButtplugSpecV1ClientMessage::LovenseCmd(m) => m.id,
            ButtplugSpecV1ClientMessage::KiirooCmd(m) => m.id,
            ButtplugSpecV1ClientMessage::VorzeA10CycloneCmd(m) => m.id,
        }
    }

    open spec fn spec_with_id(self, id: u32) -> Self {
        match self {
            ButtplugSpecV1ClientMessage::RequestServerInfo(m) => ButtplugSpecV1ClientMessage::RequestServerInfo(RequestServerInfo { id, ..m }),
            ButtplugSpecV1ClientMessage::Ping(m) => ButtplugSpecV1ClientMessage::Ping(Ping { id, ..m }),
            ButtplugSpecV1ClientMessage::StartScanning(m) => ButtplugSpecV1ClientMessage::StartScanning(StartScanning { id, ..m }),
            ButtplugSpecV1ClientMessage::StopScanning(m) => ButtplugSpecV1ClientMessage::StopScanning(StopScanning { id, ..m }),
            ButtplugSpecV1ClientMessage::RequestDeviceList(m) => ButtplugSpecV1ClientMessage::RequestDeviceList(RequestDeviceList { id, ..m }),
            ButtplugSpecV1ClientMessage::StopAllDevices(m) => ButtplugSpecV1ClientMessage::StopAllDevices(StopAllDevices { id, ..m }),
            ButtplugSpecV1ClientMessage::VibrateCmd(m) => ButtplugSpecV1ClientMessage::VibrateCmd(VibrateCmd { id, ..m }),
            ButtplugSpecV1ClientMessage::LinearCmd(m) => ButtplugSpecV1ClientMessage::LinearCmd(LinearCmd { id, ..m }),
            ButtplugSpecV1ClientMessage::RotateCmd(m) => ButtplugSpecV1ClientMessage::RotateCmd(RotateCmd { id, ..m }),
            ButtplugSpecV1ClientMessage::StopDeviceCmd(m) => ButtplugSpecV1ClientMessage::StopDeviceCmd(StopDeviceCmd { id, ..m }),
            ButtplugSpecV1ClientMessage::SingleMotorVibrateCmd(m) => ButtplugSpecV1ClientMessage::SingleMotorVibrateCmd(SingleMotorVibrateCmd { id, ..m }),
            ButtplugSpecV1ClientMessage::FleshlightLaunchFW12Cmd(m) => ButtplugSpecV1ClientMessage::FleshlightLaunchFW12Cmd(FleshlightLaunchFW12Cmd { id, ..m }),
            ButtplugSpecV1ClientMessage::LovenseCmd(m) => ButtplugSpecV1ClientMessage::LovenseCmd(LovenseCmd { id, ..m }),
            ButtplugSpecV1ClientMessage::KiirooCmd(m) => ButtplugSpecV1ClientMessage::KiirooCmd(KiirooCmd { id, ..m }),
            ButtplugSpecV1ClientMessage::VorzeA10CycloneCmd(m) => ButtplugSpecV1ClientMessage::VorzeA10CycloneCmd(VorzeA10CycloneCmd { id, ..m }),
        }
    }

    fn id(&self) -> (r: u32) {
        match self {
            ButtplugSpecV1ClientMessage::RequestServerInfo(m) => m.id,
            ButtplugSpecV1ClientMessage::Ping(m) => m.id,
            ButtplugSpecV1ClientMessage::StartScanning(m) => m.id,
            ButtplugSpecV1ClientMessage::StopScanning(m) => m.id,
            ButtplugSpecV1ClientMessage::RequestDeviceList(m) => m.id,
            ButtplugSpecV1ClientMessage::StopAllDevices(m) => m.id,
            ButtplugSpecV1ClientMessage::VibrateCmd(m) => m.id,
            ButtplugSpecV1ClientMessage::LinearCmd(m) => m.id,
            ButtplugSpecV1ClientMessage::RotateCmd(m) => m.id,
            ButtplugSpecV1ClientMessage::StopDeviceCmd(m) => m.id,
            ButtplugSpecV1ClientMessage::SingleMotorVibrateCmd(m) => m.id,
            ButtplugSpecV1ClientMessage::FleshlightLaunchFW12Cmd(m) => m.id,
            ButtplugSpecV1ClientMessage::LovenseCmd(m) => m.id,
            ButtplugSpecV1ClientMessage::KiirooCmd(m) => m.id,
            ButtplugSpecV1ClientMessage::VorzeA10CycloneCmd(m) => m.id,
        }
    }

    fn set_id(&mut self, id: u32) {
        match self {
            ButtplugSpecV1ClientMessage::RequestServerInfo(m) => m.id = id,
            ButtplugSpecV1ClientMessage::Ping(m) => m.id = id,
            ButtplugSpecV1ClientMessage::StartScanning(m) => m.id = id,
            ButtplugSpecV1ClientMessage::StopScanning(m) => m.id = id,
            ButtplugSpecV1ClientMessage::RequestDeviceList(m) => m.id = id,
            ButtplugSpecV1ClientMessage::StopAllDevices(m) => m.id = id,
            ButtplugSpecV1ClientMessage::VibrateCmd(m) => m.id = id,
            ButtplugSpecV1ClientMessage::LinearCmd(m) => m.id = id,
            ButtplugSpecV1ClientMessage::RotateCmd(m) => m.id = id,
            ButtplugSpecV1ClientMessage::StopDeviceCmd(m) => m.id = id,
            ButtplugSpecV1ClientMessage::SingleMotorVibrateCmd(m) => m.id = id,
            ButtplugSpecV1ClientMessage::FleshlightLaunchFW12Cmd(m) => m.id = id,
            ButtplugSpecV1ClientMessage::LovenseCmd(m) => m.id = id,
            ButtplugSpecV1ClientMessage::KiirooCmd(m) => m.id = id,
            ButtplugSpecV1ClientMessage::VorzeA10CycloneCmd(m) => m.id = id,
        }
    }
}

impl ButtplugMessage for ButtplugSpecV1ServerMessage {
    open spec fn spec_id(&self) -> u32 {
        match self {
            ButtplugSpecV1ServerMessage::OkMessage(m) => m.id,
            ButtplugSpecV1ServerMessage::Error(m) => m.id,
            ButtplugSpecV1ServerMessage::Log(m) => m.id,
            ButtplugSpecV1ServerMessage::ServerInfo(m) => m.id,
            ButtplugSpecV1ServerMessage::DeviceList(m) => m.id,
            ButtplugSpecV1ServerMessage::DeviceAdded(m) => m.id,
            ButtplugSpecV1ServerMessage::DeviceRemoved(m) => m.id,
            ButtplugSpecV1ServerMessage::ScanningFinished(m) => m.id,
        }
    }

    open spec fn spec_with_id(self, id: u32) -> Self {
        match self {
            ButtplugSpecV1ServerMessage::OkMessage(m) => ButtplugSpecV1ServerMessage::OkMessage(OkMessage { id, ..m }),
            ButtplugSpecV1ServerMessage::Error(m) => ButtplugSpecV1ServerMessage::Error(ErrorV0 { id, ..m }),
            ButtplugSpecV1ServerMessage::Log(m) => ButtplugSpecV1ServerMessage::Log(Log { id, ..m }),
            ButtplugSpecV1ServerMessage::ServerInfo(m) => ButtplugSpecV1ServerMessage::ServerInfo(ServerInfoV0 { id, ..m }),
            ButtplugSpecV1ServerMessage::DeviceList(m) => ButtplugSpecV1ServerMessage::DeviceList(DeviceListV1 { id, ..m }),
            ButtplugSpecV1ServerMessage::DeviceAdded(m) => ButtplugSpecV1ServerMessage::DeviceAdded(DeviceAddedV1 { id, ..m }),
            ButtplugSpecV1ServerMessage::DeviceRemoved(m) => ButtplugSpecV1ServerMessage::DeviceRemoved(DeviceRemoved { id, ..m }),
            ButtplugSpecV1ServerMessage::ScanningFinished(m) => ButtplugSpecV1ServerMessage::ScanningFinished(ScanningFinished { id, ..m }),
        }
    }

    fn id(&self) -> (r: u32) {
        match self {
            ButtplugSpecV1ServerMessage::OkMessage(m) => m.id,
            ButtplugSpecV1ServerMessage::Error(m) => m.id,
            ButtplugSpecV1ServerMessage::Log(m) => m.id,
            ButtplugSpecV1ServerMessage::ServerInfo(m) => m.id,
            ButtplugSpecV1ServerMessage::DeviceList(m) => m.id,
            ButtplugSpecV1ServerMessage::DeviceAdded(m) => m.id,
            ButtplugSpecV1ServerMessage::DeviceRemoved(m) => m.id,
            ButtplugSpecV1ServerMessage::ScanningFinished(m) => m.id,
        }
    }

    fn set_id(&mut self, id: u32) {
        match self {
            ButtplugSpecV1ServerMessage::OkMessage(m) => m.id = id,
            ButtplugSpecV1ServerMessage::Error(m) => m.id = id,
            ButtplugSpecV1ServerMessage::Log(m) => m.id = id,
            ButtplugSpecV1ServerMessage::ServerInfo(m) => m.id = id,
            ButtplugSpecV1ServerMessage::DeviceList(m) => m.id = id,
            ButtplugSpecV1ServerMessage::DeviceAdded(m) => m.id = id,
            ButtplugSpecV1ServerMessage::DeviceRemoved(m) => m.id = id,
            ButtplugSpecV1ServerMessage::ScanningFinished(m) => m.id = id,
        }
    }
}

impl ButtplugMessage for ButtplugSpecV0ClientMessage {
    open spec fn spec_id(&self) -> u32 {
        match self {
            ButtplugSpecV0ClientMessage::RequestLog(m) => m.id,
            ButtplugSpecV0ClientMessage::Ping(m) => m.id,
            ButtplugSpecV0ClientMessage::RequestServerInfo(m) => m.id,
            ButtplugSpecV0ClientMessage::StartScanning(m) => m.id,
            ButtplugSpecV0ClientMessage::StopScanning(m) => m.id,
            ButtplugSpecV0ClientMessage::RequestDeviceList(m) => m.id,
            ButtplugSpecV0ClientMessage::StopAllDevices(m) => m.id,
            ButtplugSpecV0ClientMessage::StopDeviceCmd(m) => m.id,
            ButtplugSpecV0ClientMessage::SingleMotorVibrateCmd(m) => m.id,
            ButtplugSpecV0ClientMessage::FleshlightLaunchFW12Cmd(m) => m.id,
            ButtplugSpecV0ClientMessage::LovenseCmd(m) => m.id,
            ButtplugSpecV0ClientMessage::KiirooCmd(m) => m.id,
            ButtplugSpecV0ClientMessage::VorzeA10CycloneCmd(m) => m.id,
        }
    }

    open spec fn spec_with_id(self, id: u32) -> Self {
        match self {
            ButtplugSpecV0ClientMessage::RequestLog(m) => ButtplugSpecV0ClientMessage::RequestLog(RequestLog { id, ..m }),
            ButtplugSpecV0ClientMessage::Ping(m) => ButtplugSpecV0ClientMessage::Ping(Ping { id, ..m }),
            ButtplugSpecV0ClientMessage::RequestServerInfo(m) => ButtplugSpecV0ClientMessage::RequestServerInfo(RequestServerInfo { id, ..m }),
            ButtplugSpecV0ClientMessage::StartScanning(m) => ButtplugSpecV0ClientMessage::StartScanning(StartScanning { id, ..m }),
            ButtplugSpecV0ClientMessage::StopScanning(m) => ButtplugSpecV0ClientMessage::StopScanning(StopScanning { id, ..m }),
            ButtplugSpecV0ClientMessage::RequestDeviceList(m) => ButtplugSpecV0ClientMessage::RequestDeviceList(RequestDeviceList { id, ..m }),
            ButtplugSpecV0ClientMessage::StopAllDevices(m) => ButtplugSpecV0ClientMessage::StopAllDevices(StopAllDevices { id, ..m }),
            ButtplugSpecV0ClientMessage::StopDeviceCmd(m) => ButtplugSpecV0ClientMessage::StopDeviceCmd(StopDeviceCmd { id, ..m }),
            ButtplugSpecV0ClientMessage::SingleMotorVibrateCmd(m) => ButtplugSpecV0ClientMessage::SingleMotorVibrateCmd(SingleMotorVibrateCmd { id, ..m }),
            ButtplugSpecV0ClientMessage::FleshlightLaunchFW12Cmd(m) => ButtplugSpecV0ClientMessage::FleshlightLaunchFW12Cmd(FleshlightLaunchFW12Cmd { id, ..m }),
            ButtplugSpecV0ClientMessage::LovenseCmd(m) => ButtplugSpecV0ClientMessage::LovenseCmd(LovenseCmd { id, ..m }),
            ButtplugSpecV0ClientMessage::KiirooCmd(m) => ButtplugSpecV0ClientMessage::KiirooCmd(KiirooCmd { id, ..m }),
            ButtplugSpecV0ClientMessage::VorzeA10CycloneCmd(m) => ButtplugSpecV0ClientMessage::VorzeA10CycloneCmd(VorzeA10CycloneCmd { id, ..m }),
        }
    }

    fn id(&self) -> (r: u32) {
        match self {
            ButtplugSpecV0ClientMessage::RequestLog(m) => m.id,
            ButtplugSpecV0ClientMessage::Ping(m) => m.id,
            ButtplugSpecV0ClientMessage::RequestServerInfo(m) => m.id,
            ButtplugSpecV0ClientMessage::StartScanning(m) => m.id,
            ButtplugSpecV0ClientMessage::StopScanning(m) => m.id,
            ButtplugSpecV0ClientMessage::RequestDeviceList(m) => m.id,
            ButtplugSpecV0ClientMessage::StopAllDevices(m) => m.id,
            ButtplugSpecV0ClientMessage::StopDeviceCmd(m) => m.id,
            ButtplugSpecV0ClientMessage::SingleMotorVibrateCmd(m) => m.id,
            ButtplugSpecV0ClientMessage::FleshlightLaunchFW12Cmd(m) => m.id,
            ButtplugSpecV0ClientMessage::LovenseCmd(m) => m.id,
            ButtplugSpecV0ClientMessage::KiirooCmd(m) => m.id,
            ButtplugSpecV0ClientMessage::VorzeA10CycloneCmd(m) => m.id,
        }
    }

    fn set_id(&mut self, id: u32) {
        match self {
            ButtplugSpecV0ClientMessage::RequestLog(m) => m.id = id,
            ButtplugSpecV0ClientMessage::Ping(m) => m.id = id,
            ButtplugSpecV0ClientMessage::RequestServerInfo(m) => m.id = id,
            ButtplugSpecV0ClientMessage::StartScanning(m) => m.id = id,
            ButtplugSpecV0ClientMessage::StopScanning(m) => m.id = id,
            ButtplugSpecV0ClientMessage::RequestDeviceList(m) => m.id = id,
            ButtplugSpecV0ClientMessage::StopAllDevices(m) => m.id = id,
            ButtplugSpecV0ClientMessage::StopDeviceCmd(m) => m.id = id,
            ButtplugSpecV0ClientMessage::SingleMotorVibrateCmd(m) => m.id = id,
            ButtplugSpecV0ClientMessage::FleshlightLaunchFW12Cmd(m) => m.id = id,
            ButtplugSpecV0ClientMessage::LovenseCmd(m) => m.id = id,
            ButtplugSpecV0ClientMessage::KiirooCmd(m) => m.id = id,
            ButtplugSpecV0ClientMessage::VorzeA10CycloneCmd(m) => m.id = id,
        }
    }
}

impl ButtplugMessage for ButtplugSpecV0ServerMessage {
    open spec fn spec_id(&self) -> u32 {
        match self {
            ButtplugSpecV0ServerMessage::OkMessage(m) => m.id,
            ButtplugSpecV0ServerMessage::Error(m) => m.id,
            ButtplugSpecV0ServerMessage::Log(m) => m.id,
            ButtplugSpecV0ServerMessage::ServerInfo(m) => m.id,
            ButtplugSpecV0ServerMessage::DeviceList(m) => m.id,
            ButtplugSpecV0ServerMessage::DeviceAdded(m) => m.id,
            ButtplugSpecV0ServerMessage::DeviceRemoved(m) => m.id,
            ButtplugSpecV0ServerMessage::ScanningFinished(m) => m.id,
        }
    }

    open spec fn spec_with_id(self, id: u32) -> Self {
        match self {
            ButtplugSpecV0ServerMessage::OkMessage(m) => ButtplugSpecV0ServerMessage::OkMessage(OkMessage { id, ..m }),
            ButtplugSpecV0ServerMessage::Error(m) => ButtplugSpecV0ServerMessage::Error(ErrorV0 { id, ..m }),
            ButtplugSpecV0ServerMessage::Log(m) => ButtplugSpecV0ServerMessage::Log(Log { id, ..m }),
            ButtplugSpecV0ServerMessage::ServerInfo(m) => ButtplugSpecV0ServerMessage::ServerInfo(ServerInfoV0 { id, ..m }),
            ButtplugSpecV0ServerMessage::DeviceList(m) => ButtplugSpecV0ServerMessage::DeviceList(DeviceListV0 { id, ..m }),
            ButtplugSpecV0ServerMessage::DeviceAdded(m) => ButtplugSpecV0ServerMessage::DeviceAdded(DeviceAddedV0 { id, ..m }),
            ButtplugSpecV0ServerMessage::DeviceRemoved(m) => ButtplugSpecV0ServerMessage::DeviceRemoved(DeviceRemoved { id, ..m }),
            ButtplugSpecV0ServerMessage::ScanningFinished(m) => ButtplugSpecV0ServerMessage::ScanningFinished(ScanningFinished { id, ..m }),
        }
    }

    fn id(&self) -> (r: u32) {
        match self {
            ButtplugSpecV0ServerMessage::OkMessage(m) => m.id,
            ButtplugSpecV0ServerMessage::Error(m) => m.id,
            ButtplugSpecV0ServerMessage::Log(m) => m.id,
            ButtplugSpecV0ServerMessage::ServerInfo(m) => m.id,
            ButtplugSpecV0ServerMessage::DeviceList(m) => m.id,
            ButtplugSpecV0ServerMessage::DeviceAdded(m) => m.id,
            ButtplugSpecV0ServerMessage::DeviceRemoved(m) => m.id,
            ButtplugSpecV0ServerMessage::ScanningFinished(m) => m.id,
        }
    }

    fn set_id(&mut self, id: u32) {
        match self {
            ButtplugSpecV0ServerMessage::OkMessage(m) => m.id = id,
            ButtplugSpecV0ServerMessage::Error(m) => m.id = id,
            ButtplugSpecV0ServerMessage::Log(m) => m.id = id,
            ButtplugSpecV0ServerMessage::ServerInfo(m) => m.id = id,
            ButtplugSpecV0ServerMessage::DeviceList(m) => m.id = id,
            ButtplugSpecV0ServerMessage::DeviceAdded(m) => m.id = id,
            ButtplugSpecV0ServerMessage::DeviceRemoved(m) => m.id = id,
            ButtplugSpecV0ServerMessage::ScanningFinished(m) => m.id = id,
        }
    }
}

impl ButtplugMessage for ButtplugDeviceManagerMessageUnion {
    open spec fn spec_id(&self) -> u32 {
        match self {
            ButtplugDeviceManagerMessageUnion::RequestDeviceList(m) => m.id,
            ButtplugDeviceManagerMessageUnion::StopAllDevices(m) => m.id,
            ButtplugDeviceManagerMessageUnion::StartScanning(m) => m.id,
            ButtplugDeviceManagerMessageUnion::StopScanning(m) => m.id,
        }
    }

    open spec fn spec_with_id(self, id: u32) -> Self {
        match self {
            ButtplugDeviceManagerMessageUnion::RequestDeviceList(m) => ButtplugDeviceManagerMessageUnion::RequestDeviceList(RequestDeviceList { id, ..m }),
            ButtplugDeviceManagerMessageUnion::StopAllDevices(m) => ButtplugDeviceManagerMessageUnion::StopAllDevices(StopAllDevices { id, ..m }),
            ButtplugDeviceManagerMessageUnion::StartScanning(m) => ButtplugDeviceManagerMessageUnion::StartScanning(StartScanning { id, ..m }),
            ButtplugDeviceManagerMessageUnion::StopScanning(m) => ButtplugDeviceManagerMessageUnion::StopScanning(StopScanning { id, ..m }),
        }
    }

    fn id(&self) -> (r: u32) {
        match self {
            ButtplugDeviceManagerMessageUnion::RequestDeviceList(m) => m.id,
            ButtplugDeviceManagerMessageUnion::StopAllDevices(m) => m.id,
            ButtplugDeviceManagerMessageUnion::StartScanning(m) => m.id,
            ButtplugDeviceManagerMessageUnion::StopScanning(m) => m.id,
        }
    }

    fn set_id(&mut self, id: u32) {
        match self {
            ButtplugDeviceManagerMessageUnion::RequestDeviceList(m) => m.id = id,
            ButtplugDeviceManagerMessageUnion::StopAllDevices(m) => m.id = id,
            ButtplugDeviceManagerMessageUnion::StartScanning(m) => m.id = id,
            ButtplugDeviceManagerMessageUnion::StopScanning(m) => m.id = id,
        }
    }
}

impl ButtplugMessage for ButtplugDeviceCommandMessageUnion {
    open spec fn spec_id(&self) -> u32 {
        match self {
            ButtplugDeviceCommandMessageUnion::FleshlightLaunchFW12Cmd(m) => m.id,
            ButtplugDeviceCommandMessageUnion::SingleMotorVibrateCmd(m) => m.id,
            ButtplugDeviceCommandMessageUnion::VorzeA10CycloneCmd(m) => m.id,
            ButtplugDeviceCommandMessageUnion::KiirooCmd(m) => m.id,
            ButtplugDeviceCommandMessageUnion::VibrateCmd(m) => m.id,
            ButtplugDeviceCommandMessageUnion::LinearCmd(m) => m.id,
            ButtplugDeviceCommandMessageUnion::RotateCmd(m) => m.id,
            ButtplugDeviceCommandMessageUnion::RawWriteCmd(m) => m.id,
            ButtplugDeviceCommandMessageUnion::RawReadCmd(m) => m.id,
            ButtplugDeviceCommandMessageUnion::StopDeviceCmd(m) => m.id,
            ButtplugDeviceCommandMessageUnion::RawSubscribeCmd(m) => m.id,
            ButtplugDeviceCommandMessageUnion::RawUnsubscribeCmd(m) => m.id,
            ButtplugDeviceCommandMessageUnion::BatteryLevelCmd(m) => m.id,
            ButtplugDeviceCommandMessageUnion::RSSILevelCmd(m) => m.id,
        }
    }

    open spec fn spec_with_id(self, id: u32) -> Self {
        match self {
            ButtplugDeviceCommandMessageUnion::FleshlightLaunchFW12Cmd(m) => ButtplugDeviceCommandMessageUnion::FleshlightLaunchFW12Cmd(FleshlightLaunchFW12Cmd { id, ..m }),
            ButtplugDeviceCommandMessageUnion::SingleMotorVibrateCmd(m) => ButtplugDeviceCommandMessageUnion::SingleMotorVibrateCmd(SingleMotorVibrateCmd { id, ..m }),
            ButtplugDeviceCommandMessageUnion::VorzeA10CycloneCmd(m) => ButtplugDeviceCommandMessageUnion::VorzeA10CycloneCmd(VorzeA10CycloneCmd { id, ..m }),
            ButtplugDeviceCommandMessageUnion::KiirooCmd(m) => ButtplugDeviceCommandMessageUnion::KiirooCmd(KiirooCmd { id, ..m }),
            ButtplugDeviceCommandMessageUnion::VibrateCmd(m) => ButtplugDeviceCommandMessageUnion::VibrateCmd(VibrateCmd { id, ..m }),
            ButtplugDeviceCommandMessageUnion::LinearCmd(m) => ButtplugDeviceCommandMessageUnion::LinearCmd(LinearCmd { id, ..m }),
            ButtplugDeviceCommandMessageUnion::RotateCmd(m) => ButtplugDeviceCommandMessageUnion::RotateCmd(RotateCmd { id, ..m }),
            ButtplugDeviceCommandMessageUnion::RawWriteCmd(m) => ButtplugDeviceCommandMessageUnion::RawWriteCmd(RawWriteCmd { id, ..m }),
            ButtplugDeviceCommandMessageUnion::RawReadCmd(m) => ButtplugDeviceCommandMessageUnion::RawReadCmd(RawReadCmd { id, ..m }),
            ButtplugDeviceCommandMessageUnion::StopDeviceCmd(m) => ButtplugDeviceCommandMessageUnion::StopDeviceCmd(StopDeviceCmd { id, ..m }),
            ButtplugDeviceCommandMessageUnion::RawSubscribeCmd(m) => ButtplugDeviceCommandMessageUnion::RawSubscribeCmd(RawSubscribeCmd { id, ..m }),
            ButtplugDeviceCommandMessageUnion::RawUnsubscribeCmd(m) => ButtplugDeviceCommandMessageUnion::RawUnsubscribeCmd(RawUnsubscribeCmd { id, ..m }),
            ButtplugDeviceCommandMessageUnion::BatteryLevelCmd(m) => ButtplugDeviceCommandMessageUnion::BatteryLevelCmd(BatteryLevelCmd { id, ..m }),
            ButtplugDeviceCommandMessageUnion::RSSILevelCmd(m) => ButtplugDeviceCommandMessageUnion::RSSILevelCmd(RSSILevelCmd { id, ..m }),
        }
    }

    fn id(&self) -> (r: u32) {
        match self {
            ButtplugDeviceCommandMessageUnion::FleshlightLaunchFW12Cmd(m) => m.id,
            ButtplugDeviceCommandMessageUnion::SingleMotorVibrateCmd(m) => m.id,
            ButtplugDeviceCommandMessageUnion::VorzeA10CycloneCmd(m) => m.id,
            ButtplugDeviceCommandMessageUnion::KiirooCmd(m) => m.id,
            ButtplugDeviceCommandMessageUnion::VibrateCmd(m) => m.id,
            ButtplugDeviceCommandMessageUnion::LinearCmd(m) => m.id,
            ButtplugDeviceCommandMessageUnion::RotateCmd(m) => m.id,
            ButtplugDeviceCommandMessageUnion::RawWriteCmd(m) => m.id,
            ButtplugDeviceCommandMessageUnion::RawReadCmd(m) => m.id,
            ButtplugDeviceCommandMessageUnion::StopDeviceCmd(m) => m.id,
            ButtplugDeviceCommandMessageUnion::RawSubscribeCmd(m) => m.id,
            ButtplugDeviceCommandMessageUnion::RawUnsubscribeCmd(m) => m.id,
            ButtplugDeviceCommandMessageUnion::BatteryLevelCmd(m) => m.id,
            ButtplugDeviceCommandMessageUnion::RSSILevelCmd(m) => m.id,
        }
    }

    fn set_id(&mut self, id: u32) {
        match self {
            ButtplugDeviceCommandMessageUnion::FleshlightLaunchFW12Cmd(m) => m.id = id,
            ButtplugDeviceCommandMessageUnion::SingleMotorVibrateCmd(m) => m.id = id,
            ButtplugDeviceCommandMessageUnion::VorzeA10CycloneCmd(m) => m.id = id,
            ButtplugDeviceCommandMessageUnion::KiirooCmd(m) => m.id = id,
            ButtplugDeviceCommandMessageUnion::VibrateCmd(m) => m.id = id,
            ButtplugDeviceCommandMessageUnion::LinearCmd(m) => m.id = id,
            ButtplugDeviceCommandMessageUnion::RotateCmd(m) => m.id = id,
            ButtplugDeviceCommandMessageUnion::RawWriteCmd(m) => m.id = id,
            ButtplugDeviceCommandMessageUnion::RawReadCmd(m) => m.id = id,
            ButtplugDeviceCommandMessageUnion::StopDeviceCmd(m) => m.id = id,
            ButtplugDeviceCommandMessageUnion::RawSubscribeCmd(m) => m.id = id,
            ButtplugDeviceCommandMessageUnion::RawUnsubscribeCmd(m) => m.id = id,
            ButtplugDeviceCommandMessageUnion::BatteryLevelCmd(m) => m.id = id,
            ButtplugDeviceCommandMessageUnion::RSSILevelCmd(m) => m.id = id,
        }
    }
}

impl ButtplugSpecV2ClientMessage {
    /// The same message among all client messages.
    pub open spec fn spec_to_client(self) -> ButtplugClientMessage {
        match self {
            ButtplugSpecV2ClientMessage::RequestServerInfo(m) => ButtplugClientMessage::RequestServerInfo(m),
            ButtplugSpecV2ClientMessage::Ping(m) => ButtplugClientMessage::Ping(m),
            ButtplugSpecV2ClientMessage::StartScanning(m) => ButtplugClientMessage::StartScanning(m),
            ButtplugSpecV2ClientMessage::StopScanning(m) => ButtplugClientMessage::StopScanning(m),
            ButtplugSpecV2ClientMessage::RequestDeviceList(m) => ButtplugClientMessage::RequestDeviceList(m),
            ButtplugSpecV2ClientMessage::StopAllDevices(m) => ButtplugClientMessage::StopAllDevices(m),
            ButtplugSpecV2ClientMessage::VibrateCmd(m) => ButtplugClientMessage::VibrateCmd(m),
            ButtplugSpecV2ClientMessage::LinearCmd(m) => ButtplugClientMessage::LinearCmd(m),
            ButtplugSpecV2ClientMessage::RotateCmd(m) => ButtplugClientMessage::RotateCmd(m),
            ButtplugSpecV2ClientMessage::RawWriteCmd(m) => ButtplugClientMessage::RawWriteCmd(m),
            ButtplugSpecV2ClientMessage::RawReadCmd(m) => ButtplugClientMessage::RawReadCmd(m),
            ButtplugSpecV2ClientMessage::StopDeviceCmd(m) => ButtplugClientMessage::StopDeviceCmd(m),
            ButtplugSpecV2ClientMessage::RawSubscribeCmd(m) => ButtplugClientMessage::RawSubscribeCmd(m),
            ButtplugSpecV2ClientMessage::RawUnsubscribeCmd(m) => ButtplugClientMessage::RawUnsubscribeCmd(m),
            ButtplugSpecV2ClientMessage::BatteryLevelCmd(m) => ButtplugClientMessage::BatteryLevelCmd(m),
            ButtplugSpecV2ClientMessage::RSSILevelCmd(m) => ButtplugClientMessage::RSSILevelCmd(m),
        }
    }

    /// Converts into the canonical client message; every message has one.
    pub fn into_client_message(self) -> (r: ButtplugClientMessage)
        ensures
            r == self.spec_to_client(),
    {
        match self {
            ButtplugSpecV2ClientMessage::RequestServerInfo(m) => ButtplugClientMessage::RequestServerInfo(m),
            ButtplugSpecV2ClientMessage::Ping(m) => ButtplugClientMessage::Ping(m),
            ButtplugSpecV2ClientMessage::StartScanning(m) => ButtplugClientMessage::StartScanning(m),
            ButtplugSpecV2ClientMessage::StopScanning(m) => ButtplugClientMessage::StopScanning(m),
            ButtplugSpecV2ClientMessage::RequestDeviceList(m) => ButtplugClientMessage::RequestDeviceList(m),
            ButtplugSpecV2ClientMessage::StopAllDevices(m) => ButtplugClientMessage::StopAllDevices(m),
            ButtplugSpecV2ClientMessage::VibrateCmd(m) => ButtplugClientMessage::VibrateCmd(m),
            ButtplugSpecV2ClientMessage::LinearCmd(m) => ButtplugClientMessage::LinearCmd(m),
            ButtplugSpecV2ClientMessage::RotateCmd(m) => ButtplugClientMessage::RotateCmd(m),
            ButtplugSpecV2ClientMessage::RawWriteCmd(m) => ButtplugClientMessage::RawWriteCmd(m),
            ButtplugSpecV2ClientMessage::RawReadCmd(m) => ButtplugClientMessage::RawReadCmd(m),
            ButtplugSpecV2ClientMessage::StopDeviceCmd(m) => ButtplugClientMessage::StopDeviceCmd(m),
            ButtplugSpecV2ClientMessage::RawSubscribeCmd(m) => ButtplugClientMessage::RawSubscribeCmd(m),
            ButtplugSpecV2ClientMessage::RawUnsubscribeCmd(m) => ButtplugClientMessage::RawUnsubscribeCmd(m),
            ButtplugSpecV2ClientMessage::BatteryLevelCmd(m) => ButtplugClientMessage::BatteryLevelCmd(m),
            ButtplugSpecV2ClientMessage::RSSILevelCmd(m) => ButtplugClientMessage::RSSILevelCmd(m),
        }
    }
}

impl ButtplugSpecV1ClientMessage {
    /// The same message among all client messages.
    pub open spec fn spec_to_client(self) -> ButtplugClientMessage {
        match self {
            ButtplugSpecV1ClientMessage::RequestServerInfo(m) => ButtplugClientMessage::RequestServerInfo(m),
            ButtplugSpecV1ClientMessage::Ping(m) => ButtplugClientMessage::Ping(m),
            ButtplugSpecV1ClientMessage::StartScanning(m) => ButtplugClientMessage::StartScanning(m),
            ButtplugSpecV1ClientMessage::StopScanning(m) => ButtplugClientMessage::StopScanning(m),
            ButtplugSpecV1ClientMessage::RequestDeviceList(m) => ButtplugClientMessage::RequestDeviceList(m),
            ButtplugSpecV1ClientMessage::StopAllDevices(m) => ButtplugClientMessage::StopAllDevices(m),
            ButtplugSpecV1ClientMessage::VibrateCmd(m) => ButtplugClientMessage::VibrateCmd(m),
            ButtplugSpecV1ClientMessage::LinearCmd(m) => ButtplugClientMessage::LinearCmd(m),
            ButtplugSpecV1ClientMessage::RotateCmd(m) => ButtplugClientMessage::RotateCmd(m),
            ButtplugSpecV1ClientMessage::StopDeviceCmd(m) => ButtplugClientMessage::StopDeviceCmd(m),
            ButtplugSpecV1ClientMessage::SingleMotorVibrateCmd(m) => ButtplugClientMessage::SingleMotorVibrateCmd(m),
            ButtplugSpecV1ClientMessage::FleshlightLaunchFW12Cmd(m) => ButtplugClientMessage::FleshlightLaunchFW12Cmd(m),
            ButtplugSpecV1ClientMessage::LovenseCmd(m) => ButtplugClientMessage::LovenseCmd(m),
            ButtplugSpecV1ClientMessage::KiirooCmd(m) => ButtplugClientMessage::KiirooCmd(m),
            ButtplugSpecV1ClientMessage::VorzeA10CycloneCmd(m) => ButtplugClientMessage::VorzeA10CycloneCmd(m),
        }
    }

    /// Converts into the canonical client message; every message has one.
    pub fn into_client_message(self) -> (r: ButtplugClientMessage)
        ensures
            r == self.spec_to_client(),
    {
        match self {
            ButtplugSpecV1ClientMessage::RequestServerInfo(m) => ButtplugClientMessage::RequestServerInfo(m),
            ButtplugSpecV1ClientMessage::Ping(m) => ButtplugClientMessage::Ping(m),
            ButtplugSpecV1ClientMessage::StartScanning(m) => ButtplugClientMessage::StartScanning(m),
            ButtplugSpecV1ClientMessage::StopScanning(m) => ButtplugClientMessage::StopScanning(m),
            ButtplugSpecV1ClientMessage::RequestDeviceList(m) => ButtplugClientMessage::RequestDeviceList(m),
            ButtplugSpecV1ClientMessage::StopAllDevices(m) => ButtplugClientMessage::StopAllDevices(m),
            ButtplugSpecV1ClientMessage::VibrateCmd(m) => ButtplugClientMessage::VibrateCmd(m),
            ButtplugSpecV1ClientMessage::LinearCmd(m) => ButtplugClientMessage::LinearCmd(m),
            ButtplugSpecV1ClientMessage::RotateCmd(m) => ButtplugClientMessage::RotateCmd(m),
            ButtplugSpecV1ClientMessage::StopDeviceCmd(m) => ButtplugClientMessage::StopDeviceCmd(m),
            ButtplugSpecV1ClientMessage::SingleMotorVibrateCmd(m) => ButtplugClientMessage::SingleMotorVibrateCmd(m),
            ButtplugSpecV1ClientMessage::FleshlightLaunchFW12Cmd(m) => ButtplugClientMessage::FleshlightLaunchFW12Cmd(m),
            ButtplugSpecV1ClientMessage::LovenseCmd(m) => ButtplugClientMessage::LovenseCmd(m),
            ButtplugSpecV1ClientMessage::KiirooCmd(m) => ButtplugClientMessage::KiirooCmd(m),
            ButtplugSpecV1ClientMessage::VorzeA10CycloneCmd(m) => ButtplugClientMessage::VorzeA10CycloneCmd(m),
        }
    }
}

impl ButtplugSpecV0ClientMessage {
    /// The same message among all client messages.
    pub open spec fn spec_to_client(self) -> ButtplugClientMessage {
        match self {
            ButtplugSpecV0ClientMessage::RequestLog(m) => ButtplugClientMessage::RequestLog(m),
            ButtplugSpecV0ClientMessage::Ping(m) => ButtplugClientMessage::Ping(m),
            ButtplugSpecV0ClientMessage::RequestServerInfo(m) => ButtplugClientMessage::RequestServerInfo(m),
            ButtplugSpecV0ClientMessage::StartScanning(m) => ButtplugClientMessage::StartScanning(m),
            ButtplugSpecV0ClientMessage::StopScanning(m) => ButtplugClientMessage::StopScanning(m),
            ButtplugSpecV0ClientMessage::RequestDeviceList(m) => ButtplugClientMessage::RequestDeviceList(m),
            ButtplugSpecV0ClientMessage::StopAllDevices(m) => ButtplugClientMessage::StopAllDevices(m),
            ButtplugSpecV0ClientMessage::StopDeviceCmd(m) => ButtplugClientMessage::StopDeviceCmd(m),
            ButtplugSpecV0ClientMessage::SingleMotorVibrateCmd(m) => ButtplugClientMessage::SingleMotorVibrateCmd(m),
            ButtplugSpecV0ClientMessage::FleshlightLaunchFW12Cmd(m) => ButtplugClientMessage::FleshlightLaunchFW12Cmd(m),
            ButtplugSpecV0ClientMessage::LovenseCmd(m) => ButtplugClientMessage::LovenseCmd(m),
            ButtplugSpecV0ClientMessage::KiirooCmd(m) => ButtplugClientMessage::KiirooCmd(m),
            ButtplugSpecV0ClientMessage::VorzeA10CycloneCmd(m) => ButtplugClientMessage::VorzeA10CycloneCmd(m),
        }
    }

    /// Converts into the canonical client message; every message has one.
    pub fn into_client_message(self) -> (r: ButtplugClientMessage)
        ensures
            r == self.spec_to_client(),
    {
        match self {
            ButtplugSpecV0ClientMessage::RequestLog(m) => ButtplugClientMessage::RequestLog(m),
            ButtplugSpecV0ClientMessage::Ping(m) => ButtplugClientMessage::Ping(m),
            ButtplugSpecV0ClientMessage::RequestServerInfo(m) => ButtplugClientMessage::RequestServerInfo(m),
            ButtplugSpecV0ClientMessage::StartScanning(m) => ButtplugClientMessage::StartScanning(m),
            ButtplugSpecV0ClientMessage::StopScanning(m) => ButtplugClientMessage::StopScanning(m),
            ButtplugSpecV0ClientMessage::RequestDeviceList(m) => ButtplugClientMessage::RequestDeviceList(m),
            ButtplugSpecV0ClientMessage::StopAllDevices(m) => ButtplugClientMessage::StopAllDevices(m),
            ButtplugSpecV0ClientMessage::StopDeviceCmd(m) => ButtplugClientMessage::StopDeviceCmd(m),
            ButtplugSpecV0ClientMessage::SingleMotorVibrateCmd(m) => ButtplugClientMessage::SingleMotorVibrateCmd(m),
            ButtplugSpecV0ClientMessage::FleshlightLaunchFW12Cmd(m) => ButtplugClientMessage::FleshlightLaunchFW12Cmd(m),
            ButtplugSpecV0ClientMessage::LovenseCmd(m) => ButtplugClientMessage::LovenseCmd(m),
            ButtplugSpecV0ClientMessage::KiirooCmd(m) => ButtplugClientMessage::KiirooCmd(m),
            ButtplugSpecV0ClientMessage::VorzeA10CycloneCmd(m) => ButtplugClientMessage::VorzeA10CycloneCmd(m),
        }
    }
}

impl ButtplugDeviceManagerMessageUnion {
    /// The same message among all client messages.
    pub open spec fn spec_to_client(self) -> ButtplugClientMessage {
        match self {
            ButtplugDeviceManagerMessageUnion::RequestDeviceList(m) => ButtplugClientMessage::RequestDeviceList(m),
            ButtplugDeviceManagerMessageUnion::StopAllDevices(m) => ButtplugClientMessage::StopAllDevices(m),
            ButtplugDeviceManagerMessageUnion::StartScanning(m) => ButtplugClientMessage::StartScanning(m),
            ButtplugDeviceManagerMessageUnion::StopScanning(m) => ButtplugClientMessage::StopScanning(m),
        }
    }

    /// Converts into the canonical client message; every message has one.
    pub fn into_client_message(self) -> (r: ButtplugClientMessage)
        ensures
            r == self.spec_to_client(),
    {
        match self {
            ButtplugDeviceManagerMessageUnion::RequestDeviceList(m) => ButtplugClientMessage::RequestDeviceList(m),
            ButtplugDeviceManagerMessageUnion::StopAllDevices(m) => ButtplugClientMessage::StopAllDevices(m),
            ButtplugDeviceManagerMessageUnion::StartScanning(m) => ButtplugClientMessage::StartScanning(m),
            ButtplugDeviceManagerMessageUnion::StopScanning(m) => ButtplugClientMessage::StopScanning(m),
        }
    }
}

impl ButtplugDeviceCommandMessageUnion {
    /// The same message among all client messages.
    pub open spec fn spec_to_client(self) -> ButtplugClientMessage {
        match self {
            ButtplugDeviceCommandMessageUnion::FleshlightLaunchFW12Cmd(m) => ButtplugClientMessage::FleshlightLaunchFW12Cmd(m),
            ButtplugDeviceCommandMessageUnion::SingleMotorVibrateCmd(m) => ButtplugClientMessage::SingleMotorVibrateCmd(m),
            ButtplugDeviceCommandMessageUnion::VorzeA10CycloneCmd(m) => ButtplugClientMessage::VorzeA10CycloneCmd(m),
            ButtplugDeviceCommandMessageUnion::KiirooCmd(m) => ButtplugClientMessage::KiirooCmd(m),
            ButtplugDeviceCommandMessageUnion::VibrateCmd(m) => ButtplugClientMessage::VibrateCmd(m),
            ButtplugDeviceCommandMessageUnion::LinearCmd(m) => ButtplugClientMessage::LinearCmd(m),
            ButtplugDeviceCommandMessageUnion::RotateCmd(m) => ButtplugClientMessage::RotateCmd(m),
            ButtplugDeviceCommandMessageUnion::RawWriteCmd(m) => ButtplugClientMessage::RawWriteCmd(m),
            ButtplugDeviceCommandMessageUnion::RawReadCmd(m) => ButtplugClientMessage::RawReadCmd(m),
            ButtplugDeviceCommandMessageUnion::StopDeviceCmd(m) => ButtplugClientMessage::StopDeviceCmd(m),
            ButtplugDeviceCommandMessageUnion::RawSubscribeCmd(m) => ButtplugClientMessage::RawSubscribeCmd(m),
            ButtplugDeviceCommandMessageUnion::RawUnsubscribeCmd(m) => ButtplugClientMessage::RawUnsubscribeCmd(m),
            ButtplugDeviceCommandMessageUnion::BatteryLevelCmd(m) => ButtplugClientMessage::BatteryLevelCmd(m),
            ButtplugDeviceCommandMessageUnion::RSSILevelCmd(m) => ButtplugClientMessage::RSSILevelCmd(m),
        }
    }

    /// Converts into the canonical client message; every message has one.
    pub fn into_client_message(self) -> (r: ButtplugClientMessage)
        ensures
            r == self.spec_to_client(),
    {
        match self {
            ButtplugDeviceCommandMessageUnion::FleshlightLaunchFW12Cmd(m) => ButtplugClientMessage::FleshlightLaunchFW12Cmd(m),
            ButtplugDeviceCommandMessageUnion::SingleMotorVibrateCmd(m) => ButtplugClientMessage::SingleMotorVibrateCmd(m),
            ButtplugDeviceCommandMessageUnion::VorzeA10CycloneCmd(m) => ButtplugClientMessage::VorzeA10CycloneCmd(m),
            ButtplugDeviceCommandMessageUnion::KiirooCmd(m) => ButtplugClientMessage::KiirooCmd(m),
            ButtplugDeviceCommandMessageUnion::VibrateCmd(m) => ButtplugClientMessage::VibrateCmd(m),
            ButtplugDeviceCommandMessageUnion::LinearCmd(m) => ButtplugClientMessage::LinearCmd(m),
            ButtplugDeviceCommandMessageUnion::RotateCmd(m) => ButtplugClientMessage::RotateCmd(m),
            ButtplugDeviceCommandMessageUnion::RawWriteCmd(m) => ButtplugClientMessage::RawWriteCmd(m),
            ButtplugDeviceCommandMessageUnion::RawReadCmd(m) => ButtplugClientMessage::RawReadCmd(m),
            ButtplugDeviceCommandMessageUnion::StopDeviceCmd(m) => ButtplugClientMessage::StopDeviceCmd(m),
            ButtplugDeviceCommandMessageUnion::RawSubscribeCmd(m) => ButtplugClientMessage::RawSubscribeCmd(m),
            ButtplugDeviceCommandMessageUnion::RawUnsubscribeCmd(m) => ButtplugClientMessage::RawUnsubscribeCmd(m),
            ButtplugDeviceCommandMessageUnion::BatteryLevelCmd(m) => ButtplugClientMessage::BatteryLevelCmd(m),
            ButtplugDeviceCommandMessageUnion::RSSILevelCmd(m) => ButtplugClientMessage::RSSILevelCmd(m),
        }
    }
}

impl ButtplugDeviceManagerMessageUnion {
    /// Whether a client message belongs to this union.
    pub open spec fn spec_contains(m: ButtplugClientMessage) -> bool {
        match m {
            ButtplugClientMessage::RequestDeviceList(_)
            | ButtplugClientMessage::StopAllDevices(_)
            | ButtplugClientMessage::StartScanning(_)
            | ButtplugClientMessage::StopScanning(_) => true,
            _ => false,
        }
    }

    /// Picks the message out of all client messages, or hands it back.
    pub fn try_from_client(m: ButtplugClientMessage) -> (r: Result<ButtplugDeviceManagerMessageUnion, ButtplugClientMessage>)
        ensures
            r.is_ok() <==> Self::spec_contains(m),
            r.is_ok() ==> r.unwrap().spec_to_client() == m,
            r.is_err() ==> r.unwrap_err() == m,
    {
        match m {
            ButtplugClientMessage::RequestDeviceList(x) => Ok(ButtplugDeviceManagerMessageUnion::RequestDeviceList(x)),
            ButtplugClientMessage::StopAllDevices(x) => Ok(ButtplugDeviceManagerMessageUnion::StopAllDevices(x)),
            ButtplugClientMessage::StartScanning(x) => Ok(ButtplugDeviceManagerMessageUnion::StartScanning(x)),
            ButtplugClientMessage::StopScanning(x) => Ok(ButtplugDeviceManagerMessageUnion::StopScanning(x)),
            _ => Err(m),
        }
    }
}

impl ButtplugDeviceCommandMessageUnion {
    /// Whether a client message belongs to this union.
    pub open spec fn spec_contains(m: ButtplugClientMessage) -> bool {
        match m {
            ButtplugClientMessage::FleshlightLaunchFW12Cmd(_)
            | ButtplugClientMessage::SingleMotorVibrateCmd(_)
            | ButtplugClientMessage::VorzeA10CycloneCmd(_)
            | ButtplugClientMessage::KiirooCmd(_)
            | ButtplugClientMessage::VibrateCmd(_)
            | ButtplugClientMessage::LinearCmd(_)
            | ButtplugClientMessage::RotateCmd(_)
            | ButtplugClientMessage::RawWriteCmd(_)
            | ButtplugClientMessage::RawReadCmd(_)
            | ButtplugClientMessage::StopDeviceCmd(_)
            | ButtplugClientMessage::RawSubscribeCmd(_)
            | ButtplugClientMessage::RawUnsubscribeCmd(_)
            | ButtplugClientMessage::BatteryLevelCmd(_)
            | ButtplugClientMessage::RSSILevelCmd(_) => true,
            _ => false,
        }
    }

    /// Picks the message out of all client messages, or hands it back.
    pub fn try_from_client(m: ButtplugClientMessage) -> (r: Result<ButtplugDeviceCommandMessageUnion, ButtplugClientMessage>)
        ensures
            r.is_ok() <==> Self::spec_contains(m),
            r.is_ok() ==> r.unwrap().spec_to_client() == m,
            r.is_err() ==> r.unwrap_err() == m,
    {
        match m {
            ButtplugClientMessage::FleshlightLaunchFW12Cmd(x) => Ok(ButtplugDeviceCommandMessageUnion::FleshlightLaunchFW12Cmd(x)),
            ButtplugClientMessage::SingleMotorVibrateCmd(x) => Ok(ButtplugDeviceCommandMessageUnion::SingleMotorVibrateCmd(x)),
            ButtplugClientMessage::VorzeA10CycloneCmd(x) => Ok(ButtplugDeviceCommandMessageUnion::VorzeA10CycloneCmd(x)),
            ButtplugClientMessage::KiirooCmd(x) => Ok(ButtplugDeviceCommandMessageUnion::KiirooCmd(x)),
            ButtplugClientMessage::VibrateCmd(x) => Ok(ButtplugDeviceCommandMessageUnion::VibrateCmd(x)),
            ButtplugClientMessage::LinearCmd(x) => Ok(ButtplugDeviceCommandMessageUnion::LinearCmd(x)),
            ButtplugClientMessage::RotateCmd(x) => Ok(ButtplugDeviceCommandMessageUnion::RotateCmd(x)),
            ButtplugClientMessage::RawWriteCmd(x) => Ok(ButtplugDeviceCommandMessageUnion::RawWriteCmd(x)),
            ButtplugClientMessage::RawReadCmd(x) => Ok(ButtplugDeviceCommandMessageUnion::RawReadCmd(x)),
            ButtplugClientMessage::StopDeviceCmd(x) => Ok(ButtplugDeviceCommandMessageUnion::StopDeviceCmd(x)),
            ButtplugClientMessage::RawSubscribeCmd(x) => Ok(ButtplugDeviceCommandMessageUnion::RawSubscribeCmd(x)),
            ButtplugClientMessage::RawUnsubscribeCmd(x) => Ok(ButtplugDeviceCommandMessageUnion::RawUnsubscribeCmd(x)),
            ButtplugClientMessage::BatteryLevelCmd(x) => Ok(ButtplugDeviceCommandMessageUnion::BatteryLevelCmd(x)),
            ButtplugClientMessage::RSSILevelCmd(x) => Ok(ButtplugDeviceCommandMessageUnion::RSSILevelCmd(x)),
            _ => Err(m),
        }
    }
}

impl ButtplugSpecV2ClientMessage {
    /// Whether a client message belongs to this union.
    pub open spec fn spec_contains(m: ButtplugClientMessage) -> bool {
        match m {
            ButtplugClientMessage::RequestServerInfo(_)
            | ButtplugClientMessage::Ping(_)
            | ButtplugClientMessage::StartScanning(_)
            | ButtplugClientMessage::StopScanning(_)
            | ButtplugClientMessage::RequestDeviceList(_)
            | ButtplugClientMessage::StopAllDevices(_)
            | ButtplugClientMessage::VibrateCmd(_)
            | ButtplugClientMessage::LinearCmd(_)
            | ButtplugClientMessage::RotateCmd(_)
            | ButtplugClientMessage::RawWriteCmd(_)
            | ButtplugClientMessage::RawReadCmd(_)
            | ButtplugClientMessage::StopDeviceCmd(_)
            | ButtplugClientMessage::RawSubscribeCmd(_)
            | ButtplugClientMessage::RawUnsubscribeCmd(_)
            | ButtplugClientMessage::BatteryLevelCmd(_)
            | ButtplugClientMessage::RSSILevelCmd(_) => true,
            _ => false,
        }
    }

    /// Picks the message out of all client messages, or hands it back.
    pub fn try_from_client(m: ButtplugClientMessage) -> (r: Result<ButtplugSpecV2ClientMessage, ButtplugClientMessage>)
        ensures
            r.is_ok() <==> Self::spec_contains(m),
            r.is_ok() ==> r.unwrap().spec_to_client() == m,
            r.is_err() ==> r.unwrap_err() == m,
    {
        match m {
            ButtplugClientMessage::RequestServerInfo(x) => Ok(ButtplugSpecV2ClientMessage::RequestServerInfo(x)),
            ButtplugClientMessage::Ping(x) => Ok(ButtplugSpecV2ClientMessage::Ping(x)),
            ButtplugClientMessage::StartScanning(x) => Ok(ButtplugSpecV2ClientMessage::StartScanning(x)),
            ButtplugClientMessage::StopScanning(x) => Ok(ButtplugSpecV2ClientMessage::StopScanning(x)),
            ButtplugClientMessage::RequestDeviceList(x) => Ok(ButtplugSpecV2ClientMessage::RequestDeviceList(x)),
            ButtplugClientMessage::StopAllDevices(x) => Ok(ButtplugSpecV2ClientMessage::StopAllDevices(x)),
            ButtplugClientMessage::VibrateCmd(x) => Ok(ButtplugSpecV2ClientMessage::VibrateCmd(x)),
            ButtplugClientMessage::LinearCmd(x) => Ok(ButtplugSpecV2ClientMessage::LinearCmd(x)),
            ButtplugClientMessage::RotateCmd(x) => Ok(ButtplugSpecV2ClientMessage::RotateCmd(x)),
            ButtplugClientMessage::RawWriteCmd(x) => Ok(ButtplugSpecV2ClientMessage::RawWriteCmd(x)),
            ButtplugClientMessage::RawReadCmd(x) => Ok(ButtplugSpecV2ClientMessage::RawReadCmd(x)),
            ButtplugClientMessage::StopDeviceCmd(x) => Ok(ButtplugSpecV2ClientMessage::StopDeviceCmd(x)),
            ButtplugClientMessage::RawSubscribeCmd(x) => Ok(ButtplugSpecV2ClientMessage::RawSubscribeCmd(x)),
            ButtplugClientMessage::RawUnsubscribeCmd(x) => Ok(ButtplugSpecV2ClientMessage::RawUnsubscribeCmd(x)),
            ButtplugClientMessage::BatteryLevelCmd(x) => Ok(ButtplugSpecV2ClientMessage::BatteryLevelCmd(x)),
            ButtplugClientMessage::RSSILevelCmd(x) => Ok(ButtplugSpecV2ClientMessage::RSSILevelCmd(x)),
            _ => Err(m),
        }
    }
}

impl ButtplugDeviceMessage for ButtplugDeviceCommandMessageUnion {
    open spec fn spec_device_index(&self) -> u32 {
        match self {
            ButtplugDeviceCommandMessageUnion::FleshlightLaunchFW12Cmd(m) => m.device_index,
            ButtplugDeviceCommandMessageUnion::SingleMotorVibrateCmd(m) => m.device_index,
            ButtplugDeviceCommandMessageUnion::VorzeA10CycloneCmd(m) => m.device_index,
            ButtplugDeviceCommandMessageUnion::KiirooCmd(m) => m.device_index,
            ButtplugDeviceCommandMessageUnion::VibrateCmd(m) => m.device_index,
            ButtplugDeviceCommandMessageUnion::LinearCmd(m) => m.device_index,
            ButtplugDeviceCommandMessageUnion::RotateCmd(m) => m.device_index,
            ButtplugDeviceCommandMessageUnion::RawWriteCmd(m) => m.device_index,
            ButtplugDeviceCommandMessageUnion::RawReadCmd(m) => m.device_index,
            ButtplugDeviceCommandMessageUnion::StopDeviceCmd(m) => m.device_index,
            ButtplugDeviceCommandMessageUnion::RawSubscribeCmd(m) => m.device_index,
            ButtplugDeviceCommandMessageUnion::RawUnsubscribeCmd(m) => m.device_index,
            ButtplugDeviceCommandMessageUnion::BatteryLevelCmd(m) => m.device_index,
            ButtplugDeviceCommandMessageUnion::RSSILevelCmd(m) => m.device_index,
        }
    }

    open spec fn spec_with_device_index(self, device_index: u32) -> Self {
        match self {
            ButtplugDeviceCommandMessageUnion::FleshlightLaunchFW12Cmd(m) => ButtplugDeviceCommandMessageUnion::FleshlightLaunchFW12Cmd(FleshlightLaunchFW12Cmd { device_index, ..m }),
            ButtplugDeviceCommandMessageUnion::SingleMotorVibrateCmd(m) => ButtplugDeviceCommandMessageUnion::SingleMotorVibrateCmd(SingleMotorVibrateCmd { device_index, ..m }),
            ButtplugDeviceCommandMessageUnion::VorzeA10CycloneCmd(m) => ButtplugDeviceCommandMessageUnion::VorzeA10CycloneCmd(VorzeA10CycloneCmd { device_index, ..m }),
            ButtplugDeviceCommandMessageUnion::KiirooCmd(m) => ButtplugDeviceCommandMessageUnion::KiirooCmd(KiirooCmd { device_index, ..m }),
            ButtplugDeviceCommandMessageUnion::VibrateCmd(m) => ButtplugDeviceCommandMessageUnion::VibrateCmd(VibrateCmd { device_index, ..m }),
            ButtplugDeviceCommandMessageUnion::LinearCmd(m) => ButtplugDeviceCommandMessageUnion::LinearCmd(LinearCmd { device_index, ..m }),
            ButtplugDeviceCommandMessageUnion::RotateCmd(m) => ButtplugDeviceCommandMessageUnion::RotateCmd(RotateCmd { device_index, ..m }),
            ButtplugDeviceCommandMessageUnion::RawWriteCmd(m) => ButtplugDeviceCommandMessageUnion::RawWriteCmd(RawWriteCmd { device_index, ..m }),
            ButtplugDeviceCommandMessageUnion::RawReadCmd(m) => ButtplugDeviceCommandMessageUnion::RawReadCmd(RawReadCmd { device_index, ..m }),
            ButtplugDeviceCommandMessageUnion::StopDeviceCmd(m) => ButtplugDeviceCommandMessageUnion::StopDeviceCmd(StopDeviceCmd { device_index, ..m }),
            ButtplugDeviceCommandMessageUnion::RawSubscribeCmd(m) => ButtplugDeviceCommandMessageUnion::RawSubscribeCmd(RawSubscribeCmd { device_index, ..m }),
            ButtplugDeviceCommandMessageUnion::RawUnsubscribeCmd(m) => ButtplugDeviceCommandMessageUnion::RawUnsubscribeCmd(RawUnsubscribeCmd { device_index, ..m }),
            ButtplugDeviceCommandMessageUnion::BatteryLevelCmd(m) => ButtplugDeviceCommandMessageUnion::BatteryLevelCmd(BatteryLevelCmd { device_index, ..m }),
            ButtplugDeviceCommandMessageUnion::RSSILevelCmd(m) => ButtplugDeviceCommandMessageUnion::RSSILevelCmd(RSSILevelCmd { device_index, ..m }),
        }
    }

    fn device_index(&self) -> (r: u32) {
        match self {
            ButtplugDeviceCommandMessageUnion::FleshlightLaunchFW12Cmd(m) => m.device_index,
            ButtplugDeviceCommandMessageUnion::SingleMotorVibrateCmd(m) => m.device_index,
            ButtplugDeviceCommandMessageUnion::VorzeA10CycloneCmd(m) => m.device_index,
            ButtplugDeviceCommandMessageUnion::KiirooCmd(m) => m.device_index,
            ButtplugDeviceCommandMessageUnion::VibrateCmd(m) => m.device_index,
            ButtplugDeviceCommandMessageUnion::LinearCmd(m) => m.device_index,
            ButtplugDeviceCommandMessageUnion::RotateCmd(m) => m.device_index,
            ButtplugDeviceCommandMessageUnion::RawWriteCmd(m) => m.device_index,
            ButtplugDeviceCommandMessageUnion::RawReadCmd(m) => m.device_index,
            ButtplugDeviceCommandMessageUnion::StopDeviceCmd(m) => m.device_index,
            ButtplugDeviceCommandMessageUnion::RawSubscribeCmd(m) => m.device_index,
            ButtplugDeviceCommandMessageUnion::RawUnsubscribeCmd(m) => m.device_index,
            ButtplugDeviceCommandMessageUnion::BatteryLevelCmd(m) => m.device_index,
            ButtplugDeviceCommandMessageUnion::RSSILevelCmd(m) => m.device_index,
        }
    }

    fn set_device_index(&mut self, device_index: u32) {
        match self {
            ButtplugDeviceCommandMessageUnion::FleshlightLaunchFW12Cmd(m) => m.device_index = device_index,
            ButtplugDeviceCommandMessageUnion::SingleMotorVibrateCmd(m) => m.device_index = device_index,
            ButtplugDeviceCommandMessageUnion::VorzeA10CycloneCmd(m) => m.device_index = device_index,
            ButtplugDeviceCommandMessageUnion::KiirooCmd(m) => m.device_index = device_index,
            ButtplugDeviceCommandMessageUnion::VibrateCmd(m) => m.device_index = device_index,
            ButtplugDeviceCommandMessageUnion::LinearCmd(m) => m.device_index = device_index,
            ButtplugDeviceCommandMessageUnion::RotateCmd(m) => m.device_index = device_index,
            ButtplugDeviceCommandMessageUnion::RawWriteCmd(m) => m.device_index = device_index,
            ButtplugDeviceCommandMessageUnion::RawReadCmd(m) => m.device_index = device_index,
            ButtplugDeviceCommandMessageUnion::StopDeviceCmd(m) => m.device_index = device_index,
            ButtplugDeviceCommandMessageUnion::RawSubscribeCmd(m) => m.device_index = device_index,
            ButtplugDeviceCommandMessageUnion::RawUnsubscribeCmd(m) => m.device_index = device_index,
            ButtplugDeviceCommandMessageUnion::BatteryLevelCmd(m) => m.device_index = device_index,
            ButtplugDeviceCommandMessageUnion::RSSILevelCmd(m) => m.device_index = device_index,
        }
    }
}

impl ButtplugClientMessageType for ButtplugClientMessage {}

impl ButtplugClientMessageType for ButtplugSpecV2ClientMessage {}

impl ButtplugClientMessageType for ButtplugSpecV1ClientMessage {}

impl ButtplugClientMessageType for ButtplugSpecV0ClientMessage {}

impl ButtplugClientMessageType for ButtplugDeviceManagerMessageUnion {}

impl ButtplugClientMessageType for ButtplugDeviceCommandMessageUnion {}

impl ButtplugServerMessageType for ButtplugServerMessage {}

impl ButtplugServerMessageType for ButtplugSpecV2ServerMessage {}

impl ButtplugServerMessageType for ButtplugSpecV1ServerMessage {}

impl ButtplugServerMessageType for ButtplugSpecV0ServerMessage {}

} // verus!
