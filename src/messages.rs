//! The message records of the protocol.
//!
//! Command values that the wire carries as fractions in `[0.0, 1.0]` are held
//! here in fixed point: an `i64` where [`VALUE_SCALE`] stands for `1.0`.
use vstd::prelude::*;

use crate::message_types::{
    lex_less, lemma_current_message_type_order, ButtplugCurrentSpecDeviceMessageType,
    ButtplugDeviceMessageType, ButtplugMessageSpecVersion,
};

verus! {

/// Message id of events that the server sends on its own.
pub const BUTTPLUG_SERVER_EVENT_ID: u32 = 0;

/// The fixed-point value that stands for `1.0` in command values.
pub const VALUE_SCALE: i64 = 1_000_000_000;

/// Whether a fixed-point command value lies in `[0.0, 1.0]`.
pub open spec fn in_command_range(v: i64) -> bool {
    0 <= v <= VALUE_SCALE
}

/// Errors about message contents, kinds and versions.
#[derive(Debug, Clone, PartialEq)]
pub enum ButtplugMessageError {
    InvalidMessageContents(String),
    UnexpectedMessageType(String),
    /// The message has no form in the requested protocol version: the union
    /// converted from, the message's kind, and the union converted to.
    VersionError(String, String, String),
    MessageConversionError(String),
}

/// Named bus channels of a device.
#[derive(Debug, Clone, Copy, PartialEq, Eq, Structural, Hash)]
pub enum Endpoint {
    Command,
    Firmware,
    Rx,
    RxAccel,
    RxBLEBattery,
    RxPressure,
    RxTouch,
    Tx,
    TxMode,
    TxShock,
    TxVibrate,
    TxVendorControl,
    Whitelist,
}

#[derive(Debug, Clone, Copy, PartialEq, Eq, Structural)]
pub enum ErrorCode {
    ErrorUnknown,
    ErrorHandshake,
    ErrorPing,
    ErrorMessage,
    ErrorDevice,
}

#[derive(Debug, Clone, Copy, PartialEq, Eq, Structural)]
pub enum LogLevel {
    Off,
    Fatal,
    Error,
    Warn,
    Info,
    Debug,
    Trace,
}

// Status messages.

#[derive(Debug, Clone, PartialEq)]
pub struct OkMessage {
    pub id: u32,
}

#[derive(Debug, Clone, PartialEq)]
pub struct Error {
    pub id: u32,
    pub error_code: ErrorCode,
    pub error_message: String,
}

/// The error record of protocol versions 0 and 1.
#[derive(Debug, Clone, PartialEq)]
pub struct ErrorV0 {
    pub id: u32,
    pub error_code: ErrorCode,
    pub error_message: String,
}

#[derive(Debug, Clone, PartialEq)]
pub struct Log {
    pub id: u32,
    pub log_level: LogLevel,
    pub log_message: String,
}

#[derive(Debug, Clone, PartialEq)]
pub struct Test {
    pub id: u32,
    pub test_string: String,
}

// Handshake messages.

#[derive(Debug, Clone, PartialEq)]
pub struct RequestServerInfo {
    pub id: u32,
    pub client_name: String,
    pub message_version: ButtplugMessageSpecVersion,
}

#[derive(Debug, Clone, PartialEq)]
pub struct ServerInfo {
    pub id: u32,
    pub server_name: String,
    pub message_version: ButtplugMessageSpecVersion,
    pub max_ping_time: u32,
}

/// The server info record of protocol versions 0 and 1, which also carries
/// a server build version.
#[derive(Debug, Clone, PartialEq)]
pub struct ServerInfoV0 {
    pub id: u32,
    pub server_name: String,
    pub major_version: u32,
    pub minor_version: u32,
    pub build_version: u32,
    pub message_version: ButtplugMessageSpecVersion,
    pub max_ping_time: u32,
}

#[derive(Debug, Clone, PartialEq)]
pub struct Ping {
    pub id: u32,
}

#[derive(Debug, Clone, PartialEq)]
pub struct RequestLog {
    pub id: u32,
    pub log_level: LogLevel,
}

// Enumeration messages.

#[derive(Debug, Clone, PartialEq)]
pub struct StartScanning {
    pub id: u32,
}

#[derive(Debug, Clone, PartialEq)]
pub struct StopScanning {
    pub id: u32,
}

#[derive(Debug, Clone, PartialEq)]
pub struct RequestDeviceList {
    pub id: u32,
}

#[derive(Debug, Clone, PartialEq)]
pub struct ScanningFinished {
    pub id: u32,
}

#[derive(Debug, Clone, PartialEq)]
pub struct DeviceRemoved {
    pub id: u32,
    pub device_index: u32,
}

/// What a device offers for one message kind.
#[derive(Debug, Clone, PartialEq)]
pub struct DeviceMessageAttributes {
    pub feature_count: Option<u32>,
    pub step_count: Option<Vec<u32>>,
}

/// The attributes that protocol version 1 knows: the feature count alone.
#[derive(Debug, Clone, Copy, PartialEq, Eq, Structural)]
pub struct DeviceMessageAttributesV1 {
    pub feature_count: Option<u32>,
}

/// Capability attributes of a device, one entry per message kind, kept in
/// the lexicographic order of the message names.
#[derive(Debug, Clone, PartialEq)]
pub struct DeviceMessageAttributesMap {
    entries: Vec<(ButtplugCurrentSpecDeviceMessageType, DeviceMessageAttributes)>,
}

impl DeviceMessageAttributesMap {
    pub closed spec fn view(&self) -> Seq<(ButtplugCurrentSpecDeviceMessageType, DeviceMessageAttributes)> {
        self.entries@
    }

    /// Entries are strictly sorted by message kind, hence keys are unique.
    pub open spec fn wf(&self) -> bool {
        forall|i: int, j: int|
            0 <= i < j < self@.len() ==> (#[trigger] self@[i]).0.rank() < (#[trigger] self@[j]).0.rank()
    }

    pub open spec fn has(&self, t: ButtplugCurrentSpecDeviceMessageType) -> bool {
        exists|i: int| 0 <= i < self@.len() && (#[trigger] self@[i]).0 == t
    }

    pub fn new() -> (r: DeviceMessageAttributesMap)
        ensures
            r.wf(),
            r@.len() == 0,
    {
        DeviceMessageAttributesMap { entries: Vec::new() }
    }

    pub fn entries(&self) -> (r: &Vec<(ButtplugCurrentSpecDeviceMessageType, DeviceMessageAttributes)>)
        ensures
            r@ == self@,
    {
        &self.entries
    }

    pub fn len(&self) -> (r: usize)
        ensures
            r == self@.len(),
    {
        self.entries.len()
    }

    /// Sets the attributes of one message kind, keeping the order.
    pub fn insert(&mut self, t: ButtplugCurrentSpecDeviceMessageType, attrs: DeviceMessageAttributes)
        requires
            old(self).wf(),
        ensures
            final(self).wf(),
            exists|k: int|
                0 <= k <= old(self)@.len() && ({
                    ||| k < old(self)@.len() && old(self)@[k].0 == t && final(self)@ == old(self)@.update(k, (t, attrs))
                    ||| !old(self).has(t) && final(self)@ == old(self)@.insert(k, (t, attrs))
                }),
    {
        let n = self.entries.len();
        let mut k: usize = 0;
        while k < n
            invariant
                n == self.entries@.len(),
                self.entries@ == old(self).entries@,
                k <= n,
                forall|i: int| 0 <= i < k ==> (#[trigger] self@[i]).0.rank() < t.rank(),
            ensures
                k < n ==> t.rank() <= self@[k as int].0.rank(),
                forall|i: int| 0 <= i < k ==> (#[trigger] self@[i]).0.rank() < t.rank(),
            decreases n - k,
        {
            if t.order_rank() <= self.entries[k].0.order_rank() {
                break;
            }
            k = k + 1;
        }
        if k < n && self.entries[k].0.order_rank() == t.order_rank() {
            proof {
                lemma_current_rank_injective(self.entries@[k as int].0, t);
            }
            self.entries.set(k, (t, attrs));
            proof {
                assert forall|i: int, j: int| 0 <= i < j < self@.len() implies
                    (#[trigger] self@[i]).0.rank() < (#[trigger] self@[j]).0.rank() by {
                    assert(old(self)@[i].0.rank() < old(self)@[j].0.rank());
                }
            }
        } else {
            proof {
                assert forall|i: int| 0 <= i < self@.len() implies (#[trigger] self@[i]).0 != t by {
                    if i > k {
                        assert(self@[k as int].0.rank() < self@[i].0.rank());
                    }
                    if i >= k {
                        lemma_current_rank_injective(self@[k as int].0, t);
                    }
                }
            }
            self.entries.insert(k, (t, attrs));
            proof {
                assert forall|i: int, j: int| 0 <= i < j < self@.len() implies
                    (#[trigger] self@[i]).0.rank() < (#[trigger] self@[j]).0.rank() by {
                    if j < k {
                        assert(old(self)@[i].0.rank() < old(self)@[j].0.rank());
                    } else if j == k {
                    } else if i < k {
                        assert(old(self)@[j - 1].0.rank() >= old(self)@[k as int].0.rank());
                    } else if i == k {
                        assert(old(self)@[j - 1].0.rank() >= old(self)@[k as int].0.rank());
                    } else {
                        assert(old(self)@[i - 1].0.rank() < old(self)@[j - 1].0.rank());
                    }
                }
            }
        }
    }

    /// Appends an entry for a message kind that sorts after every present one.
    pub fn push_last(&mut self, t: ButtplugCurrentSpecDeviceMessageType, attrs: DeviceMessageAttributes)
        requires
            old(self).wf(),
            forall|i: int| 0 <= i < old(self)@.len() ==> (#[trigger] old(self)@[i]).0.rank() < t.rank(),
        ensures
            final(self).wf(),
            final(self)@ == old(self)@.push((t, attrs)),
    {
        self.entries.push((t, attrs));
    }

    /// The attributes of one message kind, if the device offers it.
    pub fn get(&self, t: ButtplugCurrentSpecDeviceMessageType) -> (r: Option<&DeviceMessageAttributes>)
        ensures
            r.is_some() <==> self.has(t),
            r.is_some() ==> exists|i: int| 0 <= i < self@.len() && self@[i] == (t, *r.unwrap()),
    {
        let n = self.entries.len();
        let mut k: usize = 0;
        while k < n
            invariant
                n == self@.len(),
                k <= n,
                forall|i: int| 0 <= i < k ==> (#[trigger] self@[i]).0 != t,
            decreases n - k,
        {
            if self.entries[k].0 == t {
                return Some(&self.entries[k].1);
            }
            k = k + 1;
        }
        None
    }
}

proof fn lemma_current_rank_injective(a: ButtplugCurrentSpecDeviceMessageType, b: ButtplugCurrentSpecDeviceMessageType)
    ensures
        a.rank() == b.rank() ==> a == b,
{
}

/// Attribute maps come out, as they are serialized, in the lexicographic
/// order of the message names.
pub proof fn lemma_attribute_map_in_name_order(m: DeviceMessageAttributesMap, i: int, j: int)
    requires
        m.wf(),
        0 <= i < j < m@.len(),
    ensures
        lex_less(m@[i].0.spec_name(), m@[j].0.spec_name()),
{
    lemma_current_message_type_order(m@[i].0, m@[j].0);
}

/// Description of one device in device lists.
#[derive(Debug, Clone, PartialEq)]
pub struct DeviceMessageInfo {
    pub device_index: u32,
    pub device_name: String,
    pub device_messages: DeviceMessageAttributesMap,
}

/// Description of one device in protocol version 1.
#[derive(Debug, Clone, PartialEq)]
pub struct DeviceMessageInfoV1 {
    pub device_index: u32,
    pub device_name: String,
    pub device_messages: Vec<(ButtplugCurrentSpecDeviceMessageType, DeviceMessageAttributesV1)>,
}

/// Description of one device in protocol version 0: message names only.
#[derive(Debug, Clone, PartialEq)]
pub struct DeviceMessageInfoV0 {
    pub device_index: u32,
    pub device_name: String,
    pub device_messages: Vec<ButtplugDeviceMessageType>,
}

#[derive(Debug, Clone, PartialEq)]
pub struct DeviceList {
    pub id: u32,
    pub devices: Vec<DeviceMessageInfo>,
}

#[derive(Debug, Clone, PartialEq)]
pub struct DeviceListV1 {
    pub id: u32,
    pub devices: Vec<DeviceMessageInfoV1>,
}

#[derive(Debug, Clone, PartialEq)]
pub struct DeviceListV0 {
    pub id: u32,
    pub devices: Vec<DeviceMessageInfoV0>,
}

#[derive(Debug, Clone, PartialEq)]
pub struct DeviceAdded {
    pub id: u32,
    pub device_index: u32,
    pub device_name: String,
    pub device_messages: DeviceMessageAttributesMap,
}

#[derive(Debug, Clone, PartialEq)]
pub struct DeviceAddedV1 {
    pub id: u32,
    pub device_index: u32,
    pub device_name: String,
    pub device_messages: Vec<(ButtplugCurrentSpecDeviceMessageType, DeviceMessageAttributesV1)>,
}

#[derive(Debug, Clone, PartialEq)]
pub struct DeviceAddedV0 {
    pub id: u32,
    pub device_index: u32,
    pub device_name: String,
    pub device_messages: Vec<ButtplugDeviceMessageType>,
}

// Generic device commands.

#[derive(Debug, Clone, Copy, PartialEq, Eq, Structural)]
pub struct VibrateSubcommand {
    pub index: u32,
    pub speed: i64,
}

impl VibrateSubcommand {
    pub fn new(index: u32, speed: i64) -> (r: VibrateSubcommand)
        ensures
            r == (VibrateSubcommand { index, speed }),
    {
        VibrateSubcommand { index, speed }
    }
}

#[derive(Debug, Clone, PartialEq)]
pub struct VibrateCmd {
    pub id: u32,
    pub device_index: u32,
    pub speeds: Vec<VibrateSubcommand>,
}

impl VibrateCmd {
    /// A vibrate command with the default request id 1.
    pub fn new(device_index: u32, speeds: Vec<VibrateSubcommand>) -> (r: VibrateCmd)
        ensures
            r.id == 1,
            r.device_index == device_index,
            r.speeds == speeds,
    {
        VibrateCmd { id: 1, device_index, speeds }
    }
}

#[derive(Debug, Clone, Copy, PartialEq, Eq, Structural)]
pub struct RotationSubcommand {
    pub index: u32,
    pub speed: i64,
    pub clockwise: bool,
}

#[derive(Debug, Clone, PartialEq)]
pub struct RotateCmd {
    pub id: u32,
    pub device_index: u32,
    pub rotations: Vec<RotationSubcommand>,
}

#[derive(Debug, Clone, Copy, PartialEq, Eq, Structural)]
pub struct VectorSubcommand {
    pub index: u32,
    pub duration: u32,
    pub position: i64,
}

#[derive(Debug, Clone, PartialEq)]
pub struct LinearCmd {
    pub id: u32,
    pub device_index: u32,
    pub vectors: Vec<VectorSubcommand>,
}

#[derive(Debug, Clone, PartialEq)]
pub struct StopDeviceCmd {
    pub id: u32,
    pub device_index: u32,
}

impl StopDeviceCmd {
    /// A stop command with the default request id 1.
    pub fn new(device_index: u32) -> (r: StopDeviceCmd)
        ensures
            r.id == 1,
            r.device_index == device_index,
    {
        StopDeviceCmd { id: 1, device_index }
    }
}

#[derive(Debug, Clone, PartialEq)]
pub struct StopAllDevices {
    pub id: u32,
}

#[derive(Debug, Clone, PartialEq)]
pub struct RawWriteCmd {
    pub id: u32,
    pub device_index: u32,
    pub endpoint: Endpoint,
    pub data: Vec<u8>,
    pub write_with_response: bool,
}

#[derive(Debug, Clone, PartialEq)]
pub struct RawReadCmd {
    pub id: u32,
    pub device_index: u32,
    pub endpoint: Endpoint,
    pub expected_length: u32,
    pub timeout: u32,
}

#[derive(Debug, Clone, PartialEq)]
pub struct RawSubscribeCmd {
    pub id: u32,
    pub device_index: u32,
    pub endpoint: Endpoint,
}

#[derive(Debug, Clone, PartialEq)]
pub struct RawUnsubscribeCmd {
    pub id: u32,
    pub device_index: u32,
    pub endpoint: Endpoint,
}

#[derive(Debug, Clone, PartialEq)]
pub struct RawReading {
    pub id: u32,
    pub device_index: u32,
    pub endpoint: Endpoint,
    pub data: Vec<u8>,
}

// Sensor messages.

#[derive(Debug, Clone, PartialEq)]
pub struct BatteryLevelCmd {
    pub id: u32,
    pub device_index: u32,
}

#[derive(Debug, Clone, PartialEq)]
pub struct BatteryLevelReading {
    pub id: u32,
    pub device_index: u32,
    pub battery_level: i64,
}

#[derive(Debug, Clone, PartialEq)]
pub struct RSSILevelCmd {
    pub id: u32,
    pub device_index: u32,
}

#[derive(Debug, Clone, PartialEq)]
pub struct RSSILevelReading {
    pub id: u32,
    pub device_index: u32,
    pub rssi_level: i32,
}

// Deprecated commands.

#[derive(Debug, Clone, PartialEq)]
pub struct SingleMotorVibrateCmd {
    pub id: u32,
    pub device_index: u32,
    pub speed: i64,
}

#[derive(Debug, Clone, PartialEq)]
pub struct FleshlightLaunchFW12Cmd {
    pub id: u32,
    pub device_index: u32,
    pub position: u8,
    pub speed: u8,
}

#[derive(Debug, Clone, PartialEq)]
pub struct LovenseCmd {
    pub id: u32,
    pub device_index: u32,
    pub command: String,
}

#[derive(Debug, Clone, PartialEq)]
pub struct KiirooCmd {
    pub id: u32,
    pub device_index: u32,
    pub command: String,
}

#[derive(Debug, Clone, PartialEq)]
pub struct VorzeA10CycloneCmd {
    pub id: u32,
    pub device_index: u32,
    pub speed: u32,
    pub clockwise: bool,
}

} // verus!
