//! Down-conversion of server messages into the older protocol versions.
//!
//! Every canonical server message either has a form in a given version, into
//! which it converts, or it has none and the conversion fails with a
//! `VersionError`.
use vstd::prelude::*;

use crate::message_types::{
    current_of, ButtplugCurrentSpecDeviceMessageType, ButtplugDeviceMessageType,
    ButtplugMessageSpecVersion,
};
use crate::messages::{
    ButtplugMessageError, DeviceAddedV0, DeviceAddedV1, DeviceListV0, DeviceListV1,
    DeviceMessageAttributes, DeviceMessageAttributesMap, DeviceMessageAttributesV1,
    DeviceMessageInfo, DeviceMessageInfoV0, DeviceMessageInfoV1, ErrorV0, ServerInfoV0,
};
use crate::unions::{
    ButtplugMessage, ButtplugServerMessage, ButtplugSpecV0ServerMessage,
    ButtplugSpecV1ServerMessage, ButtplugSpecV2ServerMessage,
};

verus! {

impl ButtplugCurrentSpecDeviceMessageType {
    /// The newest-version tag of a device message; deprecated messages fail
    /// with a `MessageConversionError`.
    pub fn try_from_general(t: ButtplugDeviceMessageType) -> (r: Result<
        ButtplugCurrentSpecDeviceMessageType,
        ButtplugMessageError,
    >)
        ensures
            r.is_ok() <==> current_of(t).is_some(),
            r.is_ok() ==> Some(r.unwrap()) == current_of(t),
            r.is_err() ==> r.unwrap_err() is MessageConversionError,
    {
        match t.to_current() {
            Some(c) => Ok(c),
            None => Err(ButtplugMessageError::MessageConversionError(
                "Device message deprecated, does not exist in current version of protocol.".to_owned(),
            )),
        }
    }
}

impl ButtplugDeviceMessageType {
    /// The same tag among all device messages.
    pub fn from_current(t: ButtplugCurrentSpecDeviceMessageType) -> (r: ButtplugDeviceMessageType)
        ensures
            r == t.spec_general(),
            current_of(r) == Some(t),
    {
        t.to_general()
    }
}

pub open spec fn attrs_v1_of(
    e: (ButtplugCurrentSpecDeviceMessageType, DeviceMessageAttributes),
) -> (ButtplugCurrentSpecDeviceMessageType, DeviceMessageAttributesV1) {
    (e.0, DeviceMessageAttributesV1 { feature_count: e.1.feature_count })
}

pub open spec fn attrs_v0_of(
    e: (ButtplugCurrentSpecDeviceMessageType, DeviceMessageAttributes),
) -> ButtplugDeviceMessageType {
    e.0.spec_general()
}

/// Version 1 attributes: the feature count of each message kind.
fn attributes_v1(m: &DeviceMessageAttributesMap) -> (r: Vec<
    (ButtplugCurrentSpecDeviceMessageType, DeviceMessageAttributesV1),
>)
    ensures
        r@ == m@.map_values(|e| attrs_v1_of(e)),
{
    let entries = m.entries();
    let mut r = Vec::new();
    let mut i: usize = 0;
    while i < entries.len()
        invariant
            entries@ == m@,
            i <= entries@.len(),
            r@ == m@.take(i as int).map_values(|e| attrs_v1_of(e)),
        decreases entries@.len() - i,
    {
        let e = &entries[i];
        r.push((e.0, DeviceMessageAttributesV1 { feature_count: e.1.feature_count }));
        proof {
            assert(m@.take(i + 1) =~= m@.take(i as int).push(m@[i as int]));
        }
        i = i + 1;
    }
    proof {
        assert(m@.take(i as int) =~= m@);
    }
    r
}

/// Version 0 attributes: the message names alone.
fn attributes_v0(m: &DeviceMessageAttributesMap) -> (r: Vec<ButtplugDeviceMessageType>)
    ensures
        r@ == m@.map_values(|e| attrs_v0_of(e)),
{
    let entries = m.entries();
    let mut r = Vec::new();
    let mut i: usize = 0;
    while i < entries.len()
        invariant
            entries@ == m@,
            i <= entries@.len(),
            r@ == m@.take(i as int).map_values(|e| attrs_v0_of(e)),
        decreases entries@.len() - i,
    {
        r.push(entries[i].0.to_general());
        proof {
            assert(m@.take(i + 1) =~= m@.take(i as int).push(m@[i as int]));
        }
        i = i + 1;
    }
    proof {
        assert(m@.take(i as int) =~= m@);
    }
    r
}

pub open spec fn info_v1_matches(r: DeviceMessageInfoV1, i: DeviceMessageInfo) -> bool {
    &&& r.device_index == i.device_index
    &&& r.device_name@ == i.device_name@
    &&& r.device_messages@ == i.device_messages@.map_values(|e| attrs_v1_of(e))
}

pub open spec fn info_v0_matches(r: DeviceMessageInfoV0, i: DeviceMessageInfo) -> bool {
    &&& r.device_index == i.device_index
    &&& r.device_name@ == i.device_name@
    &&& r.device_messages@ == i.device_messages@.map_values(|e| attrs_v0_of(e))
}

fn infos_v1(v: &Vec<DeviceMessageInfo>) -> (r: Vec<DeviceMessageInfoV1>)
    ensures
        r@.len() == v@.len(),
        forall|k: int| 0 <= k < v@.len() ==> info_v1_matches(#[trigger] r@[k], v@[k]),
{
    let mut r: Vec<DeviceMessageInfoV1> = Vec::new();
    let mut i: usize = 0;
    while i < v.len()
        invariant
            i <= v@.len(),
            r@.len() == i,
            forall|k: int| 0 <= k < i ==> info_v1_matches(#[trigger] r@[k], v@[k]),
        decreases v@.len() - i,
    {
        let info = &v[i];
        r.push(
            DeviceMessageInfoV1 {
                device_index: info.device_index,
                device_name: info.device_name.clone(),
                device_messages: attributes_v1(&info.device_messages),
            },
        );
        i = i + 1;
    }
    r
}

fn infos_v0(v: &Vec<DeviceMessageInfo>) -> (r: Vec<DeviceMessageInfoV0>)
    ensures
        r@.len() == v@.len(),
        forall|k: int| 0 <= k < v@.len() ==> info_v0_matches(#[trigger] r@[k], v@[k]),
{
    let mut r: Vec<DeviceMessageInfoV0> = Vec::new();
    let mut i: usize = 0;
    while i < v.len()
        invariant
            i <= v@.len(),
            r@.len() == i,
            forall|k: int| 0 <= k < i ==> info_v0_matches(#[trigger] r@[k], v@[k]),
        decreases v@.len() - i,
    {
        let info = &v[i];
        r.push(
            DeviceMessageInfoV0 {
                device_index: info.device_index,
                device_name: info.device_name.clone(),
                device_messages: attributes_v0(&info.device_messages),
            },
        );
        i = i + 1;
    }
    r
}

impl ButtplugServerMessage {
    /// Whether the message has a form in the given protocol version.
    pub open spec fn spec_exists_in(self, version: ButtplugMessageSpecVersion) -> bool {
        match version {
            ButtplugMessageSpecVersion::Version2 => match self {
                ButtplugServerMessage::Test(_) | ButtplugServerMessage::Log(_) => false,
                _ => true,
            },
            _ => match self {
                ButtplugServerMessage::OkMessage(_)
                | ButtplugServerMessage::Error(_)
                | ButtplugServerMessage::Log(_)
                | ButtplugServerMessage::ServerInfo(_)
                | ButtplugServerMessage::DeviceList(_)
                | ButtplugServerMessage::DeviceAdded(_)
                | ButtplugServerMessage::DeviceRemoved(_)
                | ButtplugServerMessage::ScanningFinished(_) => true,
                _ => false,
            },
        }
    }
}

/// `r` is the version 2 form of `m`.
pub open spec fn v2_projection(m: ButtplugServerMessage, r: ButtplugSpecV2ServerMessage) -> bool {
    match m {
        ButtplugServerMessage::OkMessage(a) => r == ButtplugSpecV2ServerMessage::OkMessage(a),
        ButtplugServerMessage::Error(a) => r == ButtplugSpecV2ServerMessage::Error(a),
        ButtplugServerMessage::ServerInfo(a) => r == ButtplugSpecV2ServerMessage::ServerInfo(a),
        ButtplugServerMessage::DeviceList(a) => r == ButtplugSpecV2ServerMessage::DeviceList(a),
        ButtplugServerMessage::DeviceAdded(a) => r == ButtplugSpecV2ServerMessage::DeviceAdded(a),
        ButtplugServerMessage::DeviceRemoved(a) => r == ButtplugSpecV2ServerMessage::DeviceRemoved(a),
        ButtplugServerMessage::ScanningFinished(a) => r == ButtplugSpecV2ServerMessage::ScanningFinished(a),
        ButtplugServerMessage::RawReading(a) => r == ButtplugSpecV2ServerMessage::RawReading(a),
        ButtplugServerMessage::BatteryLevelReading(a) => r == ButtplugSpecV2ServerMessage::BatteryLevelReading(a),
        ButtplugServerMessage::RSSILevelReading(a) => r == ButtplugSpecV2ServerMessage::RSSILevelReading(a),
        _ => false,
    }
}

/// `r` is the version 1 form of `m`: older records drop or synthesize fields.
pub open spec fn v1_projection(m: ButtplugServerMessage, r: ButtplugSpecV1ServerMessage) -> bool {
    match m {
        ButtplugServerMessage::OkMessage(a) => r == ButtplugSpecV1ServerMessage::OkMessage(a),
        ButtplugServerMessage::Log(a) => r == ButtplugSpecV1ServerMessage::Log(a),
        ButtplugServerMessage::DeviceRemoved(a) => r == ButtplugSpecV1ServerMessage::DeviceRemoved(a),
        ButtplugServerMessage::ScanningFinished(a) => r == ButtplugSpecV1ServerMessage::ScanningFinished(a),
        ButtplugServerMessage::Error(a) => match r {
            ButtplugSpecV1ServerMessage::Error(b) => b.id == a.id && b.error_code == a.error_code
                && b.error_message@ == a.error_message@,
            _ => false,
        },
        ButtplugServerMessage::ServerInfo(a) => match r {
            ButtplugSpecV1ServerMessage::ServerInfo(b) => server_info_v0_matches(b, a),
            _ => false,
        },
        ButtplugServerMessage::DeviceList(a) => match r {
            ButtplugSpecV1ServerMessage::DeviceList(b) => b.id == a.id && b.devices@.len()
                == a.devices@.len() && forall|k: int|
                0 <= k < a.devices@.len() ==> info_v1_matches(#[trigger] b.devices@[k], a.devices@[k]),
            _ => false,
        },
        ButtplugServerMessage::DeviceAdded(a) => match r {
            ButtplugSpecV1ServerMessage::DeviceAdded(b) => b.id == a.id && b.device_index
                == a.device_index && b.device_name@ == a.device_name@ && b.device_messages@
                == a.device_messages@.map_values(|e| attrs_v1_of(e)),
            _ => false,
        },
        _ => false,
    }
}

/// `r` is the version 0 form of `m`.
pub open spec fn v0_projection(m: ButtplugServerMessage, r: ButtplugSpecV0ServerMessage) -> bool {
    match m {
        ButtplugServerMessage::OkMessage(a) => r == ButtplugSpecV0ServerMessage::OkMessage(a),
        ButtplugServerMessage::Log(a) => r == ButtplugSpecV0ServerMessage::Log(a),
        ButtplugServerMessage::DeviceRemoved(a) => r == ButtplugSpecV0ServerMessage::DeviceRemoved(a),
        ButtplugServerMessage::ScanningFinished(a) => r == ButtplugSpecV0ServerMessage::ScanningFinished(a),
        ButtplugServerMessage::Error(a) => match r {
            ButtplugSpecV0ServerMessage::Error(b) => b.id == a.id && b.error_code == a.error_code
                && b.error_message@ == a.error_message@,
            _ => false,
        },
        ButtplugServerMessage::ServerInfo(a) => match r {
            ButtplugSpecV0ServerMessage::ServerInfo(b) => server_info_v0_matches(b, a),
            _ => false,
        },
        ButtplugServerMessage::DeviceList(a) => match r {
            ButtplugSpecV0ServerMessage::DeviceList(b) => b.id == a.id && b.devices@.len()
                == a.devices@.len() && forall|k: int|
                0 <= k < a.devices@.len() ==> info_v0_matches(#[trigger] b.devices@[k], a.devices@[k]),
            _ => false,
        },
        ButtplugServerMessage::DeviceAdded(a) => match r {
            ButtplugSpecV0ServerMessage::DeviceAdded(b) => b.id == a.id && b.device_index
                == a.device_index && b.device_name@ == a.device_name@ && b.device_messages@
                == a.device_messages@.map_values(|e| attrs_v0_of(e)),
            _ => false,
        },
        _ => false,
    }
}

/// The old server info keeps the newest fields and reports build version 0.0.0.
pub open spec fn server_info_v0_matches(b: ServerInfoV0, a: crate::messages::ServerInfo) -> bool {
    &&& b.id == a.id
    &&& b.server_name@ == a.server_name@
    &&& b.message_version == a.message_version
    &&& b.max_ping_time == a.max_ping_time
    &&& b.major_version == 0 && b.minor_version == 0 && b.build_version == 0
}

/// The name of the server message union of a protocol version.
pub open spec fn union_name(version: ButtplugMessageSpecVersion) -> Seq<char> {
    match version {
        ButtplugMessageSpecVersion::Version0 => "ButtplugSpecV0ServerMessage"@,
        ButtplugMessageSpecVersion::Version1 => "ButtplugSpecV1ServerMessage"@,
        ButtplugMessageSpecVersion::Version2 => "ButtplugSpecV2ServerMessage"@,
    }
}

/// A `VersionError` for message kind `kind` converted to union `target`.
pub open spec fn is_version_error(e: ButtplugMessageError, kind: Seq<char>, target: Seq<char>) -> bool {
    match e {
        ButtplugMessageError::VersionError(a, b, c) => a@ == "ButtplugServerMessage"@ && b@ == kind && c@ == target,
        _ => false,
    }
}

fn version_error(kind: &str, target: &str) -> (r: ButtplugMessageError)
    ensures
        is_version_error(r, kind@, target@),
{
    ButtplugMessageError::VersionError("ButtplugServerMessage".to_owned(), kind.to_owned(), target.to_owned())
}

impl ButtplugServerMessage {
    /// The name of the message's kind.
    pub open spec fn spec_kind_name(self) -> Seq<char> {
        match self {
            ButtplugServerMessage::OkMessage(_) => "Ok"@,
            ButtplugServerMessage::Error(_) => "Error"@,
            ButtplugServerMessage::Test(_) => "Test"@,
            ButtplugServerMessage::Log(_) => "Log"@,
            ButtplugServerMessage::ServerInfo(_) => "ServerInfo"@,
            ButtplugServerMessage::DeviceList(_) => "DeviceList"@,
            ButtplugServerMessage::DeviceAdded(_) => "DeviceAdded"@,
            ButtplugServerMessage::DeviceRemoved(_) => "DeviceRemoved"@,
            ButtplugServerMessage::ScanningFinished(_) => "ScanningFinished"@,
            ButtplugServerMessage::RawReading(_) => "RawReading"@,
            ButtplugServerMessage::BatteryLevelReading(_) => "BatteryLevelReading"@,
            ButtplugServerMessage::RSSILevelReading(_) => "RSSILevelReading"@,
        }
    }

    pub fn kind_name(&self) -> (r: &'static str)
        ensures
            r@ == self.spec_kind_name(),
    {
        match self {
            ButtplugServerMessage::OkMessage(_) => "Ok",
            ButtplugServerMessage::Error(_) => "Error",
            ButtplugServerMessage::Test(_) => "Test",
            ButtplugServerMessage::Log(_) => "Log",
            ButtplugServerMessage::ServerInfo(_) => "ServerInfo",
            ButtplugServerMessage::DeviceList(_) => "DeviceList",
            ButtplugServerMessage::DeviceAdded(_) => "DeviceAdded",
            ButtplugServerMessage::DeviceRemoved(_) => "DeviceRemoved",
            ButtplugServerMessage::ScanningFinished(_) => "ScanningFinished",
            ButtplugServerMessage::RawReading(_) => "RawReading",
            ButtplugServerMessage::BatteryLevelReading(_) => "BatteryLevelReading",
            ButtplugServerMessage::RSSILevelReading(_) => "RSSILevelReading",
        }
    }
}

impl ButtplugSpecV2ServerMessage {
    /// The version 2 form of a server message, or a `VersionError`.
    pub fn try_from_server(m: ButtplugServerMessage) -> (r: Result<
        ButtplugSpecV2ServerMessage,
        ButtplugMessageError,
    >)
        ensures
            r.is_ok() <==> m.spec_exists_in(ButtplugMessageSpecVersion::Version2),
            r.is_ok() ==> v2_projection(m, r.unwrap()) && r.unwrap().spec_id() == m.spec_id(),
            r.is_err() ==> is_version_error(r.unwrap_err(), m.spec_kind_name(), "ButtplugSpecV2ServerMessage"@),
    {
        let kind = m.kind_name();
        match m {
            ButtplugServerMessage::OkMessage(a) => Ok(ButtplugSpecV2ServerMessage::OkMessage(a)),
            ButtplugServerMessage::Error(a) => Ok(ButtplugSpecV2ServerMessage::Error(a)),
            ButtplugServerMessage::ServerInfo(a) => Ok(ButtplugSpecV2ServerMessage::ServerInfo(a)),
            ButtplugServerMessage::DeviceList(a) => Ok(ButtplugSpecV2ServerMessage::DeviceList(a)),
            ButtplugServerMessage::DeviceAdded(a) => Ok(ButtplugSpecV2ServerMessage::DeviceAdded(a)),
            ButtplugServerMessage::DeviceRemoved(a) => Ok(ButtplugSpecV2ServerMessage::DeviceRemoved(a)),
            ButtplugServerMessage::ScanningFinished(a) => Ok(ButtplugSpecV2ServerMessage::ScanningFinished(a)),
            ButtplugServerMessage::RawReading(a) => Ok(ButtplugSpecV2ServerMessage::RawReading(a)),
            ButtplugServerMessage::BatteryLevelReading(a) => Ok(ButtplugSpecV2ServerMessage::BatteryLevelReading(a)),
            ButtplugServerMessage::RSSILevelReading(a) => Ok(ButtplugSpecV2ServerMessage::RSSILevelReading(a)),
            _ => Err(version_error(kind, "ButtplugSpecV2ServerMessage")),
        }
    }
}

impl ButtplugSpecV1ServerMessage {
    /// The version 1 form of a server message, or a `VersionError`.
    pub fn try_from_server(m: ButtplugServerMessage) -> (r: Result<
        ButtplugSpecV1ServerMessage,
        ButtplugMessageError,
    >)
        ensures
            r.is_ok() <==> m.spec_exists_in(ButtplugMessageSpecVersion::Version1),
            r.is_ok() ==> v1_projection(m, r.unwrap()) && r.unwrap().spec_id() == m.spec_id(),
            r.is_err() ==> is_version_error(r.unwrap_err(), m.spec_kind_name(), "ButtplugSpecV1ServerMessage"@),
    {
        let kind = m.kind_name();
        match m {
            ButtplugServerMessage::OkMessage(a) => Ok(ButtplugSpecV1ServerMessage::OkMessage(a)),
            ButtplugServerMessage::Error(a) => Ok(
                ButtplugSpecV1ServerMessage::Error(
                    ErrorV0 { id: a.id, error_code: a.error_code, error_message: a.error_message },
                ),
            ),
            ButtplugServerMessage::Log(a) => Ok(ButtplugSpecV1ServerMessage::Log(a)),
            ButtplugServerMessage::ServerInfo(a) => Ok(
                ButtplugSpecV1ServerMessage::ServerInfo(
                    ServerInfoV0 {
                        id: a.id,
                        server_name: a.server_name,
                        major_version: 0,
                        minor_version: 0,
                        build_version: 0,
                        message_version: a.message_version,
                        max_ping_time: a.max_ping_time,
                    },
                ),
            ),
            ButtplugServerMessage::DeviceList(a) => Ok(
                ButtplugSpecV1ServerMessage::DeviceList(
                    DeviceListV1 { id: a.id, devices: infos_v1(&a.devices) },
                ),
            ),
            ButtplugServerMessage::DeviceAdded(a) => {
                let device_messages = attributes_v1(&a.device_messages);
                Ok(
                    ButtplugSpecV1ServerMessage::DeviceAdded(
                        DeviceAddedV1 {
                            id: a.id,
                            device_index: a.device_index,
                            device_name: a.device_name,
                            device_messages,
                        },
                    ),
                )
            },
            ButtplugServerMessage::DeviceRemoved(a) => Ok(ButtplugSpecV1ServerMessage::DeviceRemoved(a)),
            ButtplugServerMessage::ScanningFinished(a) => Ok(ButtplugSpecV1ServerMessage::ScanningFinished(a)),
            _ => Err(version_error(kind, "ButtplugSpecV1ServerMessage")),
        }
    }
}

impl ButtplugSpecV0ServerMessage {
    /// The version 0 form of a server message, or a `VersionError`.
    pub fn try_from_server(m: ButtplugServerMessage) -> (r: Result<
        ButtplugSpecV0ServerMessage,
        ButtplugMessageError,
    >)
        ensures
            r.is_ok() <==> m.spec_exists_in(ButtplugMessageSpecVersion::Version0),
            r.is_ok() ==> v0_projection(m, r.unwrap()) && r.unwrap().spec_id() == m.spec_id(),
            r.is_err() ==> is_version_error(r.unwrap_err(), m.spec_kind_name(), "ButtplugSpecV0ServerMessage"@),
    {
        let kind = m.kind_name();
        match m {
            ButtplugServerMessage::OkMessage(a) => Ok(ButtplugSpecV0ServerMessage::OkMessage(a)),
            ButtplugServerMessage::Error(a) => Ok(
                ButtplugSpecV0ServerMessage::Error(
                    ErrorV0 { id: a.id, error_code: a.error_code, error_message: a.error_message },
                ),
            ),
            ButtplugServerMessage::Log(a) => Ok(ButtplugSpecV0ServerMessage::Log(a)),
            ButtplugServerMessage::ServerInfo(a) => Ok(
                ButtplugSpecV0ServerMessage::ServerInfo(
                    ServerInfoV0 {
                        id: a.id,
                        server_name: a.server_name,
                        major_version: 0,
                        minor_version: 0,
                        build_version: 0,
                        message_version: a.message_version,
                        max_ping_time: a.max_ping_time,
                    },
                ),
            ),
            ButtplugServerMessage::DeviceList(a) => Ok(
                ButtplugSpecV0ServerMessage::DeviceList(
                    DeviceListV0 { id: a.id, devices: infos_v0(&a.devices) },
                ),
            ),
            ButtplugServerMessage::DeviceAdded(a) => {
                let device_messages = attributes_v0(&a.device_messages);
                Ok(
                    ButtplugSpecV0ServerMessage::DeviceAdded(
                        DeviceAddedV0 {
                            id: a.id,
                            device_index: a.device_index,
                            device_name: a.device_name,
                            device_messages,
                        },
                    ),
                )
            },
            ButtplugServerMessage::DeviceRemoved(a) => Ok(ButtplugSpecV0ServerMessage::DeviceRemoved(a)),
            ButtplugServerMessage::ScanningFinished(a) => Ok(ButtplugSpecV0ServerMessage::ScanningFinished(a)),
            _ => Err(version_error(kind, "ButtplugSpecV0ServerMessage")),
        }
    }
}

/// A server message in the form of one protocol version.
#[derive(Debug, Clone, PartialEq)]
pub enum VersionedServerMessage {
    V0(ButtplugSpecV0ServerMessage),
    V1(ButtplugSpecV1ServerMessage),
    V2(ButtplugSpecV2ServerMessage),
}

/// `r` is the form of `m` in protocol version `version`.
pub open spec fn versioned_projection(
    m: ButtplugServerMessage,
    version: ButtplugMessageSpecVersion,
    r: VersionedServerMessage,
) -> bool {
    match (version, r) {
        (ButtplugMessageSpecVersion::Version0, VersionedServerMessage::V0(x)) => v0_projection(m, x),
        (ButtplugMessageSpecVersion::Version1, VersionedServerMessage::V1(x)) => v1_projection(m, x),
        (ButtplugMessageSpecVersion::Version2, VersionedServerMessage::V2(x)) => v2_projection(m, x),
        _ => false,
    }
}

impl VersionedServerMessage {
    pub open spec fn spec_id(self) -> u32 {
        match self {
            VersionedServerMessage::V0(x) => x.spec_id(),
            VersionedServerMessage::V1(x) => x.spec_id(),
            VersionedServerMessage::V2(x) => x.spec_id(),
        }
    }

    pub fn id(&self) -> (r: u32)
        ensures
            r == self.spec_id(),
    {
        match self {
            VersionedServerMessage::V0(x) => x.id(),
            VersionedServerMessage::V1(x) => x.id(),
            VersionedServerMessage::V2(x) => x.id(),
        }
    }
}

/// Converts a canonical server message into the wire form of `version`.
/// It succeeds exactly when the message's kind exists in that version, and
/// otherwise fails with a `VersionError`; the id is kept.
pub fn downgrade_server_message(m: ButtplugServerMessage, version: ButtplugMessageSpecVersion) -> (r:
    Result<VersionedServerMessage, ButtplugMessageError>)
    ensures
        r.is_ok() <==> m.spec_exists_in(version),
        r.is_ok() ==> versioned_projection(m, version, r.unwrap()) && r.unwrap().spec_id() == m.spec_id(),
        r.is_err() ==> is_version_error(r.unwrap_err(), m.spec_kind_name(), union_name(version)),
{
    match version {
        ButtplugMessageSpecVersion::Version0 => match ButtplugSpecV0ServerMessage::try_from_server(m) {
            Ok(x) => Ok(VersionedServerMessage::V0(x)),
            Err(e) => Err(e),
        },
        ButtplugMessageSpecVersion::Version1 => match ButtplugSpecV1ServerMessage::try_from_server(m) {
            Ok(x) => Ok(VersionedServerMessage::V1(x)),
            Err(e) => Err(e),
        },
        ButtplugMessageSpecVersion::Version2 => match ButtplugSpecV2ServerMessage::try_from_server(m) {
            Ok(x) => Ok(VersionedServerMessage::V2(x)),
            Err(e) => Err(e),
        },
    }
}

/// What the server hands a client of `version` for `m`: the converted
/// message, or nothing where the version has no form for it (such messages
/// are dropped, as nobody could receive an error about them).
pub fn outgoing_for_version(m: ButtplugServerMessage, version: ButtplugMessageSpecVersion) -> (r:
    Option<VersionedServerMessage>)
    ensures
        r.is_some() <==> m.spec_exists_in(version),
        r.is_some() ==> versioned_projection(m, version, r.unwrap()) && r.unwrap().spec_id() == m.spec_id(),
{
    match downgrade_server_message(m, version) {
        Ok(x) => Some(x),
        Err(_) => None,
    }
}

} // verus!
