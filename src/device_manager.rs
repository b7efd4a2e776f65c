//! The device manager: registry of devices and bus scanners, routing of
//! client messages, scanning coordination and device user config.
//!
//! Bus work (starting a scanner, connecting, writing to a device) is done by
//! the caller; the manager decides, keeps the state and says what to do.
use vstd::prelude::*;

use dashmap::DashMap;

use crate::command_manager::{check_feature_counts, feature_counts_fit};
use crate::concurrent_map::{
    comm_manager_contents, comm_map_get, comm_map_insert, comm_map_names, comm_map_new,
    device_map_contents, device_map_indices, device_map_insert,
    device_map_new, device_map_remove, user_config_contents, user_config_map_addresses,
    user_config_map_display_name, user_config_map_flags, user_config_map_insert,
    user_config_map_new, user_config_map_remove,
};
use crate::device::{create_device, device_handled, handler_exists, has_handler, ButtplugDevice, DeviceConnectionState, DeviceWriteCmd};
use crate::lovehoney_desire::{stop_frames, stop_targets, writes_carry};
use crate::command_manager::commanded_after;
use crate::errors::{ButtplugDeviceError, ButtplugError, ButtplugServerError, ButtplugUnknownError};
use crate::messages::{
    Endpoint, ButtplugMessageError, DeviceAdded, DeviceList, DeviceMessageAttributes,
    DeviceMessageAttributesMap, DeviceMessageInfo, DeviceRemoved, OkMessage, ScanningFinished,
    StopDeviceCmd, BUTTPLUG_SERVER_EVENT_ID,
};
use crate::message_types::ButtplugCurrentSpecDeviceMessageType;
use crate::unions::{
    ButtplugClientMessage, ButtplugDeviceCommandMessageUnion, ButtplugDeviceManagerMessageUnion,
    ButtplugDeviceMessage, ButtplugMessage, ButtplugServerMessage,
};

verus! {

/// Per-address settings that a user keeps across sessions.
#[derive(Debug, Clone, PartialEq, Default)]
pub struct DeviceUserConfig {
    pub display_name: Option<String>,
    pub allow: Option<bool>,
    pub deny: Option<bool>,
}

impl DeviceUserConfig {
    pub open spec fn spec_display_name(&self) -> Option<String> {
        self.display_name
    }

    pub open spec fn spec_allow(&self) -> Option<bool> {
        self.allow
    }

    pub open spec fn spec_deny(&self) -> Option<bool> {
        self.deny
    }

    /// A config that overrides nothing.
    pub fn new() -> (r: DeviceUserConfig)
        ensures
            r.spec_display_name().is_none(),
            r.spec_allow().is_none(),
            r.spec_deny().is_none(),
    {
        DeviceUserConfig { display_name: None, allow: None, deny: None }
    }

    pub fn display_name(&self) -> (r: &Option<String>)
        ensures
            *r == self.spec_display_name(),
    {
        &self.display_name
    }

    pub fn allow(&self) -> (r: &Option<bool>)
        ensures
            *r == self.spec_allow(),
    {
        &self.allow
    }

    pub fn deny(&self) -> (r: &Option<bool>)
        ensures
            *r == self.spec_deny(),
    {
        &self.deny
    }

    pub fn set_display_name(&mut self, display_name: Option<String>)
        ensures
            final(self).spec_display_name() == display_name,
            final(self).spec_allow() == old(self).spec_allow(),
            final(self).spec_deny() == old(self).spec_deny(),
    {
        self.display_name = display_name;
    }

    pub fn set_allow(&mut self, allow: Option<bool>)
        ensures
            final(self).spec_allow() == allow,
            final(self).spec_display_name() == old(self).spec_display_name(),
            final(self).spec_deny() == old(self).spec_deny(),
    {
        self.allow = allow;
    }

    pub fn set_deny(&mut self, deny: Option<bool>)
        ensures
            final(self).spec_deny() == deny,
            final(self).spec_display_name() == old(self).spec_display_name(),
            final(self).spec_allow() == old(self).spec_allow(),
    {
        self.deny = deny;
    }
}

/// How a protocol's devices are found on Bluetooth LE: their advertised
/// names, and the characteristic UUID behind each endpoint.
#[derive(Debug, Clone, PartialEq)]
pub struct BluetoothLESpecifier {
    pub names: Vec<String>,
    pub endpoints: Vec<(Endpoint, String)>,
}

/// How a protocol's devices are recognized on each bus.
#[derive(Debug, Clone, PartialEq)]
pub struct ProtocolDefinition {
    pub btle: Option<BluetoothLESpecifier>,
}

/// Whether a definition recognizes a Bluetooth LE device by its name.
pub open spec fn definition_matches(d: ProtocolDefinition, device_name: Seq<char>) -> bool {
    match d.btle {
        Some(b) => exists|k: int| 0 <= k < b.names@.len() && (#[trigger] b.names@[k])@ == device_name,
        None => false,
    }
}

fn recognizes(d: &ProtocolDefinition, device_name: &String) -> (r: bool)
    ensures
        r == definition_matches(*d, device_name@),
{
    match &d.btle {
        Some(b) => {
            let mut k: usize = 0;
            while k < b.names.len()
                invariant
                    d.btle == Some(*b),
                    k <= b.names@.len(),
                    forall|j: int| 0 <= j < k ==> (#[trigger] b.names@[j])@ != device_name@,
                decreases b.names@.len() - k,
            {
                if b.names[k] == *device_name {
                    proof {
                        let spec_b = d.btle.unwrap();
                        assert(spec_b.names@[k as int]@ == device_name@);
                    }
                    return true;
                }
                k = k + 1;
            }
            false
        },
        None => false,
    }
}

/// Where a device is and what the user calls it.
#[derive(Debug)]
pub struct DeviceInfo {
    pub address: String,
    pub display_name: Option<String>,
}

/// Writes for the device with the given index, in order.
#[derive(Debug, Clone, PartialEq)]
pub struct DeviceWrite {
    pub device_index: u32,
    pub commands: Vec<DeviceWriteCmd>,
}

/// What the caller must ask of every comm manager.
#[derive(Debug, Clone, Copy, PartialEq, Eq, Structural)]
pub enum ScanningCommand {
    StartScanning,
    StopScanning,
}

/// The answer to a client message, and the work it leaves for the caller.
#[derive(Debug)]
pub struct ManagerResponse {
    pub message: ButtplugServerMessage,
    pub writes: Vec<DeviceWrite>,
    pub scanning: Option<ScanningCommand>,
}

/// Whether any comm manager is scanning.
pub open spec fn any_scanning(c: Map<Seq<char>, bool>) -> bool {
    exists|k: Seq<char>| c.contains_key(k) && c[k]
}

/// Whether some user config allows its device, which puts an allow list in use.
pub open spec fn allow_list_in_use(u: Map<Seq<char>, DeviceUserConfig>) -> bool {
    exists|k: Seq<char>| u.contains_key(k) && u[k].spec_allow() == Some(true)
}

/// A device may be enumerated unless its config denies it, or an allow list
/// is in use that it is not on.
pub open spec fn spec_device_permitted(u: Map<Seq<char>, DeviceUserConfig>, address: Seq<char>) -> bool {
    let denied = u.contains_key(address) && u[address].spec_deny() == Some(true);
    let allowed = u.contains_key(address) && u[address].spec_allow() == Some(true);
    !denied && (!allow_list_in_use(u) || allowed)
}

/// The message kinds advertised to clients: all of them, or all but the raw
/// endpoint messages.
pub open spec fn advertised_kinds(
    m: Seq<(ButtplugCurrentSpecDeviceMessageType, DeviceMessageAttributes)>,
    allow_raw: bool,
) -> Seq<ButtplugCurrentSpecDeviceMessageType>
    decreases m.len(),
{
    if m.len() == 0 {
        seq![]
    } else {
        let prev = advertised_kinds(m.drop_last(), allow_raw);
        if allow_raw || !m.last().0.spec_is_raw() {
            prev.push(m.last().0)
        } else {
            prev
        }
    }
}

/// The attribute entries advertised to clients: all of them, or all but the
/// raw endpoint messages.
pub open spec fn advertised_entries(
    m: Seq<(ButtplugCurrentSpecDeviceMessageType, DeviceMessageAttributes)>,
    allow_raw: bool,
) -> Seq<(ButtplugCurrentSpecDeviceMessageType, DeviceMessageAttributes)>
    decreases m.len(),
{
    if m.len() == 0 {
        seq![]
    } else {
        let prev = advertised_entries(m.drop_last(), allow_raw);
        if allow_raw || !m.last().0.spec_is_raw() {
            prev.push(m.last())
        } else {
            prev
        }
    }
}

/// Two attribute records hold the same feature count and step counts.
pub open spec fn same_attributes(a: DeviceMessageAttributes, b: DeviceMessageAttributes) -> bool {
    &&& a.feature_count == b.feature_count
    &&& a.step_count.is_some() == b.step_count.is_some()
    &&& a.step_count.is_some() ==> a.step_count.unwrap()@ == b.step_count.unwrap()@
}

/// Two attribute lists name the same kinds, in order, with the same values.
pub open spec fn same_entries(
    a: Seq<(ButtplugCurrentSpecDeviceMessageType, DeviceMessageAttributes)>,
    b: Seq<(ButtplugCurrentSpecDeviceMessageType, DeviceMessageAttributes)>,
) -> bool {
    &&& a.len() == b.len()
    &&& forall|i: int| 0 <= i < a.len() ==> (#[trigger] a[i]).0 == b[i].0 && same_attributes(a[i].1, b[i].1)
}

fn copy_step_counts(v: &Option<Vec<u32>>) -> (r: Option<Vec<u32>>)
    ensures
        r.is_some() == v.is_some(),
        r.is_some() ==> r.unwrap()@ == v.unwrap()@,
{
    match v {
        Some(steps) => {
            let mut out: Vec<u32> = Vec::new();
            let mut i: usize = 0;
            while i < steps.len()
                invariant
                    i <= steps@.len(),
                    out@ == steps@.take(i as int),
                decreases steps@.len() - i,
            {
                out.push(steps[i]);
                proof {
                    assert(steps@.take(i + 1) =~= steps@.take(i as int).push(steps@[i as int]));
                }
                i = i + 1;
            }
            proof {
                assert(steps@.take(i as int) =~= steps@);
            }
            Some(out)
        },
        None => None,
    }
}

/// The attributes that clients are shown, in name order.
pub fn advertised_attributes(m: &DeviceMessageAttributesMap, allow_raw: bool) -> (r: DeviceMessageAttributesMap)
    requires
        m.wf(),
    ensures
        r.wf(),
        r@.map_values(|e: (ButtplugCurrentSpecDeviceMessageType, DeviceMessageAttributes)| e.0)
            == advertised_kinds(m@, allow_raw),
        same_entries(r@, advertised_entries(m@, allow_raw)),
{
    let entries = m.entries();
    let mut r = DeviceMessageAttributesMap::new();
    let mut i: usize = 0;
    while i < entries.len()
        invariant
            m.wf(),
            entries@ == m@,
            i <= entries@.len(),
            r.wf(),
            r@.map_values(|e: (ButtplugCurrentSpecDeviceMessageType, DeviceMessageAttributes)| e.0)
                == advertised_kinds(m@.take(i as int), allow_raw),
            forall|j: int| 0 <= j < r@.len() ==> exists|l: int| 0 <= l < i && (#[trigger] r@[j]).0 == m@[l].0,
            same_entries(r@, advertised_entries(m@.take(i as int), allow_raw)),
        decreases entries@.len() - i,
    {
        let e = &entries[i];
        proof {
            assert(m@.take(i + 1).drop_last() =~= m@.take(i as int));
        }
        if allow_raw || !e.0.is_raw() {
            let ghost before = r@;
            proof {
                assert forall|j: int| 0 <= j < r@.len() implies (#[trigger] r@[j]).0.rank() < e.0.rank() by {
                    let l = choose|l: int| 0 <= l < i && r@[j].0 == m@[l].0;
                    assert(m@[l].0.rank() < m@[i as int].0.rank());
                }
            }
            r.push_last(e.0, DeviceMessageAttributes { feature_count: e.1.feature_count, step_count: copy_step_counts(&e.1.step_count) });
            proof {
                let adv = advertised_entries(m@.take(i as int), allow_raw);
                assert(advertised_entries(m@.take(i + 1), allow_raw) == adv.push(m@[i as int]));
                assert forall|j: int| 0 <= j < r@.len() implies (#[trigger] r@[j]).0 == adv.push(m@[i as int])[j].0
                    && same_attributes(r@[j].1, adv.push(m@[i as int])[j].1) by {
                    if j < before.len() {
                        assert(r@[j] == before[j]);
                    }
                }
                assert(r@.map_values(|e: (ButtplugCurrentSpecDeviceMessageType, DeviceMessageAttributes)| e.0)
                    =~= before.map_values(|e: (ButtplugCurrentSpecDeviceMessageType, DeviceMessageAttributes)| e.0).push(m@[i as int].0));
                assert forall|j: int| 0 <= j < r@.len() implies exists|l: int| 0 <= l < i + 1 && (#[trigger] r@[j]).0 == m@[l].0 by {
                    if j < before.len() {
                        assert(r@[j] == before[j]);
                    } else {
                        assert(r@[j].0 == m@[i as int].0);
                    }
                }
            }
        }
        i = i + 1;
    }
    proof {
        assert(m@.take(i as int) =~= m@);
    }
    r
}

/// Protocol names and definitions are as in `a`.
spec fn registries_kept(a: DeviceManager, b: DeviceManager) -> bool {
    b.spec_protocols() == a.spec_protocols() && b.spec_definitions() == a.spec_definitions()
}

proof fn lemma_wf_frame(a: &DeviceManager, b: &DeviceManager)
    requires
        a.wf(),
        b.spec_devices() == a.spec_devices(),
        b.spec_next_index() == a.spec_next_index(),
        b.spec_protocols() == a.spec_protocols(),
        b.spec_definitions() == a.spec_definitions(),
    ensures
        b.wf(),
{
}

proof fn lemma_wf_frame_definitions(a: &DeviceManager, b: &DeviceManager)
    requires
        a.wf(),
        b.spec_devices() == a.spec_devices(),
        b.spec_next_index() == a.spec_next_index(),
        b.spec_protocols() == a.spec_protocols(),
        forall|i: int, j: int|
            0 <= i < j < b.spec_definitions().len() ==> (#[trigger] b.spec_definitions()[i]).0
                != (#[trigger] b.spec_definitions()[j]).0,
    ensures
        b.wf(),
{
}

proof fn lemma_wf_frame_protocols(a: &DeviceManager, b: &DeviceManager)
    requires
        a.wf(),
        b.spec_devices() == a.spec_devices(),
        b.spec_next_index() == a.spec_next_index(),
        b.spec_definitions() == a.spec_definitions(),
        b.spec_protocols().no_duplicates(),
    ensures
        b.wf(),
{
}

/// `w` holds what stopping every device of `old` writes: one entry per
/// device at most, each carrying the frames that bring that device's motors
/// to rest, and one for every connected device. The devices stay registered.
pub open spec fn stops_all(old: DeviceManager, new: DeviceManager, w: Seq<DeviceWrite>) -> bool {
    &&& new.spec_devices().dom() == old.spec_devices().dom()
    &&& w.map_values(|e: DeviceWrite| e.device_index).no_duplicates()
    &&& forall|k: int| 0 <= k < w.len() ==> old.spec_devices().contains_key(#[trigger] w[k].device_index)
        && writes_carry(w[k].commands@, stop_frames(old.spec_devices()[w[k].device_index].spec_protocol()))
    &&& forall|d: u32| #[trigger] old.spec_devices().contains_key(d) && old.spec_devices()[d].spec_state()
        == DeviceConnectionState::Connected ==> exists|k: int| 0 <= k < w.len() && w[k].device_index == d
    &&& forall|d: u32| #[trigger] old.spec_devices().contains_key(d) ==> stopped(old.spec_devices()[d], new.spec_devices()[d])
}

/// Device `n` is device `o` after its stop command: a connected device's
/// motors are commanded to rest; any other device is unchanged.
pub open spec fn stopped(o: ButtplugDevice, n: ButtplugDevice) -> bool {
    &&& n.wf()
    &&& n.spec_state() == o.spec_state()
    &&& n.spec_name() == o.spec_name()
    &&& n.spec_address() == o.spec_address()
    &&& n.spec_display_name() == o.spec_display_name()
    &&& n.spec_protocol().spec_attributes() == o.spec_protocol().spec_attributes()
    &&& if o.spec_state() == DeviceConnectionState::Connected {
        n.spec_protocol().spec_manager().spec_vibrations() == commanded_after(
            o.spec_protocol().spec_manager().spec_vibrations(),
            stop_targets(o.spec_protocol()),
        )
    } else {
        n.spec_protocol() == o.spec_protocol()
    }
}

/// `r` is the manager's answer made from device `index`'s result `res`: the
/// device's response, and its writes tagged with the index.
pub open spec fn response_from_device(
    index: u32,
    res: Result<(ButtplugServerMessage, Vec<DeviceWriteCmd>), ButtplugError>,
    r: Result<ManagerResponse, ButtplugError>,
) -> bool {
    match res {
        Ok(x) => r.is_ok() && r.unwrap().message == x.0 && r.unwrap().scanning.is_none()
            && r.unwrap().writes@ == seq![(DeviceWrite { device_index: index, commands: x.1 })],
        Err(e) => r == Err::<ManagerResponse, ButtplugError>(e),
    }
}

/// `new` and `r` are what routing the device command `message` on `old`
/// gives: an unknown index answers `DeviceNotAvailable` and changes nothing;
/// a known one hands the command to that device alone, and answers with its
/// result.
pub open spec fn device_routed(
    old: DeviceManager,
    new: DeviceManager,
    message: ButtplugDeviceCommandMessageUnion,
    r: Result<ManagerResponse, ButtplugError>,
) -> bool {
    let index = message.spec_device_index();
    &&& new.spec_allow_raw_messages() == old.spec_allow_raw_messages()
    &&& new.spec_next_index() == old.spec_next_index()
    &&& new.spec_devices().dom() == old.spec_devices().dom()
    &&& forall|k: u32| #[trigger] old.spec_devices().contains_key(k) && k != index ==> new.spec_devices()[k]
        == old.spec_devices()[k]
    &&& new.spec_comm_managers() == old.spec_comm_managers()
    &&& new.spec_scanning_in_progress() == old.spec_scanning_in_progress()
    &&& if old.spec_devices().contains_key(index) {
        exists|res: Result<(ButtplugServerMessage, Vec<DeviceWriteCmd>), ButtplugError>|
            device_handled(old.spec_devices()[index], new.spec_devices()[index], message, res)
                && #[trigger] response_from_device(index, res, r)
    } else {
        &&& r == Err::<ManagerResponse, ButtplugError>(ButtplugError::Device(ButtplugDeviceError::DeviceNotAvailable(index)))
        &&& new.spec_devices() == old.spec_devices()
    }
}

/// `infos` lists every device of `m` once, as clients see it.
pub open spec fn lists_devices(m: DeviceManager, infos: Seq<DeviceMessageInfo>) -> bool {
    &&& infos.map_values(|i: DeviceMessageInfo| i.device_index).no_duplicates()
    &&& infos.map_values(|i: DeviceMessageInfo| i.device_index).to_set() == m.spec_devices().dom()
    &&& forall|k: int| 0 <= k < infos.len() ==> info_describes(
        #[trigger] infos[k],
        m.spec_devices()[infos[k].device_index],
        m.spec_allow_raw_messages(),
    )
}

/// `new` and `r` are what the manager's own message `message` gives on
/// `old`: a device list, stopping every device, or starting or stopping a
/// scan; each success is answered with the request's id.
pub open spec fn manager_handled(
    old: DeviceManager,
    new: DeviceManager,
    message: ButtplugDeviceManagerMessageUnion,
    r: Result<ManagerResponse, ButtplugError>,
) -> bool {
    let c = old.spec_comm_managers();
    let no_managers = c.dom() == Set::<Seq<char>>::empty();
    &&& new.spec_allow_raw_messages() == old.spec_allow_raw_messages()
    &&& new.spec_next_index() == old.spec_next_index()
    &&& match message {
        ButtplugDeviceManagerMessageUnion::RequestDeviceList(m) => {
            &&& r.is_ok()
            &&& new.spec_devices() == old.spec_devices()
            &&& new.spec_comm_managers() == c
            &&& new.spec_scanning_in_progress() == old.spec_scanning_in_progress()
            &&& r.unwrap().writes@.len() == 0
            &&& r.unwrap().scanning.is_none()
            &&& match r.unwrap().message {
                ButtplugServerMessage::DeviceList(l) => l.id == m.id && lists_devices(old, l.devices@),
                _ => false,
            }
        },
        ButtplugDeviceManagerMessageUnion::StopAllDevices(m) => {
            &&& r.is_ok()
            &&& new.spec_comm_managers() == c
            &&& new.spec_scanning_in_progress() == old.spec_scanning_in_progress()
            &&& r.unwrap().message == ButtplugServerMessage::OkMessage(OkMessage { id: m.id })
            &&& r.unwrap().scanning.is_none()
            &&& stops_all(old, new, r.unwrap().writes@)
        },
        ButtplugDeviceManagerMessageUnion::StartScanning(m) => {
            &&& new.spec_devices() == old.spec_devices()
            &&& r.is_ok() <==> !no_managers && !any_scanning(c)
            &&& r.is_ok() ==> r.unwrap().message == ButtplugServerMessage::OkMessage(OkMessage { id: m.id })
                && r.unwrap().writes@.len() == 0 && r.unwrap().scanning == Some(ScanningCommand::StartScanning)
                && new.spec_scanning_in_progress() && new.spec_comm_managers().dom() == c.dom() && forall|k: Seq<char>|
                #[trigger] new.spec_comm_managers().contains_key(k) ==> new.spec_comm_managers()[k]
            &&& r.is_err() ==> r.unwrap_err() == if no_managers {
                ButtplugError::Unknown(ButtplugUnknownError::NoDeviceCommManagers)
            } else {
                ButtplugError::Device(ButtplugDeviceError::DeviceScanningAlreadyStarted)
            }
        },
        ButtplugDeviceManagerMessageUnion::StopScanning(m) => {
            &&& new.spec_devices() == old.spec_devices()
            &&& new.spec_comm_managers() == c
            &&& r.is_ok() <==> any_scanning(c)
            &&& r.is_ok() ==> r.unwrap().message == ButtplugServerMessage::OkMessage(OkMessage { id: m.id })
                && r.unwrap().writes@.len() == 0 && r.unwrap().scanning == Some(ScanningCommand::StopScanning)
            &&& r.is_err() ==> r.unwrap_err() == if no_managers {
                ButtplugError::Unknown(ButtplugUnknownError::NoDeviceCommManagers)
            } else {
                ButtplugError::Device(ButtplugDeviceError::DeviceScanningAlreadyStopped)
            }
        },
    }
}

/// `new` and `r` are what routing a client message on `old` gives: device
/// commands go to their device, the manager's own messages to the manager,
/// and anything else is an unexpected message type that changes nothing.
pub open spec fn message_routed(
    old: DeviceManager,
    new: DeviceManager,
    message: ButtplugClientMessage,
    r: Result<ManagerResponse, ButtplugError>,
) -> bool {
    &&& forall|d: ButtplugDeviceCommandMessageUnion| #[trigger] d.spec_to_client() == message ==> device_routed(
        old,
        new,
        d,
        r,
    )
    &&& forall|g: ButtplugDeviceManagerMessageUnion| #[trigger] g.spec_to_client() == message ==> manager_handled(
        old,
        new,
        g,
        r,
    )
    &&& !ButtplugDeviceCommandMessageUnion::spec_contains(message) && !ButtplugDeviceManagerMessageUnion::spec_contains(
        message,
    ) ==> r.is_err() && r.unwrap_err() is Message && r.unwrap_err()->Message_0 is UnexpectedMessageType && new == old
}

/// `info` describes device `d` as clients see it: its name, and its
/// advertised attributes.
pub open spec fn info_describes(info: DeviceMessageInfo, d: ButtplugDevice, allow_raw: bool) -> bool {
    &&& info.device_name@ == d.spec_name()
    &&& same_entries(info.device_messages@, advertised_entries(d.spec_protocol().spec_attributes()@, allow_raw))
}

/// Registry of devices and comm managers, and the decisions around them.
pub struct DeviceManager {
    comm_managers: DashMap<String, bool>,
    devices: DashMap<u32, ButtplugDevice>,
    device_user_config: DashMap<String, DeviceUserConfig>,
    protocols: Vec<String>,
    protocol_definitions: Vec<(String, ProtocolDefinition)>,
    next_device_index: u32,
    scanning_in_progress: bool,
    allow_raw_messages: bool,
}

impl DeviceManager {
    pub closed spec fn spec_comm_managers(&self) -> Map<Seq<char>, bool> {
        comm_manager_contents(self.comm_managers)
    }

    pub closed spec fn spec_devices(&self) -> Map<u32, ButtplugDevice> {
        device_map_contents(self.devices)
    }

    pub closed spec fn spec_user_config(&self) -> Map<Seq<char>, DeviceUserConfig> {
        user_config_contents(self.device_user_config)
    }

    pub closed spec fn spec_protocols(&self) -> Seq<Seq<char>> {
        self.protocols@.map_values(|s: String| s@)
    }

    /// Protocol definitions by name, in registration order.
    pub closed spec fn spec_definitions(&self) -> Seq<(Seq<char>, ProtocolDefinition)> {
        self.protocol_definitions@.map_values(|e: (String, ProtocolDefinition)| (e.0@, e.1))
    }

    /// The index the next device will get.
    pub closed spec fn spec_next_index(&self) -> u32 {
        self.next_device_index
    }

    /// Whether a scan was started and has not been reported finished.
    pub closed spec fn spec_scanning_in_progress(&self) -> bool {
        self.scanning_in_progress
    }

    pub closed spec fn spec_allow_raw_messages(&self) -> bool {
        self.allow_raw_messages
    }

    /// Every device has an index below the next one, and is well formed;
    /// protocols are registered once each.
    pub open spec fn wf(&self) -> bool {
        &&& forall|k: u32| #[trigger] self.spec_devices().contains_key(k) ==> k < self.spec_next_index()
            && self.spec_devices()[k].wf()
        &&& self.spec_next_index() >= 1
        &&& self.spec_protocols().no_duplicates()
        &&& forall|i: int, j: int|
            0 <= i < j < self.spec_definitions().len() ==> (#[trigger] self.spec_definitions()[i]).0
                != (#[trigger] self.spec_definitions()[j]).0
    }

    pub fn new(allow_raw_messages: bool) -> (r: DeviceManager)
        ensures
            r.wf(),
            r.spec_devices().dom() == Set::<u32>::empty(),
            r.spec_comm_managers().dom() == Set::<Seq<char>>::empty(),
            r.spec_user_config().dom() == Set::<Seq<char>>::empty(),
            r.spec_next_index() == 1,
            !r.spec_scanning_in_progress(),
            r.spec_allow_raw_messages() == allow_raw_messages,
    {
        DeviceManager {
            comm_managers: comm_map_new(),
            devices: device_map_new(),
            device_user_config: user_config_map_new(),
            protocols: Vec::new(),
            protocol_definitions: Vec::new(),
            next_device_index: 1,
            scanning_in_progress: false,
            allow_raw_messages,
        }
    }
}

impl DeviceManager {
    /// Registers a comm manager under its name, not scanning; a name can be
    /// registered once.
    pub fn add_comm_manager(&mut self, name: String) -> (r: Result<(), ButtplugServerError>)
        requires
            old(self).wf(),
        ensures
            final(self).wf(),
            final(self).spec_allow_raw_messages() == old(self).spec_allow_raw_messages(),
            final(self).spec_devices() == old(self).spec_devices(),
            final(self).spec_next_index() == old(self).spec_next_index(),
            final(self).spec_scanning_in_progress() == old(self).spec_scanning_in_progress(),
            r.is_ok() <==> !old(self).spec_comm_managers().contains_key(name@),
            r.is_ok() ==> final(self).spec_comm_managers() == old(self).spec_comm_managers().insert(name@, false),
            r.is_err() ==> r.unwrap_err() == ButtplugServerError::DeviceManagerTypeAlreadyAdded(name)
                && final(self).spec_comm_managers() == old(self).spec_comm_managers(),
    {
        if comm_map_get(&self.comm_managers, name.as_str()).is_some() {
            return Err(ButtplugServerError::DeviceManagerTypeAlreadyAdded(name));
        }
        comm_map_insert(&mut self.comm_managers, name, false);
        assert(registries_kept(*old(self), *self));
        assert(self.spec_devices() == old(self).spec_devices());
        Ok(())
    }

    /// Whether any registered comm manager is scanning.
    pub fn is_scanning(&self) -> (r: bool)
        ensures
            r == any_scanning(self.spec_comm_managers()),
    {
        let names = comm_map_names(&self.comm_managers);
        let ghost c = self.spec_comm_managers();
        let ghost keys = names@.map_values(|s: String| s@);
        let mut i: usize = 0;
        while i < names.len()
            invariant
                c == self.spec_comm_managers(),
                keys == names@.map_values(|s: String| s@),
                keys.to_set() == c.dom(),
                i <= names@.len(),
                forall|j: int| 0 <= j < i ==> !c[#[trigger] keys[j]],
            decreases names@.len() - i,
        {
            proof {
                assert(keys[i as int] == names@[i as int]@);
                assert(keys.to_set().contains(keys[i as int]));
            }
            match comm_map_get(&self.comm_managers, names[i].as_str()) {
                Some(true) => {
                    return true;
                },
                _ => {},
            }
            i = i + 1;
        }
        proof {
            assert forall|k: Seq<char>| c.contains_key(k) implies !c[k] by {
                assert(keys.to_set().contains(k));
                let j = choose|j: int| 0 <= j < keys.len() && keys[j] == k;
            }
        }
        false
    }

    /// Starts a scan: fails when no comm manager is registered, or when one
    /// is already scanning. Otherwise every comm manager is marked scanning
    /// and the caller must start them all.
    pub fn start_scanning(&mut self) -> (r: Result<(), ButtplugError>)
        requires
            old(self).wf(),
        ensures
            final(self).wf(),
            final(self).spec_allow_raw_messages() == old(self).spec_allow_raw_messages(),
            final(self).spec_devices() == old(self).spec_devices(),
            final(self).spec_next_index() == old(self).spec_next_index(),
            final(self).spec_comm_managers().dom() == old(self).spec_comm_managers().dom(),
            old(self).spec_comm_managers().dom() == Set::<Seq<char>>::empty() ==> r == Err::<(), ButtplugError>(
                ButtplugError::Unknown(ButtplugUnknownError::NoDeviceCommManagers),
            ),
            old(self).spec_comm_managers().dom() != Set::<Seq<char>>::empty() && any_scanning(old(self).spec_comm_managers())
                ==> r == Err::<(), ButtplugError>(ButtplugError::Device(ButtplugDeviceError::DeviceScanningAlreadyStarted)),
            r.is_ok() <==> old(self).spec_comm_managers().dom() != Set::<Seq<char>>::empty() && !any_scanning(old(self).spec_comm_managers()),
            r.is_ok() ==> final(self).spec_scanning_in_progress() && forall|k: Seq<char>|
                #[trigger] final(self).spec_comm_managers().contains_key(k) ==> final(self).spec_comm_managers()[k],
            r.is_err() ==> final(self).spec_comm_managers() == old(self).spec_comm_managers()
                && final(self).spec_scanning_in_progress() == old(self).spec_scanning_in_progress(),
    {
        let names = comm_map_names(&self.comm_managers);
        let ghost c = self.spec_comm_managers();
        let ghost keys = names@.map_values(|s: String| s@);
        if names.len() == 0 {
            proof {
                assert(c.dom() =~= keys.to_set());
                assert(keys.to_set() =~= Set::<Seq<char>>::empty());
            }
            return Err(ButtplugError::Unknown(ButtplugUnknownError::NoDeviceCommManagers));
        }
        proof {
            assert(keys.to_set().contains(keys[0]));
            assert(c.dom() != Set::<Seq<char>>::empty());
        }
        if self.is_scanning() {
            return Err(ButtplugError::Device(ButtplugDeviceError::DeviceScanningAlreadyStarted));
        }
        let mut i: usize = 0;
        while i < names.len()
            invariant
                old(self).wf(),
                c == old(self).spec_comm_managers(),
                keys == names@.map_values(|s: String| s@),
                keys.no_duplicates(),
                keys.to_set() == c.dom(),
                i <= names@.len(),
                self.spec_comm_managers().dom() == c.dom(),
                forall|j: int| 0 <= j < i ==> self.spec_comm_managers()[#[trigger] keys[j]],
                self.spec_devices() == old(self).spec_devices(),
                self.spec_next_index() == old(self).spec_next_index(),
                self.spec_allow_raw_messages() == old(self).spec_allow_raw_messages(),
                self.spec_protocols() == old(self).spec_protocols(),
                self.spec_definitions() == old(self).spec_definitions(),
            decreases names@.len() - i,
        {
            let name = names[i].clone();
            proof {
                assert(keys[i as int] == name@);
                assert(keys.to_set().contains(keys[i as int]));
            }
            comm_map_insert(&mut self.comm_managers, name, true);
            proof {
                assert(self.spec_comm_managers().dom() =~= c.dom());
            }
            i = i + 1;
        }
        self.scanning_in_progress = true;
        proof {
            assert forall|k: Seq<char>| #[trigger] self.spec_comm_managers().contains_key(k) implies self.spec_comm_managers()[k] by {
                assert(keys.to_set().contains(k));
                let j = choose|j: int| 0 <= j < keys.len() && keys[j] == k;
            }
        }
        Ok(())
    }

    /// Stops a scan: fails when no comm manager is registered, or when none
    /// is scanning. Otherwise the caller must stop them all; each reports
    /// when it has finished.
    pub fn stop_scanning(&self) -> (r: Result<(), ButtplugError>)
        ensures
            self.spec_comm_managers().dom() == Set::<Seq<char>>::empty() ==> r == Err::<(), ButtplugError>(
                ButtplugError::Unknown(ButtplugUnknownError::NoDeviceCommManagers),
            ),
            self.spec_comm_managers().dom() != Set::<Seq<char>>::empty() && !any_scanning(self.spec_comm_managers())
                ==> r == Err::<(), ButtplugError>(ButtplugError::Device(ButtplugDeviceError::DeviceScanningAlreadyStopped)),
            r.is_ok() <==> any_scanning(self.spec_comm_managers()),
    {
        let names = comm_map_names(&self.comm_managers);
        let ghost c = self.spec_comm_managers();
        let ghost keys = names@.map_values(|s: String| s@);
        if names.len() == 0 {
            proof {
                assert(c.dom() =~= keys.to_set());
                assert(keys.to_set() =~= Set::<Seq<char>>::empty());
            }
            return Err(ButtplugError::Unknown(ButtplugUnknownError::NoDeviceCommManagers));
        }
        proof {
            assert(keys.to_set().contains(keys[0]));
            assert(c.dom() != Set::<Seq<char>>::empty());
        }
        if !self.is_scanning() {
            return Err(ButtplugError::Device(ButtplugDeviceError::DeviceScanningAlreadyStopped));
        }
        Ok(())
    }

    /// A comm manager reports that it stopped scanning. Once a scan is in
    /// progress and no comm manager is scanning any more, the scan is over
    /// and clients get one `ScanningFinished` event.
    pub fn on_scanning_finished(&mut self, name: &str) -> (r: Option<ButtplugServerMessage>)
        requires
            old(self).wf(),
        ensures
            final(self).wf(),
            final(self).spec_allow_raw_messages() == old(self).spec_allow_raw_messages(),
            final(self).spec_devices() == old(self).spec_devices(),
            final(self).spec_next_index() == old(self).spec_next_index(),
            final(self).spec_comm_managers() == if old(self).spec_comm_managers().contains_key(name@) {
                old(self).spec_comm_managers().insert(name@, false)
            } else {
                old(self).spec_comm_managers()
            },
            r.is_some() <==> old(self).spec_scanning_in_progress() && !any_scanning(final(self).spec_comm_managers()),
            r.is_some() ==> r.unwrap() == ButtplugServerMessage::ScanningFinished(ScanningFinished { id: BUTTPLUG_SERVER_EVENT_ID }),
            final(self).spec_scanning_in_progress() == (old(self).spec_scanning_in_progress()
                && any_scanning(final(self).spec_comm_managers())),
    {
        if comm_map_get(&self.comm_managers, name).is_some() {
            comm_map_insert(&mut self.comm_managers, name.to_owned(), false);
        }
        assert(registries_kept(*old(self), *self));
        assert(self.spec_devices() == old(self).spec_devices());
        if self.scanning_in_progress && !self.is_scanning() {
            self.scanning_in_progress = false;
            proof {
                lemma_wf_frame(old(self), self);
            }
            Some(ButtplugServerMessage::ScanningFinished(ScanningFinished { id: BUTTPLUG_SERVER_EVENT_ID }))
        } else {
            proof {
                lemma_wf_frame(old(self), self);
            }
            None
        }
    }
}

impl DeviceManager {
    /// Whether the device at `address` may be enumerated, by the user config.
    pub fn device_permitted(&self, address: &str) -> (r: bool)
        ensures
            r == spec_device_permitted(self.spec_user_config(), address@),
    {
        let ghost u = self.spec_user_config();
        let flags = user_config_map_flags(&self.device_user_config, address);
        let (allow, deny) = match flags {
            Some(f) => f,
            None => (None, None),
        };
        if deny == Some(true) {
            return false;
        }
        if allow == Some(true) {
            return true;
        }
        let addresses = user_config_map_addresses(&self.device_user_config);
        let ghost keys = addresses@.map_values(|s: String| s@);
        let mut i: usize = 0;
        while i < addresses.len()
            invariant
                u == self.spec_user_config(),
                keys == addresses@.map_values(|s: String| s@),
                keys.to_set() == u.dom(),
                i <= addresses@.len(),
                forall|j: int| 0 <= j < i ==> u[#[trigger] keys[j]].spec_allow() != Some(true),
                u.contains_key(address@) ==> u[address@].spec_allow() != Some(true) && u[address@].spec_deny()
                    != Some(true),
            decreases addresses@.len() - i,
        {
            proof {
                assert(keys[i as int] == addresses@[i as int]@);
                assert(keys.to_set().contains(keys[i as int]));
            }
            match user_config_map_flags(&self.device_user_config, addresses[i].as_str()) {
                Some((Some(true), _)) => {
                    proof {
                        assert(u.contains_key(keys[i as int]) && u[keys[i as int]].spec_allow() == Some(true));
                        assert(allow_list_in_use(u));
                    }
                    return false;
                },
                _ => {},
            }
            i = i + 1;
        }
        proof {
            assert forall|k: Seq<char>| u.contains_key(k) implies u[k].spec_allow() != Some(true) by {
                assert(keys.to_set().contains(k));
                let j = choose|j: int| 0 <= j < keys.len() && keys[j] == k;
            }
        }
        true
    }

    /// Registers a newly connected device under the next index, which was
    /// never given before, and returns the `DeviceAdded` event for clients.
    /// Raw endpoint messages are advertised only where the manager allows
    /// them. Fails, changing nothing, when the library has no handler for
    /// `protocol`, when the attributes do not list one step count per
    /// feature, or when the indices are used up.
    pub fn add_device(
        &mut self,
        protocol: &str,
        name: &str,
        address: String,
        attributes: DeviceMessageAttributesMap,
    ) -> (r: Result<
        ButtplugServerMessage,
        ButtplugError,
    >)
        requires
            old(self).wf(),
            attributes.wf(),
        ensures
            final(self).wf(),
            final(self).spec_allow_raw_messages() == old(self).spec_allow_raw_messages(),
            final(self).spec_comm_managers() == old(self).spec_comm_managers(),
            final(self).spec_user_config() == old(self).spec_user_config(),
            final(self).spec_scanning_in_progress() == old(self).spec_scanning_in_progress(),
            r.is_ok() <==> has_handler(protocol@) && feature_counts_fit(attributes) && old(self).spec_next_index()
                < u32::MAX,
            !has_handler(protocol@) ==> r.is_err() && r.unwrap_err() is Device && r.unwrap_err()->Device_0 is DeviceConnectionError,
            r.is_err() ==> final(self).spec_devices() == old(self).spec_devices()
                && final(self).spec_next_index() == old(self).spec_next_index(),
            r.is_ok() ==> {
                let index = old(self).spec_next_index();
                &&& !old(self).spec_devices().contains_key(index)
                &&& final(self).spec_devices().dom() == old(self).spec_devices().dom().insert(index)
                &&& forall|k: u32| #[trigger] old(self).spec_devices().contains_key(k)
                    ==> final(self).spec_devices()[k] == old(self).spec_devices()[k]
                &&& final(self).spec_devices()[index].spec_address() == address@
                &&& final(self).spec_devices()[index].spec_name() == name@
                &&& final(self).spec_devices()[index].spec_state() == DeviceConnectionState::Connected
                &&& final(self).spec_devices()[index].spec_protocol().spec_attributes() == attributes
                &&& final(self).spec_next_index() == index + 1
                &&& match r.unwrap() {
                    ButtplugServerMessage::DeviceAdded(m) => m.id == BUTTPLUG_SERVER_EVENT_ID
                        && m.device_index == index && m.device_name@ == name@
                        && m.device_messages@.map_values(
                        |e: (ButtplugCurrentSpecDeviceMessageType, DeviceMessageAttributes)| e.0,
                    ) == advertised_kinds(attributes@, old(self).spec_allow_raw_messages())
                        && same_entries(m.device_messages@, advertised_entries(attributes@, old(self).spec_allow_raw_messages())),
                    _ => false,
                }
            },
    {
        if !handler_exists(protocol) {
            return Err(ButtplugError::Device(ButtplugDeviceError::DeviceConnectionError(
                "No handler for this protocol.".to_owned(),
            )));
        }
        if !check_feature_counts(&attributes) {
            return Err(ButtplugError::Device(ButtplugDeviceError::DeviceConnectionError(
                "Device attributes do not list one step count per feature.".to_owned(),
            )));
        }
        if self.next_device_index == u32::MAX {
            return Err(ButtplugError::Unknown(ButtplugUnknownError::UnexpectedType(
                "Device indices are used up.".to_owned(),
            )));
        }
        let index = self.next_device_index;
        let display_name = match user_config_map_display_name(&self.device_user_config, address.as_str()) {
            Some(n) => n,
            None => None,
        };
        let device_messages = advertised_attributes(&attributes, self.allow_raw_messages);
        let device = create_device(name, address, display_name, attributes);
        device_map_insert(&mut self.devices, index, device);
        self.next_device_index = index + 1;
        proof {
            assert(registries_kept(*old(self), *self));
            assert forall|k: u32| #[trigger] self.spec_devices().contains_key(k) implies k < self.spec_next_index()
                && self.spec_devices()[k].wf() by {
                if k != index {
                    assert(old(self).spec_devices().contains_key(k));
                }
            }
            assert(self.spec_devices().dom() =~= old(self).spec_devices().dom().insert(index));
        }
        Ok(ButtplugServerMessage::DeviceAdded(
            DeviceAdded { id: BUTTPLUG_SERVER_EVENT_ID, device_index: index, device_name: name.to_owned(), device_messages },
        ))
    }

    /// A device left the bus: it is dropped, and clients get a
    /// `DeviceRemoved` event. Unknown indices change nothing.
    pub fn on_device_removed(&mut self, index: u32) -> (r: Option<ButtplugServerMessage>)
        requires
            old(self).wf(),
        ensures
            final(self).wf(),
            final(self).spec_allow_raw_messages() == old(self).spec_allow_raw_messages(),
            final(self).spec_devices() == old(self).spec_devices().remove(index),
            final(self).spec_next_index() == old(self).spec_next_index(),
            final(self).spec_comm_managers() == old(self).spec_comm_managers(),
            r.is_some() <==> old(self).spec_devices().contains_key(index),
            r.is_some() ==> r.unwrap() == ButtplugServerMessage::DeviceRemoved(
                DeviceRemoved { id: BUTTPLUG_SERVER_EVENT_ID, device_index: index },
            ),
    {
        let removed = device_map_remove(&mut self.devices, index);
        assert(registries_kept(*old(self), *self));
        proof {
            assert forall|k: u32| #[trigger] self.spec_devices().contains_key(k) implies k < self.spec_next_index()
                && self.spec_devices()[k].wf() by {
                assert(old(self).spec_devices().contains_key(k));
            }
        }
        match removed {
            Some(_) => Some(ButtplugServerMessage::DeviceRemoved(
                DeviceRemoved { id: BUTTPLUG_SERVER_EVENT_ID, device_index: index },
            )),
            None => None,
        }
    }

    /// Address and display name of a device; `DeviceNotAvailable` for an
    /// unknown index.
    pub fn device_info(&mut self, index: u32) -> (r: Result<DeviceInfo, ButtplugDeviceError>)
        requires
            old(self).wf(),
        ensures
            final(self).wf(),
            final(self).spec_allow_raw_messages() == old(self).spec_allow_raw_messages(),
            final(self).spec_devices() == old(self).spec_devices(),
            final(self).spec_next_index() == old(self).spec_next_index(),
            final(self).spec_comm_managers() == old(self).spec_comm_managers(),
            final(self).spec_user_config() == old(self).spec_user_config(),
            r.is_ok() <==> old(self).spec_devices().contains_key(index),
            r.is_err() ==> r.unwrap_err() == ButtplugDeviceError::DeviceNotAvailable(index),
            r.is_ok() ==> r.unwrap().address@ == old(self).spec_devices()[index].spec_address()
                && r.unwrap().display_name == old(self).spec_devices()[index].spec_display_name(),
    {
        match device_map_remove(&mut self.devices, index) {
            Some(device) => {
                let info = DeviceInfo { address: device.address().clone(), display_name: device.display_name().clone() };
                device_map_insert(&mut self.devices, index, device);
                proof {
                    assert(self.spec_devices() =~= old(self).spec_devices());
                    assert(registries_kept(*old(self), *self));
                }
                Ok(info)
            },
            None => {
                proof {
                    assert(self.spec_devices() =~= old(self).spec_devices());
                    assert(registries_kept(*old(self), *self));
                }
                Err(ButtplugDeviceError::DeviceNotAvailable(index))
            },
        }
    }

    /// Sets the user config of an address.
    pub fn add_device_user_config(&mut self, address: &str, config: DeviceUserConfig)
        requires
            old(self).wf(),
        ensures
            final(self).wf(),
            final(self).spec_allow_raw_messages() == old(self).spec_allow_raw_messages(),
            final(self).spec_user_config() == old(self).spec_user_config().insert(address@, config),
            final(self).spec_devices() == old(self).spec_devices(),
            final(self).spec_next_index() == old(self).spec_next_index(),
    {
        user_config_map_insert(&mut self.device_user_config, address.to_owned(), config);
        assert(registries_kept(*old(self), *self));
        proof {
            lemma_wf_frame(old(self), self);
        }
    }

    /// Drops the user config of an address.
    pub fn remove_device_user_config(&mut self, address: &str)
        requires
            old(self).wf(),
        ensures
            final(self).wf(),
            final(self).spec_allow_raw_messages() == old(self).spec_allow_raw_messages(),
            final(self).spec_user_config() == old(self).spec_user_config().remove(address@),
            final(self).spec_devices() == old(self).spec_devices(),
            final(self).spec_next_index() == old(self).spec_next_index(),
    {
        let _ = user_config_map_remove(&mut self.device_user_config, address);
        assert(registries_kept(*old(self), *self));
        proof {
            lemma_wf_frame(old(self), self);
        }
    }

    fn find_protocol(&self, name: &String) -> (r: Option<usize>)
        ensures
            r.is_none() <==> !self.spec_protocols().contains(name@),
            r.is_some() ==> r.unwrap() < self.spec_protocols().len() && self.spec_protocols()[r.unwrap() as int] == name@,
    {
        let mut i: usize = 0;
        while i < self.protocols.len()
            invariant
                i <= self.protocols@.len(),
                forall|j: int| 0 <= j < i ==> self.protocols@[j]@ != name@,
            decreases self.protocols@.len() - i,
        {
            if self.protocols[i] == *name {
                proof {
                    assert(self.spec_protocols()[i as int] == name@);
                }
                return Some(i);
            }
            i = i + 1;
        }
        proof {
            if self.spec_protocols().contains(name@) {
                let j = choose|j: int| 0 <= j < self.spec_protocols().len() && self.spec_protocols()[j] == name@;
                assert(self.protocols@[j]@ == name@);
            }
        }
        None
    }

    /// Whether a protocol of this name is registered.
    pub fn has_protocol(&self, protocol_name: &str) -> (r: bool)
        ensures
            r == self.spec_protocols().contains(protocol_name@),
    {
        self.find_protocol(&protocol_name.to_owned()).is_some()
    }

    /// Registers a protocol name; a name can be registered once.
    pub fn add_protocol(&mut self, protocol_name: &str) -> (r: Result<(), ButtplugServerError>)
        requires
            old(self).wf(),
        ensures
            final(self).wf(),
            final(self).spec_allow_raw_messages() == old(self).spec_allow_raw_messages(),
            final(self).spec_devices() == old(self).spec_devices(),
            final(self).spec_next_index() == old(self).spec_next_index(),
            r.is_ok() <==> !old(self).spec_protocols().contains(protocol_name@),
            r.is_ok() ==> final(self).spec_protocols() == old(self).spec_protocols().push(protocol_name@),
            r.is_err() ==> r.unwrap_err() is ProtocolAlreadyAdded && r.unwrap_err()->ProtocolAlreadyAdded_0@
                == protocol_name@ && final(self).spec_protocols() == old(self).spec_protocols(),
    {
        let name = protocol_name.to_owned();
        if self.find_protocol(&name).is_some() {
            return Err(ButtplugServerError::ProtocolAlreadyAdded(name));
        }
        self.protocols.push(name);
        proof {
            assert(self.spec_protocols() =~= old(self).spec_protocols().push(protocol_name@));
            lemma_wf_frame_protocols(old(self), self);
        }
        Ok(())
    }

    /// Unregisters a protocol name; it must be registered.
    pub fn remove_protocol(&mut self, protocol_name: &str) -> (r: Result<(), ButtplugServerError>)
        requires
            old(self).wf(),
        ensures
            final(self).wf(),
            final(self).spec_allow_raw_messages() == old(self).spec_allow_raw_messages(),
            final(self).spec_devices() == old(self).spec_devices(),
            final(self).spec_next_index() == old(self).spec_next_index(),
            r.is_ok() <==> old(self).spec_protocols().contains(protocol_name@),
            r.is_ok() ==> !final(self).spec_protocols().contains(protocol_name@) && exists|i: int|
                0 <= i < old(self).spec_protocols().len() && old(self).spec_protocols()[i] == protocol_name@
                    && final(self).spec_protocols() == old(self).spec_protocols().remove(i),
            r.is_err() ==> r.unwrap_err() is ProtocolDoesNotExist && r.unwrap_err()->ProtocolDoesNotExist_0@
                == protocol_name@ && final(self).spec_protocols() == old(self).spec_protocols(),
    {
        let name = protocol_name.to_owned();
        match self.find_protocol(&name) {
            Some(i) => {
                let ghost before = self.spec_protocols();
                self.protocols.remove(i);
                proof {
                    assert(self.spec_protocols() =~= before.remove(i as int));
                    assert forall|j: int| 0 <= j < self.spec_protocols().len() implies self.spec_protocols()[j] != protocol_name@ by {
                        if j < i {
                            assert(before[j] != before[i as int]);
                        } else {
                            assert(before[j + 1] != before[i as int]);
                        }
                    }
                    lemma_wf_frame_protocols(old(self), self);
                }
                Ok(())
            },
            None => Err(ButtplugServerError::ProtocolDoesNotExist(name)),
        }
    }

    /// Unregisters every protocol.
    pub fn remove_all_protocols(&mut self)
        requires
            old(self).wf(),
        ensures
            final(self).wf(),
            final(self).spec_allow_raw_messages() == old(self).spec_allow_raw_messages(),
            final(self).spec_devices() == old(self).spec_devices(),
            final(self).spec_next_index() == old(self).spec_next_index(),
            final(self).spec_protocols().len() == 0,
    {
        self.protocols = Vec::new();
        proof {
            assert(self.spec_protocols() =~= Seq::<Seq<char>>::empty());
            lemma_wf_frame_protocols(old(self), self);
        }
    }
}

/// Device indices are never reused: every registered device has an index
/// below the next one to be given, so the next device's index is fresh, and
/// no operation lowers it.
pub proof fn lemma_next_device_index_is_fresh(m: DeviceManager)
    requires
        m.wf(),
    ensures
        !m.spec_devices().contains_key(m.spec_next_index()),
        forall|k: u32| #[trigger] m.spec_devices().contains_key(k) ==> k < m.spec_next_index(),
{
}

impl DeviceManager {
    /// Describes every device, for a device list.
    pub fn device_list(&mut self) -> (r: Vec<DeviceMessageInfo>)
        requires
            old(self).wf(),
        ensures
            final(self).wf(),
            final(self).spec_allow_raw_messages() == old(self).spec_allow_raw_messages(),
            final(self).spec_devices() == old(self).spec_devices(),
            final(self).spec_next_index() == old(self).spec_next_index(),
            final(self).spec_comm_managers() == old(self).spec_comm_managers(),
            final(self).spec_scanning_in_progress() == old(self).spec_scanning_in_progress(),
            r@.map_values(|i: DeviceMessageInfo| i.device_index).no_duplicates(),
            r@.map_values(|i: DeviceMessageInfo| i.device_index).to_set() == old(self).spec_devices().dom(),
            forall|k: int| 0 <= k < r@.len() ==> info_describes(
                #[trigger] r@[k],
                old(self).spec_devices()[r@[k].device_index],
                old(self).spec_allow_raw_messages(),
            ),
    {
        let indices = device_map_indices(&self.devices);
        let mut infos: Vec<DeviceMessageInfo> = Vec::new();
        let mut i: usize = 0;
        while i < indices.len()
            invariant
                old(self).wf(),
                self.spec_devices() == old(self).spec_devices(),
                self.spec_next_index() == old(self).spec_next_index(),
                self.spec_allow_raw_messages() == old(self).spec_allow_raw_messages(),
                self.spec_protocols() == old(self).spec_protocols(),
                self.spec_definitions() == old(self).spec_definitions(),
                self.spec_comm_managers() == old(self).spec_comm_managers(),
                self.spec_scanning_in_progress() == old(self).spec_scanning_in_progress(),
                self.spec_allow_raw_messages() == old(self).spec_allow_raw_messages(),
                indices@.no_duplicates(),
                indices@.to_set() == old(self).spec_devices().dom(),
                i <= indices@.len(),
                infos@.map_values(|i: DeviceMessageInfo| i.device_index) == indices@.take(i as int),
                forall|k: int| 0 <= k < infos@.len() ==> info_describes(
                    #[trigger] infos@[k],
                    old(self).spec_devices()[infos@[k].device_index],
                    old(self).spec_allow_raw_messages(),
                ),
            decreases indices@.len() - i,
        {
            let index = indices[i];
            proof {
                assert(indices@.to_set().contains(indices@[i as int]));
            }
            let ghost before = infos@;
            match device_map_remove(&mut self.devices, index) {
                Some(device) => {
                    let info = DeviceMessageInfo {
                        device_index: index,
                        device_name: device.name().clone(),
                        device_messages: advertised_attributes(device.message_attributes(), self.allow_raw_messages),
                    };
                    device_map_insert(&mut self.devices, index, device);
                    infos.push(info);
                    proof {
                        assert forall|k: int| 0 <= k < infos@.len() implies info_describes(
                            #[trigger] infos@[k],
                            old(self).spec_devices()[infos@[k].device_index],
                            old(self).spec_allow_raw_messages(),
                        ) by {
                            if k < before.len() {
                                assert(infos@[k] == before[k]);
                            }
                        }
                    }
                },
                None => {},
            }
            proof {
                assert(self.spec_devices() =~= old(self).spec_devices());
                assert(indices@.take(i + 1) =~= indices@.take(i as int).push(index));
                assert(infos@.map_values(|i: DeviceMessageInfo| i.device_index) =~= before.map_values(
                    |i: DeviceMessageInfo| i.device_index,
                ).push(index));
            }
            i = i + 1;
        }
        proof {
            assert(indices@.take(i as int) =~= indices@);
        }
        infos
    }

    /// Sends every device its stop command; the writes that follow, per
    /// device. Every connected device gets its entry; devices that cannot
    /// take commands are skipped.
    pub fn stop_all_devices(&mut self) -> (r: Vec<DeviceWrite>)
        requires
            old(self).wf(),
        ensures
            final(self).wf(),
            final(self).spec_allow_raw_messages() == old(self).spec_allow_raw_messages(),
            final(self).spec_devices().dom() == old(self).spec_devices().dom(),
            final(self).spec_next_index() == old(self).spec_next_index(),
            final(self).spec_comm_managers() == old(self).spec_comm_managers(),
            final(self).spec_scanning_in_progress() == old(self).spec_scanning_in_progress(),
            stops_all(*old(self), *final(self), r@),
    {
        let indices = device_map_indices(&self.devices);
        let mut writes: Vec<DeviceWrite> = Vec::new();
        let mut i: usize = 0;
        while i < indices.len()
            invariant
                old(self).wf(),
                self.wf(),
                self.spec_devices().dom() == old(self).spec_devices().dom(),
                self.spec_next_index() == old(self).spec_next_index(),
                self.spec_allow_raw_messages() == old(self).spec_allow_raw_messages(),
                self.spec_protocols() == old(self).spec_protocols(),
                self.spec_definitions() == old(self).spec_definitions(),
                self.spec_comm_managers() == old(self).spec_comm_managers(),
                self.spec_scanning_in_progress() == old(self).spec_scanning_in_progress(),
                indices@.to_set() == old(self).spec_devices().dom(),
                i <= indices@.len(),
                forall|k: int| 0 <= k < writes@.len() ==> old(self).spec_devices().contains_key(#[trigger] writes@[k].device_index),
                indices@.no_duplicates(),
                forall|d: u32| #[trigger] self.spec_devices().contains_key(d) ==> self.spec_devices()[d].spec_state()
                    == old(self).spec_devices()[d].spec_state(),
                forall|j: int| 0 <= j < i && old(self).spec_devices()[#[trigger] indices@[j]].spec_state() == DeviceConnectionState::Connected
                    ==> exists|k: int| 0 <= k < writes@.len() && writes@[k].device_index == indices@[j],
                forall|k: int| 0 <= k < writes@.len() ==> exists|j: int| 0 <= j < i && (#[trigger] writes@[k]).device_index == indices@[j],
                writes@.map_values(|w: DeviceWrite| w.device_index).no_duplicates(),
                forall|k: int| 0 <= k < writes@.len() ==> writes_carry(
                    (#[trigger] writes@[k]).commands@,
                    stop_frames(old(self).spec_devices()[writes@[k].device_index].spec_protocol()),
                ),
                forall|j: int| i <= j < indices@.len() ==> self.spec_devices()[#[trigger] indices@[j]]
                    == old(self).spec_devices()[indices@[j]],
                forall|j: int| 0 <= j < i ==> stopped(
                    old(self).spec_devices()[#[trigger] indices@[j]],
                    self.spec_devices()[indices@[j]],
                ),
            decreases indices@.len() - i,
        {
            let index = indices[i];
            proof {
                assert(indices@.to_set().contains(indices@[i as int]));
            }
            let ghost mid = self.spec_devices();
            let ghost before = writes@;
            match device_map_remove(&mut self.devices, index) {
                Some(mut device) => {
                    let stop = ButtplugDeviceCommandMessageUnion::StopDeviceCmd(StopDeviceCmd { id: 1, device_index: index });
                    match device.parse_message(stop) {
                        Ok((_, commands)) => {
                            proof {
                                assert forall|k: int| 0 <= k < before.len() implies (#[trigger] before[k]).device_index != index by {
                                    let j = choose|j: int| 0 <= j < i && before[k].device_index == indices@[j];
                                }
                            }
                            writes.push(DeviceWrite { device_index: index, commands });
                            proof {
                                assert(writes@[before.len() as int].device_index == index);
                                let ids = writes@.map_values(|w: DeviceWrite| w.device_index);
                                assert(ids =~= before.map_values(|w: DeviceWrite| w.device_index).push(index));
                                assert forall|a: int, b: int| 0 <= a < b < ids.len() implies ids[a] != ids[b] by {
                                    if b == before.len() {
                                        assert(before[a].device_index != index);
                                    } else {
                                        assert(before.map_values(|w: DeviceWrite| w.device_index)[a] != before.map_values(|w: DeviceWrite| w.device_index)[b]);
                                    }
                                }
                                assert forall|k: int| 0 <= k < writes@.len() implies exists|j: int| 0 <= j < i + 1
                                    && (#[trigger] writes@[k]).device_index == indices@[j] by {
                                    if k < before.len() {
                                        assert(writes@[k] == before[k]);
                                    } else {
                                        assert(writes@[k].device_index == indices@[i as int]);
                                    }
                                }
                                assert forall|k: int| 0 <= k < writes@.len() implies writes_carry(
                                    (#[trigger] writes@[k]).commands@,
                                    stop_frames(old(self).spec_devices()[writes@[k].device_index].spec_protocol()),
                                ) by {
                                    if k < before.len() {
                                        assert(writes@[k] == before[k]);
                                    }
                                }
                            }
                        },
                        Err(_) => {
                            proof {
                                assert forall|k: int| 0 <= k < writes@.len() implies exists|j: int| 0 <= j < i + 1
                                    && (#[trigger] writes@[k]).device_index == indices@[j] by {
                                    let j = choose|j: int| 0 <= j < i && writes@[k].device_index == indices@[j];
                                }
                            }
                        },
                    }
                    proof {
                        assert forall|j: int| 0 <= j < i + 1 && old(self).spec_devices()[#[trigger] indices@[j]].spec_state()
                            == DeviceConnectionState::Connected implies exists|k: int| 0 <= k < writes@.len()
                            && writes@[k].device_index == indices@[j] by {
                            if j < i {
                                let k = choose|k: int| 0 <= k < before.len() && before[k].device_index == indices@[j];
                                assert(writes@[k] == before[k]);
                            } else {
                                assert(writes@[before.len() as int].device_index == index);
                            }
                        }
                    }
                    device_map_insert(&mut self.devices, index, device);
                    proof {
                        assert(self.spec_devices().dom() =~= mid.dom());
                        assert forall|k: u32| #[trigger] self.spec_devices().contains_key(k) implies k < self.spec_next_index()
                            && self.spec_devices()[k].wf() by {
                            if k != index {
                                assert(mid.contains_key(k));
                            }
                        }
                        assert forall|j: int| i + 1 <= j < indices@.len() implies self.spec_devices()[#[trigger] indices@[j]]
                            == old(self).spec_devices()[indices@[j]] by {
                            assert(indices@[j] != indices@[i as int]);
                        }
                        assert forall|j: int| 0 <= j < i + 1 implies stopped(
                            old(self).spec_devices()[#[trigger] indices@[j]],
                            self.spec_devices()[indices@[j]],
                        ) by {
                            if j < i {
                                assert(indices@[j] != indices@[i as int]);
                            }
                        }
                    }
                },
                None => {
                    // Every listed index is registered.
                    proof {
                        assert(false);
                    }
                },
            }
            i = i + 1;
        }
        proof {
            assert forall|d: u32| #[trigger] old(self).spec_devices().contains_key(d) && old(self).spec_devices()[d].spec_state()
                == DeviceConnectionState::Connected implies exists|k: int| 0 <= k < writes@.len() && writes@[k].device_index == d by {
                assert(indices@.to_set().contains(d));
                let j = choose|j: int| 0 <= j < indices@.len() && indices@[j] == d;
            }
            assert forall|d: u32| #[trigger] old(self).spec_devices().contains_key(d) implies stopped(
                old(self).spec_devices()[d],
                self.spec_devices()[d],
            ) by {
                assert(indices@.to_set().contains(d));
                let j = choose|j: int| 0 <= j < indices@.len() && indices@[j] == d;
            }
        }
        writes
    }

    /// A device command goes to its device; an unknown index answers
    /// `DeviceNotAvailable`.
    fn parse_device_message(&mut self, message: ButtplugDeviceCommandMessageUnion) -> (r: Result<
        ManagerResponse,
        ButtplugError,
    >)
        requires
            old(self).wf(),
        ensures
            final(self).wf(),
            final(self).spec_allow_raw_messages() == old(self).spec_allow_raw_messages(),
            final(self).spec_devices().dom() == old(self).spec_devices().dom(),
            final(self).spec_next_index() == old(self).spec_next_index(),
            final(self).spec_comm_managers() == old(self).spec_comm_managers(),
            device_routed(*old(self), *final(self), message, r),
            r.is_ok() ==> r.unwrap().message.spec_id() == message.spec_id(),
            r.is_ok() ==> r.unwrap().message is OkMessage,
    {
        let index = message.device_index();
        let ghost mid = self.spec_devices();
        match device_map_remove(&mut self.devices, index) {
            Some(mut device) => {
                let result = device.parse_message(message);
                let ghost res = result;
                device_map_insert(&mut self.devices, index, device);
                proof {
                    assert(self.spec_devices().dom() =~= mid.dom());
                    assert(registries_kept(*old(self), *self));
                    assert forall|k: u32| #[trigger] self.spec_devices().contains_key(k) implies k < self.spec_next_index()
                        && self.spec_devices()[k].wf() by {
                        if k != index {
                            assert(mid.contains_key(k));
                        }
                    }
                }
                let r = match result {
                    Ok((response, commands)) => {
                        let mut writes: Vec<DeviceWrite> = Vec::new();
                        writes.push(DeviceWrite { device_index: index, commands });
                        proof {
                            assert(writes@ =~= seq![(DeviceWrite { device_index: index, commands: res.unwrap().1 })]);
                        }
                        Ok(ManagerResponse { message: response, writes, scanning: None })
                    },
                    Err(e) => Err(e),
                };
                proof {
                    assert(response_from_device(index, res, r));
                }
                r
            },
            None => {
                proof {
                    assert(self.spec_devices() =~= mid);
                    assert(registries_kept(*old(self), *self));
                }
                Err(ButtplugError::Device(ButtplugDeviceError::DeviceNotAvailable(index)))
            },
        }
    }

    /// Messages for the manager itself: device list, stop all, and scanning.
    fn parse_device_manager_message(&mut self, message: ButtplugDeviceManagerMessageUnion) -> (r: Result<
        ManagerResponse,
        ButtplugError,
    >)
        requires
            old(self).wf(),
        ensures
            final(self).wf(),
            final(self).spec_allow_raw_messages() == old(self).spec_allow_raw_messages(),
            final(self).spec_devices().dom() == old(self).spec_devices().dom(),
            final(self).spec_next_index() == old(self).spec_next_index(),
            r.is_ok() ==> r.unwrap().message.spec_id() == message.spec_id(),
            r.is_ok() ==> (r.unwrap().message is OkMessage || r.unwrap().message is DeviceList),
            manager_handled(*old(self), *final(self), message, r),
    {
        let id = message.id();
        match message {
            ButtplugDeviceManagerMessageUnion::RequestDeviceList(_) => {
                let devices = self.device_list();
                Ok(ManagerResponse {
                    message: ButtplugServerMessage::DeviceList(DeviceList { id, devices }),
                    writes: Vec::new(),
                    scanning: None,
                })
            },
            ButtplugDeviceManagerMessageUnion::StopAllDevices(_) => {
                let writes = self.stop_all_devices();
                Ok(ManagerResponse { message: ButtplugServerMessage::OkMessage(OkMessage { id }), writes, scanning: None })
            },
            ButtplugDeviceManagerMessageUnion::StartScanning(_) => match self.start_scanning() {
                Ok(()) => Ok(ManagerResponse {
                    message: ButtplugServerMessage::OkMessage(OkMessage { id }),
                    writes: Vec::new(),
                    scanning: Some(ScanningCommand::StartScanning),
                }),
                Err(e) => Err(e),
            },
            ButtplugDeviceManagerMessageUnion::StopScanning(_) => match self.stop_scanning() {
                Ok(()) => Ok(ManagerResponse {
                    message: ButtplugServerMessage::OkMessage(OkMessage { id }),
                    writes: Vec::new(),
                    scanning: Some(ScanningCommand::StopScanning),
                }),
                Err(e) => Err(e),
            },
        }
    }

    /// Routes a client message: device commands to their device, scanning,
    /// listing and stop-all to the manager; anything else is an unexpected
    /// message type. A response carries the request's id.
    pub fn parse_message(&mut self, message: ButtplugClientMessage) -> (r: Result<ManagerResponse, ButtplugError>)
        requires
            old(self).wf(),
        ensures
            final(self).wf(),
            final(self).spec_allow_raw_messages() == old(self).spec_allow_raw_messages(),
            final(self).spec_devices().dom() == old(self).spec_devices().dom(),
            final(self).spec_next_index() == old(self).spec_next_index(),
            r.is_ok() ==> r.unwrap().message.spec_id() == message.spec_id(),
            r.is_ok() ==> (r.unwrap().message is OkMessage || r.unwrap().message is DeviceList),
            message_routed(*old(self), *final(self), message, r),
    {
        match ButtplugDeviceCommandMessageUnion::try_from_client(message) {
            Ok(device_message) => self.parse_device_message(device_message),
            Err(message) => match ButtplugDeviceManagerMessageUnion::try_from_client(message) {
                Ok(manager_message) => self.parse_device_manager_message(manager_message),
                Err(_) => Err(ButtplugError::Message(ButtplugMessageError::UnexpectedMessageType(
                    "Message is neither a device command nor a device manager message.".to_owned(),
                ))),
            },
        }
    }

    /// The client missed its ping deadline: every device is stopped and
    /// clients get a ping error event.
    pub fn ping_timeout(&mut self) -> (r: (ButtplugServerMessage, Vec<DeviceWrite>))
        requires
            old(self).wf(),
        ensures
            final(self).wf(),
            final(self).spec_allow_raw_messages() == old(self).spec_allow_raw_messages(),
            final(self).spec_devices().dom() == old(self).spec_devices().dom(),
            final(self).spec_next_index() == old(self).spec_next_index(),
            r.0.spec_id() == BUTTPLUG_SERVER_EVENT_ID,
            match r.0 {
                ButtplugServerMessage::Error(e) => e.error_code == crate::messages::ErrorCode::ErrorPing,
                _ => false,
            },
            stops_all(*old(self), *final(self), r.1@),
    {
        let writes = self.stop_all_devices();
        let error = ButtplugError::Ping("Ping timed out.".to_owned());
        (ButtplugServerMessage::Error(error.to_error_message(BUTTPLUG_SERVER_EVENT_ID)), writes)
    }
}

impl DeviceManager {
    fn find_definition(&self, name: &String) -> (r: Option<usize>)
        ensures
            r.is_none() <==> forall|j: int| 0 <= j < self.spec_definitions().len() ==> (#[trigger] self.spec_definitions()[j]).0 != name@,
            r.is_some() ==> r.unwrap() < self.spec_definitions().len() && self.spec_definitions()[r.unwrap() as int].0 == name@,
    {
        let mut i: usize = 0;
        while i < self.protocol_definitions.len()
            invariant
                i <= self.protocol_definitions@.len(),
                forall|j: int| 0 <= j < i ==> (#[trigger] self.spec_definitions()[j]).0 != name@,
            decreases self.protocol_definitions@.len() - i,
        {
            if self.protocol_definitions[i].0 == *name {
                proof {
                    assert(self.spec_definitions()[i as int].0 == name@);
                }
                return Some(i);
            }
            i = i + 1;
        }
        None
    }

    /// Sets the definition registered under `name`, replacing an earlier one
    /// in its place, or adding it last.
    pub fn add_protocol_definition(&mut self, name: &str, config: ProtocolDefinition)
        requires
            old(self).wf(),
        ensures
            final(self).wf(),
            final(self).spec_allow_raw_messages() == old(self).spec_allow_raw_messages(),
            final(self).spec_devices() == old(self).spec_devices(),
            final(self).spec_next_index() == old(self).spec_next_index(),
            exists|i: int| 0 <= i < final(self).spec_definitions().len() && final(self).spec_definitions()[i] == (name@, config),
            forall|i: int| 0 <= i < old(self).spec_definitions().len() && (#[trigger] old(self).spec_definitions()[i]).0 != name@
                ==> final(self).spec_definitions()[i] == old(self).spec_definitions()[i],
    {
        let key = name.to_owned();
        let ghost before = self.spec_definitions();
        match self.find_definition(&key) {
            Some(i) => {
                self.protocol_definitions.set(i, (key, config));
                proof {
                    assert(self.spec_definitions() =~= before.update(i as int, (name@, config)));
                    assert(self.spec_definitions()[i as int] == (name@, config));
                }
            },
            None => {
                self.protocol_definitions.push((key, config));
                proof {
                    assert(self.spec_definitions() =~= before.push((name@, config)));
                    assert(self.spec_definitions()[before.len() as int] == (name@, config));
                }
            },
        }
        proof {
            assert(self.spec_protocols() == old(self).spec_protocols());
            assert forall|a: int, b: int| 0 <= a < b < self.spec_definitions().len() implies
                (#[trigger] self.spec_definitions()[a]).0 != (#[trigger] self.spec_definitions()[b]).0 by {
                if b < before.len() && a != b {
                    if self.spec_definitions()[a].0 == name@ || self.spec_definitions()[b].0 == name@ {
                    } else {
                        assert(before[a].0 != before[b].0);
                    }
                }
            }
            lemma_wf_frame_definitions(old(self), self);
        }
    }

    /// Drops the definition registered under `name`, if there is one; the
    /// others keep their order.
    pub fn remove_protocol_definition(&mut self, name: &str)
        requires
            old(self).wf(),
        ensures
            final(self).wf(),
            final(self).spec_allow_raw_messages() == old(self).spec_allow_raw_messages(),
            final(self).spec_devices() == old(self).spec_devices(),
            final(self).spec_next_index() == old(self).spec_next_index(),
            forall|j: int| 0 <= j < final(self).spec_definitions().len() ==> (#[trigger] final(self).spec_definitions()[j]).0 != name@,
            (forall|j: int| 0 <= j < old(self).spec_definitions().len() ==> (#[trigger] old(self).spec_definitions()[j]).0 != name@)
                ==> final(self).spec_definitions() == old(self).spec_definitions(),
            (exists|j: int| 0 <= j < old(self).spec_definitions().len() && (#[trigger] old(self).spec_definitions()[j]).0 == name@)
                ==> exists|j: int| 0 <= j < old(self).spec_definitions().len() && final(self).spec_definitions()
                == old(self).spec_definitions().remove(j),
    {
        let key = name.to_owned();
        let ghost before = self.spec_definitions();
        match self.find_definition(&key) {
            Some(i) => {
                self.protocol_definitions.remove(i);
                proof {
                    assert(self.spec_definitions() =~= before.remove(i as int));
                    assert forall|j: int| 0 <= j < self.spec_definitions().len() implies (#[trigger] self.spec_definitions()[j]).0 != name@ by {
                        if j < i {
                            assert(before[j].0 != before[i as int].0);
                        } else {
                            assert(before[j + 1].0 != before[i as int].0);
                        }
                    }
                }
            },
            None => {},
        }
        proof {
            assert(self.spec_protocols() == old(self).spec_protocols());
            lemma_wf_frame_definitions(old(self), self);
        }
    }

    /// The first registered definition, in registration order, that
    /// recognizes a device by its advertised name.
    pub fn protocol_for_device(&self, device_name: &str) -> (r: Option<String>)
        ensures
            r.is_none() <==> forall|j: int| 0 <= j < self.spec_definitions().len() ==> !definition_matches(
                (#[trigger] self.spec_definitions()[j]).1,
                device_name@,
            ),
            r.is_some() ==> exists|i: int| 0 <= i < self.spec_definitions().len() && self.spec_definitions()[i].0
                == r.unwrap()@ && definition_matches(self.spec_definitions()[i].1, device_name@) && forall|j: int|
                0 <= j < i ==> !definition_matches((#[trigger] self.spec_definitions()[j]).1, device_name@),
    {
        let wanted = device_name.to_owned();
        let mut i: usize = 0;
        while i < self.protocol_definitions.len()
            invariant
                i <= self.protocol_definitions@.len(),
                wanted@ == device_name@,
                forall|j: int| 0 <= j < i ==> !definition_matches((#[trigger] self.spec_definitions()[j]).1, device_name@),
            decreases self.protocol_definitions@.len() - i,
        {
            if recognizes(&self.protocol_definitions[i].1, &wanted) {
                proof {
                    assert(self.spec_definitions()[i as int] == (self.protocol_definitions@[i as int].0@, self.protocol_definitions@[i as int].1));
                }
                return Some(self.protocol_definitions[i].0.clone());
            }
            i = i + 1;
        }
        None
    }
}

impl DeviceManager {
    /// What to do with a device a scanner found: the protocol to connect it
    /// with. That is the first definition, in registration order, that
    /// recognizes its name, provided a protocol of that name is registered
    /// and the user config permits the device; otherwise nothing.
    pub fn device_found(&self, device_name: &str, address: &str) -> (r: Option<String>)
        ensures
            r.is_some() <==> spec_device_permitted(self.spec_user_config(), address@) && exists|i: int|
                #[trigger] first_match(self.spec_definitions(), device_name@, i) && self.spec_protocols().contains(
                    self.spec_definitions()[i].0,
                ),
            r.is_some() ==> exists|i: int|
                #[trigger] first_match(self.spec_definitions(), device_name@, i) && self.spec_definitions()[i].0
                    == r.unwrap()@,
    {
        if !self.device_permitted(address) {
            return None;
        }
        match self.protocol_for_device(device_name) {
            Some(name) => {
                let registered = self.has_protocol(name.as_str());
                proof {
                    let defs = self.spec_definitions();
                    let i = choose|i: int| 0 <= i < defs.len() && defs[i].0 == name@ && definition_matches(defs[i].1, device_name@)
                        && forall|j: int| 0 <= j < i ==> !definition_matches((#[trigger] defs[j]).1, device_name@);
                    assert(first_match(defs, device_name@, i));
                    assert forall|k: int| #[trigger] first_match(defs, device_name@, k) implies k == i by {
                        if k < i {
                            assert(!definition_matches(defs[k].1, device_name@));
                        } else if i < k {
                            assert(!definition_matches(defs[i].1, device_name@));
                        }
                    }
                }
                if registered {
                    Some(name)
                } else {
                    None
                }
            },
            None => {
                proof {
                    assert forall|k: int| !#[trigger] first_match(self.spec_definitions(), device_name@, k) by {
                        if 0 <= k < self.spec_definitions().len() {
                            assert(!definition_matches(self.spec_definitions()[k].1, device_name@));
                        }
                    }
                }
                None
            },
        }
    }
}

/// Definition `i` is the first, in registration order, that recognizes a
/// device named `device_name`.
pub open spec fn first_match(defs: Seq<(Seq<char>, ProtocolDefinition)>, device_name: Seq<char>, i: int) -> bool {
    &&& 0 <= i < defs.len()
    &&& definition_matches(defs[i].1, device_name)
    &&& forall|j: int| 0 <= j < i ==> !definition_matches((#[trigger] defs[j]).1, device_name)
}

} // verus!
