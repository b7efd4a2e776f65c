//! A device as the server sees it: its identity, connection state and
//! protocol handler, and the decisions of its bus-facing side.
use vstd::prelude::*;

use crate::command_manager::feature_counts_fit;
use crate::errors::{ButtplugDeviceError, ButtplugError, ButtplugUnknownError};
use crate::lovehoney_desire::{handled, LovehoneyDesire};
use crate::messages::{DeviceMessageAttributesMap, Endpoint};
use crate::unions::{ButtplugDeviceCommandMessageUnion, ButtplugMessage, ButtplugServerMessage};

verus! {

/// One write to a device endpoint.
#[derive(Debug, Clone, PartialEq)]
pub struct DeviceWriteCmd {
    pub endpoint: Endpoint,
    pub data: Vec<u8>,
    pub write_with_response: bool,
}

impl DeviceWriteCmd {
    pub fn new(endpoint: Endpoint, data: Vec<u8>, write_with_response: bool) -> (r: DeviceWriteCmd)
        ensures
            r.endpoint == endpoint,
            r.data == data,
            r.write_with_response == write_with_response,
    {
        DeviceWriteCmd { endpoint, data, write_with_response }
    }
}

/// Connection life cycle of a device.
#[derive(Debug, Clone, Copy, PartialEq, Eq, Structural)]
pub enum DeviceConnectionState {
    Disconnected,
    Connecting,
    Connected,
    Disconnecting,
}

/// What happens to a device's connection.
#[derive(Debug, Clone, Copy, PartialEq, Eq, Structural)]
pub enum ConnectionEvent {
    ConnectRequested,
    ConnectSucceeded,
    ConnectFailed,
    DisconnectRequested,
    DisconnectFinished,
    /// The bus reports the device gone, whatever the state.
    Lost,
}

/// Disconnected, Connecting, Connected, Disconnecting, and round again;
/// events that do not fit the state leave it as it is.
pub open spec fn spec_next_connection_state(s: DeviceConnectionState, e: ConnectionEvent) -> DeviceConnectionState {
    match (s, e) {
        (_, ConnectionEvent::Lost) => DeviceConnectionState::Disconnected,
        (DeviceConnectionState::Disconnected, ConnectionEvent::ConnectRequested) => DeviceConnectionState::Connecting,
        (DeviceConnectionState::Connecting, ConnectionEvent::ConnectSucceeded) => DeviceConnectionState::Connected,
        (DeviceConnectionState::Connecting, ConnectionEvent::ConnectFailed) => DeviceConnectionState::Disconnected,
        (DeviceConnectionState::Connected, ConnectionEvent::DisconnectRequested) => DeviceConnectionState::Disconnecting,
        (DeviceConnectionState::Disconnecting, ConnectionEvent::DisconnectFinished) => DeviceConnectionState::Disconnected,
        _ => s,
    }
}

pub fn next_connection_state(s: DeviceConnectionState, e: ConnectionEvent) -> (r: DeviceConnectionState)
    ensures
        r == spec_next_connection_state(s, e),
{
    match (s, e) {
        (_, ConnectionEvent::Lost) => DeviceConnectionState::Disconnected,
        (DeviceConnectionState::Disconnected, ConnectionEvent::ConnectRequested) => DeviceConnectionState::Connecting,
        (DeviceConnectionState::Connecting, ConnectionEvent::ConnectSucceeded) => DeviceConnectionState::Connected,
        (DeviceConnectionState::Connecting, ConnectionEvent::ConnectFailed) => DeviceConnectionState::Disconnected,
        (DeviceConnectionState::Connected, ConnectionEvent::DisconnectRequested) => DeviceConnectionState::Disconnecting,
        (DeviceConnectionState::Disconnecting, ConnectionEvent::DisconnectFinished) => DeviceConnectionState::Disconnected,
        _ => s,
    }
}

/// `new` and `r` are what handling `message` on device `old` gives: a
/// connected device runs it through its protocol handler; any other answers
/// `DeviceNotConnected` and changes nothing. Identity and state are kept.
pub open spec fn device_handled(
    old: ButtplugDevice,
    new: ButtplugDevice,
    message: ButtplugDeviceCommandMessageUnion,
    r: Result<(ButtplugServerMessage, Vec<DeviceWriteCmd>), ButtplugError>,
) -> bool {
    &&& new.wf()
    &&& new.spec_state() == old.spec_state()
    &&& new.spec_name() == old.spec_name()
    &&& new.spec_address() == old.spec_address()
    &&& new.spec_display_name() == old.spec_display_name()
    &&& if old.spec_state() == DeviceConnectionState::Connected {
        handled(old.spec_protocol(), new.spec_protocol(), message, r)
    } else {
        r.is_err() && r.unwrap_err() is Device && r.unwrap_err()->Device_0 is DeviceNotConnected
            && new.spec_protocol() == old.spec_protocol()
    }
}

/// A device: identity, connection state and protocol handler.
pub struct ButtplugDevice {
    name: String,
    address: String,
    display_name: Option<String>,
    state: DeviceConnectionState,
    protocol: LovehoneyDesire,
}

impl ButtplugDevice {
    pub closed spec fn spec_state(&self) -> DeviceConnectionState {
        self.state
    }

    pub closed spec fn spec_protocol(&self) -> LovehoneyDesire {
        self.protocol
    }

    pub closed spec fn spec_name(&self) -> Seq<char> {
        self.name@
    }

    pub closed spec fn spec_address(&self) -> Seq<char> {
        self.address@
    }

    pub closed spec fn spec_display_name(&self) -> Option<String> {
        self.display_name
    }

    pub open spec fn wf(&self) -> bool {
        self.spec_protocol().wf()
    }

    /// A connected device.
    pub fn new(name: String, address: String, display_name: Option<String>, protocol: LovehoneyDesire) -> (r:
        ButtplugDevice)
        requires
            protocol.wf(),
        ensures
            r.wf(),
            r.spec_state() == DeviceConnectionState::Connected,
            r.spec_name() == name@,
            r.spec_address() == address@,
            r.spec_display_name() == display_name,
            r.spec_protocol() == protocol,
    {
        ButtplugDevice { name, address, display_name, state: DeviceConnectionState::Connected, protocol }
    }

    pub fn name(&self) -> (r: &String)
        ensures
            r@ == self.spec_name(),
    {
        &self.name
    }

    pub fn address(&self) -> (r: &String)
        ensures
            r@ == self.spec_address(),
    {
        &self.address
    }

    pub fn display_name(&self) -> (r: &Option<String>)
        ensures
            *r == self.spec_display_name(),
    {
        &self.display_name
    }

    pub fn connection_state(&self) -> (r: DeviceConnectionState)
        ensures
            r == self.spec_state(),
    {
        self.state
    }

    pub fn message_attributes(&self) -> (r: &DeviceMessageAttributesMap)
        requires
            self.wf(),
        ensures
            r.wf(),
            *r == self.spec_protocol().spec_attributes(),
    {
        self.protocol.message_attributes()
    }

    /// Moves the connection along.
    pub fn on_connection_event(&mut self, e: ConnectionEvent)
        requires
            old(self).wf(),
        ensures
            final(self).wf(),
            final(self).spec_state() == spec_next_connection_state(old(self).spec_state(), e),
            final(self).spec_protocol() == old(self).spec_protocol(),
            final(self).spec_address() == old(self).spec_address(),
    {
        self.state = next_connection_state(self.state, e);
    }

    /// Runs a command through the protocol handler; only a connected device
    /// takes commands, others answer `DeviceNotConnected`. A response keeps
    /// the request's id.
    pub fn parse_message(&mut self, message: ButtplugDeviceCommandMessageUnion) -> (r: Result<
        (ButtplugServerMessage, Vec<DeviceWriteCmd>),
        ButtplugError,
    >)
        requires
            old(self).wf(),
        ensures
            device_handled(*old(self), *final(self), message, r),
            r.is_ok() ==> r.unwrap().0.spec_id() == message.spec_id(),
            r.is_ok() ==> r.unwrap().0 is OkMessage,
    {
        if self.state != DeviceConnectionState::Connected {
            return Err(ButtplugError::Device(ButtplugDeviceError::DeviceNotConnected("Device is not connected.".to_owned())));
        }
        self.protocol.parse_message(message)
    }
}

/// What a device's bus task reports back for one command.
#[derive(Debug, Clone, PartialEq)]
pub enum ButtplugDeviceReturn {
    Connected(Vec<Endpoint>),
    Done,
    RawReading(Vec<u8>),
    Error(String),
}

/// The outcome of a command that the bus task carried out: plain success,
/// a communication error, or an unexpected reply.
pub fn command_outcome(ret: ButtplugDeviceReturn) -> (r: Result<(), ButtplugError>)
    ensures
        (ret is Done) <==> r.is_ok(),
        ret is Error ==> r.is_err() && r.unwrap_err() == ButtplugError::Device(
            ButtplugDeviceError::DeviceCommunicationError(ret->Error_0),
        ),
        (ret is Connected || ret is RawReading) ==> r.is_err() && r.unwrap_err() is Unknown
            && r.unwrap_err()->Unknown_0 is UnexpectedType,
{
    match ret {
        ButtplugDeviceReturn::Done => Ok(()),
        ButtplugDeviceReturn::Error(e) => Err(ButtplugError::Device(ButtplugDeviceError::DeviceCommunicationError(e))),
        _ => Err(ButtplugError::Unknown(ButtplugUnknownError::UnexpectedType("Unexpected device reply.".to_owned()))),
    }
}

/// The outcome of a connection attempt: the endpoints of the connected
/// device, a connection error, or an unexpected reply.
pub fn connection_outcome(ret: ButtplugDeviceReturn) -> (r: Result<Vec<Endpoint>, ButtplugError>)
    ensures
        (ret is Connected) <==> r.is_ok(),
        ret is Connected ==> r.unwrap() == ret->Connected_0,
        ret is Error ==> r.is_err() && r.unwrap_err() is Device && r.unwrap_err()->Device_0 is DeviceConnectionError,
        (ret is Done || ret is RawReading) ==> r.is_err() && r.unwrap_err() is Unknown
            && r.unwrap_err()->Unknown_0 is UnexpectedType,
{
    match ret {
        ButtplugDeviceReturn::Connected(endpoints) => Ok(endpoints),
        ButtplugDeviceReturn::Error(_) => Err(ButtplugError::Device(ButtplugDeviceError::DeviceConnectionError("Device connection failed.".to_owned()))),
        _ => Err(ButtplugError::Unknown(ButtplugUnknownError::UnexpectedType("Unexpected device reply.".to_owned()))),
    }
}

/// Whether a device found on the bus may be connected: it must not have
/// been taken already, and its protocol must have a Bluetooth LE
/// definition.
pub fn connection_precheck(device_available: bool, has_btle_definition: bool) -> (r: Result<(), ButtplugError>)
    ensures
        r.is_ok() <==> device_available && has_btle_definition,
        r.is_err() ==> r.unwrap_err() is Device && r.unwrap_err()->Device_0 is DeviceConnectionError,
        !device_available ==> r.unwrap_err()->Device_0->DeviceConnectionError_0@
            == "Cannot call try_create_device_impl twice!"@,
        device_available && !has_btle_definition ==> r.unwrap_err()->Device_0->DeviceConnectionError_0@
            == "Got a protocol with no Bluetooth Definition!"@,
{
    if !device_available {
        return Err(ButtplugError::Device(ButtplugDeviceError::DeviceConnectionError("Cannot call try_create_device_impl twice!".to_owned())));
    }
    if !has_btle_definition {
        return Err(ButtplugError::Device(ButtplugDeviceError::DeviceConnectionError("Got a protocol with no Bluetooth Definition!".to_owned())));
    }
    Ok(())
}

/// The protocol name of the Lovehoney Desire handler, the one handler this
/// library has.
pub const LOVEHONEY_DESIRE_PROTOCOL: &'static str = "lovehoney-desire";

/// Whether the library has a handler for the named protocol.
pub open spec fn has_handler(protocol: Seq<char>) -> bool {
    protocol == LOVEHONEY_DESIRE_PROTOCOL@
}

pub fn handler_exists(protocol: &str) -> (r: bool)
    ensures
        r == has_handler(protocol@),
{
    protocol.to_owned() == LOVEHONEY_DESIRE_PROTOCOL.to_owned()
}

/// Builds the device for a successful connection, with the Lovehoney
/// Desire handler.
pub fn create_device(
    name: &str,
    address: String,
    display_name: Option<String>,
    attributes: DeviceMessageAttributesMap,
) -> (r: ButtplugDevice)
    requires
        attributes.wf(),
        feature_counts_fit(attributes),
    ensures
        r.wf(),
        r.spec_state() == DeviceConnectionState::Connected,
        r.spec_address() == address@,
        r.spec_display_name() == display_name,
        r.spec_name() == name@,
        r.spec_protocol().spec_attributes() == attributes,
{
    let protocol = LovehoneyDesire::new(name, attributes);
    ButtplugDevice::new(name.to_owned(), address, display_name, protocol)
}

} // verus!
