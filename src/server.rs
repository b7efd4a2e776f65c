//! The server's session state: handshake, ping liveness, validation of
//! incoming messages and conversion of outgoing ones to the client's
//! protocol version.
use vstd::prelude::*;

use crate::conversion::{outgoing_for_version, versioned_projection, VersionedServerMessage};
use crate::device_manager::{
    message_routed, stops_all, DeviceManager, DeviceWrite, ManagerResponse, ScanningCommand,
};
use crate::errors::{ButtplugDeviceError, ButtplugError};
use crate::message_types::{ButtplugMessageSpecVersion, BUTTPLUG_CURRENT_MESSAGE_SPEC_VERSION};
use crate::messages::{ErrorCode, OkMessage, ServerInfo, BUTTPLUG_SERVER_EVENT_ID};
use crate::unions::{ButtplugClientMessage, ButtplugMessage, ButtplugServerMessage};
use crate::validation::ButtplugMessageValidator;

verus! {

/// The answer to one client message and the work it leaves for the caller.
#[derive(Debug)]
pub struct ServerResponse {
    pub message: ButtplugServerMessage,
    pub writes: Vec<DeviceWrite>,
    pub scanning: Option<ScanningCommand>,
    /// The client showed it is alive: the ping timer starts over.
    pub reset_ping_timer: bool,
}

/// What a client is told for commands between a missed ping and a new
/// handshake: the device is not connected.
pub const PING_TIMED_OUT_TEXT: &'static str = "Ping timed out; a new handshake is needed.";

/// A server session.
pub struct ButtplugServer {
    server_name: String,
    max_ping_time: u32,
    client_version: Option<ButtplugMessageSpecVersion>,
    ping_timed_out: bool,
    /// The device registry. Bus events (devices found or gone, scans
    /// finished) and configuration go to it directly.
    pub device_manager: DeviceManager,
}

/// `r` is the server's answer for the manager's result `res`: the manager's
/// response and work, or its error as an `Error` message with the request's
/// id.
pub open spec fn server_answer(res: Result<ManagerResponse, ButtplugError>, r: ServerResponse, id: u32) -> bool {
    match res {
        Ok(m) => r.message == m.message && r.writes == m.writes && r.scanning == m.scanning && !r.reset_ping_timer,
        Err(e) => r.writes@.len() == 0 && r.scanning.is_none() && r.message.spec_id() == id && match r.message {
            ButtplugServerMessage::Error(x) => x.error_code == e.spec_error_code(),
            _ => false,
        },
    }
}

/// Whether the server hands the message to the device manager.
pub open spec fn routed_to_manager(message: ButtplugClientMessage) -> bool {
    !(message is RequestServerInfo || message is Ping || message is RequestLog)
}

fn error_response(e: ButtplugError, id: u32) -> (r: ServerResponse)
    ensures
        r.message.spec_id() == id,
        r.message is Error,
        match r.message {
            ButtplugServerMessage::Error(m) => m.error_code == e.spec_error_code() && m.error_message@
                == e.spec_description(),
            _ => false,
        },
        r.writes@.len() == 0,
        r.scanning.is_none(),
        !r.reset_ping_timer,
{
    ServerResponse {
        message: ButtplugServerMessage::Error(e.to_error_message(id)),
        writes: Vec::new(),
        scanning: None,
        reset_ping_timer: false,
    }
}

impl ButtplugServer {
    pub closed spec fn spec_client_version(&self) -> Option<ButtplugMessageSpecVersion> {
        self.client_version
    }

    pub closed spec fn spec_ping_timed_out(&self) -> bool {
        self.ping_timed_out
    }

    pub closed spec fn spec_max_ping_time(&self) -> u32 {
        self.max_ping_time
    }

    pub closed spec fn spec_device_manager(&self) -> DeviceManager {
        self.device_manager
    }

    pub open spec fn wf(&self) -> bool {
        self.spec_device_manager().wf()
    }

    /// A session with no client yet. `max_ping_time` is in milliseconds; 0
    /// turns the ping deadline off.
    pub fn new(server_name: &str, max_ping_time: u32, allow_raw_messages: bool) -> (r: ButtplugServer)
        ensures
            r.wf(),
            r.spec_client_version().is_none(),
            !r.spec_ping_timed_out(),
            r.spec_max_ping_time() == max_ping_time,
    {
        ButtplugServer {
            server_name: server_name.to_owned(),
            max_ping_time,
            client_version: None,
            ping_timed_out: false,
            device_manager: DeviceManager::new(allow_raw_messages),
        }
    }

    pub fn max_ping_time(&self) -> (r: u32)
        ensures
            r == self.spec_max_ping_time(),
    {
        self.max_ping_time
    }

    pub fn client_version(&self) -> (r: Option<ButtplugMessageSpecVersion>)
        ensures
            r == self.spec_client_version(),
    {
        self.client_version
    }

    /// Handles one client message. Invalid messages are refused before
    /// anything else; the handshake must come first; after a missed ping
    /// only a new handshake is taken. The response always carries the
    /// request's id.
    pub fn handle_message(&mut self, message: ButtplugClientMessage) -> (r: ServerResponse)
        requires
            old(self).wf(),
        ensures
            final(self).wf(),
            r.message.spec_id() == message.spec_id(),
            !message.spec_is_valid() ==> match r.message {
                ButtplugServerMessage::Error(e) => e.error_code == ErrorCode::ErrorMessage,
                _ => false,
            },
            message.spec_is_valid() && !(message is RequestServerInfo) && old(self).spec_client_version().is_none()
                ==> match r.message {
                ButtplugServerMessage::Error(e) => e.error_code == ErrorCode::ErrorHandshake,
                _ => false,
            },
            message.spec_is_valid() && !(message is RequestServerInfo) && old(self).spec_client_version().is_some()
                && old(self).spec_ping_timed_out() ==> match r.message {
                ButtplugServerMessage::Error(e) => e.error_code == ErrorCode::ErrorDevice && e.error_message@
                    == PING_TIMED_OUT_TEXT@,
                _ => false,
            } && r.writes@.len() == 0,
            final(self).spec_device_manager().spec_next_index() == old(self).spec_device_manager().spec_next_index(),
            final(self).spec_device_manager().spec_allow_raw_messages()
                == old(self).spec_device_manager().spec_allow_raw_messages(),
            message.spec_is_valid() && message is RequestServerInfo ==> (r.message is ServerInfo
                <==> message->RequestServerInfo_0.message_version.rank()
                <= BUTTPLUG_CURRENT_MESSAGE_SPEC_VERSION.rank()),
            message.spec_is_valid() && message is Ping && old(self).spec_client_version().is_some()
                && !old(self).spec_ping_timed_out() ==> r.message == ButtplugServerMessage::OkMessage(
                OkMessage { id: message.spec_id() },
            ) && r.reset_ping_timer,
            r.message is ServerInfo ==> final(self).spec_client_version() == Some(
                message->RequestServerInfo_0.message_version,
            ) && !final(self).spec_ping_timed_out(),
            !(message is RequestServerInfo) ==> final(self).spec_client_version() == old(self).spec_client_version()
                && final(self).spec_ping_timed_out() == old(self).spec_ping_timed_out(),
            message.spec_is_valid() && routed_to_manager(message) && old(self).spec_client_version().is_some()
                && !old(self).spec_ping_timed_out() ==> exists|res: Result<ManagerResponse, ButtplugError>|
                message_routed(old(self).spec_device_manager(), final(self).spec_device_manager(), message, res)
                    && #[trigger] server_answer(res, r, message.spec_id()),
            !(message.spec_is_valid() && routed_to_manager(message) && old(self).spec_client_version().is_some()
                && !old(self).spec_ping_timed_out()) ==> final(self).spec_device_manager() == old(self).spec_device_manager(),
    {
        let id = message.id();
        match message.is_valid() {
            Err(e) => {
                return error_response(ButtplugError::Message(e), id);
            },
            Ok(()) => {},
        }
        match message {
            ButtplugClientMessage::RequestServerInfo(m) => {
                if m.message_version.as_u32() > BUTTPLUG_CURRENT_MESSAGE_SPEC_VERSION.as_u32() {
                    return error_response(
                        ButtplugError::Handshake("Client asks for a newer protocol than the server speaks.".to_owned()),
                        id,
                    );
                }
                self.client_version = Some(m.message_version);
                self.ping_timed_out = false;
                ServerResponse {
                    message: ButtplugServerMessage::ServerInfo(
                        ServerInfo {
                            id,
                            server_name: self.server_name.clone(),
                            message_version: BUTTPLUG_CURRENT_MESSAGE_SPEC_VERSION,
                            max_ping_time: self.max_ping_time,
                        },
                    ),
                    writes: Vec::new(),
                    scanning: None,
                    reset_ping_timer: true,
                }
            },
            other => {
                if self.client_version.is_none() {
                    return error_response(
                        ButtplugError::Handshake("RequestServerInfo must come first.".to_owned()),
                        id,
                    );
                }
                if self.ping_timed_out {
                    return error_response(
                        ButtplugError::Device(
                            ButtplugDeviceError::DeviceNotConnected(PING_TIMED_OUT_TEXT.to_owned()),
                        ),
                        id,
                    );
                }
                match other {
                    ButtplugClientMessage::Ping(_) => ServerResponse {
                        message: ButtplugServerMessage::OkMessage(OkMessage { id }),
                        writes: Vec::new(),
                        scanning: None,
                        reset_ping_timer: true,
                    },
                    ButtplugClientMessage::RequestLog(_) => ServerResponse {
                        message: ButtplugServerMessage::OkMessage(OkMessage { id }),
                        writes: Vec::new(),
                        scanning: None,
                        reset_ping_timer: false,
                    },
                    m => {
                        let res = self.device_manager.parse_message(m);
                        let ghost g = res;
                        let r = match res {
                            Ok(resp) => ServerResponse {
                                message: resp.message,
                                writes: resp.writes,
                                scanning: resp.scanning,
                                reset_ping_timer: false,
                            },
                            Err(e) => error_response(e, id),
                        };
                        proof {
                            assert(server_answer(g, r, id));
                        }
                        r
                    },
                }
            },
        }
    }

    /// The ping deadline passed: every device is stopped, clients get a
    /// ping error event, and commands are refused until a new handshake.
    pub fn ping_timeout(&mut self) -> (r: (ButtplugServerMessage, Vec<DeviceWrite>))
        requires
            old(self).wf(),
        ensures
            final(self).wf(),
            final(self).spec_ping_timed_out(),
            final(self).spec_client_version() == old(self).spec_client_version(),
            r.0.spec_id() == BUTTPLUG_SERVER_EVENT_ID,
            match r.0 {
                ButtplugServerMessage::Error(e) => e.error_code == ErrorCode::ErrorPing,
                _ => false,
            },
            stops_all(old(self).spec_device_manager(), final(self).spec_device_manager(), r.1@),
    {
        self.ping_timed_out = true;
        self.device_manager.ping_timeout()
    }

    /// A server message in the client's protocol version, or nothing where
    /// that version has no form for it. Before the handshake the newest
    /// version is used.
    pub fn outgoing(&self, m: ButtplugServerMessage) -> (r: Option<VersionedServerMessage>)
        ensures
            ({
                let v = match self.spec_client_version() {
                    Some(v) => v,
                    None => BUTTPLUG_CURRENT_MESSAGE_SPEC_VERSION,
                };
                &&& r.is_some() <==> m.spec_exists_in(v)
                &&& r.is_some() ==> versioned_projection(m, v, r.unwrap()) && r.unwrap().spec_id() == m.spec_id()
            }),
    {
        let v = match self.client_version {
            Some(v) => v,
            None => BUTTPLUG_CURRENT_MESSAGE_SPEC_VERSION,
        };
        outgoing_for_version(m, v)
    }
}

} // verus!
