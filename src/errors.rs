//! Error kinds of the library, and their form as protocol `Error` messages.
use vstd::prelude::*;

use crate::message_types::ButtplugDeviceMessageType;
use crate::messages::{ButtplugMessageError, Error, ErrorCode};

verus! {

/// Errors about devices and scanning.
#[derive(Debug, Clone, PartialEq)]
pub enum ButtplugDeviceError {
    /// No device has this index.
    DeviceNotAvailable(u32),
    DeviceNotConnected(String),
    DeviceCommunicationError(String),
    DeviceConnectionError(String),
    DeviceScanningAlreadyStarted,
    DeviceScanningAlreadyStopped,
    /// The device does not handle this kind of message.
    MessageNotSupported(ButtplugDeviceMessageType),
}

/// Unexpected internal states.
#[derive(Debug, Clone, PartialEq)]
pub enum ButtplugUnknownError {
    NoDeviceCommManagers,
    UnexpectedType(String),
}

/// Every error a client can be told about.
#[derive(Debug, Clone, PartialEq)]
pub enum ButtplugError {
    Message(ButtplugMessageError),
    Device(ButtplugDeviceError),
    Unknown(ButtplugUnknownError),
    /// The client missed its ping deadline.
    Ping(String),
    /// A request came before the handshake, or the versions do not match.
    Handshake(String),
}

/// Errors of server configuration calls.
#[derive(Debug, Clone, PartialEq)]
pub enum ButtplugServerError {
    DeviceManagerTypeAlreadyAdded(String),
    ProtocolAlreadyAdded(String),
    ProtocolDoesNotExist(String),
}

impl ButtplugError {
    pub open spec fn spec_error_code(self) -> ErrorCode {
        match self {
            ButtplugError::Message(_) => ErrorCode::ErrorMessage,
            ButtplugError::Device(_) => ErrorCode::ErrorDevice,
            ButtplugError::Unknown(_) => ErrorCode::ErrorUnknown,
            ButtplugError::Ping(_) => ErrorCode::ErrorPing,
            ButtplugError::Handshake(_) => ErrorCode::ErrorHandshake,
        }
    }

    /// The protocol error code of the error's kind.
    pub fn error_code(&self) -> (r: ErrorCode)
        ensures
            r == self.spec_error_code(),
    {
        match self {
            ButtplugError::Message(_) => ErrorCode::ErrorMessage,
            ButtplugError::Device(_) => ErrorCode::ErrorDevice,
            ButtplugError::Unknown(_) => ErrorCode::ErrorUnknown,
            ButtplugError::Ping(_) => ErrorCode::ErrorPing,
            ButtplugError::Handshake(_) => ErrorCode::ErrorHandshake,
        }
    }

    /// The text a client reads in the `Error` message.
    pub open spec fn spec_description(self) -> Seq<char> {
        match self {
            ButtplugError::Message(_) => "Message error"@,
            ButtplugError::Device(e) => match e {
                ButtplugDeviceError::DeviceNotAvailable(_) => "Device not available"@,
                ButtplugDeviceError::DeviceNotConnected(s) => s@,
                ButtplugDeviceError::DeviceCommunicationError(s) => s@,
                ButtplugDeviceError::DeviceConnectionError(s) => s@,
                ButtplugDeviceError::DeviceScanningAlreadyStarted => "Device scanning already started"@,
                ButtplugDeviceError::DeviceScanningAlreadyStopped => "Device scanning already stopped"@,
                ButtplugDeviceError::MessageNotSupported(_) => "Message not supported by this device"@,
            },
            ButtplugError::Unknown(_) => "Unknown error"@,
            ButtplugError::Ping(s) => s@,
            ButtplugError::Handshake(s) => s@,
        }
    }

    /// A short description for the `Error` message.
    pub fn description(&self) -> (r: String)
        ensures
            r@ == self.spec_description(),
    {
        match self {
            ButtplugError::Message(_) => "Message error".to_owned(),
            ButtplugError::Device(e) => match e {
                ButtplugDeviceError::DeviceNotAvailable(_) => "Device not available".to_owned(),
                ButtplugDeviceError::DeviceNotConnected(s) => s.clone(),
                ButtplugDeviceError::DeviceCommunicationError(s) => s.clone(),
                ButtplugDeviceError::DeviceConnectionError(s) => s.clone(),
                ButtplugDeviceError::DeviceScanningAlreadyStarted => "Device scanning already started".to_owned(),
                ButtplugDeviceError::DeviceScanningAlreadyStopped => "Device scanning already stopped".to_owned(),
                ButtplugDeviceError::MessageNotSupported(_) => "Message not supported by this device".to_owned(),
            },
            ButtplugError::Unknown(_) => "Unknown error".to_owned(),
            ButtplugError::Ping(s) => s.clone(),
            ButtplugError::Handshake(s) => s.clone(),
        }
    }

    /// The error as an `Error` message answering the request `id`.
    pub fn to_error_message(&self, id: u32) -> (r: Error)
        ensures
            r.id == id,
            r.error_code == self.spec_error_code(),
            r.error_message@ == self.spec_description(),
    {
        Error { id, error_code: self.error_code(), error_message: self.description() }
    }
}

} // verus!
