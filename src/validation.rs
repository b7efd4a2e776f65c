//! Checks that a message is well formed before it is dispatched.
use vstd::prelude::*;

use crate::messages::{
    in_command_range, ButtplugMessageError, RotationSubcommand, VectorSubcommand,
    VibrateSubcommand, BUTTPLUG_SERVER_EVENT_ID,
};
use crate::unions::{ButtplugClientMessage, ButtplugMessage, ButtplugServerMessage};

verus! {

/// Content checks of a message.
pub trait ButtplugMessageValidator {
    spec fn spec_is_valid(&self) -> bool;

    /// `Ok` if the message is valid, otherwise an `InvalidMessageContents` error.
    fn is_valid(&self) -> (r: Result<(), ButtplugMessageError>)
        ensures
            r.is_ok() <==> self.spec_is_valid(),
            r.is_err() ==> r.unwrap_err() is InvalidMessageContents,
    ;

    /// System messages must carry the event id.
    fn is_system_id(&self, id: u32) -> (r: Result<(), ButtplugMessageError>)
        ensures
            r.is_ok() <==> id == BUTTPLUG_SERVER_EVENT_ID,
            r.is_err() ==> r.unwrap_err() is InvalidMessageContents,
    {
        if id == BUTTPLUG_SERVER_EVENT_ID {
            Ok(())
        } else {
            Err(ButtplugMessageError::InvalidMessageContents(
                "Message should have id of 0, as it is a system message.".to_owned(),
            ))
        }
    }

    /// Requests must not carry the event id.
    fn is_not_system_id(&self, id: u32) -> (r: Result<(), ButtplugMessageError>)
        ensures
            r.is_ok() <==> id != BUTTPLUG_SERVER_EVENT_ID,
            r.is_err() ==> r.unwrap_err() is InvalidMessageContents,
    {
        if id == BUTTPLUG_SERVER_EVENT_ID {
            Err(ButtplugMessageError::InvalidMessageContents(
                "Message should not have 0 for an Id. Id of 0 is reserved for system messages.".to_owned(),
            ))
        } else {
            Ok(())
        }
    }

    /// Command values must lie in `[0.0, 1.0]`; `error_msg` describes the failure.
    fn is_in_command_range(&self, value: i64, error_msg: String) -> (r: Result<(), ButtplugMessageError>)
        ensures
            r.is_ok() <==> in_command_range(value),
            r.is_err() ==> r.unwrap_err() == ButtplugMessageError::InvalidMessageContents(error_msg),
    {
        if 0 <= value && value <= crate::messages::VALUE_SCALE {
            Ok(())
        } else {
            Err(ButtplugMessageError::InvalidMessageContents(error_msg))
        }
    }
}

pub open spec fn vibrate_speeds_in_range(s: Seq<VibrateSubcommand>) -> bool {
    forall|i: int| 0 <= i < s.len() ==> in_command_range(#[trigger] s[i].speed)
}

pub open spec fn rotation_speeds_in_range(s: Seq<RotationSubcommand>) -> bool {
    forall|i: int| 0 <= i < s.len() ==> in_command_range(#[trigger] s[i].speed)
}

pub open spec fn vector_positions_in_range(s: Seq<VectorSubcommand>) -> bool {
    forall|i: int| 0 <= i < s.len() ==> in_command_range(#[trigger] s[i].position)
}

fn check_vibrate_speeds(v: &Vec<VibrateSubcommand>) -> (r: bool)
    ensures
        r == vibrate_speeds_in_range(v@),
{
    let mut i: usize = 0;
    while i < v.len()
        invariant
            i <= v@.len(),
            forall|k: int| 0 <= k < i ==> in_command_range(#[trigger] v@[k].speed),
        decreases v@.len() - i,
    {
        if v[i].speed < 0 || v[i].speed > crate::messages::VALUE_SCALE {
            return false;
        }
        i = i + 1;
    }
    true
}

fn check_rotation_speeds(v: &Vec<RotationSubcommand>) -> (r: bool)
    ensures
        r == rotation_speeds_in_range(v@),
{
    let mut i: usize = 0;
    while i < v.len()
        invariant
            i <= v@.len(),
            forall|k: int| 0 <= k < i ==> in_command_range(#[trigger] v@[k].speed),
        decreases v@.len() - i,
    {
        if v[i].speed < 0 || v[i].speed > crate::messages::VALUE_SCALE {
            return false;
        }
        i = i + 1;
    }
    true
}

fn check_vector_positions(v: &Vec<VectorSubcommand>) -> (r: bool)
    ensures
        r == vector_positions_in_range(v@),
{
    let mut i: usize = 0;
    while i < v.len()
        invariant
            i <= v@.len(),
            forall|k: int| 0 <= k < i ==> in_command_range(#[trigger] v@[k].position),
        decreases v@.len() - i,
    {
        if v[i].position < 0 || v[i].position > crate::messages::VALUE_SCALE {
            return false;
        }
        i = i + 1;
    }
    true
}

impl ButtplugClientMessage {
    /// Whether every command value of the message lies in `[0.0, 1.0]`.
    pub open spec fn spec_values_in_range(self) -> bool {
        match self {
            ButtplugClientMessage::VibrateCmd(m) => vibrate_speeds_in_range(m.speeds@),
            ButtplugClientMessage::RotateCmd(m) => rotation_speeds_in_range(m.rotations@),
            ButtplugClientMessage::LinearCmd(m) => vector_positions_in_range(m.vectors@),
            ButtplugClientMessage::SingleMotorVibrateCmd(m) => in_command_range(m.speed),
            _ => true,
        }
    }
}

impl ButtplugMessageValidator for ButtplugClientMessage {
    /// Client messages are requests: a non-zero id, and command values in range.
    open spec fn spec_is_valid(&self) -> bool {
        self.spec_id() != BUTTPLUG_SERVER_EVENT_ID && self.spec_values_in_range()
    }

    fn is_valid(&self) -> (r: Result<(), ButtplugMessageError>) {
        let id_check = self.is_not_system_id(self.id());
        if id_check.is_err() {
            return id_check;
        }
        let in_range = match self {
            ButtplugClientMessage::VibrateCmd(m) => check_vibrate_speeds(&m.speeds),
            ButtplugClientMessage::RotateCmd(m) => check_rotation_speeds(&m.rotations),
            ButtplugClientMessage::LinearCmd(m) => check_vector_positions(&m.vectors),
            ButtplugClientMessage::SingleMotorVibrateCmd(m) => {
                0 <= m.speed && m.speed <= crate::messages::VALUE_SCALE
            },
            _ => true,
        };
        if in_range {
            Ok(())
        } else {
            Err(ButtplugMessageError::InvalidMessageContents(
                "Command values must lie between 0.0 and 1.0.".to_owned(),
            ))
        }
    }
}

impl ButtplugServerMessage {
    /// Whether the message is one that only ever goes out as an event.
    pub open spec fn spec_is_event_kind(self) -> bool {
        match self {
            ButtplugServerMessage::DeviceAdded(_)
            | ButtplugServerMessage::DeviceRemoved(_)
            | ButtplugServerMessage::ScanningFinished(_)
            | ButtplugServerMessage::Log(_) => true,
            _ => false,
        }
    }

    pub fn is_event_kind(&self) -> (r: bool)
        ensures
            r == self.spec_is_event_kind(),
    {
        match self {
            ButtplugServerMessage::DeviceAdded(_)
            | ButtplugServerMessage::DeviceRemoved(_)
            | ButtplugServerMessage::ScanningFinished(_)
            | ButtplugServerMessage::Log(_) => true,
            _ => false,
        }
    }
}

impl ButtplugMessageValidator for ButtplugServerMessage {
    /// Event-only messages must carry the event id; the rest have no checks.
    open spec fn spec_is_valid(&self) -> bool {
        self.spec_is_event_kind() ==> self.spec_id() == BUTTPLUG_SERVER_EVENT_ID
    }

    fn is_valid(&self) -> (r: Result<(), ButtplugMessageError>) {
        if self.is_event_kind() {
            self.is_system_id(self.id())
        } else {
            Ok(())
        }
    }
}

} // verus!
