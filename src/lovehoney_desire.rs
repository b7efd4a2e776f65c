//! Protocol of the Lovehoney Desire, a two-motor device.
//!
//! The device takes `[0xF3, 0x00, speed]` to set both motors at once and
//! `[0xF3, n, speed]` to set motor `n` (counted from 1) alone, on the `Tx`
//! endpoint.
use vstd::prelude::*;

use crate::command_manager::{
    all_none, changes, commanded_after, feature_counts_fit, lemma_repeated_command_changes_nothing,
    vibrate_targets, vibrate_valid, zero_vibrations, GenericCommandManager,
};
use crate::device::DeviceWriteCmd;
use crate::errors::{ButtplugDeviceError, ButtplugError};
use crate::message_types::ButtplugDeviceMessageType;
use crate::messages::{DeviceMessageAttributesMap, Endpoint, OkMessage, VibrateCmd, VibrateSubcommand};
use crate::unions::{ButtplugDeviceCommandMessageUnion, ButtplugMessage, ButtplugServerMessage};

verus! {

/// The frame that sets motor `motor` (0 for both) to `speed`.
pub open spec fn desire_frame(motor: u8, speed: u32) -> Seq<u8> {
    seq![0xF3u8, motor, speed as u8]
}

pub open spec fn all_same<T>(d: Seq<T>) -> bool {
    forall|i: int| 0 <= i < d.len() ==> #[trigger] d[i] == d[0]
}

/// One frame per changed motor, in motor order.
pub open spec fn per_motor_frames(d: Seq<Option<u32>>) -> Seq<Seq<u8>>
    decreases d.len(),
{
    if d.len() == 0 {
        seq![]
    } else {
        let prev = per_motor_frames(d.drop_last());
        match d.last() {
            Some(v) => prev.push(desire_frame(d.len() as u8, v)),
            None => prev,
        }
    }
}

/// The frames that carry out a list of motor changes: one frame for both
/// motors where every motor changes to the same value, else one per
/// changed motor.
pub open spec fn desire_frames(d: Seq<Option<u32>>) -> Seq<Seq<u8>> {
    if d.len() > 0 && d[0].is_some() && all_same(d) {
        seq![desire_frame(0, d[0].unwrap())]
    } else {
        per_motor_frames(d)
    }
}

proof fn lemma_no_changes_no_frames(d: Seq<Option<u32>>)
    requires
        all_none(d),
    ensures
        per_motor_frames(d).len() == 0,
        desire_frames(d).len() == 0,
    decreases d.len(),
{
    if d.len() > 0 {
        assert(all_none(d.drop_last()));
        lemma_no_changes_no_frames(d.drop_last());
        assert(d[d.len() - 1].is_none());
    }
}

/// A vibrate command that follows the same command makes the device write
/// nothing.
pub proof fn lemma_repeated_vibrate_writes_nothing(
    state: Seq<Option<u32>>,
    steps: Seq<u32>,
    speeds: Seq<VibrateSubcommand>,
)
    requires
        vibrate_valid(speeds, state.len()),
    ensures
        ({
            let t = vibrate_targets(speeds, steps);
            desire_frames(changes(commanded_after(state, t), t)).len() == 0
        }),
{
    let t = vibrate_targets(speeds, steps);
    lemma_repeated_command_changes_nothing(state, t);
    lemma_no_changes_no_frames(changes(commanded_after(state, t), t));
}

/// `writes` are the given frames, written to `Tx` without response.
pub open spec fn writes_carry(writes: Seq<DeviceWriteCmd>, frames: Seq<Seq<u8>>) -> bool {
    &&& writes.len() == frames.len()
    &&& forall|k: int|
        0 <= k < writes.len() ==> (#[trigger] writes[k]).endpoint == Endpoint::Tx && writes[k].data@
            == frames[k] && !writes[k].write_with_response
}

fn tx_write(data: Vec<u8>) -> (r: DeviceWriteCmd)
    ensures
        r.endpoint == Endpoint::Tx,
        r.data@ == data@,
        !r.write_with_response,
{
    DeviceWriteCmd { endpoint: Endpoint::Tx, data, write_with_response: false }
}

fn check_all_same(d: &Vec<Option<u32>>) -> (r: bool)
    ensures
        r == all_same(d@),
{
    let mut i: usize = 0;
    while i < d.len()
        invariant
            i <= d@.len(),
            forall|j: int| 0 <= j < i ==> #[trigger] d@[j] == d@[0],
        decreases d@.len() - i,
    {
        if d[i] != d[0] {
            return false;
        }
        i = i + 1;
    }
    true
}

/// The writes that carry out a list of motor changes.
pub fn frames_for_changes(d: &Vec<Option<u32>>) -> (r: Vec<DeviceWriteCmd>)
    ensures
        writes_carry(r@, desire_frames(d@)),
{
    let mut writes: Vec<DeviceWriteCmd> = Vec::new();
    if d.len() > 0 && d[0].is_some() && check_all_same(d) {
        let v = d[0].unwrap();
        writes.push(tx_write(vec![0xF3u8, 0u8, v as u8]));
        proof {
            assert(writes@[0].data@ =~= desire_frame(0, v));
        }
        return writes;
    }
    let mut i: usize = 0;
    while i < d.len()
        invariant
            i <= d@.len(),
            writes_carry(writes@, per_motor_frames(d@.take(i as int))),
        decreases d@.len() - i,
    {
        proof {
            assert(d@.take(i + 1).drop_last() =~= d@.take(i as int));
        }
        match d[i] {
            Some(v) => {
                let w = tx_write(vec![0xF3u8, (i + 1) as u8, v as u8]);
                proof {
                    assert(w.data@ =~= desire_frame((i + 1) as u8, v));
                }
                writes.push(w);
            },
            None => {},
        }
        i = i + 1;
    }
    proof {
        assert(d@.take(i as int) =~= d@);
    }
    writes
}

/// The vibration targets that bring all `n` motors to rest.
pub open spec fn stop_targets(h: LovehoneyDesire) -> Seq<(u32, u32)> {
    vibrate_targets(
        zero_vibrations(h.spec_manager().spec_vibrations().len()),
        h.spec_manager().spec_vibration_steps(),
    )
}

/// The frames that stop the motors of `h`: those not already at rest.
pub open spec fn stop_frames(h: LovehoneyDesire) -> Seq<Seq<u8>> {
    desire_frames(changes(h.spec_manager().spec_vibrations(), stop_targets(h)))
}

/// `new` and `r` are what handling `message` on `old` gives: a vibrate
/// command is accepted when valid, answered `Ok` with the request's id, and
/// writes the changed motors; a stop command always succeeds and writes the
/// motors not at rest; anything else is not supported and changes nothing.
pub open spec fn handled(
    old: LovehoneyDesire,
    new: LovehoneyDesire,
    message: ButtplugDeviceCommandMessageUnion,
    r: Result<(ButtplugServerMessage, Vec<DeviceWriteCmd>), ButtplugError>,
) -> bool {
    let cache = old.spec_manager().spec_vibrations();
    let steps = old.spec_manager().spec_vibration_steps();
    &&& new.wf()
    &&& new.spec_attributes() == old.spec_attributes()
    &&& new.spec_manager().spec_vibration_steps() == steps
    &&& match message {
        ButtplugDeviceCommandMessageUnion::VibrateCmd(m) => {
            let t = vibrate_targets(m.speeds@, steps);
            &&& r.is_ok() <==> vibrate_valid(m.speeds@, cache.len())
            &&& r.is_ok() ==> r.unwrap().0 == ButtplugServerMessage::OkMessage(OkMessage { id: m.id })
                && writes_carry(r.unwrap().1@, desire_frames(changes(cache, t)))
                && new.spec_manager().spec_vibrations() == commanded_after(cache, t)
            &&& r.is_err() ==> r.unwrap_err() is Message && r.unwrap_err()->Message_0 is InvalidMessageContents
                && new.spec_manager().spec_vibrations() == cache
        },
        ButtplugDeviceCommandMessageUnion::StopDeviceCmd(m) => {
            &&& r.is_ok()
            &&& r.unwrap().0 == ButtplugServerMessage::OkMessage(OkMessage { id: m.id })
            &&& writes_carry(r.unwrap().1@, stop_frames(old))
            &&& new.spec_manager().spec_vibrations() == commanded_after(cache, stop_targets(old))
        },
        _ => r.is_err() && r.unwrap_err() is Device && r.unwrap_err()->Device_0 is MessageNotSupported
            && new.spec_manager().spec_vibrations() == cache,
    }
}

/// Protocol handler of the Lovehoney Desire.
pub struct LovehoneyDesire {
    name: String,
    message_attributes: DeviceMessageAttributesMap,
    manager: GenericCommandManager,
}

impl LovehoneyDesire {
    pub closed spec fn spec_manager(&self) -> GenericCommandManager {
        self.manager
    }

    pub closed spec fn spec_name(&self) -> Seq<char> {
        self.name@
    }

    pub closed spec fn spec_attributes(&self) -> DeviceMessageAttributesMap {
        self.message_attributes
    }

    pub open spec fn wf(&self) -> bool {
        self.spec_manager().wf() && self.spec_attributes().wf()
    }

    pub fn new(name: &str, message_attributes: DeviceMessageAttributesMap) -> (r: LovehoneyDesire)
        requires
            message_attributes.wf(),
            feature_counts_fit(message_attributes),
        ensures
            r.wf(),
            r.spec_manager().spec_vibrations().len() == r.spec_manager().spec_vibration_steps().len(),
            r.spec_manager().spec_vibrations().len() == crate::command_manager::feature_count_of(
                message_attributes,
                crate::message_types::ButtplugCurrentSpecDeviceMessageType::VibrateCmd,
            ),
            r.spec_attributes() == message_attributes,
            r.spec_name() == name@,
            r.spec_manager().spec_vibration_steps() == crate::command_manager::step_counts_of(
                message_attributes,
                crate::message_types::ButtplugCurrentSpecDeviceMessageType::VibrateCmd,
            ),
            crate::command_manager::all_none(r.spec_manager().spec_vibrations()),
    {
        let manager = GenericCommandManager::new(&message_attributes);
        LovehoneyDesire { name: name.to_owned(), message_attributes, manager }
    }

    pub fn name(&self) -> (r: &str)
        ensures
            r@ == self.spec_name(),
    {
        self.name.as_str()
    }

    pub fn message_attributes(&self) -> (r: &DeviceMessageAttributesMap)
        ensures
            *r == self.spec_attributes(),
    {
        &self.message_attributes
    }

    /// The writes for a vibrate command: the changed motors, framed as the
    /// device expects. Invalid commands fail with a message error and
    /// change nothing.
    pub fn handle_vibrate_cmd(&mut self, message: &VibrateCmd) -> (r: Result<Vec<DeviceWriteCmd>, ButtplugError>)
        requires
            old(self).wf(),
        ensures
            final(self).wf(),
            final(self).spec_attributes() == old(self).spec_attributes(),
            r.is_ok() <==> vibrate_valid(message.speeds@, old(self).spec_manager().spec_vibrations().len()),
            final(self).spec_manager().spec_vibration_steps() == old(self).spec_manager().spec_vibration_steps(),
            r.is_err() ==> r.unwrap_err() is Message && r.unwrap_err()->Message_0 is InvalidMessageContents
                && final(self).spec_manager().spec_vibrations() == old(self).spec_manager().spec_vibrations(),
            r.is_ok() ==> {
                let t = vibrate_targets(message.speeds@, old(self).spec_manager().spec_vibration_steps());
                &&& writes_carry(r.unwrap()@, desire_frames(changes(old(self).spec_manager().spec_vibrations(), t)))
                &&& final(self).spec_manager().spec_vibrations() == crate::command_manager::commanded_after(
                    old(self).spec_manager().spec_vibrations(),
                    t,
                )
            },
    {
        match self.manager.update_vibration(message, false) {
            Ok(Some(cmds)) => Ok(frames_for_changes(&cmds)),
            Ok(None) => Ok(Vec::new()),
            Err(e) => Err(ButtplugError::Message(e)),
        }
    }

    /// The writes that stop both motors: only the motors not already at
    /// rest are written.
    pub fn handle_stop_device_cmd(&mut self) -> (r: Vec<DeviceWriteCmd>)
        requires
            old(self).wf(),
        ensures
            final(self).wf(),
            final(self).spec_attributes() == old(self).spec_attributes(),
            final(self).spec_manager().spec_vibration_steps() == old(self).spec_manager().spec_vibration_steps(),
            ({
                let t = vibrate_targets(
                    zero_vibrations(old(self).spec_manager().spec_vibrations().len()),
                    old(self).spec_manager().spec_vibration_steps(),
                );
                &&& writes_carry(r@, desire_frames(changes(old(self).spec_manager().spec_vibrations(), t)))
                &&& final(self).spec_manager().spec_vibrations() == crate::command_manager::commanded_after(
                    old(self).spec_manager().spec_vibrations(),
                    t,
                )
            }),
    {
        let n = self.manager.vibration_feature_count();
        let mut speeds: Vec<VibrateSubcommand> = Vec::new();
        let mut i: usize = 0;
        while i < n
            invariant
                i <= n,
                n <= u32::MAX,
                speeds@ == zero_vibrations(i as nat),
            decreases n - i,
        {
            speeds.push(VibrateSubcommand { index: i as u32, speed: 0 });
            proof {
                assert(speeds@ =~= zero_vibrations((i + 1) as nat));
            }
            i = i + 1;
        }
        let stop = VibrateCmd { id: 1, device_index: 0, speeds };
        match self.handle_vibrate_cmd(&stop) {
            Ok(writes) => writes,
            Err(_) => Vec::new(),
        }
    }

    /// Handles a command for this device: the response, with the request's
    /// id, and the writes to perform. Commands other than vibrate and stop
    /// are not supported.
    pub fn parse_message(&mut self, message: ButtplugDeviceCommandMessageUnion) -> (r: Result<
        (ButtplugServerMessage, Vec<DeviceWriteCmd>),
        ButtplugError,
    >)
        requires
            old(self).wf(),
        ensures
            handled(*old(self), *final(self), message, r),
            r.is_ok() ==> r.unwrap().0.spec_id() == message.spec_id(),
            r.is_ok() ==> r.unwrap().0 is OkMessage,
    {
        let id = message.id();
        match message {
            ButtplugDeviceCommandMessageUnion::VibrateCmd(m) => match self.handle_vibrate_cmd(&m) {
                Ok(writes) => Ok((ButtplugServerMessage::OkMessage(OkMessage { id }), writes)),
                Err(e) => Err(e),
            },
            ButtplugDeviceCommandMessageUnion::StopDeviceCmd(_) => {
                let writes = self.handle_stop_device_cmd();
                Ok((ButtplugServerMessage::OkMessage(OkMessage { id }), writes))
            },
            other => Err(ButtplugError::Device(ButtplugDeviceError::MessageNotSupported(message_type_of(&other)))),
        }
    }
}

/// The capability tag of a device command.
pub fn message_type_of(m: &ButtplugDeviceCommandMessageUnion) -> (r: ButtplugDeviceMessageType)
    ensures
        (m is VibrateCmd) == (r == ButtplugDeviceMessageType::VibrateCmd),
        (m is StopDeviceCmd) == (r == ButtplugDeviceMessageType::StopDeviceCmd),
{
    match m {
        ButtplugDeviceCommandMessageUnion::FleshlightLaunchFW12Cmd(_) => ButtplugDeviceMessageType::FleshlightLaunchFW12Cmd,
        ButtplugDeviceCommandMessageUnion::SingleMotorVibrateCmd(_) => ButtplugDeviceMessageType::SingleMotorVibrateCmd,
        ButtplugDeviceCommandMessageUnion::VorzeA10CycloneCmd(_) => ButtplugDeviceMessageType::VorzeA10CycloneCmd,
        ButtplugDeviceCommandMessageUnion::KiirooCmd(_) => ButtplugDeviceMessageType::KiirooCmd,
        ButtplugDeviceCommandMessageUnion::VibrateCmd(_) => ButtplugDeviceMessageType::VibrateCmd,
        ButtplugDeviceCommandMessageUnion::LinearCmd(_) => ButtplugDeviceMessageType::LinearCmd,
        ButtplugDeviceCommandMessageUnion::RotateCmd(_) => ButtplugDeviceMessageType::RotateCmd,
        ButtplugDeviceCommandMessageUnion::RawWriteCmd(_) => ButtplugDeviceMessageType::RawWriteCmd,
        ButtplugDeviceCommandMessageUnion::RawReadCmd(_) => ButtplugDeviceMessageType::RawReadCmd,
        ButtplugDeviceCommandMessageUnion::StopDeviceCmd(_) => ButtplugDeviceMessageType::StopDeviceCmd,
        ButtplugDeviceCommandMessageUnion::RawSubscribeCmd(_) => ButtplugDeviceMessageType::RawSubscribeCmd,
        ButtplugDeviceCommandMessageUnion::RawUnsubscribeCmd(_) => ButtplugDeviceMessageType::RawUnsubscribeCmd,
        ButtplugDeviceCommandMessageUnion::BatteryLevelCmd(_) => ButtplugDeviceMessageType::BatteryLevelCmd,
        ButtplugDeviceCommandMessageUnion::RSSILevelCmd(_) => ButtplugDeviceMessageType::RSSILevelCmd,
    }
}

} // verus!
