//! Per-device cache of the last commanded value of each feature, used to
//! send only what changed.
//!
//! Each feature class (vibration, rotation, linear movement) holds one entry
//! per hardware feature: `None` until the feature is first commanded, then
//! the last quantized value. An update reports, per feature, the new value
//! where it differs from the cached one and `None` elsewhere.
use vstd::prelude::*;

use crate::message_types::ButtplugCurrentSpecDeviceMessageType;
use crate::messages::{
    in_command_range, ButtplugMessageError, DeviceMessageAttributes, DeviceMessageAttributesMap, LinearCmd, RotateCmd,
    RotationSubcommand, VectorSubcommand, VibrateCmd, VibrateSubcommand, VALUE_SCALE,
};
use crate::unions::ButtplugDeviceCommandMessageUnion;

verus! {

/// A command value in `[0.0, 1.0]` brought to a feature's resolution: the
/// value times the step count, rounded down.
pub open spec fn quantize(value: i64, steps: u32) -> u32 {
    ((value as int * steps as int) / (VALUE_SCALE as int)) as u32
}

pub fn quantize_value(value: i64, steps: u32) -> (r: u32)
    requires
        in_command_range(value),
    ensures
        r == quantize(value, steps),
        r <= steps,
{
    let v = value as u64;
    let s = steps as u64;
    proof {
        let vi = v as int;
        let si = s as int;
        assert(vi * si <= 1_000_000_000 * 0xffff_ffff) by (nonlinear_arith)
            requires
                0 <= vi <= 1_000_000_000,
                0 <= si <= 0xffff_ffff,
        ;
        assert(vi * si / 1_000_000_000 <= si) by (nonlinear_arith)
            requires
                0 <= vi <= 1_000_000_000,
                0 <= si,
        ;
    }
    (v * s / (VALUE_SCALE as u64)) as u32
}

/// The value that a list of `(feature, value)` targets gives to feature `i`,
/// if it names `i`.
pub open spec fn target_of<T>(targets: Seq<(u32, T)>, i: int) -> Option<T>
    decreases targets.len(),
{
    if targets.len() == 0 {
        None
    } else if targets.last().0 == i {
        Some(targets.last().1)
    } else {
        target_of(targets.drop_last(), i)
    }
}

/// Every target names an existing feature, and no feature twice.
pub open spec fn targets_valid<T>(targets: Seq<(u32, T)>, count: nat) -> bool {
    &&& forall|k: int| 0 <= k < targets.len() ==> (#[trigger] targets[k]).0 < count
    &&& forall|k: int, l: int|
        0 <= k < l < targets.len() ==> (#[trigger] targets[k]).0 != (#[trigger] targets[l]).0
}

/// The cache after the targets are applied.
pub open spec fn commanded_after<T>(state: Seq<Option<T>>, targets: Seq<(u32, T)>) -> Seq<Option<T>> {
    Seq::new(
        state.len(),
        |i: int|
            match target_of(targets, i) {
                Some(v) => Some(v),
                None => state[i],
            },
    )
}

/// Per feature, the targeted value where it differs from the cache.
pub open spec fn changes<T>(state: Seq<Option<T>>, targets: Seq<(u32, T)>) -> Seq<Option<T>> {
    Seq::new(
        state.len(),
        |i: int|
            match target_of(targets, i) {
                Some(v) => if state[i] == Some(v) {
                    None
                } else {
                    Some(v)
                },
                None => None,
            },
    )
}

pub open spec fn all_none<T>(s: Seq<Option<T>>) -> bool {
    forall|i: int| 0 <= i < s.len() ==> (#[trigger] s[i]).is_none()
}

/// What an update returns for the given changes: nothing at all where
/// nothing changed and the caller asked for that, else the changes.
pub open spec fn update_result<T>(d: Seq<Option<T>>, sent_all_once: bool) -> Option<Seq<Option<T>>> {
    if sent_all_once && all_none(d) {
        None
    } else {
        Some(d)
    }
}

proof fn lemma_target_of_prefix<T>(targets: Seq<(u32, T)>, k: int, i: int)
    requires
        0 <= k < targets.len(),
    ensures
        target_of(targets.take(k + 1), i) == if targets[k].0 == i {
            Some(targets[k].1)
        } else {
            target_of(targets.take(k), i)
        },
{
    assert(targets.take(k + 1).drop_last() =~= targets.take(k));
}

proof fn lemma_target_of_absent<T>(targets: Seq<(u32, T)>, i: int)
    requires
        forall|k: int| 0 <= k < targets.len() ==> (#[trigger] targets[k]).0 != i,
    ensures
        target_of(targets, i).is_none(),
    decreases targets.len(),
{
    if targets.len() > 0 {
        lemma_target_of_absent(targets.drop_last(), i);
    }
}

proof fn lemma_unique_not_yet_targeted<T>(targets: Seq<(u32, T)>, count: nat, k: int)
    requires
        targets_valid(targets, count),
        0 <= k < targets.len(),
    ensures
        target_of(targets.take(k), targets[k].0 as int).is_none(),
{
    let p = targets.take(k);
    assert forall|j: int| 0 <= j < p.len() implies (#[trigger] p[j]).0 != targets[k].0 by {
        assert(targets[j].0 != targets[k].0);
    }
    lemma_target_of_absent(p, targets[k].0 as int);
}

/// Vibration targets of a command: each addressed motor with its quantized speed.
pub open spec fn vibrate_targets(speeds: Seq<VibrateSubcommand>, steps: Seq<u32>) -> Seq<(u32, u32)> {
    speeds.map_values(|s: VibrateSubcommand| (s.index, quantize(s.speed, steps[s.index as int])))
}

/// A vibrate command is accepted when every motor exists, every speed lies
/// in `[0.0, 1.0]` and no motor is addressed twice.
pub open spec fn vibrate_valid(speeds: Seq<VibrateSubcommand>, count: nat) -> bool {
    &&& forall|k: int| 0 <= k < speeds.len() ==> (#[trigger] speeds[k]).index < count
    &&& forall|k: int| 0 <= k < speeds.len() ==> in_command_range((#[trigger] speeds[k]).speed)
    &&& forall|k: int, l: int|
        0 <= k < l < speeds.len() ==> (#[trigger] speeds[k]).index != (#[trigger] speeds[l]).index
}

/// Rotation targets: each addressed feature with its quantized speed and direction.
pub open spec fn rotate_targets(rotations: Seq<RotationSubcommand>, steps: Seq<u32>) -> Seq<(u32, (u32, bool))> {
    rotations.map_values(
        |s: RotationSubcommand| (s.index, (quantize(s.speed, steps[s.index as int]), s.clockwise)),
    )
}

pub open spec fn rotate_valid(rotations: Seq<RotationSubcommand>, count: nat) -> bool {
    &&& forall|k: int| 0 <= k < rotations.len() ==> (#[trigger] rotations[k]).index < count
    &&& forall|k: int| 0 <= k < rotations.len() ==> in_command_range((#[trigger] rotations[k]).speed)
    &&& forall|k: int, l: int|
        0 <= k < l < rotations.len() ==> (#[trigger] rotations[k]).index != (#[trigger] rotations[l]).index
}

/// Linear targets: each addressed axis with its duration and quantized position.
pub open spec fn linear_targets(vectors: Seq<VectorSubcommand>, steps: Seq<u32>) -> Seq<(u32, (u32, u32))> {
    vectors.map_values(
        |s: VectorSubcommand| (s.index, (s.duration, quantize(s.position, steps[s.index as int]))),
    )
}

pub open spec fn linear_valid(vectors: Seq<VectorSubcommand>, count: nat) -> bool {
    &&& forall|k: int| 0 <= k < vectors.len() ==> (#[trigger] vectors[k]).index < count
    &&& forall|k: int| 0 <= k < vectors.len() ==> in_command_range((#[trigger] vectors[k]).position)
    &&& forall|k: int, l: int|
        0 <= k < l < vectors.len() ==> (#[trigger] vectors[k]).index != (#[trigger] vectors[l]).index
}

fn none_vec<T>(n: usize) -> (r: Vec<Option<T>>)
    ensures
        r@.len() == n,
        all_none(r@),
{
    let mut r: Vec<Option<T>> = Vec::new();
    let mut i: usize = 0;
    while i < n
        invariant
            i <= n,
            r@.len() == i,
            all_none(r@),
        decreases n - i,
    {
        r.push(None);
        i = i + 1;
    }
    r
}

fn copy_steps(v: &Vec<u32>) -> (r: Vec<u32>)
    ensures
        r@ == v@,
{
    let mut r: Vec<u32> = Vec::new();
    let mut i: usize = 0;
    while i < v.len()
        invariant
            i <= v@.len(),
            r@ == v@.take(i as int),
        decreases v@.len() - i,
    {
        r.push(v[i]);
        proof {
            assert(v@.take(i + 1) =~= v@.take(i as int).push(v@[i as int]));
        }
        i = i + 1;
    }
    proof {
        assert(v@.take(i as int) =~= v@);
    }
    r
}

/// The attributes a device lists for one message kind, if any.
pub open spec fn attrs_entry(attrs: DeviceMessageAttributesMap, t: ButtplugCurrentSpecDeviceMessageType) -> Option<
    DeviceMessageAttributes,
> {
    if attrs.has(t) {
        let i = choose|i: int| 0 <= i < attrs@.len() && (#[trigger] attrs@[i]).0 == t;
        Some(attrs@[i].1)
    } else {
        None
    }
}

/// The number of features a device has for one message kind (0 if none).
pub open spec fn feature_count_of(attrs: DeviceMessageAttributesMap, t: ButtplugCurrentSpecDeviceMessageType) -> nat {
    match attrs_entry(attrs, t) {
        Some(a) => match a.feature_count {
            Some(n) => n as nat,
            None => 0,
        },
        None => 0,
    }
}

/// The step counts a device lists for one message kind, one per feature.
pub open spec fn step_counts_of(attrs: DeviceMessageAttributesMap, t: ButtplugCurrentSpecDeviceMessageType) -> Seq<u32> {
    match attrs_entry(attrs, t) {
        Some(a) => match a.step_count {
            Some(v) => v@,
            None => Seq::empty(),
        },
        None => Seq::empty(),
    }
}

fn attrs_lookup(attrs: &DeviceMessageAttributesMap, t: ButtplugCurrentSpecDeviceMessageType) -> (r: Option<
    &DeviceMessageAttributes,
>)
    requires
        attrs.wf(),
    ensures
        r.is_some() == attrs_entry(*attrs, t).is_some(),
        r.is_some() ==> *r.unwrap() == attrs_entry(*attrs, t).unwrap(),
{
    let r = attrs.get(t);
    proof {
        if r.is_some() {
            let i = choose|i: int| 0 <= i < attrs@.len() && (#[trigger] attrs@[i]).0 == t;
            let j = choose|j: int| 0 <= j < attrs@.len() && attrs@[j] == (t, *r.unwrap());
            if i != j {
                if i < j {
                    assert(attrs@[i].0.rank() < attrs@[j].0.rank());
                } else {
                    assert(attrs@[j].0.rank() < attrs@[i].0.rank());
                }
            }
        }
    }
    r
}

fn step_counts(attrs: &DeviceMessageAttributesMap, t: ButtplugCurrentSpecDeviceMessageType) -> (r: Vec<u32>)
    requires
        attrs.wf(),
    ensures
        r@ == step_counts_of(*attrs, t),
{
    match attrs_lookup(attrs, t) {
        Some(a) => match &a.step_count {
            Some(v) => copy_steps(v),
            None => Vec::new(),
        },
        None => Vec::new(),
    }
}

/// Every feature of the kind has its step count: the list has exactly
/// feature-count entries.
pub open spec fn class_consistent(attrs: DeviceMessageAttributesMap, t: ButtplugCurrentSpecDeviceMessageType) -> bool {
    step_counts_of(attrs, t).len() == feature_count_of(attrs, t)
}

/// Vibration, rotation and linear attributes list one step count per feature.
pub open spec fn feature_counts_fit(attrs: DeviceMessageAttributesMap) -> bool {
    &&& class_consistent(attrs, ButtplugCurrentSpecDeviceMessageType::VibrateCmd)
    &&& class_consistent(attrs, ButtplugCurrentSpecDeviceMessageType::RotateCmd)
    &&& class_consistent(attrs, ButtplugCurrentSpecDeviceMessageType::LinearCmd)
}

fn check_class(attrs: &DeviceMessageAttributesMap, t: ButtplugCurrentSpecDeviceMessageType) -> (r: bool)
    requires
        attrs.wf(),
    ensures
        r == class_consistent(*attrs, t),
{
    match attrs_lookup(attrs, t) {
        Some(a) => {
            let n: usize = match a.feature_count {
                Some(n) => n as usize,
                None => 0,
            };
            let len: usize = match &a.step_count {
                Some(v) => v.len(),
                None => 0,
            };
            len == n
        },
        None => true,
    }
}

/// Checks `feature_counts_fit`.
pub fn check_feature_counts(attrs: &DeviceMessageAttributesMap) -> (r: bool)
    requires
        attrs.wf(),
    ensures
        r == feature_counts_fit(*attrs),
{
    check_class(attrs, ButtplugCurrentSpecDeviceMessageType::VibrateCmd)
        && check_class(attrs, ButtplugCurrentSpecDeviceMessageType::RotateCmd)
        && check_class(attrs, ButtplugCurrentSpecDeviceMessageType::LinearCmd)
}

/// Speed 0 for motors `0..n`.
pub open spec fn zero_vibrations(n: nat) -> Seq<VibrateSubcommand> {
    Seq::new(n, |i: int| VibrateSubcommand { index: i as u32, speed: 0 })
}

/// Speed 0, counter-clockwise, for features `0..n`.
pub open spec fn zero_rotations(n: nat) -> Seq<RotationSubcommand> {
    Seq::new(n, |i: int| RotationSubcommand { index: i as u32, speed: 0, clockwise: false })
}

/// `m` stops all `n` motors of device 0.
pub open spec fn is_vibrate_stop(m: ButtplugDeviceCommandMessageUnion, n: nat) -> bool {
    match m {
        ButtplugDeviceCommandMessageUnion::VibrateCmd(c) => c.device_index == 0 && c.speeds@
            == zero_vibrations(n),
        _ => false,
    }
}

/// `m` stops all `n` rotating features of device 0.
pub open spec fn is_rotate_stop(m: ButtplugDeviceCommandMessageUnion, n: nat) -> bool {
    match m {
        ButtplugDeviceCommandMessageUnion::RotateCmd(c) => c.device_index == 0 && c.rotations@
            == zero_rotations(n),
        _ => false,
    }
}

/// Applying a command a second time changes nothing: every feature it names
/// already holds the value it asks for.
pub proof fn lemma_repeated_command_changes_nothing<T>(state: Seq<Option<T>>, targets: Seq<(u32, T)>)
    requires
        targets_valid(targets, state.len()),
    ensures
        all_none(changes(commanded_after(state, targets), targets)),
        update_result(changes(commanded_after(state, targets), targets), true) == None::<Seq<Option<T>>>,
{
}

/// Two identical vibrate commands in a row: the second, with
/// `sent_all_once`, yields no writes at all.
pub proof fn lemma_repeated_vibration_is_silent(
    state: Seq<Option<u32>>,
    steps: Seq<u32>,
    speeds: Seq<VibrateSubcommand>,
)
    requires
        vibrate_valid(speeds, state.len()),
    ensures
        update_result(
            changes(commanded_after(state, vibrate_targets(speeds, steps)), vibrate_targets(speeds, steps)),
            true,
        ) == None::<Seq<Option<u32>>>,
{
    lemma_repeated_command_changes_nothing(state, vibrate_targets(speeds, steps));
}

/// The commanded-state cache of one device.
pub struct GenericCommandManager {
    vibrations: Vec<Option<u32>>,
    vibration_step_counts: Vec<u32>,
    rotations: Vec<Option<(u32, bool)>>,
    rotation_step_counts: Vec<u32>,
    linears: Vec<Option<(u32, u32)>>,
    linear_step_counts: Vec<u32>,
}

impl GenericCommandManager {
    pub closed spec fn spec_vibrations(&self) -> Seq<Option<u32>> {
        self.vibrations@
    }

    pub closed spec fn spec_vibration_steps(&self) -> Seq<u32> {
        self.vibration_step_counts@
    }

    pub closed spec fn spec_rotations(&self) -> Seq<Option<(u32, bool)>> {
        self.rotations@
    }

    pub closed spec fn spec_rotation_steps(&self) -> Seq<u32> {
        self.rotation_step_counts@
    }

    pub closed spec fn spec_linears(&self) -> Seq<Option<(u32, u32)>> {
        self.linears@
    }

    pub closed spec fn spec_linear_steps(&self) -> Seq<u32> {
        self.linear_step_counts@
    }

    /// Each cache holds exactly one entry per feature of its class, and
    /// features are numbered by `u32`.
    pub open spec fn wf(&self) -> bool {
        &&& self.spec_vibrations().len() == self.spec_vibration_steps().len()
        &&& self.spec_rotations().len() == self.spec_rotation_steps().len()
        &&& self.spec_linears().len() == self.spec_linear_steps().len()
        &&& self.spec_vibration_steps().len() <= u32::MAX
        &&& self.spec_rotation_steps().len() <= u32::MAX
        &&& self.spec_linear_steps().len() <= u32::MAX
    }

    /// A cache for a device with the given capability attributes; nothing
    /// has been commanded yet.
    pub fn new(attributes: &DeviceMessageAttributesMap) -> (r: GenericCommandManager)
        requires
            attributes.wf(),
            feature_counts_fit(*attributes),
        ensures
            r.wf(),
            r.spec_vibration_steps() == step_counts_of(*attributes, ButtplugCurrentSpecDeviceMessageType::VibrateCmd),
            r.spec_rotation_steps() == step_counts_of(*attributes, ButtplugCurrentSpecDeviceMessageType::RotateCmd),
            r.spec_linear_steps() == step_counts_of(*attributes, ButtplugCurrentSpecDeviceMessageType::LinearCmd),
            r.spec_vibrations().len() == feature_count_of(*attributes, ButtplugCurrentSpecDeviceMessageType::VibrateCmd),
            r.spec_rotations().len() == feature_count_of(*attributes, ButtplugCurrentSpecDeviceMessageType::RotateCmd),
            r.spec_linears().len() == feature_count_of(*attributes, ButtplugCurrentSpecDeviceMessageType::LinearCmd),
            all_none(r.spec_vibrations()),
            all_none(r.spec_rotations()),
            all_none(r.spec_linears()),
    {
        let vibration_step_counts = step_counts(attributes, ButtplugCurrentSpecDeviceMessageType::VibrateCmd);
        let rotation_step_counts = step_counts(attributes, ButtplugCurrentSpecDeviceMessageType::RotateCmd);
        let linear_step_counts = step_counts(attributes, ButtplugCurrentSpecDeviceMessageType::LinearCmd);
        GenericCommandManager {
            vibrations: none_vec(vibration_step_counts.len()),
            vibration_step_counts,
            rotations: none_vec(rotation_step_counts.len()),
            rotation_step_counts,
            linears: none_vec(linear_step_counts.len()),
            linear_step_counts,
        }
    }

    pub fn vibration_feature_count(&self) -> (r: usize)
        ensures
            r == self.spec_vibration_steps().len(),
    {
        self.vibration_step_counts.len()
    }

    pub fn rotation_feature_count(&self) -> (r: usize)
        ensures
            r == self.spec_rotation_steps().len(),
    {
        self.rotation_step_counts.len()
    }

    pub fn linear_feature_count(&self) -> (r: usize)
        ensures
            r == self.spec_linear_steps().len(),
    {
        self.linear_step_counts.len()
    }

    /// The commands that bring every vibrating and rotating feature to
    /// rest, addressed to device 0: a vibrate command if the device has
    /// motors, then a rotate command if it has rotating features.
    pub fn get_stop_commands(&self) -> (r: Vec<ButtplugDeviceCommandMessageUnion>)
        requires
            self.wf(),
        ensures
            r@.len() == (if self.spec_vibrations().len() > 0 { 1int } else { 0int }) + (if self.spec_rotations().len() > 0 { 1int } else { 0int }),
            self.spec_vibrations().len() > 0 ==> is_vibrate_stop(r@[0], self.spec_vibrations().len()),
            self.spec_rotations().len() > 0 ==> is_rotate_stop(r@[r@.len() - 1], self.spec_rotations().len()),
    {
        let mut r: Vec<ButtplugDeviceCommandMessageUnion> = Vec::new();
        let nv = self.vibrations.len();
        if nv > 0 {
            let mut speeds: Vec<VibrateSubcommand> = Vec::new();
            let mut i: usize = 0;
            while i < nv
                invariant
                    i <= nv,
                    nv <= u32::MAX,
                    speeds@ == zero_vibrations(i as nat),
                decreases nv - i,
            {
                speeds.push(VibrateSubcommand { index: i as u32, speed: 0 });
                proof {
                    assert(speeds@ =~= zero_vibrations((i + 1) as nat));
                }
                i = i + 1;
            }
            r.push(ButtplugDeviceCommandMessageUnion::VibrateCmd(VibrateCmd { id: 1, device_index: 0, speeds }));
        }
        let nr = self.rotations.len();
        if nr > 0 {
            let mut rotations: Vec<RotationSubcommand> = Vec::new();
            let mut i: usize = 0;
            while i < nr
                invariant
                    i <= nr,
                    nr <= u32::MAX,
                    rotations@ == zero_rotations(i as nat),
                decreases nr - i,
            {
                rotations.push(RotationSubcommand { index: i as u32, speed: 0, clockwise: false });
                proof {
                    assert(rotations@ =~= zero_rotations((i + 1) as nat));
                }
                i = i + 1;
            }
            r.push(ButtplugDeviceCommandMessageUnion::RotateCmd(RotateCmd { id: 1, device_index: 0, rotations }));
        }
        r
    }

    /// Applies a vibrate command. Fails with `InvalidMessageContents`, and
    /// changes nothing, unless every motor exists, every speed lies in
    /// `[0.0, 1.0]` and no motor is named twice. Otherwise the cache takes
    /// the quantized speeds, and the result lists per motor the new value
    /// where it changed; it is `None` where nothing changed and
    /// `sent_all_once` is set.
    pub fn update_vibration(&mut self, cmd: &VibrateCmd, sent_all_once: bool) -> (r: Result<
        Option<Vec<Option<u32>>>,
        ButtplugMessageError,
    >)
        requires
            old(self).wf(),
        ensures
            final(self).wf(),
            final(self).spec_vibration_steps() == old(self).spec_vibration_steps(),
            final(self).spec_rotations() == old(self).spec_rotations(),
            final(self).spec_rotation_steps() == old(self).spec_rotation_steps(),
            final(self).spec_linears() == old(self).spec_linears(),
            final(self).spec_linear_steps() == old(self).spec_linear_steps(),
            r.is_ok() <==> vibrate_valid(cmd.speeds@, old(self).spec_vibrations().len()),
            r.is_err() ==> r.unwrap_err() is InvalidMessageContents && final(self).spec_vibrations()
                == old(self).spec_vibrations(),
            r.is_ok() ==> {
                let t = vibrate_targets(cmd.speeds@, old(self).spec_vibration_steps());
                &&& final(self).spec_vibrations() == commanded_after(old(self).spec_vibrations(), t)
                &&& match r.unwrap() {
                    Some(v) => update_result(changes(old(self).spec_vibrations(), t), sent_all_once)
                        == Some(v@),
                    None => update_result(changes(old(self).spec_vibrations(), t), sent_all_once)
                        == None::<Seq<Option<u32>>>,
                }
            },
    {
        let n = self.vibrations.len();
        let speeds = &cmd.speeds;
        // Check the whole command before touching the cache.
        let mut seen: Vec<bool> = Vec::new();
        let mut i: usize = 0;
        while i < n
            invariant
                i <= n,
                seen@.len() == i,
                forall|j: int| 0 <= j < i ==> !(#[trigger] seen@[j]),
                *self == *old(self),
                old(self).wf(),
            decreases n - i,
        {
            seen.push(false);
            i = i + 1;
        }
        let mut k: usize = 0;
        while k < speeds.len()
            invariant
                n == self.vibrations@.len(),
                *self == *old(self),
                old(self).wf(),
                seen@.len() == n,
                speeds@ == cmd.speeds@,
                k <= speeds@.len(),
                vibrate_valid(speeds@.take(k as int), n as nat),
                forall|j: int| 0 <= j < n ==> (#[trigger] seen@[j] <==> exists|l: int| 0 <= l < k && speeds@[l].index == j),
            decreases speeds@.len() - k,
        {
            let s = speeds[k];
            if s.index as usize >= n {
                assert(cmd.speeds@[k as int].index >= n);
                return Err(ButtplugMessageError::InvalidMessageContents("Vibrate command names a motor the device does not have.".to_owned()));
            }
            if s.speed < 0 || s.speed > VALUE_SCALE {
                assert(!in_command_range(cmd.speeds@[k as int].speed));
                return Err(ButtplugMessageError::InvalidMessageContents("Vibrate speeds must lie between 0.0 and 1.0.".to_owned()));
            }
            if seen[s.index as usize] {
                proof {
                    let l = choose|l: int| 0 <= l < k && speeds@[l].index == s.index;
                    assert(cmd.speeds@[l].index == cmd.speeds@[k as int].index);
                }
                return Err(ButtplugMessageError::InvalidMessageContents("Vibrate command names a motor twice.".to_owned()));
            }
            seen.set(s.index as usize, true);
            proof {
                assert(speeds@.take(k + 1) =~= speeds@.take(k as int).push(s));
            }
            k = k + 1;
        }
        proof {
            assert(speeds@.take(k as int) =~= speeds@);
        }
        let ghost old_state = self.vibrations@;
        let ghost steps = self.vibration_step_counts@;
        let ghost targets = vibrate_targets(speeds@, steps);
        assert(targets_valid(targets, n as nat));
        let mut result: Vec<Option<u32>> = none_vec(n);
        let mut k: usize = 0;
        while k < speeds.len()
            invariant
                n == self.vibrations@.len(),
                n == self.vibration_step_counts@.len(),
                old(self).wf(),
                steps == self.vibration_step_counts@,
                vibrate_valid(speeds@, n as nat),
                speeds@ == cmd.speeds@,
                targets == vibrate_targets(speeds@, steps),
                targets_valid(targets, n as nat),
                old_state.len() == n,
                k <= speeds@.len(),
                result@.len() == n,
                self.vibrations@ == commanded_after(old_state, targets.take(k as int)),
                result@ == changes(old_state, targets.take(k as int)),
                self.rotations == old(self).rotations,
                self.rotation_step_counts == old(self).rotation_step_counts,
                self.linears == old(self).linears,
                self.linear_step_counts == old(self).linear_step_counts,
            decreases speeds@.len() - k,
        {
            let s = speeds[k];
            let idx = s.index as usize;
            let q = quantize_value(s.speed, self.vibration_step_counts[idx]);
            proof {
                assert(targets[k as int] == (s.index, q));
                lemma_unique_not_yet_targeted(targets, n as nat, k as int);
                assert forall|i: int| 0 <= i < n implies target_of(targets.take(k + 1), i) == if i == idx {
                    Some(q)
                } else {
                    target_of(targets.take(k as int), i)
                } by {
                    lemma_target_of_prefix(targets, k as int, i);
                }
            }
            let differs = match self.vibrations[idx] {
                Some(x) => x != q,
                None => true,
            };
            if differs {
                result.set(idx, Some(q));
                self.vibrations.set(idx, Some(q));
            }
            proof {
                assert(self.vibrations@ =~= commanded_after(old_state, targets.take(k + 1)));
                assert(result@ =~= changes(old_state, targets.take(k + 1)));
            }
            k = k + 1;
        }
        proof {
            assert(targets.take(k as int) =~= targets);
        }
        if sent_all_once && all_unset(&result) {
            Ok(None)
        } else {
            Ok(Some(result))
        }
    }

    /// Applies a rotate command, as `update_vibration` does: the cached value
    /// of a feature is its quantized speed with its direction.
    pub fn update_rotation(&mut self, cmd: &RotateCmd, sent_all_once: bool) -> (r: Result<
        Option<Vec<Option<(u32, bool)>>>,
        ButtplugMessageError,
    >)
        requires
            old(self).wf(),
        ensures
            final(self).wf(),
            final(self).spec_rotation_steps() == old(self).spec_rotation_steps(),
            final(self).spec_vibrations() == old(self).spec_vibrations(),
            final(self).spec_vibration_steps() == old(self).spec_vibration_steps(),
            final(self).spec_linears() == old(self).spec_linears(),
            final(self).spec_linear_steps() == old(self).spec_linear_steps(),
            r.is_ok() <==> rotate_valid(cmd.rotations@, old(self).spec_rotations().len()),
            r.is_err() ==> r.unwrap_err() is InvalidMessageContents && final(self).spec_rotations()
                == old(self).spec_rotations(),
            r.is_ok() ==> {
                let t = rotate_targets(cmd.rotations@, old(self).spec_rotation_steps());
                &&& final(self).spec_rotations() == commanded_after(old(self).spec_rotations(), t)
                &&& match r.unwrap() {
                    Some(v) => update_result(changes(old(self).spec_rotations(), t), sent_all_once)
                        == Some(v@),
                    None => update_result(changes(old(self).spec_rotations(), t), sent_all_once)
                        == None::<Seq<Option<(u32, bool)>>>,
                }
            },
    {
        let n = self.rotations.len();
        let subs = &cmd.rotations;
        // Check the whole command before touching the cache.
        let mut seen: Vec<bool> = Vec::new();
        let mut i: usize = 0;
        while i < n
            invariant
                i <= n,
                seen@.len() == i,
                forall|j: int| 0 <= j < i ==> !(#[trigger] seen@[j]),
                *self == *old(self),
                old(self).wf(),
            decreases n - i,
        {
            seen.push(false);
            i = i + 1;
        }
        let mut k: usize = 0;
        while k < subs.len()
            invariant
                n == self.rotations@.len(),
                *self == *old(self),
                old(self).wf(),
                seen@.len() == n,
                subs@ == cmd.rotations@,
                k <= subs@.len(),
                rotate_valid(subs@.take(k as int), n as nat),
                forall|j: int| 0 <= j < n ==> (#[trigger] seen@[j] <==> exists|l: int| 0 <= l < k && subs@[l].index == j),
            decreases subs@.len() - k,
        {
            let s = subs[k];
            if s.index as usize >= n {
                assert(cmd.rotations@[k as int].index >= n);
                return Err(ButtplugMessageError::InvalidMessageContents("Rotate command names a feature the device does not have.".to_owned()));
            }
            if s.speed < 0 || s.speed > VALUE_SCALE {
                assert(!in_command_range(cmd.rotations@[k as int].speed));
                return Err(ButtplugMessageError::InvalidMessageContents("Rotate speeds must lie between 0.0 and 1.0.".to_owned()));
            }
            if seen[s.index as usize] {
                proof {
                    let l = choose|l: int| 0 <= l < k && subs@[l].index == s.index;
                    assert(cmd.rotations@[l].index == cmd.rotations@[k as int].index);
                }
                return Err(ButtplugMessageError::InvalidMessageContents("Rotate command names a feature twice.".to_owned()));
            }
            seen.set(s.index as usize, true);
            proof {
                assert(subs@.take(k + 1) =~= subs@.take(k as int).push(s));
            }
            k = k + 1;
        }
        proof {
            assert(subs@.take(k as int) =~= subs@);
        }
        let ghost old_state = self.rotations@;
        let ghost steps = self.rotation_step_counts@;
        let ghost targets = rotate_targets(subs@, steps);
        assert(targets_valid(targets, n as nat));
        let mut result: Vec<Option<(u32, bool)>> = none_vec(n);
        let mut k: usize = 0;
        while k < subs.len()
            invariant
                n == self.rotations@.len(),
                n == self.rotation_step_counts@.len(),
                old(self).wf(),
                steps == self.rotation_step_counts@,
                rotate_valid(subs@, n as nat),
                subs@ == cmd.rotations@,
                targets == rotate_targets(subs@, steps),
                targets_valid(targets, n as nat),
                old_state.len() == n,
                k <= subs@.len(),
                result@.len() == n,
                self.rotations@ == commanded_after(old_state, targets.take(k as int)),
                result@ == changes(old_state, targets.take(k as int)),
                self.vibrations == old(self).vibrations,
                self.vibration_step_counts == old(self).vibration_step_counts,
                self.linears == old(self).linears,
                self.linear_step_counts == old(self).linear_step_counts,
            decreases subs@.len() - k,
        {
            let s = subs[k];
            let idx = s.index as usize;
            let v = (quantize_value(s.speed, self.rotation_step_counts[idx]), s.clockwise);
            proof {
                assert(targets[k as int] == (s.index, v));
                lemma_unique_not_yet_targeted(targets, n as nat, k as int);
                assert forall|i: int| 0 <= i < n implies target_of(targets.take(k + 1), i) == if i == idx {
                    Some(v)
                } else {
                    target_of(targets.take(k as int), i)
                } by {
                    lemma_target_of_prefix(targets, k as int, i);
                }
            }
            let differs = match self.rotations[idx] {
                Some(x) => x.0 != v.0 || x.1 != v.1,
                None => true,
            };
            if differs {
                result.set(idx, Some(v));
                self.rotations.set(idx, Some(v));
            }
            proof {
                assert(self.rotations@ =~= commanded_after(old_state, targets.take(k + 1)));
                assert(result@ =~= changes(old_state, targets.take(k + 1)));
            }
            k = k + 1;
        }
        proof {
            assert(targets.take(k as int) =~= targets);
        }
        if sent_all_once && all_unset(&result) {
            Ok(None)
        } else {
            Ok(Some(result))
        }
    }

    /// Applies a linear command, as `update_vibration` does: the cached value
    /// of an axis is its duration with its quantized position.
    pub fn update_linear(&mut self, cmd: &LinearCmd, sent_all_once: bool) -> (r: Result<
        Option<Vec<Option<(u32, u32)>>>,
        ButtplugMessageError,
    >)
        requires
            old(self).wf(),
        ensures
            final(self).wf(),
            final(self).spec_linear_steps() == old(self).spec_linear_steps(),
            final(self).spec_rotations() == old(self).spec_rotations(),
            final(self).spec_rotation_steps() == old(self).spec_rotation_steps(),
            final(self).spec_vibrations() == old(self).spec_vibrations(),
            final(self).spec_vibration_steps() == old(self).spec_vibration_steps(),
            r.is_ok() <==> linear_valid(cmd.vectors@, old(self).spec_linears().len()),
            r.is_err() ==> r.unwrap_err() is InvalidMessageContents && final(self).spec_linears()
                == old(self).spec_linears(),
            r.is_ok() ==> {
                let t = linear_targets(cmd.vectors@, old(self).spec_linear_steps());
                &&& final(self).spec_linears() == commanded_after(old(self).spec_linears(), t)
                &&& match r.unwrap() {
                    Some(v) => update_result(changes(old(self).spec_linears(), t), sent_all_once)
                        == Some(v@),
                    None => update_result(changes(old(self).spec_linears(), t), sent_all_once)
                        == None::<Seq<Option<(u32, u32)>>>,
                }
            },
    {
        let n = self.linears.len();
        let subs = &cmd.vectors;
        // Check the whole command before touching the cache.
        let mut seen: Vec<bool> = Vec::new();
        let mut i: usize = 0;
        while i < n
            invariant
                i <= n,
                seen@.len() == i,
                forall|j: int| 0 <= j < i ==> !(#[trigger] seen@[j]),
                *self == *old(self),
                old(self).wf(),
            decreases n - i,
        {
            seen.push(false);
            i = i + 1;
        }
        let mut k: usize = 0;
        while k < subs.len()
            invariant
                n == self.linears@.len(),
                *self == *old(self),
                old(self).wf(),
                seen@.len() == n,
                subs@ == cmd.vectors@,
                k <= subs@.len(),
                linear_valid(subs@.take(k as int), n as nat),
                forall|j: int| 0 <= j < n ==> (#[trigger] seen@[j] <==> exists|l: int| 0 <= l < k && subs@[l].index == j),
            decreases subs@.len() - k,
        {
            let s = subs[k];
            if s.index as usize >= n {
                assert(cmd.vectors@[k as int].index >= n);
                return Err(ButtplugMessageError::InvalidMessageContents("Linear command names an axis the device does not have.".to_owned()));
            }
            if s.position < 0 || s.position > VALUE_SCALE {
                assert(!in_command_range(cmd.vectors@[k as int].position));
                return Err(ButtplugMessageError::InvalidMessageContents("Linear positions must lie between 0.0 and 1.0.".to_owned()));
            }
            if seen[s.index as usize] {
                proof {
                    let l = choose|l: int| 0 <= l < k && subs@[l].index == s.index;
                    assert(cmd.vectors@[l].index == cmd.vectors@[k as int].index);
                }
                return Err(ButtplugMessageError::InvalidMessageContents("Linear command names an axis twice.".to_owned()));
            }
            seen.set(s.index as usize, true);
            proof {
                assert(subs@.take(k + 1) =~= subs@.take(k as int).push(s));
            }
            k = k + 1;
        }
        proof {
            assert(subs@.take(k as int) =~= subs@);
        }
        let ghost old_state = self.linears@;
        let ghost steps = self.linear_step_counts@;
        let ghost targets = linear_targets(subs@, steps);
        assert(targets_valid(targets, n as nat));
        let mut result: Vec<Option<(u32, u32)>> = none_vec(n);
        let mut k: usize = 0;
        while k < subs.len()
            invariant
                n == self.linears@.len(),
                n == self.linear_step_counts@.len(),
                old(self).wf(),
                steps == self.linear_step_counts@,
                linear_valid(subs@, n as nat),
                subs@ == cmd.vectors@,
                targets == linear_targets(subs@, steps),
                targets_valid(targets, n as nat),
                old_state.len() == n,
                k <= subs@.len(),
                result@.len() == n,
                self.linears@ == commanded_after(old_state, targets.take(k as int)),
                result@ == changes(old_state, targets.take(k as int)),
                self.rotations == old(self).rotations,
                self.rotation_step_counts == old(self).rotation_step_counts,
                self.vibrations == old(self).vibrations,
                self.vibration_step_counts == old(self).vibration_step_counts,
            decreases subs@.len() - k,
        {
            let s = subs[k];
            let idx = s.index as usize;
            let v = (s.duration, quantize_value(s.position, self.linear_step_counts[idx]));
            proof {
                assert(targets[k as int] == (s.index, v));
                lemma_unique_not_yet_targeted(targets, n as nat, k as int);
                assert forall|i: int| 0 <= i < n implies target_of(targets.take(k + 1), i) == if i == idx {
                    Some(v)
                } else {
                    target_of(targets.take(k as int), i)
                } by {
                    lemma_target_of_prefix(targets, k as int, i);
                }
            }
            let differs = match self.linears[idx] {
                Some(x) => x.0 != v.0 || x.1 != v.1,
                None => true,
            };
            if differs {
                result.set(idx, Some(v));
                self.linears.set(idx, Some(v));
            }
            proof {
                assert(self.linears@ =~= commanded_after(old_state, targets.take(k + 1)));
                assert(result@ =~= changes(old_state, targets.take(k + 1)));
            }
            k = k + 1;
        }
        proof {
            assert(targets.take(k as int) =~= targets);
        }
        if sent_all_once && all_unset(&result) {
            Ok(None)
        } else {
            Ok(Some(result))
        }
    }
}

fn all_unset<T>(v: &Vec<Option<T>>) -> (r: bool)
    ensures
        r == all_none(v@),
{
    let mut i: usize = 0;
    while i < v.len()
        invariant
            i <= v@.len(),
            forall|j: int| 0 <= j < i ==> (#[trigger] v@[j]).is_none(),
        decreases v@.len() - i,
    {
        if v[i].is_some() {
            return false;
        }
        i = i + 1;
    }
    true
}

} // verus!
