//! Capability tags for device messages, and the protocol spec version.
//!
//! The tags are ordered by the lexicographic order of their names, so that
//! attribute maps keyed by them always come out in the same order.
use vstd::prelude::*;

verus! {

/// Versions of the message protocol, ordered oldest first.
#[derive(Debug, Clone, Copy, PartialEq, Eq, Structural, PartialOrd, Ord, Hash)]
pub enum ButtplugMessageSpecVersion {
    Version0,
    Version1,
    Version2,
}

/// The newest protocol version this library speaks.
pub const BUTTPLUG_CURRENT_MESSAGE_SPEC_VERSION: ButtplugMessageSpecVersion =
    ButtplugMessageSpecVersion::Version2;

impl ButtplugMessageSpecVersion {
    pub open spec fn rank(self) -> nat {
        match self {
            ButtplugMessageSpecVersion::Version0 => 0,
            ButtplugMessageSpecVersion::Version1 => 1,
            ButtplugMessageSpecVersion::Version2 => 2,
        }
    }

    /// The version number as it appears on the wire.
    pub fn as_u32(&self) -> (r: u32)
        ensures
            r as nat == self.rank(),
    {
        match self {
            ButtplugMessageSpecVersion::Version0 => 0,
            ButtplugMessageSpecVersion::Version1 => 1,
            ButtplugMessageSpecVersion::Version2 => 2,
        }
    }

    /// Reads a wire version number; numbers above the newest version are refused.
    pub fn from_u32(v: u32) -> (r: Option<ButtplugMessageSpecVersion>)
        ensures
            v <= 2 <==> r.is_some(),
            r.is_some() ==> r.unwrap().rank() == v as nat,
    {
        if v == 0 {
            Some(ButtplugMessageSpecVersion::Version0)
        } else if v == 1 {
            Some(ButtplugMessageSpecVersion::Version1)
        } else if v == 2 {
            Some(ButtplugMessageSpecVersion::Version2)
        } else {
            None
        }
    }
}

/// Strict lexicographic order on character sequences, as `str` orders them.
pub open spec fn lex_less(a: Seq<char>, b: Seq<char>) -> bool
    decreases a.len(),
{
    if a.len() == 0 {
        b.len() > 0
    } else if b.len() == 0 {
        false
    } else if a[0] != b[0] {
        (a[0] as u32) < (b[0] as u32)
    } else {
        lex_less(a.drop_first(), b.drop_first())
    }
}

pub proof fn lemma_lex_less_irreflexive(a: Seq<char>)
    ensures
        !lex_less(a, a),
    decreases a.len(),
{
    if a.len() > 0 {
        lemma_lex_less_irreflexive(a.drop_first());
    }
}

pub proof fn lemma_lex_less_asymmetric(a: Seq<char>, b: Seq<char>)
    requires
        lex_less(a, b),
    ensures
        !lex_less(b, a),
    decreases a.len(),
{
    if a.len() > 0 && b.len() > 0 && a[0] == b[0] {
        lemma_lex_less_asymmetric(a.drop_first(), b.drop_first());
    }
}

pub proof fn lemma_lex_less_transitive(a: Seq<char>, b: Seq<char>, c: Seq<char>)
    requires
        lex_less(a, b),
        lex_less(b, c),
    ensures
        lex_less(a, c),
    decreases a.len(),
{
    if a.len() > 0 && b.len() > 0 && c.len() > 0 && a[0] == b[0] && b[0] == c[0] {
        lemma_lex_less_transitive(a.drop_first(), b.drop_first(), c.drop_first());
    }
}

/// Every message a device can be asked to handle, as advertised in its
/// capability attributes. Variants are declared in the lexicographic order
/// of their names.
#[derive(Debug, Clone, Copy, PartialEq, Eq, Structural, PartialOrd, Ord, Hash)]
pub enum ButtplugDeviceMessageType {
    BatteryLevelCmd,
    FleshlightLaunchFW12Cmd,
    KiirooCmd,
    LinearCmd,
    LovenseCmd,
    RSSILevelCmd,
    RawReadCmd,
    RawSubscribeCmd,
    RawUnsubscribeCmd,
    RawWriteCmd,
    RotateCmd,
    SingleMotorVibrateCmd,
    StopDeviceCmd,
    VibrateCmd,
    VorzeA10CycloneCmd,
}

/// The device messages that exist in the newest protocol version. Variants
/// are declared in the lexicographic order of their names.
#[derive(Debug, Clone, Copy, PartialEq, Eq, Structural, PartialOrd, Ord, Hash)]
pub enum ButtplugCurrentSpecDeviceMessageType {
    BatteryLevelCmd,
    LinearCmd,
    RSSILevelCmd,
    RawReadCmd,
    RawSubscribeCmd,
    RawUnsubscribeCmd,
    RawWriteCmd,
    RotateCmd,
    StopDeviceCmd,
    VibrateCmd,
}

impl ButtplugDeviceMessageType {
    pub open spec fn spec_name(self) -> Seq<char> {
        match self {
            ButtplugDeviceMessageType::BatteryLevelCmd => "BatteryLevelCmd"@,
            ButtplugDeviceMessageType::FleshlightLaunchFW12Cmd => "FleshlightLaunchFW12Cmd"@,
            ButtplugDeviceMessageType::KiirooCmd => "KiirooCmd"@,
            ButtplugDeviceMessageType::LinearCmd => "LinearCmd"@,
            ButtplugDeviceMessageType::LovenseCmd => "LovenseCmd"@,
            ButtplugDeviceMessageType::RSSILevelCmd => "RSSILevelCmd"@,
            ButtplugDeviceMessageType::RawReadCmd => "RawReadCmd"@,
            ButtplugDeviceMessageType::RawSubscribeCmd => "RawSubscribeCmd"@,
            ButtplugDeviceMessageType::RawUnsubscribeCmd => "RawUnsubscribeCmd"@,
            ButtplugDeviceMessageType::RawWriteCmd => "RawWriteCmd"@,
            ButtplugDeviceMessageType::RotateCmd => "RotateCmd"@,
            ButtplugDeviceMessageType::SingleMotorVibrateCmd => "SingleMotorVibrateCmd"@,
            ButtplugDeviceMessageType::StopDeviceCmd => "StopDeviceCmd"@,
            ButtplugDeviceMessageType::VibrateCmd => "VibrateCmd"@,
            ButtplugDeviceMessageType::VorzeA10CycloneCmd => "VorzeA10CycloneCmd"@,
        }
    }

    /// Position in declaration order, which is the order of the names.
    pub open spec fn rank(self) -> nat {
        match self {
            ButtplugDeviceMessageType::BatteryLevelCmd => 0,
            ButtplugDeviceMessageType::FleshlightLaunchFW12Cmd => 1,
            ButtplugDeviceMessageType::KiirooCmd => 2,
            ButtplugDeviceMessageType::LinearCmd => 3,
            ButtplugDeviceMessageType::LovenseCmd => 4,
            ButtplugDeviceMessageType::RSSILevelCmd => 5,
            ButtplugDeviceMessageType::RawReadCmd => 6,
            ButtplugDeviceMessageType::RawSubscribeCmd => 7,
            ButtplugDeviceMessageType::RawUnsubscribeCmd => 8,
            ButtplugDeviceMessageType::RawWriteCmd => 9,
            ButtplugDeviceMessageType::RotateCmd => 10,
            ButtplugDeviceMessageType::SingleMotorVibrateCmd => 11,
            ButtplugDeviceMessageType::StopDeviceCmd => 12,
            ButtplugDeviceMessageType::VibrateCmd => 13,
            ButtplugDeviceMessageType::VorzeA10CycloneCmd => 14,
        }
    }

    pub open spec fn of_rank(r: nat) -> ButtplugDeviceMessageType {
        if r == 0 {
            ButtplugDeviceMessageType::BatteryLevelCmd
        } else if r == 1 {
            ButtplugDeviceMessageType::FleshlightLaunchFW12Cmd
        } else if r == 2 {
            ButtplugDeviceMessageType::KiirooCmd
        } else if r == 3 {
            ButtplugDeviceMessageType::LinearCmd
        } else if r == 4 {
            ButtplugDeviceMessageType::LovenseCmd
        } else if r == 5 {
            ButtplugDeviceMessageType::RSSILevelCmd
        } else if r == 6 {
            ButtplugDeviceMessageType::RawReadCmd
        } else if r == 7 {
            ButtplugDeviceMessageType::RawSubscribeCmd
        } else if r == 8 {
            ButtplugDeviceMessageType::RawUnsubscribeCmd
        } else if r == 9 {
            ButtplugDeviceMessageType::RawWriteCmd
        } else if r == 10 {
            ButtplugDeviceMessageType::RotateCmd
        } else if r == 11 {
            ButtplugDeviceMessageType::SingleMotorVibrateCmd
        } else if r == 12 {
            ButtplugDeviceMessageType::StopDeviceCmd
        } else if r == 13 {
            ButtplugDeviceMessageType::VibrateCmd
        } else {
            ButtplugDeviceMessageType::VorzeA10CycloneCmd
        }
    }

    /// The name under which the tag is serialized.
    pub fn name(&self) -> (r: &'static str)
        ensures
            r@ == self.spec_name(),
    {
        match self {
            ButtplugDeviceMessageType::BatteryLevelCmd => "BatteryLevelCmd",
            ButtplugDeviceMessageType::FleshlightLaunchFW12Cmd => "FleshlightLaunchFW12Cmd",
            ButtplugDeviceMessageType::KiirooCmd => "KiirooCmd",
            ButtplugDeviceMessageType::LinearCmd => "LinearCmd",
            ButtplugDeviceMessageType::LovenseCmd => "LovenseCmd",
            ButtplugDeviceMessageType::RSSILevelCmd => "RSSILevelCmd",
            ButtplugDeviceMessageType::RawReadCmd => "RawReadCmd",
            ButtplugDeviceMessageType::RawSubscribeCmd => "RawSubscribeCmd",
            ButtplugDeviceMessageType::RawUnsubscribeCmd => "RawUnsubscribeCmd",
            ButtplugDeviceMessageType::RawWriteCmd => "RawWriteCmd",
            ButtplugDeviceMessageType::RotateCmd => "RotateCmd",
            ButtplugDeviceMessageType::SingleMotorVibrateCmd => "SingleMotorVibrateCmd",
            ButtplugDeviceMessageType::StopDeviceCmd => "StopDeviceCmd",
            ButtplugDeviceMessageType::VibrateCmd => "VibrateCmd",
            ButtplugDeviceMessageType::VorzeA10CycloneCmd => "VorzeA10CycloneCmd",
        }
    }

    /// Position of the tag in the order of the names.
    pub fn order_rank(&self) -> (r: u32)
        ensures
            r as nat == self.rank(),
    {
        match self {
            ButtplugDeviceMessageType::BatteryLevelCmd => 0,
            ButtplugDeviceMessageType::FleshlightLaunchFW12Cmd => 1,
            ButtplugDeviceMessageType::KiirooCmd => 2,
            ButtplugDeviceMessageType::LinearCmd => 3,
            ButtplugDeviceMessageType::LovenseCmd => 4,
            ButtplugDeviceMessageType::RSSILevelCmd => 5,
            ButtplugDeviceMessageType::RawReadCmd => 6,
            ButtplugDeviceMessageType::RawSubscribeCmd => 7,
            ButtplugDeviceMessageType::RawUnsubscribeCmd => 8,
            ButtplugDeviceMessageType::RawWriteCmd => 9,
            ButtplugDeviceMessageType::RotateCmd => 10,
            ButtplugDeviceMessageType::SingleMotorVibrateCmd => 11,
            ButtplugDeviceMessageType::StopDeviceCmd => 12,
            ButtplugDeviceMessageType::VibrateCmd => 13,
            ButtplugDeviceMessageType::VorzeA10CycloneCmd => 14,
        }
    }

    /// Whether `self` sorts strictly before `other`.
    pub fn sorts_before(&self, other: &ButtplugDeviceMessageType) -> (r: bool)
        ensures
            r == lex_less(self.spec_name(), other.spec_name()),
    {
        proof {
            lemma_device_message_type_order(*self, *other);
        }
        self.order_rank() < other.order_rank()
    }

    /// The tag in the newest protocol version; deprecated messages have none.
    pub fn to_current(&self) -> (r: Option<ButtplugCurrentSpecDeviceMessageType>)
        ensures
            r == current_of(*self),
    {
        match self {
            ButtplugDeviceMessageType::VibrateCmd => Some(ButtplugCurrentSpecDeviceMessageType::VibrateCmd),
            ButtplugDeviceMessageType::LinearCmd => Some(ButtplugCurrentSpecDeviceMessageType::LinearCmd),
            ButtplugDeviceMessageType::RotateCmd => Some(ButtplugCurrentSpecDeviceMessageType::RotateCmd),
            ButtplugDeviceMessageType::StopDeviceCmd => Some(ButtplugCurrentSpecDeviceMessageType::StopDeviceCmd),
            ButtplugDeviceMessageType::RawWriteCmd => Some(ButtplugCurrentSpecDeviceMessageType::RawWriteCmd),
            ButtplugDeviceMessageType::RawReadCmd => Some(ButtplugCurrentSpecDeviceMessageType::RawReadCmd),
            ButtplugDeviceMessageType::RawSubscribeCmd => Some(ButtplugCurrentSpecDeviceMessageType::RawSubscribeCmd),
            ButtplugDeviceMessageType::RawUnsubscribeCmd => Some(ButtplugCurrentSpecDeviceMessageType::RawUnsubscribeCmd),
            ButtplugDeviceMessageType::BatteryLevelCmd => Some(ButtplugCurrentSpecDeviceMessageType::BatteryLevelCmd),
            ButtplugDeviceMessageType::RSSILevelCmd => Some(ButtplugCurrentSpecDeviceMessageType::RSSILevelCmd),
            _ => None,
        }
    }
}

/// The newest-version tag of a device message, if it still exists.
pub open spec fn current_of(t: ButtplugDeviceMessageType) -> Option<ButtplugCurrentSpecDeviceMessageType> {
    match t {
        ButtplugDeviceMessageType::VibrateCmd => Some(ButtplugCurrentSpecDeviceMessageType::VibrateCmd),
        ButtplugDeviceMessageType::LinearCmd => Some(ButtplugCurrentSpecDeviceMessageType::LinearCmd),
        ButtplugDeviceMessageType::RotateCmd => Some(ButtplugCurrentSpecDeviceMessageType::RotateCmd),
        ButtplugDeviceMessageType::StopDeviceCmd => Some(ButtplugCurrentSpecDeviceMessageType::StopDeviceCmd),
        ButtplugDeviceMessageType::RawWriteCmd => Some(ButtplugCurrentSpecDeviceMessageType::RawWriteCmd),
        ButtplugDeviceMessageType::RawReadCmd => Some(ButtplugCurrentSpecDeviceMessageType::RawReadCmd),
        ButtplugDeviceMessageType::RawSubscribeCmd => Some(ButtplugCurrentSpecDeviceMessageType::RawSubscribeCmd),
        ButtplugDeviceMessageType::RawUnsubscribeCmd => Some(ButtplugCurrentSpecDeviceMessageType::RawUnsubscribeCmd),
        ButtplugDeviceMessageType::BatteryLevelCmd => Some(ButtplugCurrentSpecDeviceMessageType::BatteryLevelCmd),
        ButtplugDeviceMessageType::RSSILevelCmd => Some(ButtplugCurrentSpecDeviceMessageType::RSSILevelCmd),
        _ => None,
    }
}

impl ButtplugCurrentSpecDeviceMessageType {
    /// The same tag among all device messages.
    pub open spec fn spec_general(self) -> ButtplugDeviceMessageType {
        match self {
            ButtplugCurrentSpecDeviceMessageType::BatteryLevelCmd => ButtplugDeviceMessageType::BatteryLevelCmd,
            ButtplugCurrentSpecDeviceMessageType::LinearCmd => ButtplugDeviceMessageType::LinearCmd,
            ButtplugCurrentSpecDeviceMessageType::RSSILevelCmd => ButtplugDeviceMessageType::RSSILevelCmd,
            ButtplugCurrentSpecDeviceMessageType::RawReadCmd => ButtplugDeviceMessageType::RawReadCmd,
            ButtplugCurrentSpecDeviceMessageType::RawSubscribeCmd => ButtplugDeviceMessageType::RawSubscribeCmd,
            ButtplugCurrentSpecDeviceMessageType::RawUnsubscribeCmd => ButtplugDeviceMessageType::RawUnsubscribeCmd,
            ButtplugCurrentSpecDeviceMessageType::RawWriteCmd => ButtplugDeviceMessageType::RawWriteCmd,
            ButtplugCurrentSpecDeviceMessageType::RotateCmd => ButtplugDeviceMessageType::RotateCmd,
            ButtplugCurrentSpecDeviceMessageType::StopDeviceCmd => ButtplugDeviceMessageType::StopDeviceCmd,
            ButtplugCurrentSpecDeviceMessageType::VibrateCmd => ButtplugDeviceMessageType::VibrateCmd,
        }
    }

    pub open spec fn spec_name(self) -> Seq<char> {
        self.spec_general().spec_name()
    }

    pub open spec fn rank(self) -> nat {
        match self {
            ButtplugCurrentSpecDeviceMessageType::BatteryLevelCmd => 0,
            ButtplugCurrentSpecDeviceMessageType::LinearCmd => 1,
            ButtplugCurrentSpecDeviceMessageType::RSSILevelCmd => 2,
            ButtplugCurrentSpecDeviceMessageType::RawReadCmd => 3,
            ButtplugCurrentSpecDeviceMessageType::RawSubscribeCmd => 4,
            ButtplugCurrentSpecDeviceMessageType::RawUnsubscribeCmd => 5,
            ButtplugCurrentSpecDeviceMessageType::RawWriteCmd => 6,
            ButtplugCurrentSpecDeviceMessageType::RotateCmd => 7,
            ButtplugCurrentSpecDeviceMessageType::StopDeviceCmd => 8,
            ButtplugCurrentSpecDeviceMessageType::VibrateCmd => 9,
        }
    }

    /// The same tag among all device messages.
    pub fn to_general(&self) -> (r: ButtplugDeviceMessageType)
        ensures
            r == self.spec_general(),
    {
        match self {
            ButtplugCurrentSpecDeviceMessageType::BatteryLevelCmd => ButtplugDeviceMessageType::BatteryLevelCmd,
            ButtplugCurrentSpecDeviceMessageType::LinearCmd => ButtplugDeviceMessageType::LinearCmd,
            ButtplugCurrentSpecDeviceMessageType::RSSILevelCmd => ButtplugDeviceMessageType::RSSILevelCmd,
            ButtplugCurrentSpecDeviceMessageType::RawReadCmd => ButtplugDeviceMessageType::RawReadCmd,
            ButtplugCurrentSpecDeviceMessageType::RawSubscribeCmd => ButtplugDeviceMessageType::RawSubscribeCmd,
            ButtplugCurrentSpecDeviceMessageType::RawUnsubscribeCmd => ButtplugDeviceMessageType::RawUnsubscribeCmd,
            ButtplugCurrentSpecDeviceMessageType::RawWriteCmd => ButtplugDeviceMessageType::RawWriteCmd,
            ButtplugCurrentSpecDeviceMessageType::RotateCmd => ButtplugDeviceMessageType::RotateCmd,
            ButtplugCurrentSpecDeviceMessageType::StopDeviceCmd => ButtplugDeviceMessageType::StopDeviceCmd,
            ButtplugCurrentSpecDeviceMessageType::VibrateCmd => ButtplugDeviceMessageType::VibrateCmd,
        }
    }

    pub fn name(&self) -> (r: &'static str)
        ensures
            r@ == self.spec_name(),
    {
        self.to_general().name()
    }

    pub fn order_rank(&self) -> (r: u32)
        ensures
            r as nat == self.rank(),
    {
        match self {
            ButtplugCurrentSpecDeviceMessageType::BatteryLevelCmd => 0,
            ButtplugCurrentSpecDeviceMessageType::LinearCmd => 1,
            ButtplugCurrentSpecDeviceMessageType::RSSILevelCmd => 2,
            ButtplugCurrentSpecDeviceMessageType::RawReadCmd => 3,
            ButtplugCurrentSpecDeviceMessageType::RawSubscribeCmd => 4,
            ButtplugCurrentSpecDeviceMessageType::RawUnsubscribeCmd => 5,
            ButtplugCurrentSpecDeviceMessageType::RawWriteCmd => 6,
            ButtplugCurrentSpecDeviceMessageType::RotateCmd => 7,
            ButtplugCurrentSpecDeviceMessageType::StopDeviceCmd => 8,
            ButtplugCurrentSpecDeviceMessageType::VibrateCmd => 9,
        }
    }

    /// Whether `self` sorts strictly before `other`.
    pub fn sorts_before(&self, other: &ButtplugCurrentSpecDeviceMessageType) -> (r: bool)
        ensures
            r == lex_less(self.spec_name(), other.spec_name()),
    {
        proof {
            lemma_current_message_type_order(*self, *other);
        }
        self.order_rank() < other.order_rank()
    }

    /// Whether the tag names one of the raw endpoint messages.
    pub fn is_raw(&self) -> (r: bool)
        ensures
            r == self.spec_is_raw(),
    {
        match self {
            ButtplugCurrentSpecDeviceMessageType::RawReadCmd
            | ButtplugCurrentSpecDeviceMessageType::RawWriteCmd
            | ButtplugCurrentSpecDeviceMessageType::RawSubscribeCmd
            | ButtplugCurrentSpecDeviceMessageType::RawUnsubscribeCmd => true,
            _ => false,
        }
    }

    pub open spec fn spec_is_raw(self) -> bool {
        match self {
            ButtplugCurrentSpecDeviceMessageType::RawReadCmd
            | ButtplugCurrentSpecDeviceMessageType::RawWriteCmd
            | ButtplugCurrentSpecDeviceMessageType::RawSubscribeCmd
            | ButtplugCurrentSpecDeviceMessageType::RawUnsubscribeCmd => true,
            _ => false,
        }
    }
}

proof fn lemma_adjacent_names_ordered(r: nat)
    requires
        r < 14,
    ensures
        lex_less(
            ButtplugDeviceMessageType::of_rank(r).spec_name(),
            ButtplugDeviceMessageType::of_rank(r + 1).spec_name(),
        ),
{
    reveal_strlit("BatteryLevelCmd");
    reveal_strlit("FleshlightLaunchFW12Cmd");
    reveal_strlit("KiirooCmd");
    reveal_strlit("LinearCmd");
    reveal_strlit("LovenseCmd");
    reveal_strlit("RSSILevelCmd");
    reveal_strlit("RawReadCmd");
    reveal_strlit("RawSubscribeCmd");
    reveal_strlit("RawUnsubscribeCmd");
    reveal_strlit("RawWriteCmd");
    reveal_strlit("RotateCmd");
    reveal_strlit("SingleMotorVibrateCmd");
    reveal_strlit("StopDeviceCmd");
    reveal_strlit("VibrateCmd");
    reveal_strlit("VorzeA10CycloneCmd");
    reveal_with_fuel(lex_less, 5);
}

proof fn lemma_rank_round_trip(t: ButtplugDeviceMessageType)
    ensures
        t.rank() < 15,
        ButtplugDeviceMessageType::of_rank(t.rank()) == t,
{
}

proof fn lemma_ranks_ordered_names(i: nat, j: nat)
    requires
        i < j < 15,
    ensures
        lex_less(
            ButtplugDeviceMessageType::of_rank(i).spec_name(),
            ButtplugDeviceMessageType::of_rank(j).spec_name(),
        ),
    decreases j - i,
{
    lemma_adjacent_names_ordered((j - 1) as nat);
    if i + 1 < j {
        lemma_ranks_ordered_names(i, (j - 1) as nat);
        lemma_lex_less_transitive(
            ButtplugDeviceMessageType::of_rank(i).spec_name(),
            ButtplugDeviceMessageType::of_rank((j - 1) as nat).spec_name(),
            ButtplugDeviceMessageType::of_rank(j).spec_name(),
        );
    }
}

/// Device message tags are ordered exactly as their names are ordered
/// lexicographically.
pub proof fn lemma_device_message_type_order(a: ButtplugDeviceMessageType, b: ButtplugDeviceMessageType)
    ensures
        a.rank() < b.rank() <==> lex_less(a.spec_name(), b.spec_name()),
{
    lemma_rank_round_trip(a);
    lemma_rank_round_trip(b);
    if a.rank() < b.rank() {
        lemma_ranks_ordered_names(a.rank(), b.rank());
    } else if b.rank() < a.rank() {
        lemma_ranks_ordered_names(b.rank(), a.rank());
        lemma_lex_less_asymmetric(b.spec_name(), a.spec_name());
    } else {
        lemma_lex_less_irreflexive(a.spec_name());
    }
}

/// Current-version device message tags are ordered exactly as their names
/// are ordered lexicographically.
pub proof fn lemma_current_message_type_order(
    a: ButtplugCurrentSpecDeviceMessageType,
    b: ButtplugCurrentSpecDeviceMessageType,
)
    ensures
        a.rank() < b.rank() <==> lex_less(a.spec_name(), b.spec_name()),
{
    lemma_device_message_type_order(a.spec_general(), b.spec_general());
}

} // verus!
